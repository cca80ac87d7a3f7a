use vstd::prelude::*;

use crate::errors::RebalanceError;
use crate::flow::Step;
use crate::state_machine::{first_unsigned, keccak256_of};
use crate::types::{bytes_eq, clone_bytes, CacheKey};
use crate::Contract;

verus! {

/// The value stored under `k` in an association list, if any: the first
/// entry whose key equals `k`, read from the front.
pub open spec fn cache_get(s: Seq<(CacheKey, Vec<u8>)>, k: CacheKey) -> Option<Seq<u8>>
    decreases s.len(),
{
    if s.len() == 0 {
        None
    } else if s[0].0 == k {
        Some(s[0].1@)
    } else {
        cache_get(s.skip(1), k)
    }
}

/// Whether the association list holds an entry under `k`.
pub open spec fn cache_has(s: Seq<(CacheKey, Vec<u8>)>, k: CacheKey) -> bool {
    cache_get(s, k) is Some
}

/// Each key appears at most once.
pub open spec fn unique_keys(s: Seq<(CacheKey, Vec<u8>)>) -> bool {
    forall|i: int, j: int| 0 <= i < j < s.len() ==> s[i].0 != s[j].0
}

/// A lookup misses exactly when no entry carries the key.
pub proof fn lemma_cache_get_absent(s: Seq<(CacheKey, Vec<u8>)>, k: CacheKey)
    ensures
        (cache_get(s, k) is None) <==> (forall|i: int| 0 <= i < s.len() ==> s[i].0 != k),
    decreases s.len(),
{
    if s.len() > 0 {
        lemma_cache_get_absent(s.skip(1), k);
        assert(forall|i: int| 0 <= i < s.skip(1).len() ==> s.skip(1)[i] == s[i + 1]);
        if s[0].0 != k && cache_get(s.skip(1), k) is None {
            assert forall|i: int| 0 <= i < s.len() implies s[i].0 != k by {
                if i > 0 {
                    assert(s.skip(1)[i - 1] == s[i]);
                }
            }
        }
    }
}

/// A present entry is witnessed by an index that carries the key and the
/// stored bytes.
pub proof fn lemma_cache_get_present(s: Seq<(CacheKey, Vec<u8>)>, k: CacheKey)
    requires
        cache_get(s, k) is Some,
    ensures
        exists|i: int|
            0 <= i < s.len() && s[i].0 == k && cache_get(s, k) == Some::<Seq<u8>>(s[i].1@),
    decreases s.len(),
{
    if s.len() > 0 && s[0].0 != k {
        lemma_cache_get_present(s.skip(1), k);
        let i = choose|i: int|
            0 <= i < s.skip(1).len() && s.skip(1)[i].0 == k && cache_get(s.skip(1), k)
                == Some::<Seq<u8>>(s.skip(1)[i].1@);
        assert(s.skip(1)[i] == s[i + 1]);
    }
}

/// Appending a new entry leaves every present key unchanged and fills `k`
/// where the list held nothing.
pub proof fn lemma_cache_get_push(s: Seq<(CacheKey, Vec<u8>)>, p: (CacheKey, Vec<u8>), k: CacheKey)
    ensures
        cache_get(s.push(p), k) == (if cache_get(s, k) is Some {
            cache_get(s, k)
        } else if p.0 == k {
            Some(p.1@)
        } else {
            None::<Seq<u8>>
        }),
    decreases s.len(),
{
    let t = s.push(p);
    if s.len() == 0 {
        assert(t[0] == p);
        assert(t.skip(1) =~= Seq::<(CacheKey, Vec<u8>)>::empty());
        assert(cache_get(t.skip(1), k) is None);
        assert(cache_get(s, k) is None);
        if p.0 == k {
            assert(cache_get(t, k) == Some(p.1@));
        } else {
            assert(cache_get(t, k) is None);
        }
    } else {
        assert(t[0] == s[0]);
        assert(t.skip(1) =~= s.skip(1).push(p));
        lemma_cache_get_push(s.skip(1), p, k);
        if s[0].0 == k {
            assert(cache_get(t, k) == Some(s[0].1@));
            assert(cache_get(s, k) == Some(s[0].1@));
        } else {
            assert(cache_get(t, k) == cache_get(s.skip(1).push(p), k));
            assert(cache_get(s, k) == cache_get(s.skip(1), k));
        }
    }
}

/// Removing the entry at `idx` erases exactly its key, provided keys are
/// unique.
pub proof fn lemma_cache_get_remove(s: Seq<(CacheKey, Vec<u8>)>, idx: int, k: CacheKey)
    requires
        unique_keys(s),
        0 <= idx < s.len(),
    ensures
        cache_get(s.remove(idx), k) == (if s[idx].0 == k {
            None::<Seq<u8>>
        } else {
            cache_get(s, k)
        }),
    decreases idx,
{
    if idx == 0 {
        assert(s.remove(0) =~= s.skip(1));
        if s[0].0 == k {
            assert forall|i: int| 0 <= i < s.skip(1).len() implies s.skip(1)[i].0 != k by {
                assert(s.skip(1)[i] == s[i + 1]);
            }
            lemma_cache_get_absent(s.skip(1), k);
        }
    } else {
        assert(s.remove(idx)[0] == s[0]);
        assert(s.remove(idx).skip(1) =~= s.skip(1).remove(idx - 1));
        assert(forall|i: int| 0 <= i < s.skip(1).len() ==> s.skip(1)[i] == s[i + 1]);
        assert(s.skip(1)[idx - 1] == s[idx]);
        lemma_cache_get_remove(s.skip(1), idx - 1, k);
        if s[idx].0 == k {
            assert(s[0].0 != k);
        }
    }
}

/// Looks `key` up in the association list.
pub fn cache_lookup<'a>(v: &'a Vec<(CacheKey, Vec<u8>)>, key: CacheKey) -> (r: Option<
    &'a Vec<u8>,
>)
    ensures
        match r {
            Some(b) => cache_get(v@, key) == Some(b@),
            None => cache_get(v@, key) is None,
        },
{
    proof {
        assert(v@.skip(0) =~= v@);
    }
    let mut i: usize = 0;
    while i < v.len()
        invariant
            i <= v.len(),
            cache_get(v@, key) == cache_get(v@.skip(i as int), key),
        decreases v.len() - i,
    {
        let pair = &v[i];
        proof {
            assert(v@.skip(i as int)[0] == v@[i as int]);
        }
        if pair.0 == key {
            return Some(&pair.1);
        }
        proof {
            assert(v@.skip(i as int).skip(1) =~= v@.skip(i as int + 1));
        }
        i = i + 1;
    }
    proof {
        assert(v@.skip(v@.len() as int) =~= Seq::<(CacheKey, Vec<u8>)>::empty());
    }
    None
}

/// Stores `value` under a key not yet present.
pub fn cache_insert(v: &mut Vec<(CacheKey, Vec<u8>)>, key: CacheKey, value: Vec<u8>)
    requires
        unique_keys(old(v)@),
        cache_get(old(v)@, key) is None,
    ensures
        final(v)@ == old(v)@.push((key, value)),
        unique_keys(final(v)@),
        forall|q: CacheKey| #![auto]
            cache_get(final(v)@, q) == (if q == key {
                Some(value@)
            } else {
                cache_get(old(v)@, q)
            }),
{
    proof {
        lemma_cache_get_absent(v@, key);
    }
    let ghost s = v@;
    v.push((key, value));
    proof {
        assert forall|q: CacheKey| #![auto]
            cache_get(v@, q) == (if q == key {
                Some(value@)
            } else {
                cache_get(s, q)
            }) by {
            lemma_cache_get_push(s, (key, value), q);
            if q == key {
                lemma_cache_get_absent(s, q);
            }
        }
    }
}

/// Erases the entry under `key`, if any.
pub fn cache_remove(v: &mut Vec<(CacheKey, Vec<u8>)>, key: CacheKey)
    requires
        unique_keys(old(v)@),
    ensures
        unique_keys(final(v)@),
        forall|q: CacheKey| #![auto]
            cache_get(final(v)@, q) == (if q == key {
                None::<Seq<u8>>
            } else {
                cache_get(old(v)@, q)
            }),
        forall|i: int| 0 <= i < final(v)@.len() ==> old(v)@.contains(#[trigger] final(v)@[i]),
{
    let ghost s = old(v)@;
    let mut i: usize = 0;
    while i < v.len()
        invariant
            i <= v.len(),
            old(v)@ == s,
            v@ == s,
            unique_keys(s),
            forall|j: int| 0 <= j < i ==> s[j].0 != key,
        decreases v.len() - i,
    {
        let found = v[i].0 == key;
        if found {
            v.remove(i);
            proof {
                assert(s[i as int].0 == key);
                assert(v@ == s.remove(i as int));
                assert forall|q: CacheKey| #![auto]
                    cache_get(v@, q) == (if q == key {
                        None::<Seq<u8>>
                    } else {
                        cache_get(s, q)
                    }) by {
                    lemma_cache_get_remove(s, i as int, q);
                    if q == key {
                        assert(cache_get(v@, q) is None);
                    } else {
                        assert(s[i as int].0 != q);
                        assert(cache_get(v@, q) == cache_get(s, q));
                    }
                }
                assert forall|a: int, b: int| 0 <= a < b < v@.len() implies v@[a].0 != v@[b].0 by {
                    if b < i {
                    } else if a < i {
                        assert(v@[b] == s[b + 1]);
                    } else {
                        assert(v@[a] == s[a + 1]);
                        assert(v@[b] == s[b + 1]);
                    }
                }
                assert forall|j: int| 0 <= j < v@.len() implies s.contains(#[trigger] v@[j]) by {
                    if j < i {
                        assert(v@[j] == s[j]);
                    } else {
                        assert(v@[j] == s[j + 1]);
                    }
                }
            }
            return ;
        }
        i = i + 1;
    }
    proof {
        lemma_cache_get_absent(s, key);
        assert forall|q: CacheKey| #![auto]
            cache_get(v@, q) == (if q == key {
                None::<Seq<u8>>
            } else {
                cache_get(s, q)
            }) by {
        }
        assert forall|j: int| 0 <= j < v@.len() implies s.contains(#[trigger] v@[j]) by {
            assert(s[j] == v@[j]);
        }
    }
}

/// What one trigger call asks its caller to do next.
pub enum TriggerOutcome {
    /// The slot already holds this content's signature; here it is, and no
    /// signing call is made.
    Cached(Vec<u8>),
    /// A fresh digest was recorded; dispatch exactly one signing call for
    /// these 32 bytes.
    Issued(Vec<u8>),
    /// The same content is already awaiting its signature; dispatch
    /// nothing.
    AlreadyPending,
}

/// Exactly what one `trigger_signature` call does.
///
/// The cache is consulted before the position check, so replaying a step
/// with its already-signed content is answered from the cache; only fresh
/// content is held to the step order.  A stored digest that differs from
/// the request's digest is a content divergence and never answered with the
/// old signature.  The digest is recorded before the caller is told to
/// dispatch the signing call, so a repeat of the same request while the
/// call is outstanding dispatches nothing.
pub open spec fn trigger_transition(
    pre: Contract,
    post: Contract,
    step: Step,
    tx: Seq<u8>,
    r: Result<TriggerOutcome, RebalanceError>,
) -> bool {
    match pre.active_session {
        None => post == pre && r == Err::<TriggerOutcome, RebalanceError>(
            RebalanceError::NoActiveSession,
        ),
        Some(sess) => {
            let key = CacheKey { nonce: sess.nonce, tx_type: step.spec_code() };
            let d = keccak256_of(tx);
            match cache_get(pre.payload_hashes_by_nonce_and_type@, key) {
                Some(prev) => if prev == d {
                    match cache_get(pre.signatures_by_nonce_and_type@, key) {
                        Some(b) => post == pre && (r matches Ok(TriggerOutcome::Cached(bytes))
                            && bytes@ == b),
                        None => post == pre && (r matches Ok(TriggerOutcome::AlreadyPending)),
                    }
                } else {
                    post == pre && r == Err::<TriggerOutcome, RebalanceError>(
                        RebalanceError::ContentDivergence,
                    )
                },
                None => match first_unsigned(
                    sess.flow.spec_sequence(),
                    pre.signatures_by_nonce_and_type@,
                    sess.nonce,
                ) {
                    None => post == pre && r == Err::<TriggerOutcome, RebalanceError>(
                        RebalanceError::FlowComplete,
                    ),
                    Some(next) => if next != step {
                        post == pre && r == Err::<TriggerOutcome, RebalanceError>(
                            RebalanceError::OutOfOrderStep,
                        )
                    } else {
                        &&& (r matches Ok(TriggerOutcome::Issued(digest)) && digest@ == d)
                        &&& post.payload_hashes_by_nonce_and_type@.len()
                            == pre.payload_hashes_by_nonce_and_type@.len() + 1
                        &&& post.payload_hashes_by_nonce_and_type@.subrange(
                            0,
                            pre.payload_hashes_by_nonce_and_type@.len() as int,
                        ) == pre.payload_hashes_by_nonce_and_type@
                        &&& post.payload_hashes_by_nonce_and_type@.last().0 == key
                        &&& post.payload_hashes_by_nonce_and_type@.last().1@ == d
                        &&& post == (Contract {
                            payload_hashes_by_nonce_and_type:
                                post.payload_hashes_by_nonce_and_type,
                            ..pre
                        })
                    },
                },
            }
        },
    }
}

impl Contract {
    /// Idempotent signing entry point: answers from the cache where the
    /// same content was seen before, rejects diverging content, and for
    /// fresh content of the legal next step records the digest and asks the
    /// caller to dispatch one signing call.
    pub fn trigger_signature(&mut self, step: Step, unsigned_tx: &Vec<u8>) -> (r: Result<
        TriggerOutcome,
        RebalanceError,
    >)
        requires
            old(self).wf(),
        ensures
            final(self).wf(),
            trigger_transition(*old(self), *final(self), step, unsigned_tx@, r),
    {
        let (nonce, flow) = match &self.active_session {
            Some(s) => (s.nonce, s.flow),
            None => {
                return Err(RebalanceError::NoActiveSession);
            },
        };
        let payload_hash = self.hash_payload(unsigned_tx);
        let key = CacheKey::new(nonce, step.code());

        let prev_is_match: Option<bool> = match cache_lookup(
            &self.payload_hashes_by_nonce_and_type,
            key,
        ) {
            Some(prev) => Some(bytes_eq(prev, &payload_hash)),
            None => None,
        };
        match prev_is_match {
            Some(true) => {
                match cache_lookup(&self.signatures_by_nonce_and_type, key) {
                    Some(sig) => Ok(TriggerOutcome::Cached(clone_bytes(sig))),
                    None => Ok(TriggerOutcome::AlreadyPending),
                }
            },
            Some(false) => Err(RebalanceError::ContentDivergence),
            None => {
                match self.find_first_unsigned(nonce, flow) {
                    None => Err(RebalanceError::FlowComplete),
                    Some(next) => {
                        if next != step {
                            Err(RebalanceError::OutOfOrderStep)
                        } else {
                            let ghost pre = *self;
                            cache_insert(
                                &mut self.payload_hashes_by_nonce_and_type,
                                key,
                                clone_bytes(&payload_hash),
                            );
                            proof {
                                assert forall|i: int|
                                    0 <= i < self.payload_hashes_by_nonce_and_type@.len() implies (
                                #[trigger] self.payload_hashes_by_nonce_and_type@[i]).1@.len() == 32
                                    && self.payload_hashes_by_nonce_and_type@[i].0.nonce
                                    < self.logs_nonce by {
                                    if i < pre.payload_hashes_by_nonce_and_type@.len() {
                                        assert(self.payload_hashes_by_nonce_and_type@[i]
                                            == pre.payload_hashes_by_nonce_and_type@[i]);
                                    }
                                }
                                assert(self.payload_hashes_by_nonce_and_type@.subrange(
                                    0,
                                    pre.payload_hashes_by_nonce_and_type@.len() as int,
                                ) =~= pre.payload_hashes_by_nonce_and_type@);
                            }
                            Ok(TriggerOutcome::Issued(payload_hash))
                        }
                    },
                }
            },
        }
    }
}

} // verus!
