use vstd::prelude::*;

use omni_transaction::evm::EVMTransaction;

use crate::cache::{cache_get, cache_has, cache_insert, cache_lookup, cache_remove};
use crate::errors::RebalanceError;
use crate::evm::{signed_rlp_of, tx_build_for_signing, tx_build_with_signature, unsigned_rlp_of};
use crate::hexcodec::{hex_decode, hex_decoded, valid_hex};
use crate::state_machine::keccak256_of;
use crate::types::{bytes_eq, clone_bytes, sub_bytes, ActivityLog, CacheKey, SignatureResponse};
use crate::Contract;

verus! {

/// Whether the signing service's response is well-formed: a hex affine
/// point of at least 33 bytes (one tag byte, then the 32 bytes of `r`) and
/// a hex scalar of exactly 32 bytes.
pub open spec fn spec_good_response(resp: SignatureResponse) -> bool {
    &&& valid_hex(resp.big_r_affine_point@)
    &&& resp.big_r_affine_point@.len() >= 66
    &&& valid_hex(resp.s_scalar@)
    &&& resp.s_scalar@.len() == 64
}

/// What a failed resolution does: the pending digest of `key` is cleared so
/// that an identical re-trigger may retry, nothing else changes, and the
/// failure is surfaced.
pub open spec fn resolve_failure(pre: Contract, post: Contract, key: CacheKey, r: Result<
    Vec<u8>,
    RebalanceError,
>) -> bool {
    &&& r == Err::<Vec<u8>, RebalanceError>(RebalanceError::SigningFailed)
    &&& forall|q: CacheKey| #![auto]
        cache_get(post.payload_hashes_by_nonce_and_type@, q) == (if q == key {
            None::<Seq<u8>>
        } else {
            cache_get(pre.payload_hashes_by_nonce_and_type@, q)
        })
    &&& post == (Contract {
        payload_hashes_by_nonce_and_type: post.payload_hashes_by_nonce_and_type,
        ..pre
    })
}

/// Exactly what one `sign_generic_callback` call does.
///
/// An already-resolved slot is answered from the cache whatever the service
/// said (resolution is idempotent).  A resolution whose transaction does
/// not match the slot's stored content digest is rejected: only the content
/// that was triggered can be committed.  Otherwise a missing or malformed
/// response clears the pending digest and surfaces `SigningFailed`; a
/// well-formed response is rebuilt into the signed RLP of exactly the
/// submitted transaction — `v` the recovery indicator, `r` bytes 1..33 of
/// the decoded affine point, `s` the decoded scalar — cached under `key`,
/// and appended to the session's audit-log entry.
pub open spec fn resolve_transition(
    pre: Contract,
    post: Contract,
    call_result: Option<SignatureResponse>,
    nonce: u64,
    tx_type: u8,
    tx: EVMTransaction,
    r: Result<Vec<u8>, RebalanceError>,
) -> bool {
    let key = CacheKey { nonce, tx_type };
    match cache_get(pre.signatures_by_nonce_and_type@, key) {
        Some(b) => post == pre && (r matches Ok(bytes) && bytes@ == b),
        None => if cache_get(pre.payload_hashes_by_nonce_and_type@, key) != Some(
            keccak256_of(unsigned_rlp_of(tx)),
        ) {
            post == pre && r == Err::<Vec<u8>, RebalanceError>(RebalanceError::ContentDivergence)
        } else {
            match call_result {
                None => resolve_failure(pre, post, key, r),
                Some(resp) => if !spec_good_response(resp) {
                    resolve_failure(pre, post, key, r)
                } else {
                    r matches Ok(bytes) && {
                        &&& bytes@ == signed_rlp_of(
                            tx,
                            resp.recovery_id as u64,
                            hex_decoded(resp.big_r_affine_point@).subrange(1, 33),
                            hex_decoded(resp.s_scalar@),
                        )
                        &&& forall|q: CacheKey| #![auto]
                            cache_get(post.signatures_by_nonce_and_type@, q) == (if q == key {
                                Some(bytes@)
                            } else {
                                cache_get(pre.signatures_by_nonce_and_type@, q)
                            })
                        &&& nonce < pre.logs@.len()
                        &&& post.logs@ == pre.logs@.update(
                            nonce as int,
                            post.logs@[nonce as int],
                        )
                        &&& post.logs@[nonce as int] == (ActivityLog {
                            transactions: post.logs@[nonce as int].transactions,
                            ..pre.logs@[nonce as int]
                        })
                        &&& post.logs@[nonce as int].transactions@.len() == pre.logs@[
                            nonce as int
                        ].transactions@.len() + 1
                        &&& post.logs@[nonce as int].transactions@.last()@ == bytes@
                        &&& post.logs@[nonce as int].transactions@.subrange(
                            0,
                            pre.logs@[nonce as int].transactions@.len() as int,
                        ) == pre.logs@[nonce as int].transactions@
                        &&& post == (Contract {
                            signatures_by_nonce_and_type: post.signatures_by_nonce_and_type,
                            logs: post.logs,
                            ..pre
                        })
                    }
                },
            }
        },
    }
}

impl Contract {
    /// Clears the pending digest of `key` and surfaces the failure; the
    /// identical request may then be triggered again.
    fn resolve_failed(&mut self, key: CacheKey) -> (r: Result<Vec<u8>, RebalanceError>)
        requires
            old(self).wf(),
            cache_get(old(self).signatures_by_nonce_and_type@, key) is None,
        ensures
            final(self).wf(),
            resolve_failure(*old(self), *final(self), key, r),
    {
        let ghost pre = *self;
        cache_remove(&mut self.payload_hashes_by_nonce_and_type, key);
        proof {
            assert forall|i: int|
                0 <= i < self.payload_hashes_by_nonce_and_type@.len() implies (#[trigger] self
                .payload_hashes_by_nonce_and_type@[i]).1@.len() == 32
                && self.payload_hashes_by_nonce_and_type@[i].0.nonce < self.logs_nonce by {
                assert(pre.payload_hashes_by_nonce_and_type@.contains(
                    self.payload_hashes_by_nonce_and_type@[i],
                ));
                let j = choose|j: int|
                    0 <= j < pre.payload_hashes_by_nonce_and_type@.len()
                        && pre.payload_hashes_by_nonce_and_type@[j]
                        == self.payload_hashes_by_nonce_and_type@[i];
                assert(pre.payload_hashes_by_nonce_and_type@[j].1@.len() == 32);
            }
        }
        Err(RebalanceError::SigningFailed)
    }

    /// Completion path of the asynchronous signing call for the slot
    /// `(nonce, tx_type)`: checks that `ethereum_tx` is the content the
    /// slot's stored digest was computed from, decodes the service's
    /// response, rebuilds the signed transaction, commits it to the
    /// signature cache and the audit log, and returns it.  `call_result` is
    /// `None` when the service failed; resolution of an already-resolved
    /// slot is a no-op that returns the cached bytes.
    pub fn sign_generic_callback(
        &mut self,
        call_result: Option<SignatureResponse>,
        nonce: u64,
        tx_type: u8,
        ethereum_tx: &EVMTransaction,
    ) -> (r: Result<Vec<u8>, RebalanceError>)
        requires
            old(self).wf(),
            cache_has(
                old(self).payload_hashes_by_nonce_and_type@,
                CacheKey { nonce, tx_type },
            ),
        ensures
            final(self).wf(),
            resolve_transition(
                *old(self),
                *final(self),
                call_result,
                nonce,
                tx_type,
                *ethereum_tx,
                r,
            ),
    {
        let key = CacheKey::new(nonce, tx_type);
        let cached: Option<Vec<u8>> = match cache_lookup(&self.signatures_by_nonce_and_type, key) {
            Some(sig) => Some(clone_bytes(sig)),
            None => None,
        };
        if let Some(bytes) = cached {
            return Ok(bytes);
        }

        // Only the content whose digest sits in the slot may resolve it.
        let payload = tx_build_for_signing(ethereum_tx);
        let payload_hash = self.hash_payload(&payload);
        match cache_lookup(&self.payload_hashes_by_nonce_and_type, key) {
            Some(stored) => {
                if !bytes_eq(stored, &payload_hash) {
                    return Err(RebalanceError::ContentDivergence);
                }
            },
            None => {
                proof {
                    assert(false);
                }
                return Err(RebalanceError::ContentDivergence);
            },
        }

        let resp = match call_result {
            Some(resp) => resp,
            None => {
                return self.resolve_failed(key);
            },
        };

        let affine_bytes = match hex_decode(resp.big_r_affine_point.as_str()) {
            Some(b) => b,
            None => {
                return self.resolve_failed(key);
            },
        };
        if affine_bytes.len() < 33 {
            return self.resolve_failed(key);
        }
        let s_bytes = match hex_decode(resp.s_scalar.as_str()) {
            Some(b) => b,
            None => {
                return self.resolve_failed(key);
            },
        };
        if s_bytes.len() != 32 {
            return self.resolve_failed(key);
        }

        let r_bytes = sub_bytes(&affine_bytes, 1, 33);
        let v: u64 = resp.recovery_id as u64;
        let signed = tx_build_with_signature(ethereum_tx, v, r_bytes, s_bytes);

        let ghost pre = *self;
        cache_insert(&mut self.signatures_by_nonce_and_type, key, clone_bytes(&signed));
        proof {
            crate::cache::lemma_cache_get_present(pre.payload_hashes_by_nonce_and_type@, key);
            assert(nonce < self.logs_nonce);
        }
        let n_logs = self.logs.len();
        proof {
            assert(nonce < n_logs);
        }
        let idx = nonce as usize;
        let mut entry = self.logs.remove(idx);
        entry.transactions.push(clone_bytes(&signed));
        self.logs.insert(idx, entry);

        proof {
            assert(self.logs@ =~= pre.logs@.update(nonce as int, self.logs@[nonce as int]));
            assert(self.logs@[nonce as int].transactions@.subrange(
                0,
                pre.logs@[nonce as int].transactions@.len() as int,
            ) =~= pre.logs@[nonce as int].transactions@);
            assert forall|k: CacheKey|
                #[trigger] cache_has(self.signatures_by_nonce_and_type@, k) implies cache_has(
                self.payload_hashes_by_nonce_and_type@,
                k,
            ) by {
                if k != key {
                    assert(cache_has(pre.signatures_by_nonce_and_type@, k));
                }
            }
        }
        Ok(signed)
    }
}

} // verus!
