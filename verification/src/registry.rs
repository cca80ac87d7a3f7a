use vstd::prelude::*;

use crate::types::{ChainConfig, ChainId, Config, Worker};

verus! {

/// The configuration registered for chain `c`, if any: the first entry whose
/// chain identifier equals `c`.
pub open spec fn config_get(s: Seq<ChainConfig>, c: ChainId) -> Option<Config>
    decreases s.len(),
{
    if s.len() == 0 {
        None
    } else if s[0].chain_id == c {
        Some(s[0].config)
    } else {
        config_get(s.skip(1), c)
    }
}

/// A registry lookup hits exactly when some entry carries the chain.
pub proof fn lemma_config_get_some(s: Seq<ChainConfig>, c: ChainId)
    ensures
        (config_get(s, c) is Some) <==> (exists|i: int|
            0 <= i < s.len() && s[i].chain_id == c),
    decreases s.len(),
{
    if s.len() > 0 {
        lemma_config_get_some(s.skip(1), c);
        assert(forall|i: int| 0 <= i < s.skip(1).len() ==> s.skip(1)[i] == s[i + 1]);
        if config_get(s, c) is Some {
            if s[0].chain_id == c {
                assert(s[0].chain_id == c && 0 < s.len());
            } else {
                let i = choose|i: int| 0 <= i < s.skip(1).len() && s.skip(1)[i].chain_id == c;
                assert(s[i + 1].chain_id == c);
            }
        } else {
            assert forall|i: int| 0 <= i < s.len() implies s[i].chain_id != c by {
                if i > 0 {
                    assert(s.skip(1)[i - 1] == s[i]);
                }
            }
        }
    }
}

/// Looks the configuration of chain `c` up in the registry.
pub fn config_lookup<'a>(v: &'a Vec<ChainConfig>, c: ChainId) -> (r: Option<&'a Config>)
    ensures
        match r {
            Some(cfg) => config_get(v@, c) == Some(*cfg),
            None => config_get(v@, c) is None,
        },
{
    proof {
        assert(v@.skip(0) =~= v@);
    }
    let mut i: usize = 0;
    while i < v.len()
        invariant
            i <= v.len(),
            config_get(v@, c) == config_get(v@.skip(i as int), c),
        decreases v.len() - i,
    {
        let entry = &v[i];
        proof {
            assert(v@.skip(i as int)[0] == v@[i as int]);
        }
        if entry.chain_id == c {
            return Some(&entry.config);
        }
        proof {
            assert(v@.skip(i as int).skip(1) =~= v@.skip(i as int + 1));
        }
        i = i + 1;
    }
    proof {
        assert(v@.skip(v@.len() as int) =~= Seq::<ChainConfig>::empty());
    }
    None
}

/// The worker registered under account `id`, if any.
pub open spec fn worker_get(s: Seq<(String, Worker)>, id: Seq<char>) -> Option<Worker>
    decreases s.len(),
{
    if s.len() == 0 {
        None
    } else if s[0].0@ == id {
        Some(s[0].1)
    } else {
        worker_get(s.skip(1), id)
    }
}

/// Looks the worker registered under `id` up.
pub fn worker_lookup<'a>(v: &'a Vec<(String, Worker)>, id: &String) -> (r: Option<&'a Worker>)
    ensures
        match r {
            Some(w) => worker_get(v@, id@) == Some(*w),
            None => worker_get(v@, id@) is None,
        },
{
    proof {
        assert(v@.skip(0) =~= v@);
    }
    let mut i: usize = 0;
    while i < v.len()
        invariant
            i <= v.len(),
            worker_get(v@, id@) == worker_get(v@.skip(i as int), id@),
        decreases v.len() - i,
    {
        let entry = &v[i];
        proof {
            assert(v@.skip(i as int)[0] == v@[i as int]);
        }
        if entry.0 == *id {
            return Some(&entry.1);
        }
        proof {
            assert(v@.skip(i as int).skip(1) =~= v@.skip(i as int + 1));
        }
        i = i + 1;
    }
    proof {
        assert(v@.skip(v@.len() as int) =~= Seq::<(String, Worker)>::empty());
    }
    None
}

/// Whether some string of `s` has exactly the characters `x`.
pub open spec fn contains_string(s: Seq<String>, x: Seq<char>) -> bool {
    exists|i: int| 0 <= i < s.len() && s[i]@ == x
}

/// Scans `v` for a string equal to `x`.
pub fn find_string(v: &Vec<String>, x: &String) -> (r: bool)
    ensures
        r == contains_string(v@, x@),
{
    let mut i: usize = 0;
    while i < v.len()
        invariant
            i <= v.len(),
            forall|j: int| 0 <= j < i ==> v@[j]@ != x@,
        decreases v.len() - i,
    {
        if v[i] == *x {
            return true;
        }
        i = i + 1;
    }
    false
}

/// Whether some chain identifier of `s` equals `c`.
pub open spec fn contains_chain(s: Seq<ChainId>, c: ChainId) -> bool {
    s.contains(c)
}

/// Scans `v` for the chain identifier `c`.
pub fn find_chain(v: &Vec<ChainId>, c: ChainId) -> (r: bool)
    ensures
        r == contains_chain(v@, c),
{
    let mut i: usize = 0;
    while i < v.len()
        invariant
            i <= v.len(),
            forall|j: int| 0 <= j < i ==> v@[j] != c,
        decreases v.len() - i,
    {
        if v[i] == c {
            proof {
                assert(v@[i as int] == c);
            }
            return true;
        }
        i = i + 1;
    }
    false
}

} // verus!
