use vstd::prelude::*;

use omni_transaction::evm::EVMTransaction;

use crate::cache::{cache_get, cache_has, trigger_transition, TriggerOutcome};
use crate::errors::RebalanceError;
use crate::flow::{Flow, PayloadType};
use crate::hexcodec::valid_eth_address;
use crate::registry::config_get;
use crate::session::{clear_transition, start_transition};
use crate::state_machine::{chain_of_role, first_unsigned, keccak256_of, spec_chain_role};
use crate::steps::{spec_step_address, step_transition, StepAddress};
use crate::types::{CacheKey, ChainId};
use crate::Contract;

verus! {

/// A step named by `first_unsigned` indeed has no cached signature.
pub proof fn lemma_first_unsigned_unsigned(
    steps: Seq<PayloadType>,
    sigs: Seq<(CacheKey, Vec<u8>)>,
    nonce: u64,
)
    ensures
        first_unsigned(steps, sigs, nonce) matches Some(st) ==> !cache_has(
            sigs,
            CacheKey { nonce, tx_type: st.spec_code() },
        ),
    decreases steps.len(),
{
    if steps.len() > 0 {
        lemma_first_unsigned_unsigned(steps.skip(1), sigs, nonce);
    }
}

/// Every step is signed exactly when no unsigned step is left.
pub proof fn lemma_all_signed_completes(
    steps: Seq<PayloadType>,
    sigs: Seq<(CacheKey, Vec<u8>)>,
    nonce: u64,
)
    ensures
        (forall|i: int|
            0 <= i < steps.len() ==> cache_has(
                sigs,
                CacheKey { nonce, tx_type: (#[trigger] steps[i]).spec_code() },
            )) <==> (first_unsigned(steps, sigs, nonce) is None),
    decreases steps.len(),
{
    if steps.len() > 0 {
        lemma_all_signed_completes(steps.skip(1), sigs, nonce);
        assert(forall|i: int| 0 <= i < steps.skip(1).len() ==> steps.skip(1)[i] == steps[i + 1]);
        if cache_has(sigs, CacheKey { nonce, tx_type: steps[0].spec_code() }) && first_unsigned(
            steps.skip(1),
            sigs,
            nonce,
        ) is None {
            assert forall|i: int|
                0 <= i < steps.len() implies cache_has(
                sigs,
                CacheKey { nonce, tx_type: (#[trigger] steps[i]).spec_code() },
            ) by {
                if i > 0 {
                    assert(steps.skip(1)[i - 1] == steps[i]);
                }
            }
        }
    }
}

/// Single-session invariant.  The state holds at most one session by
/// construction (an `Option` field); this law states the operational half:
/// a start attempted while any session is active is rejected with
/// `SessionConflict` and leaves the state untouched.
pub proof fn lemma_single_session(
    pre: Contract,
    post: Contract,
    caller: Seq<char>,
    flow: Flow,
    source_chain: ChainId,
    destination_chain: ChainId,
    amount: u128,
    usdc_agent_balance_before: u128,
    timestamp_ms: u64,
    r: Result<u64, RebalanceError>,
)
    requires
        pre.active_session is Some,
        start_transition(
            pre,
            post,
            caller,
            flow,
            source_chain,
            destination_chain,
            amount,
            usdc_agent_balance_before,
            timestamp_ms,
            r,
        ),
    ensures
        r == Err::<u64, RebalanceError>(RebalanceError::SessionConflict),
        post == pre,
{
}

/// A successful start is immediately followed by a `SessionConflict` on any
/// second start, however its arguments are chosen, until the session is
/// cleared.
pub proof fn lemma_start_after_start_conflicts(
    s0: Contract,
    s1: Contract,
    s2: Contract,
    caller1: Seq<char>,
    flow1: Flow,
    src1: ChainId,
    dst1: ChainId,
    amount1: u128,
    bal1: u128,
    ts1: u64,
    r1: Result<u64, RebalanceError>,
    caller2: Seq<char>,
    flow2: Flow,
    src2: ChainId,
    dst2: ChainId,
    amount2: u128,
    bal2: u128,
    ts2: u64,
    r2: Result<u64, RebalanceError>,
)
    requires
        start_transition(s0, s1, caller1, flow1, src1, dst1, amount1, bal1, ts1, r1),
        r1 is Ok,
        start_transition(s1, s2, caller2, flow2, src2, dst2, amount2, bal2, ts2, r2),
    ensures
        r2 == Err::<u64, RebalanceError>(RebalanceError::SessionConflict),
        s2 == s1,
{
}

/// Order enforcement: triggering a step with fresh content while an
/// earlier step of the flow is still unsigned is rejected with
/// `OutOfOrderStep` and changes nothing.
pub proof fn lemma_out_of_order_rejected(
    pre: Contract,
    post: Contract,
    step: PayloadType,
    tx: Seq<u8>,
    r: Result<TriggerOutcome, RebalanceError>,
)
    requires
        pre.active_session matches Some(sess) && (cache_get(
            pre.payload_hashes_by_nonce_and_type@,
            CacheKey { nonce: sess.nonce, tx_type: step.spec_code() },
        ) is None) && (first_unsigned(
            sess.flow.spec_sequence(),
            pre.signatures_by_nonce_and_type@,
            sess.nonce,
        ) matches Some(next) && next != step),
        trigger_transition(pre, post, step, tx, r),
    ensures
        r == Err::<TriggerOutcome, RebalanceError>(RebalanceError::OutOfOrderStep),
        post == pre,
{
}

/// Order enforcement, replay half: triggering a step whose identical
/// content is already signed returns exactly the cached bytes, asks for no
/// signing call, and changes nothing.
pub proof fn lemma_replay_returns_cached(
    pre: Contract,
    post: Contract,
    step: PayloadType,
    tx: Seq<u8>,
    cached: Seq<u8>,
    r: Result<TriggerOutcome, RebalanceError>,
)
    requires
        pre.active_session matches Some(sess) && cache_get(
            pre.payload_hashes_by_nonce_and_type@,
            CacheKey { nonce: sess.nonce, tx_type: step.spec_code() },
        ) == Some(keccak256_of(tx)) && cache_get(
            pre.signatures_by_nonce_and_type@,
            CacheKey { nonce: sess.nonce, tx_type: step.spec_code() },
        ) == Some(cached),
        trigger_transition(pre, post, step, tx, r),
    ensures
        r matches Ok(TriggerOutcome::Cached(bytes)) && bytes@ == cached,
        post == pre,
{
}

/// Content-divergence detection: triggering a slot that already holds a
/// different content digest is rejected with `ContentDivergence` — the old
/// signature is never returned for the new content — and changes nothing.
pub proof fn lemma_divergence_rejected(
    pre: Contract,
    post: Contract,
    step: PayloadType,
    tx: Seq<u8>,
    stored: Seq<u8>,
    r: Result<TriggerOutcome, RebalanceError>,
)
    requires
        pre.active_session matches Some(sess) && cache_get(
            pre.payload_hashes_by_nonce_and_type@,
            CacheKey { nonce: sess.nonce, tx_type: step.spec_code() },
        ) == Some(stored),
        stored != keccak256_of(tx),
        trigger_transition(pre, post, step, tx, r),
    ensures
        r == Err::<TriggerOutcome, RebalanceError>(RebalanceError::ContentDivergence),
        post == pre,
{
}

/// At most one signing call per content: a trigger that issued a signing
/// call, repeated with identical content before the call resolves, observes
/// the same pending digest, dispatches nothing and changes nothing.
pub proof fn lemma_trigger_twice_single_issue(
    s0: Contract,
    s1: Contract,
    s2: Contract,
    step: PayloadType,
    tx: Seq<u8>,
    r1: Result<TriggerOutcome, RebalanceError>,
    r2: Result<TriggerOutcome, RebalanceError>,
)
    requires
        s0.active_session is Some,
        trigger_transition(s0, s1, step, tx, r1),
        r1 matches Ok(TriggerOutcome::Issued(_)),
        trigger_transition(s1, s2, step, tx, r2),
    ensures
        r2 matches Ok(TriggerOutcome::AlreadyPending),
        s2 == s1,
{
    let sess = s0.active_session.unwrap();
    let key = CacheKey { nonce: sess.nonce, tx_type: step.spec_code() };
    let d = keccak256_of(tx);
    let pre_ph = s0.payload_hashes_by_nonce_and_type@;
    let post_ph = s1.payload_hashes_by_nonce_and_type@;
    assert(post_ph =~= pre_ph.push(post_ph.last()));
    crate::cache::lemma_cache_get_push(pre_ph, post_ph.last(), key);
    assert(cache_get(post_ph, key) == Some(d));
    lemma_first_unsigned_unsigned(
        sess.flow.spec_sequence(),
        s0.signatures_by_nonce_and_type@,
        sess.nonce,
    );
    assert(cache_get(s1.signatures_by_nonce_and_type@, key) is None);
}

/// Order enforcement at the orchestrator: with a session active, an
/// approved caller, a well-formed configured messenger address and no
/// content yet stored for the burn slot, invoking the bridge burn step
/// while an earlier step of the flow is still unsigned is rejected with
/// `OutOfOrderStep` — no signing call is asked for and nothing changes.
pub proof fn lemma_burn_before_first_step_rejected(
    pre: Contract,
    post: Contract,
    caller: Seq<char>,
    partial: EVMTransaction,
    input: Seq<u8>,
    r: Result<(EVMTransaction, TriggerOutcome), RebalanceError>,
)
    requires
        pre.spec_agent_ok(caller),
        pre.active_session matches Some(sess) && (first_unsigned(
            sess.flow.spec_sequence(),
            pre.signatures_by_nonce_and_type@,
            sess.nonce,
        ) matches Some(next) && next != PayloadType::CCTPBurn) && (cache_get(
            pre.payload_hashes_by_nonce_and_type@,
            CacheKey { nonce: sess.nonce, tx_type: PayloadType::CCTPBurn.spec_code() },
        ) is None) && valid_eth_address(
            spec_step_address(
                config_get(
                    pre.config@,
                    chain_of_role(
                        pre.logs@[sess.nonce as int],
                        spec_chain_role(sess.flow, PayloadType::CCTPBurn).unwrap(),
                    ),
                ).unwrap(),
                StepAddress::CctpMessenger,
            ),
        ),
        step_transition(
            pre,
            post,
            caller,
            PayloadType::CCTPBurn,
            StepAddress::CctpMessenger,
            partial,
            input,
            r,
        ),
    ensures
        r matches Err(e) && e == RebalanceError::OutOfOrderStep,
        post == pre,
{
    assert(spec_chain_role(pre.active_session.unwrap().flow, PayloadType::CCTPBurn) is Some);
}

/// Completion detection: once every step of the sequence holds a cached
/// signature, the derived position is exhausted — `first_unsigned` reports
/// nothing, which is exactly when `get_pending_step` returns `None` and
/// `assert_step_is_next` fails with `FlowComplete`.
pub proof fn lemma_completion_detected(c: Contract)
    requires
        c.active_session matches Some(sess) && (forall|i: int|
            0 <= i < sess.flow.spec_sequence().len() ==> cache_has(
                c.signatures_by_nonce_and_type@,
                CacheKey {
                    nonce: sess.nonce,
                    tx_type: (#[trigger] sess.flow.spec_sequence()[i]).spec_code(),
                },
            )),
    ensures
        first_unsigned(
            c.active_session.unwrap().flow.spec_sequence(),
            c.signatures_by_nonce_and_type@,
            c.active_session.unwrap().nonce,
        ) is None,
{
    let sess = c.active_session.unwrap();
    lemma_all_signed_completes(
        sess.flow.spec_sequence(),
        c.signatures_by_nonce_and_type@,
        sess.nonce,
    );
}

/// Chain-resolution exhaustiveness: every step that any flow's sequence
/// can produce has an entry in the chain-selection table.
pub proof fn lemma_chain_resolution_exhaustive(flow: Flow, step: PayloadType)
    requires
        flow.spec_sequence().contains(step),
    ensures
        spec_chain_role(flow, step) is Some,
{
    let s = flow.spec_sequence();
    let i = choose|i: int| 0 <= i < s.len() && s[i] == step;
    assert(s.len() == 5);
    assert(step == s[0] || step == s[1] || step == s[2] || step == s[3] || step == s[4]);
}

/// Nonce monotonicity: two successful starts separated by a session
/// clearing yield strictly increasing nonces; no nonce is ever handed out
/// twice.
pub proof fn lemma_nonce_monotonic(
    s0: Contract,
    s1: Contract,
    s2: Contract,
    s3: Contract,
    caller1: Seq<char>,
    flow1: Flow,
    src1: ChainId,
    dst1: ChainId,
    amount1: u128,
    bal1: u128,
    ts1: u64,
    n1: u64,
    rc: Result<(), RebalanceError>,
    caller2: Seq<char>,
    flow2: Flow,
    src2: ChainId,
    dst2: ChainId,
    amount2: u128,
    bal2: u128,
    ts2: u64,
    n2: u64,
)
    requires
        start_transition(
            s0,
            s1,
            caller1,
            flow1,
            src1,
            dst1,
            amount1,
            bal1,
            ts1,
            Ok::<u64, RebalanceError>(n1),
        ),
        clear_transition(s1, s2, rc),
        start_transition(
            s2,
            s3,
            caller2,
            flow2,
            src2,
            dst2,
            amount2,
            bal2,
            ts2,
            Ok::<u64, RebalanceError>(n2),
        ),
    ensures
        n2 > n1,
{
}

} // verus!
