use vstd::prelude::*;

use crate::errors::RebalanceError;
use crate::flow::Flow;
use crate::types::{ActiveSession, ActivityLog, AgentActionType, ChainId};
use crate::Contract;

verus! {

/// Why a `start_rebalance` call is rejected, if it is: the checks run in
/// this order — session conflict, access control, source chain, destination
/// chain.
pub open spec fn start_rejected(
    pre: Contract,
    caller: Seq<char>,
    source_chain: ChainId,
    destination_chain: ChainId,
) -> Option<RebalanceError> {
    if pre.active_session is Some {
        Some(RebalanceError::SessionConflict)
    } else if !pre.spec_agent_ok(caller) {
        Some(RebalanceError::AccessDenied)
    } else if !pre.spec_chain_supported(source_chain) {
        Some(RebalanceError::UnsupportedChain)
    } else if !pre.spec_chain_supported(destination_chain) {
        Some(RebalanceError::UnsupportedChain)
    } else {
        None
    }
}

/// Exactly what one `start_rebalance` call does: on rejection the state is
/// untouched; on success the next nonce is returned and consumed, a fresh
/// audit-log entry is appended, the session is set, and nothing else
/// changes.
pub open spec fn start_transition(
    pre: Contract,
    post: Contract,
    caller: Seq<char>,
    flow: Flow,
    source_chain: ChainId,
    destination_chain: ChainId,
    amount: u128,
    usdc_agent_balance_before: u128,
    timestamp_ms: u64,
    r: Result<u64, RebalanceError>,
) -> bool {
    match start_rejected(pre, caller, source_chain, destination_chain) {
        Some(e) => post == pre && r == Err::<u64, RebalanceError>(e),
        None => {
            &&& r == Ok::<u64, RebalanceError>(pre.logs_nonce)
            &&& post.logs_nonce == pre.logs_nonce + 1
            &&& post.logs@.len() == pre.logs@.len() + 1
            &&& post.logs@.subrange(0, pre.logs@.len() as int) == pre.logs@
            &&& post.logs@.last().activity_type == AgentActionType::Rebalance
            &&& post.logs@.last().source_chain == source_chain
            &&& post.logs@.last().destination_chain == destination_chain
            &&& post.logs@.last().timestamp == timestamp_ms
            &&& post.logs@.last().nonce == pre.logs_nonce
            &&& post.logs@.last().amount == amount
            &&& post.logs@.last().usdc_agent_balance_before == usdc_agent_balance_before
            &&& post.logs@.last().transactions@.len() == 0
            &&& post.active_session == Some(
                ActiveSession { nonce: pre.logs_nonce, flow, started_at: timestamp_ms },
            )
            &&& post == (Contract {
                logs: post.logs,
                logs_nonce: post.logs_nonce,
                active_session: post.active_session,
                ..pre
            })
        },
    }
}

/// Exactly what clearing the session does: the session slot is emptied and
/// nothing else — in particular not the nonce counter — changes.
pub open spec fn clear_transition(pre: Contract, post: Contract, r: Result<
    (),
    RebalanceError,
>) -> bool {
    if pre.active_session is None {
        post == pre && r == Err::<(), RebalanceError>(RebalanceError::NoActiveSession)
    } else {
        r is Ok && post == (Contract { active_session: None, ..pre })
    }
}

impl Contract {
    /// Starts a rebalance workflow: rejects a second concurrent session, an
    /// unapproved caller and unsupported chains; otherwise allocates the
    /// next nonce, appends the audit-log entry and records the active
    /// session.
    ///
    /// Nonces are handed out by a counter that moves exactly once per
    /// successful start and never back, so no nonce is ever reused.
    pub fn start_rebalance(
        &mut self,
        caller: &String,
        flow: Flow,
        source_chain: ChainId,
        destination_chain: ChainId,
        amount: u128,
        usdc_agent_balance_before: u128,
        timestamp_ms: u64,
    ) -> (r: Result<u64, RebalanceError>)
        requires
            old(self).wf(),
            old(self).logs_nonce < u64::MAX,
        ensures
            final(self).wf(),
            start_transition(
                *old(self),
                *final(self),
                caller@,
                flow,
                source_chain,
                destination_chain,
                amount,
                usdc_agent_balance_before,
                timestamp_ms,
                r,
            ),
    {
        if let Err(e) = self.assert_no_active_session() {
            return Err(e);
        }
        if let Err(e) = self.assert_agent_is_calling(caller) {
            return Err(e);
        }
        if !self.is_chain_supported(&source_chain) {
            return Err(RebalanceError::UnsupportedChain);
        }
        if !self.is_chain_supported(&destination_chain) {
            return Err(RebalanceError::UnsupportedChain);
        }

        let nonce = self.logs_nonce;
        self.logs_nonce = self.logs_nonce + 1;

        let ghost pre_logs = self.logs@;
        self.logs.push(
            ActivityLog {
                activity_type: AgentActionType::Rebalance,
                source_chain,
                destination_chain,
                timestamp: timestamp_ms,
                nonce,
                amount,
                usdc_agent_balance_before,
                transactions: Vec::new(),
            },
        );
        self.active_session = Some(ActiveSession { nonce, flow, started_at: timestamp_ms });

        proof {
            assert(self.logs@.subrange(0, pre_logs.len() as int) =~= pre_logs);
            assert forall|i: int| 0 <= i < self.logs@.len() implies (#[trigger] self.logs@[i]).nonce
                == i by {
                if i < pre_logs.len() {
                    assert(self.logs@[i] == pre_logs[i]);
                }
            }
        }
        Ok(nonce)
    }

    /// Clears the active session once its flow has been finalized; the
    /// audit log and the nonce counter stay as they are.
    pub fn clear_active_session(&mut self) -> (r: Result<(), RebalanceError>)
        requires
            old(self).wf(),
        ensures
            final(self).wf(),
            clear_transition(*old(self), *final(self), r),
    {
        match &self.active_session {
            None => Err(RebalanceError::NoActiveSession),
            Some(_) => {
                self.active_session = None;
                Ok(())
            },
        }
    }
}

} // verus!
