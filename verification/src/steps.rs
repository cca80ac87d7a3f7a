use vstd::prelude::*;

use omni_transaction::evm::EVMTransaction;

use crate::cache::{trigger_transition, TriggerOutcome};
use crate::errors::RebalanceError;
use crate::evm::{tx_build_for_signing, tx_with_fields_of, tx_with_input_and_to, unsigned_rlp_of};
use crate::flow::{PayloadType, Step};
use crate::hexcodec::{eth_address_bytes, parse_eth_address, valid_eth_address};
use crate::registry::config_get;
use crate::state_machine::{chain_of_role, spec_chain_role};
use crate::types::Config;
use crate::Contract;

verus! {

/// Which configured address a step's transaction is sent to.
#[derive(Clone, Copy, Debug, PartialEq, Eq, Structural)]
pub enum StepAddress {
    AaveLendingPool,
    CctpMessenger,
    CctpTransmitter,
    RebalancerVault,
}

/// The address string that `kind` picks out of a chain's configuration.
pub open spec fn spec_step_address(cfg: Config, kind: StepAddress) -> Seq<char> {
    match kind {
        StepAddress::AaveLendingPool => cfg.aave.lending_pool_address@,
        StepAddress::CctpMessenger => cfg.cctp.messenger_address@,
        StepAddress::CctpTransmitter => cfg.cctp.transmitter_address@,
        StepAddress::RebalancerVault => cfg.rebalancer.vault_address@,
    }
}

/// The trigger-level view of a step orchestrator's result: the outcome
/// without the built transaction.
pub open spec fn step_trigger_result(r: Result<(EVMTransaction, TriggerOutcome), RebalanceError>)
    -> Result<TriggerOutcome, RebalanceError> {
    match r {
        Ok(p) => Ok(p.1),
        Err(e) => Err(e),
    }
}

/// Exactly what one step orchestrator does: access control first, then
/// chain resolution under the active session, then the destination address
/// of the step; the partial transaction is rebuilt with `input` and that
/// address, and the canonical encoding of exactly that transaction goes to
/// the idempotent signing trigger, which also hands the built transaction
/// back on success.
pub open spec fn step_transition(
    pre: Contract,
    post: Contract,
    caller: Seq<char>,
    step: Step,
    addr_kind: StepAddress,
    partial: EVMTransaction,
    input: Seq<u8>,
    r: Result<(EVMTransaction, TriggerOutcome), RebalanceError>,
) -> bool {
    if !pre.spec_agent_ok(caller) {
        post == pre && (r matches Err(e) && e == RebalanceError::AccessDenied)
    } else if pre.active_session is None {
        post == pre && (r matches Err(e) && e == RebalanceError::NoActiveSession)
    } else {
        let sess = pre.active_session.unwrap();
        match spec_chain_role(sess.flow, step) {
            None => post == pre && (r matches Err(e) && e
                == RebalanceError::InvalidFlowStepCombination),
            Some(role) => {
                let chain = chain_of_role(pre.logs@[sess.nonce as int], role);
                let cfg = config_get(pre.config@, chain).unwrap();
                let addr = spec_step_address(cfg, addr_kind);
                if !valid_eth_address(addr) {
                    post == pre && (r matches Err(e) && e == RebalanceError::MalformedAddress)
                } else {
                    let built = tx_with_fields_of(partial, input, eth_address_bytes(addr));
                    &&& trigger_transition(
                        pre,
                        post,
                        step,
                        unsigned_rlp_of(built),
                        step_trigger_result(r),
                    )
                    &&& (r matches Ok(p) ==> p.0 == built)
                }
            },
        }
    }
}

impl Contract {
    /// Shared body of the step orchestrators: checks the caller, resolves
    /// the chain configuration of `step` under the active session, parses
    /// the step's destination address out of it, rebuilds the partial
    /// transaction with `input` and that destination, and hands its
    /// canonical encoding to the signing trigger.
    fn run_step(
        &mut self,
        caller: &String,
        step: Step,
        addr_kind: StepAddress,
        partial_transaction: &EVMTransaction,
        input: Vec<u8>,
    ) -> (r: Result<(EVMTransaction, TriggerOutcome), RebalanceError>)
        requires
            old(self).wf(),
        ensures
            final(self).wf(),
            step_transition(
                *old(self),
                *final(self),
                caller@,
                step,
                addr_kind,
                *partial_transaction,
                input@,
                r,
            ),
    {
        if let Err(e) = self.assert_agent_is_calling(caller) {
            return Err(e);
        }
        let addr_string: String = {
            let cfg = match self.get_chain_config_from_step_and_current_session(step) {
                Ok(c) => c,
                Err(e) => {
                    return Err(e);
                },
            };
            match addr_kind {
                StepAddress::AaveLendingPool => cfg.aave.lending_pool_address.clone(),
                StepAddress::CctpMessenger => cfg.cctp.messenger_address.clone(),
                StepAddress::CctpTransmitter => cfg.cctp.transmitter_address.clone(),
                StepAddress::RebalancerVault => cfg.rebalancer.vault_address.clone(),
            }
        };
        let to = match parse_eth_address(addr_string.as_str()) {
            Some(b) => b,
            None => {
                return Err(RebalanceError::MalformedAddress);
            },
        };
        let tx = tx_with_input_and_to(partial_transaction, input, &to);
        let payload = tx_build_for_signing(&tx);
        match self.trigger_signature(step, &payload) {
            Ok(outcome) => Ok((tx, outcome)),
            Err(e) => Err(e),
        }
    }

    /// Builds and triggers signing of the lending-pool supply transaction.
    pub fn build_and_sign_aave_supply_tx(
        &mut self,
        caller: &String,
        partial_transaction: &EVMTransaction,
        input: Vec<u8>,
    ) -> (r: Result<(EVMTransaction, TriggerOutcome), RebalanceError>)
        requires
            old(self).wf(),
        ensures
            final(self).wf(),
            step_transition(
                *old(self),
                *final(self),
                caller@,
                PayloadType::AaveSupply,
                StepAddress::AaveLendingPool,
                *partial_transaction,
                input@,
                r,
            ),
    {
        self.run_step(
            caller,
            PayloadType::AaveSupply,
            StepAddress::AaveLendingPool,
            partial_transaction,
            input,
        )
    }

    /// Builds and triggers signing of the bridge burn transaction.
    pub fn build_and_sign_cctp_burn_tx(
        &mut self,
        caller: &String,
        partial_transaction: &EVMTransaction,
        input: Vec<u8>,
    ) -> (r: Result<(EVMTransaction, TriggerOutcome), RebalanceError>)
        requires
            old(self).wf(),
        ensures
            final(self).wf(),
            step_transition(
                *old(self),
                *final(self),
                caller@,
                PayloadType::CCTPBurn,
                StepAddress::CctpMessenger,
                *partial_transaction,
                input@,
                r,
            ),
    {
        self.run_step(
            caller,
            PayloadType::CCTPBurn,
            StepAddress::CctpMessenger,
            partial_transaction,
            input,
        )
    }

    /// Builds and triggers signing of the bridge mint transaction.
    pub fn build_and_sign_cctp_mint_tx(
        &mut self,
        caller: &String,
        partial_transaction: &EVMTransaction,
        input: Vec<u8>,
    ) -> (r: Result<(EVMTransaction, TriggerOutcome), RebalanceError>)
        requires
            old(self).wf(),
        ensures
            final(self).wf(),
            step_transition(
                *old(self),
                *final(self),
                caller@,
                PayloadType::CCTPMint,
                StepAddress::CctpTransmitter,
                *partial_transaction,
                input@,
                r,
            ),
    {
        self.run_step(
            caller,
            PayloadType::CCTPMint,
            StepAddress::CctpTransmitter,
            partial_transaction,
            input,
        )
    }

    /// Builds and triggers signing of the vault deposit transaction that
    /// returns funds to the vault.
    pub fn build_and_sign_return_funds_tx(
        &mut self,
        caller: &String,
        partial_transaction: &EVMTransaction,
        input: Vec<u8>,
    ) -> (r: Result<(EVMTransaction, TriggerOutcome), RebalanceError>)
        requires
            old(self).wf(),
        ensures
            final(self).wf(),
            step_transition(
                *old(self),
                *final(self),
                caller@,
                PayloadType::RebalancerDeposit,
                StepAddress::RebalancerVault,
                *partial_transaction,
                input@,
                r,
            ),
    {
        self.run_step(
            caller,
            PayloadType::RebalancerDeposit,
            StepAddress::RebalancerVault,
            partial_transaction,
            input,
        )
    }

    /// Builds and triggers signing of the vault withdrawal that frees funds
    /// for cross-chain allocation.
    pub fn build_and_sign_withdraw_for_crosschain_allocation_tx(
        &mut self,
        caller: &String,
        partial_transaction: &EVMTransaction,
        input: Vec<u8>,
    ) -> (r: Result<(EVMTransaction, TriggerOutcome), RebalanceError>)
        requires
            old(self).wf(),
        ensures
            final(self).wf(),
            step_transition(
                *old(self),
                *final(self),
                caller@,
                PayloadType::RebalancerWithdrawToAllocate,
                StepAddress::RebalancerVault,
                *partial_transaction,
                input@,
                r,
            ),
    {
        self.run_step(
            caller,
            PayloadType::RebalancerWithdrawToAllocate,
            StepAddress::RebalancerVault,
            partial_transaction,
            input,
        )
    }
}

} // verus!
