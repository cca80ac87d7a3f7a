use vstd::prelude::*;

use sha3::{Digest, Keccak256};

use crate::cache::{cache_has, cache_lookup};
use crate::errors::RebalanceError;
use crate::flow::{Flow, PayloadType, Step};
use crate::registry::{config_get, config_lookup};
use crate::types::{CacheKey, ChainId, Config};
use crate::Contract;

verus! {

/// The Keccak-256 digest of a byte string.  It is a pure function of the
/// bytes alone; its value is fixed by the hash function and left without
/// interpretation here.
pub uninterp spec fn keccak256_of(data: Seq<u8>) -> Seq<u8>;

/// Relies on sha3's `Keccak256::digest`: the digest is a pure 32-byte
/// function of the input bytes alone.
#[verifier::external_body]
fn keccak256(data: &Vec<u8>) -> (r: Vec<u8>)
    ensures
        r@ == keccak256_of(data@),
        r@.len() == 32,
{
    Keccak256::digest(data.as_slice()).to_vec()
}

/// The first step of `steps` whose signing slot under `nonce` holds no
/// signature yet; `None` when every step is signed.
///
/// Position in the flow is always derived this way from the signature cache;
/// there is no stored cursor that could fall out of step with it.
pub open spec fn first_unsigned(
    steps: Seq<PayloadType>,
    sigs: Seq<(CacheKey, Vec<u8>)>,
    nonce: u64,
) -> Option<PayloadType>
    decreases steps.len(),
{
    if steps.len() == 0 {
        None
    } else if !cache_has(sigs, CacheKey { nonce, tx_type: steps[0].spec_code() }) {
        Some(steps[0])
    } else {
        first_unsigned(steps.skip(1), sigs, nonce)
    }
}

/// Which of the session's two chains a step acts on.
#[derive(Clone, Copy, Debug, PartialEq, Eq, Structural)]
pub enum ChainRole {
    Source,
    Destination,
}

/// The chain-selection table: which of the session's chains applies to
/// `step` when it runs under `flow`; `None` for pairs no flow sequence can
/// produce.
///
/// The table covers every step of every flow's sequence: withdrawing and
/// burning act on the chain funds leave, while minting, supplying,
/// depositing and the final completion step act on the chain funds land on.
pub open spec fn spec_chain_role(flow: Flow, step: PayloadType) -> Option<ChainRole> {
    match flow {
        Flow::AaveToAave => match step {
            PayloadType::AaveWithdraw | PayloadType::CCTPBurn => Some(ChainRole::Source),
            PayloadType::CCTPMint | PayloadType::AaveSupply | PayloadType::CompleteRebalance => Some(
                ChainRole::Destination,
            ),
            _ => None,
        },
        Flow::RebalancerToAave => match step {
            PayloadType::RebalancerWithdrawToAllocate | PayloadType::CCTPBurn => Some(
                ChainRole::Source,
            ),
            PayloadType::CCTPMint | PayloadType::AaveSupply | PayloadType::CompleteRebalance => Some(
                ChainRole::Destination,
            ),
            _ => None,
        },
        Flow::AaveToRebalancer => match step {
            PayloadType::AaveWithdraw | PayloadType::CCTPBurn => Some(ChainRole::Source),
            PayloadType::CCTPMint | PayloadType::RebalancerDeposit
            | PayloadType::CompleteRebalance => Some(ChainRole::Destination),
            _ => None,
        },
    }
}

impl Contract {
    /// Content digest of a canonically encoded unsigned transaction; the key
    /// under which signing work is deduplicated.
    pub fn hash_payload(&self, unsigned_tx: &Vec<u8>) -> (r: Vec<u8>)
        ensures
            r@ == keccak256_of(unsigned_tx@),
            r@.len() == 32,
    {
        keccak256(unsigned_tx)
    }

    /// Whether the signing slot of `step` under the active session already
    /// holds a signature.
    pub fn has_signature(&self, step: Step) -> (r: bool)
        requires
            self.active_session is Some,
        ensures
            r == cache_has(
                self.signatures_by_nonce_and_type@,
                CacheKey {
                    nonce: self.active_session.unwrap().nonce,
                    tx_type: step.spec_code(),
                },
            ),
    {
        let nonce = match &self.active_session {
            Some(s) => s.nonce,
            None => {
                proof {
                    assert(false);
                }
                0
            },
        };
        let key = CacheKey::new(nonce, step.code());
        match cache_lookup(&self.signatures_by_nonce_and_type, key) {
            Some(_) => true,
            None => false,
        }
    }

    /// The first step of `flow`'s sequence that has no cached signature
    /// under `nonce`.
    pub(crate) fn find_first_unsigned(&self, nonce: u64, flow: Flow) -> (r: Option<Step>)
        ensures
            r == first_unsigned(flow.spec_sequence(), self.signatures_by_nonce_and_type@, nonce),
    {
        let steps = flow.sequence();
        let ghost full = flow.spec_sequence();
        proof {
            assert(full.skip(0) =~= full);
        }
        let mut i: usize = 0;
        while i < steps.len()
            invariant
                i <= steps.len(),
                full == flow.spec_sequence(),
                steps@ == full,
                first_unsigned(full, self.signatures_by_nonce_and_type@, nonce) == first_unsigned(
                    full.skip(i as int),
                    self.signatures_by_nonce_and_type@,
                    nonce,
                ),
            decreases steps.len() - i,
        {
            let step = steps[i];
            proof {
                assert(full.skip(i as int)[0] == full[i as int]);
            }
            let key = CacheKey::new(nonce, step.code());
            if cache_lookup(&self.signatures_by_nonce_and_type, key).is_none() {
                return Some(step);
            }
            proof {
                assert(full.skip(i as int).skip(1) =~= full.skip(i as int + 1));
            }
            i = i + 1;
        }
        proof {
            assert(full.skip(full.len() as int) =~= Seq::<PayloadType>::empty());
        }
        None
    }

    /// Step legality: walking the active flow's sequence in order, the first
    /// step lacking a cached signature is the only legal next step.
    ///
    /// Fails with `OutOfOrderStep` when `requested` is some other step, and
    /// with `FlowComplete` when every step already holds a signature.
    pub fn assert_step_is_next(&self, requested: Step) -> (r: Result<(), RebalanceError>)
        ensures
            self.active_session is None ==> r == Err::<(), RebalanceError>(
                RebalanceError::NoActiveSession,
            ),
            self.active_session matches Some(sess) ==> match first_unsigned(
                sess.flow.spec_sequence(),
                self.signatures_by_nonce_and_type@,
                sess.nonce,
            ) {
                None => r == Err::<(), RebalanceError>(RebalanceError::FlowComplete),
                Some(next) => if next == requested {
                    r is Ok
                } else {
                    r == Err::<(), RebalanceError>(RebalanceError::OutOfOrderStep)
                },
            },
    {
        let (nonce, flow) = match &self.active_session {
            Some(s) => (s.nonce, s.flow),
            None => {
                return Err(RebalanceError::NoActiveSession);
            },
        };
        match self.find_first_unsigned(nonce, flow) {
            None => Err(RebalanceError::FlowComplete),
            Some(next) => {
                if next == requested {
                    Ok(())
                } else {
                    Err(RebalanceError::OutOfOrderStep)
                }
            },
        }
    }

    /// Guard of `start_rebalance`: fails when a session is in flight.
    pub fn assert_no_active_session(&self) -> (r: Result<(), RebalanceError>)
        ensures
            r is Ok <==> self.active_session is None,
            r matches Err(e) ==> e == RebalanceError::SessionConflict,
    {
        match &self.active_session {
            None => Ok(()),
            Some(_) => Err(RebalanceError::SessionConflict),
        }
    }

    /// Whether `chain_id` is in the supported-chains list.
    pub fn is_chain_supported(&self, chain_id: &ChainId) -> (r: bool)
        ensures
            r == self.spec_chain_supported(*chain_id),
    {
        crate::registry::find_chain(&self.supported_chains, *chain_id)
    }

    /// Resolves which chain `step` acts on under the active session, via the
    /// chain-selection table and the session's audit-log entry.
    pub fn get_chain_id_from_the_step_and_current_session(&self, step: Step) -> (r: Result<
        ChainId,
        RebalanceError,
    >)
        requires
            self.wf(),
        ensures
            self.active_session is None ==> r == Err::<ChainId, RebalanceError>(
                RebalanceError::NoActiveSession,
            ),
            self.active_session matches Some(sess) ==> match spec_chain_role(sess.flow, step) {
                None => r == Err::<ChainId, RebalanceError>(
                    RebalanceError::InvalidFlowStepCombination,
                ),
                Some(ChainRole::Source) => r == Ok::<ChainId, RebalanceError>(
                    self.logs@[sess.nonce as int].source_chain,
                ),
                Some(ChainRole::Destination) => r == Ok::<ChainId, RebalanceError>(
                    self.logs@[sess.nonce as int].destination_chain,
                ),
            },
    {
        let (nonce, flow) = match &self.active_session {
            Some(s) => (s.nonce, s.flow),
            None => {
                return Err(RebalanceError::NoActiveSession);
            },
        };
        let n_logs = self.logs.len();
        proof {
            assert(nonce < n_logs);
        }
        let log = &self.logs[nonce as usize];
        let role = match (flow, step) {
            (Flow::AaveToAave, PayloadType::AaveWithdraw)
            | (Flow::AaveToAave, PayloadType::CCTPBurn)
            | (Flow::RebalancerToAave, PayloadType::RebalancerWithdrawToAllocate)
            | (Flow::RebalancerToAave, PayloadType::CCTPBurn)
            | (Flow::AaveToRebalancer, PayloadType::AaveWithdraw)
            | (Flow::AaveToRebalancer, PayloadType::CCTPBurn) => Some(ChainRole::Source),
            (Flow::AaveToAave, PayloadType::CCTPMint)
            | (Flow::AaveToAave, PayloadType::AaveSupply)
            | (Flow::AaveToAave, PayloadType::CompleteRebalance)
            | (Flow::RebalancerToAave, PayloadType::CCTPMint)
            | (Flow::RebalancerToAave, PayloadType::AaveSupply)
            | (Flow::RebalancerToAave, PayloadType::CompleteRebalance)
            | (Flow::AaveToRebalancer, PayloadType::CCTPMint)
            | (Flow::AaveToRebalancer, PayloadType::RebalancerDeposit)
            | (Flow::AaveToRebalancer, PayloadType::CompleteRebalance) => Some(
                ChainRole::Destination,
            ),
            _ => None,
        };
        match role {
            Some(ChainRole::Source) => Ok(log.source_chain),
            Some(ChainRole::Destination) => Ok(log.destination_chain),
            None => Err(RebalanceError::InvalidFlowStepCombination),
        }
    }

    /// Resolves the configuration of the chain that `step` acts on under the
    /// active session.
    pub fn get_chain_config_from_step_and_current_session(&self, step: Step) -> (r: Result<
        &Config,
        RebalanceError,
    >)
        requires
            self.wf(),
        ensures
            self.active_session is None ==> (r matches Err(e) && e
                == RebalanceError::NoActiveSession),
            self.active_session matches Some(sess) ==> match spec_chain_role(sess.flow, step) {
                None => (r matches Err(e) && e == RebalanceError::InvalidFlowStepCombination),
                Some(role) => (r matches Ok(cfg) && config_get(
                    self.config@,
                    chain_of_role(self.logs@[sess.nonce as int], role),
                ) == Some(*cfg)),
            },
    {
        let chain_id = match self.get_chain_id_from_the_step_and_current_session(step) {
            Ok(c) => c,
            Err(e) => {
                return Err(e);
            },
        };
        proof {
            self.lemma_supported_iff_configured(chain_id);
            let sess = self.active_session.unwrap();
            assert(self.logs@[sess.nonce as int].nonce == sess.nonce as int);
            assert(self.supported_chains@.contains(self.logs@[sess.nonce as int].source_chain));
            assert(self.supported_chains@.contains(
                self.logs@[sess.nonce as int].destination_chain,
            ));
        }
        match config_lookup(&self.config, chain_id) {
            Some(cfg) => Ok(cfg),
            None => {
                proof {
                    assert(false);
                }
                Err(RebalanceError::UnsupportedChain)
            },
        }
    }
}

/// The chain of `log` that `role` picks.
pub open spec fn chain_of_role(log: crate::types::ActivityLog, role: ChainRole) -> ChainId {
    match role {
        ChainRole::Source => log.source_chain,
        ChainRole::Destination => log.destination_chain,
    }
}

} // verus!
