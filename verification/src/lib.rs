//! Session and flow coordination for a multi-step cross-chain rebalancing
//! workflow.
//!
//! The library tracks which flow is active, enforces the fixed step order of
//! that flow, deduplicates signing requests by content digest so that retries
//! are safe, and resolves which chain's configuration applies to each step.
//! All state lives in an explicit [`Contract`] value; the asynchronous signing
//! service and the transaction encoders stay outside, behind plain-value
//! interfaces.

pub mod access_control;
pub mod cache;
pub mod callbacks;
pub mod errors;
pub mod evm;
pub mod flow;
pub mod hexcodec;
pub mod laws;
pub mod registry;
pub mod session;
pub mod state_machine;
pub mod steps;
pub mod types;
pub mod views;

use vstd::prelude::*;

use crate::cache::{cache_has, unique_keys};
use crate::registry::{config_get, contains_string, lemma_config_get_some, worker_get};
use crate::types::{ActiveSession, ActivityLog, CacheKey, ChainConfig, ChainId, Worker};

verus! {

/// The whole state of the workflow coordinator: configuration registry,
/// worker registry, audit log, the optional active session and the two
/// signing caches.
///
/// Everything the state machine decides is a function of this value; the
/// asynchronous signing service and the transaction encoders stay outside
/// and exchange plain values with it.
pub struct Contract {
    /// Account that initialized the contract.
    pub owner_id: String,
    /// Home chain of the agent.
    pub source_chain: ChainId,
    /// Code fingerprints that workers must carry to pass access control.
    pub approved_codehashes: Vec<String>,
    /// Registered worker identities, keyed by account.
    pub worker_by_account_id: Vec<(String, Worker)>,
    /// Per-chain protocol addresses, keyed by chain identifier.
    pub config: Vec<ChainConfig>,
    /// Append-only audit log; the entry of nonce `n` sits at index `n`.
    pub logs: Vec<ActivityLog>,
    /// Next nonce to hand out; equals the number of log entries.
    pub logs_nonce: u64,
    /// Chains that sessions may name; exactly the registered chains.
    pub supported_chains: Vec<ChainId>,
    /// The single in-flight workflow instance, if any.
    pub active_session: Option<ActiveSession>,
    /// Signed transaction bytes per (nonce, step) slot.
    pub signatures_by_nonce_and_type: Vec<(CacheKey, Vec<u8>)>,
    /// Content digest of the unsigned transaction per (nonce, step) slot;
    /// written before the signing call is dispatched.
    pub payload_hashes_by_nonce_and_type: Vec<(CacheKey, Vec<u8>)>,
}

impl Contract {
    /// Well-formedness: what `init` establishes and every operation
    /// preserves.
    ///
    /// The log is dense (entry `n` at index `n`), the session's log entry
    /// exists, cache keys are unique and belong to handed-out nonces, every
    /// digest is 32 bytes, a cached signature always has its digest
    /// (a digest without a signature marks an outstanding signing call),
    /// the supported-chains list mirrors the registry, and every chain a log
    /// entry names is supported.
    pub open spec fn wf(self) -> bool {
        &&& self.logs@.len() == self.logs_nonce
        &&& forall|i: int| 0 <= i < self.logs@.len() ==> (#[trigger] self.logs@[i]).nonce == i
        &&& (self.active_session matches Some(s) ==> s.nonce < self.logs_nonce)
        &&& unique_keys(self.signatures_by_nonce_and_type@)
        &&& unique_keys(self.payload_hashes_by_nonce_and_type@)
        &&& forall|i: int|
            0 <= i < self.payload_hashes_by_nonce_and_type@.len()
                ==> (#[trigger] self.payload_hashes_by_nonce_and_type@[i]).1@.len() == 32
                && self.payload_hashes_by_nonce_and_type@[i].0.nonce < self.logs_nonce
        &&& forall|k: CacheKey|
            #[trigger] cache_has(self.signatures_by_nonce_and_type@, k) ==> cache_has(
                self.payload_hashes_by_nonce_and_type@,
                k,
            )
        &&& self.supported_chains@.len() == self.config@.len()
        &&& forall|i: int|
            0 <= i < self.config@.len() ==> #[trigger] self.supported_chains@[i]
                == self.config@[i].chain_id
        &&& forall|i: int, j: int|
            0 <= i < j < self.config@.len() ==> self.config@[i].chain_id
                != self.config@[j].chain_id
        &&& forall|i: int|
            0 <= i < self.logs@.len() ==> self.supported_chains@.contains(
                (#[trigger] self.logs@[i]).source_chain,
            ) && self.supported_chains@.contains(self.logs@[i].destination_chain)
    }

    /// Whether `c` is in the supported-chains list.
    pub open spec fn spec_chain_supported(self, c: ChainId) -> bool {
        self.supported_chains@.contains(c)
    }

    /// Whether `caller` is a registered worker whose code fingerprint is
    /// approved.
    pub open spec fn spec_agent_ok(self, caller: Seq<char>) -> bool {
        match worker_get(self.worker_by_account_id@, caller) {
            Some(w) => contains_string(self.approved_codehashes@, w.codehash@),
            None => false,
        }
    }

    /// In a well-formed state, a chain is supported exactly when the
    /// registry holds its configuration.
    pub proof fn lemma_supported_iff_configured(self, c: ChainId)
        requires
            self.wf(),
        ensures
            self.spec_chain_supported(c) <==> config_get(self.config@, c) is Some,
    {
        lemma_config_get_some(self.config@, c);
        if self.spec_chain_supported(c) {
            let i = choose|i: int|
                0 <= i < self.supported_chains@.len() && self.supported_chains@[i] == c;
            assert(self.config@[i].chain_id == c);
        }
        if config_get(self.config@, c) is Some {
            let i = choose|i: int| 0 <= i < self.config@.len() && self.config@[i].chain_id == c;
            assert(self.supported_chains@[i] == c);
        }
    }

    /// Sets the contract up: records the owner and home chain, registers
    /// each given chain's configuration, and starts with an empty log, no
    /// session and empty caches.
    pub fn init(owner_id: String, source_chain: ChainId, configs: Vec<ChainConfig>) -> (r:
        Contract)
        requires
            forall|i: int, j: int|
                0 <= i < j < configs@.len() ==> configs@[i].chain_id != configs@[j].chain_id,
        ensures
            r.wf(),
            r.owner_id@ == owner_id@,
            r.source_chain == source_chain,
            r.approved_codehashes@.len() == 0,
            r.worker_by_account_id@.len() == 0,
            r.config@ == configs@,
            r.logs@.len() == 0,
            r.logs_nonce == 0,
            r.supported_chains@.len() == configs@.len(),
            forall|i: int|
                0 <= i < configs@.len() ==> #[trigger] r.supported_chains@[i]
                    == configs@[i].chain_id,
            r.active_session is None,
            r.signatures_by_nonce_and_type@.len() == 0,
            r.payload_hashes_by_nonce_and_type@.len() == 0,
    {
        let mut supported_chains: Vec<ChainId> = Vec::new();
        let mut i: usize = 0;
        while i < configs.len()
            invariant
                i <= configs.len(),
                supported_chains@.len() == i,
                forall|j: int|
                    0 <= j < i ==> #[trigger] supported_chains@[j] == configs@[j].chain_id,
            decreases configs.len() - i,
        {
            supported_chains.push(configs[i].chain_id);
            i = i + 1;
        }
        Contract {
            owner_id,
            source_chain,
            approved_codehashes: Vec::new(),
            worker_by_account_id: Vec::new(),
            config: configs,
            logs: Vec::new(),
            logs_nonce: 0,
            supported_chains,
            active_session: None,
            signatures_by_nonce_and_type: Vec::new(),
            payload_hashes_by_nonce_and_type: Vec::new(),
        }
    }
}

} // verus!
