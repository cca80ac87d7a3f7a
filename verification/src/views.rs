use vstd::prelude::*;

use crate::cache::{cache_get, cache_has, cache_lookup};
use crate::errors::RebalanceError;
use crate::flow::{Flow, Step};
use crate::registry::{config_get, config_lookup, worker_get, worker_lookup};
use crate::state_machine::first_unsigned;
use crate::types::{clone_byte_lists, clone_bytes, log_eq, ActiveSession, ActivityLog, CacheKey,
    ChainId, Config, Worker};
use crate::Contract;

verus! {

impl Contract {
    /// The agent's home chain.
    pub fn get_source_chain(&self) -> (r: ChainId)
        ensures
            r == self.source_chain,
    {
        self.source_chain
    }

    /// The chains that sessions may name.
    pub fn get_supported_chains(&self) -> (r: Vec<ChainId>)
        ensures
            r@ == self.supported_chains@,
    {
        let mut r: Vec<ChainId> = Vec::new();
        let mut i: usize = 0;
        while i < self.supported_chains.len()
            invariant
                i <= self.supported_chains.len(),
                r@ == self.supported_chains@.subrange(0, i as int),
            decreases self.supported_chains.len() - i,
        {
            r.push(self.supported_chains[i]);
            proof {
                assert(r@ =~= self.supported_chains@.subrange(0, i + 1));
            }
            i = i + 1;
        }
        proof {
            assert(r@ =~= self.supported_chains@);
        }
        r
    }

    /// Every registered chain with its configuration, in registration
    /// order.
    pub fn get_all_configs(&self) -> (r: Vec<(ChainId, Config)>)
        ensures
            r@.len() == self.config@.len(),
            forall|i: int|
                0 <= i < r@.len() ==> (#[trigger] r@[i]).0 == self.config@[i].chain_id && r@[i].1
                    == self.config@[i].config,
    {
        let mut r: Vec<(ChainId, Config)> = Vec::new();
        let mut i: usize = 0;
        while i < self.config.len()
            invariant
                i <= self.config.len(),
                r@.len() == i,
                forall|j: int|
                    0 <= j < i ==> (#[trigger] r@[j]).0 == self.config@[j].chain_id && r@[j].1
                        == self.config@[j].config,
            decreases self.config.len() - i,
        {
            let entry = &self.config[i];
            r.push((entry.chain_id, entry.config.clone()));
            i = i + 1;
        }
        r
    }

    /// The worker registered under `account_id`.
    pub fn get_worker(&self, account_id: &String) -> (r: Result<Worker, RebalanceError>)
        ensures
            match r {
                Ok(w) => worker_get(self.worker_by_account_id@, account_id@) == Some(w),
                Err(e) => worker_get(self.worker_by_account_id@, account_id@) is None && e
                    == RebalanceError::AccessDenied,
            },
    {
        match worker_lookup(&self.worker_by_account_id, account_id) {
            Some(w) => Ok(w.clone()),
            None => Err(RebalanceError::AccessDenied),
        }
    }

    /// The newest `count` audit-log entries, newest first.
    pub fn get_latest_logs(&self, count: u64) -> (r: Vec<ActivityLog>)
        requires
            self.wf(),
        ensures
            r@.len() == (if self.logs_nonce > count {
                count
            } else {
                self.logs_nonce
            }),
            forall|i: int|
                0 <= i < r@.len() ==> log_eq(
                    #[trigger] r@[i],
                    self.logs@[self.logs_nonce - 1 - i],
                ),
    {
        let mut logs: Vec<ActivityLog> = Vec::new();
        let current_nonce = self.logs_nonce;
        let start = if current_nonce > count {
            current_nonce - count
        } else {
            0
        };
        let n_logs = self.logs.len();
        let mut j = current_nonce;
        while j > start
            invariant
                start <= j <= current_nonce,
                current_nonce == self.logs_nonce,
                n_logs == self.logs@.len(),
                current_nonce <= n_logs,
                self.wf(),
                logs@.len() == current_nonce - j,
                forall|i: int|
                    0 <= i < logs@.len() ==> log_eq(
                        #[trigger] logs@[i],
                        self.logs@[current_nonce - 1 - i],
                    ),
            decreases j,
        {
            j = j - 1;
            let entry = &self.logs[j as usize];
            logs.push(entry.clone());
        }
        logs
    }

    /// The configuration registered for a chain.
    pub fn get_chain_config(&self, destination_chain: &ChainId) -> (r: Result<
        &Config,
        RebalanceError,
    >)
        ensures
            match r {
                Ok(cfg) => config_get(self.config@, *destination_chain) == Some(*cfg),
                Err(e) => config_get(self.config@, *destination_chain) is None && e
                    == RebalanceError::UnsupportedChain,
            },
    {
        match config_lookup(&self.config, *destination_chain) {
            Some(cfg) => Ok(cfg),
            None => Err(RebalanceError::UnsupportedChain),
        }
    }

    /// The in-flight workflow instance.
    pub fn get_active_session(&self) -> (r: Result<&ActiveSession, RebalanceError>)
        ensures
            match r {
                Ok(s) => self.active_session == Some(*s),
                Err(e) => self.active_session is None && e == RebalanceError::NoActiveSession,
            },
    {
        match &self.active_session {
            Some(s) => Ok(s),
            None => Err(RebalanceError::NoActiveSession),
        }
    }

    /// The signed transaction bytes that workflow `nonce` has produced so
    /// far; empty for a nonce never handed out.
    pub fn get_signed_transactions(&self, nonce: u64) -> (r: Vec<Vec<u8>>)
        requires
            self.wf(),
        ensures
            nonce < self.logs@.len() ==> r.deep_view() == self.logs@[
                nonce as int
            ].transactions.deep_view(),
            nonce >= self.logs@.len() ==> r.deep_view() =~= Seq::<Seq<u8>>::empty(),
    {
        let n_logs = self.logs.len();
        if nonce < n_logs as u64 {
            clone_byte_lists(&self.logs[nonce as usize].transactions)
        } else {
            Vec::new()
        }
    }

    /// The cached signature of the slot `(nonce, tx_type)`, if any.
    pub fn get_signature(&self, nonce: u64, tx_type: u8) -> (r: Option<Vec<u8>>)
        ensures
            match r {
                Some(b) => cache_get(
                    self.signatures_by_nonce_and_type@,
                    CacheKey { nonce, tx_type },
                ) == Some(b@),
                None => cache_get(
                    self.signatures_by_nonce_and_type@,
                    CacheKey { nonce, tx_type },
                ) is None,
            },
    {
        let cache_key = CacheKey { nonce, tx_type };
        match cache_lookup(&self.signatures_by_nonce_and_type, cache_key) {
            Some(b) => Some(clone_bytes(b)),
            None => None,
        }
    }

    /// The audit-log entry of the active session.
    pub fn get_activity_log(&self) -> (r: Result<ActivityLog, RebalanceError>)
        requires
            self.wf(),
        ensures
            match r {
                Ok(log) => self.active_session matches Some(sess) && log_eq(
                    log,
                    self.logs@[sess.nonce as int],
                ),
                Err(e) => self.active_session is None && e == RebalanceError::NoActiveSession,
            },
    {
        let nonce = match &self.active_session {
            Some(s) => s.nonce,
            None => {
                return Err(RebalanceError::NoActiveSession);
            },
        };
        let n_logs = self.logs.len();
        proof {
            assert(nonce < n_logs);
        }
        Ok(self.logs[nonce as usize].clone())
    }

    /// The next step awaiting a signature, or nothing when no session is
    /// active or every step is signed.
    pub fn get_pending_step(&self) -> (r: Option<Step>)
        ensures
            match self.active_session {
                None => r is None,
                Some(sess) => r == first_unsigned(
                    sess.flow.spec_sequence(),
                    self.signatures_by_nonce_and_type@,
                    sess.nonce,
                ),
            },
    {
        match &self.active_session {
            Some(s) => self.find_first_unsigned(s.nonce, s.flow),
            None => None,
        }
    }

    /// The active session's nonce, flow and pending step, if a session is
    /// active.
    pub fn get_active_session_info(&self) -> (r: Option<(u64, Flow, Option<Step>)>)
        ensures
            match self.active_session {
                None => r is None,
                Some(sess) => r == Some(
                    (
                        sess.nonce,
                        sess.flow,
                        first_unsigned(
                            sess.flow.spec_sequence(),
                            self.signatures_by_nonce_and_type@,
                            sess.nonce,
                        ),
                    ),
                ),
            },
    {
        match &self.active_session {
            Some(s) => {
                let pending = self.find_first_unsigned(s.nonce, s.flow);
                Some((s.nonce, s.flow, pending))
            },
            None => None,
        }
    }

    /// Every step of the active flow's sequence, in order, with whether its
    /// signature is already cached; empty when no session is active.
    pub fn get_flow_status(&self) -> (r: Vec<(Step, bool)>)
        ensures
            match self.active_session {
                None => r@.len() == 0,
                Some(sess) => {
                    &&& r@.len() == sess.flow.spec_sequence().len()
                    &&& forall|i: int|
                        0 <= i < r@.len() ==> (#[trigger] r@[i]).0
                            == sess.flow.spec_sequence()[i] && r@[i].1 == cache_has(
                            self.signatures_by_nonce_and_type@,
                            CacheKey {
                                nonce: sess.nonce,
                                tx_type: sess.flow.spec_sequence()[i].spec_code(),
                            },
                        )
                },
            },
    {
        let (nonce, flow) = match &self.active_session {
            Some(s) => (s.nonce, s.flow),
            None => {
                return Vec::new();
            },
        };
        let steps = flow.sequence();
        let mut r: Vec<(Step, bool)> = Vec::new();
        let mut i: usize = 0;
        while i < steps.len()
            invariant
                i <= steps.len(),
                steps@ == flow.spec_sequence(),
                r@.len() == i,
                forall|j: int|
                    0 <= j < i ==> (#[trigger] r@[j]).0 == steps@[j] && r@[j].1 == cache_has(
                        self.signatures_by_nonce_and_type@,
                        CacheKey { nonce, tx_type: steps@[j].spec_code() },
                    ),
            decreases steps.len() - i,
        {
            let step = steps[i];
            let key = CacheKey::new(nonce, step.code());
            let signed = match cache_lookup(&self.signatures_by_nonce_and_type, key) {
                Some(_) => true,
                None => false,
            };
            r.push((step, signed));
            i = i + 1;
        }
        r
    }
}

} // verus!
