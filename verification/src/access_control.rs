use vstd::prelude::*;

use crate::errors::RebalanceError;
use crate::registry::{contains_string, find_string, worker_get, worker_lookup};
use crate::types::Worker;
use crate::Contract;

verus! {

impl Contract {
    /// Access-control gate of every step orchestrator: the caller must be a
    /// registered worker whose code fingerprint is approved.
    pub fn assert_agent_is_calling(&self, caller: &String) -> (r: Result<(), RebalanceError>)
        ensures
            r is Ok <==> self.spec_agent_ok(caller@),
            r matches Err(e) ==> e == RebalanceError::AccessDenied,
    {
        self.require_worker_has_valid_codehash(caller)
    }

    /// Checks that `caller` is registered and carries an approved code
    /// fingerprint.
    pub fn require_worker_has_valid_codehash(&self, caller: &String) -> (r: Result<
        (),
        RebalanceError,
    >)
        ensures
            r is Ok <==> self.spec_agent_ok(caller@),
            r matches Err(e) ==> e == RebalanceError::AccessDenied,
    {
        match worker_lookup(&self.worker_by_account_id, caller) {
            Some(w) => {
                if find_string(&self.approved_codehashes, &w.codehash) {
                    Ok(())
                } else {
                    Err(RebalanceError::AccessDenied)
                }
            },
            None => Err(RebalanceError::AccessDenied),
        }
    }

    /// Checks that `caller` is the account that initialized the contract.
    pub fn require_owner(&self, caller: &String) -> (r: Result<(), RebalanceError>)
        ensures
            r is Ok <==> caller@ == self.owner_id@,
            r matches Err(e) ==> e == RebalanceError::AccessDenied,
    {
        if *caller == self.owner_id {
            Ok(())
        } else {
            Err(RebalanceError::AccessDenied)
        }
    }

    /// Checks that `codehash` is in the approved list.
    pub fn require_approved_codehash(&self, codehash: &String) -> (r: Result<(), RebalanceError>)
        ensures
            r is Ok <==> contains_string(self.approved_codehashes@, codehash@),
            r matches Err(e) ==> e == RebalanceError::AccessDenied,
    {
        if find_string(&self.approved_codehashes, codehash) {
            Ok(())
        } else {
            Err(RebalanceError::AccessDenied)
        }
    }

    /// Approves a code fingerprint; only the owner may do so.
    pub fn approve_codehash(&mut self, caller: &String, codehash: String) -> (r: Result<
        (),
        RebalanceError,
    >)
        requires
            old(self).wf(),
        ensures
            final(self).wf(),
            r is Ok <==> caller@ == old(self).owner_id@,
            r matches Err(e) ==> e == RebalanceError::AccessDenied && *final(self) == *old(self),
            r is Ok ==> final(self).approved_codehashes@ == old(self).approved_codehashes@.push(
                codehash,
            ) && *final(self) == (Contract {
                approved_codehashes: final(self).approved_codehashes,
                ..*old(self)
            }),
    {
        let owner = self.require_owner(caller);
        match owner {
            Ok(_) => {
                self.approved_codehashes.push(codehash);
                Ok(())
            },
            Err(e) => Err(e),
        }
    }

    /// Registers (or replaces) the worker of `account_id`; only the owner
    /// may do so.  A new registration shadows an older one of the same
    /// account.
    pub fn register_worker(&mut self, caller: &String, account_id: String, worker: Worker) -> (r:
        Result<(), RebalanceError>)
        requires
            old(self).wf(),
        ensures
            final(self).wf(),
            r is Ok <==> caller@ == old(self).owner_id@,
            r matches Err(e) ==> e == RebalanceError::AccessDenied && *final(self) == *old(self),
            r is Ok ==> worker_get(final(self).worker_by_account_id@, account_id@) == Some(worker)
                && (forall|id: Seq<char>|
                id != account_id@ ==> #[trigger] worker_get(
                    final(self).worker_by_account_id@,
                    id,
                ) == worker_get(old(self).worker_by_account_id@, id)) && *final(self) == (Contract {
                worker_by_account_id: final(self).worker_by_account_id,
                ..*old(self)
            }),
    {
        let owner = self.require_owner(caller);
        match owner {
            Ok(_) => {
                let ghost s = old(self).worker_by_account_id@;
                self.worker_by_account_id.insert(0, (account_id, worker));
                proof {
                    assert(self.worker_by_account_id@.skip(1) =~= s);
                }
                Ok(())
            },
            Err(e) => Err(e),
        }
    }
}

} // verus!
