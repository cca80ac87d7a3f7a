use vstd::prelude::*;

verus! {

/// Failure taxonomy of the workflow core.
///
/// Every operation of the library reports its failures through this enum
/// instead of panicking; the variant names follow the conditions they stand
/// for: access control, session lifecycle, step ordering, chain resolution,
/// signature-cache consistency and the external signing call.
#[derive(Clone, Copy, Debug, PartialEq, Eq, Structural)]
pub enum RebalanceError {
    /// The caller is not a registered worker with an approved code hash.
    AccessDenied,
    /// A session is already in flight; only one may exist at a time.
    SessionConflict,
    /// The operation needs an active session and none exists.
    NoActiveSession,
    /// A chain identifier is absent from the supported-chains list.
    UnsupportedChain,
    /// The requested step is not the first unsigned step of the flow.
    OutOfOrderStep,
    /// Every step of the flow already holds a cached signature.
    FlowComplete,
    /// The (flow, step) pair has no entry in the chain-selection table.
    InvalidFlowStepCombination,
    /// The same (nonce, step) slot was triggered with different content.
    ContentDivergence,
    /// The external signing call failed or returned malformed material.
    SigningFailed,
    /// An address string in the configuration could not be parsed.
    MalformedAddress,
}

impl RebalanceError {
    /// A short human-readable description of the error.
    pub fn message(&self) -> &'static str {
        match self {
            RebalanceError::AccessDenied => "Caller is not an approved worker",
            RebalanceError::SessionConflict => "Another action in progress",
            RebalanceError::NoActiveSession => "No active session",
            RebalanceError::UnsupportedChain => "Chain not supported",
            RebalanceError::OutOfOrderStep => "Wrong step for current position",
            RebalanceError::FlowComplete => "Flow already finished",
            RebalanceError::InvalidFlowStepCombination => {
                "Invalid (flow, step) combination for chain selection"
            },
            RebalanceError::ContentDivergence => {
                "Step already triggered with different content"
            },
            RebalanceError::SigningFailed => "Signing call failed",
            RebalanceError::MalformedAddress => "Invalid address",
        }
    }
}

} // verus!
