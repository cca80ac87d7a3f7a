use vstd::prelude::*;

verus! {

/// One atomic, independently signed action within a flow.
///
/// A step's position in its flow's sequence decides whether invoking it is
/// legal; its numeric code is the step half of a signature-cache key.
#[derive(Clone, Copy, Debug, PartialEq, Eq, Structural)]
pub enum PayloadType {
    AaveSupply,
    AaveWithdraw,
    CCTPBurn,
    CCTPMint,
    RebalancerWithdrawToAllocate,
    RebalancerUpdateCrossChainBalance,
    RebalancerDeposit,
    RebalancerSignCrossChainBalance,
    CompleteRebalance,
}

/// A step of a flow; alias kept because the state machine speaks of steps.
pub type Step = PayloadType;

impl PayloadType {
    /// The stable numeric code of this step.
    pub open spec fn spec_code(self) -> u8 {
        match self {
            PayloadType::AaveSupply => 0,
            PayloadType::AaveWithdraw => 1,
            PayloadType::CCTPBurn => 2,
            PayloadType::CCTPMint => 3,
            PayloadType::RebalancerWithdrawToAllocate => 4,
            PayloadType::RebalancerUpdateCrossChainBalance => 5,
            PayloadType::RebalancerDeposit => 6,
            PayloadType::RebalancerSignCrossChainBalance => 7,
            PayloadType::CompleteRebalance => 8,
        }
    }

    /// The stable numeric code of this step, used to key the caches.
    pub fn code(self) -> (r: u8)
        ensures
            r == self.spec_code(),
    {
        match self {
            PayloadType::AaveSupply => 0,
            PayloadType::AaveWithdraw => 1,
            PayloadType::CCTPBurn => 2,
            PayloadType::CCTPMint => 3,
            PayloadType::RebalancerWithdrawToAllocate => 4,
            PayloadType::RebalancerUpdateCrossChainBalance => 5,
            PayloadType::RebalancerDeposit => 6,
            PayloadType::RebalancerSignCrossChainBalance => 7,
            PayloadType::CompleteRebalance => 8,
        }
    }

    /// The step that a numeric code stands for, if any.
    pub fn from_code(value: u8) -> (r: Option<PayloadType>)
        ensures
            r is Some <==> value <= 8,
            r matches Some(p) ==> p.spec_code() == value,
    {
        match value {
            0 => Some(PayloadType::AaveSupply),
            1 => Some(PayloadType::AaveWithdraw),
            2 => Some(PayloadType::CCTPBurn),
            3 => Some(PayloadType::CCTPMint),
            4 => Some(PayloadType::RebalancerWithdrawToAllocate),
            5 => Some(PayloadType::RebalancerUpdateCrossChainBalance),
            6 => Some(PayloadType::RebalancerDeposit),
            7 => Some(PayloadType::RebalancerSignCrossChainBalance),
            8 => Some(PayloadType::CompleteRebalance),
            _ => None,
        }
    }
}

/// A workflow shape: a named, fixed, ordered sequence of steps.
#[derive(Clone, Copy, Debug, PartialEq, Eq, Structural)]
pub enum Flow {
    AaveToAave,
    RebalancerToAave,
    AaveToRebalancer,
}

impl Flow {
    /// The canonical ordered step sequence of this flow.
    ///
    /// This is the single source of truth for step ordering: every ordering
    /// decision elsewhere delegates to it.
    pub open spec fn spec_sequence(self) -> Seq<PayloadType> {
        match self {
            Flow::AaveToAave => seq![
                PayloadType::AaveWithdraw,
                PayloadType::CCTPBurn,
                PayloadType::CCTPMint,
                PayloadType::AaveSupply,
                PayloadType::CompleteRebalance,
            ],
            Flow::RebalancerToAave => seq![
                PayloadType::RebalancerWithdrawToAllocate,
                PayloadType::CCTPBurn,
                PayloadType::CCTPMint,
                PayloadType::AaveSupply,
                PayloadType::CompleteRebalance,
            ],
            Flow::AaveToRebalancer => seq![
                PayloadType::AaveWithdraw,
                PayloadType::CCTPBurn,
                PayloadType::CCTPMint,
                PayloadType::RebalancerDeposit,
                PayloadType::CompleteRebalance,
            ],
        }
    }

    /// The canonical ordered step sequence of this flow.
    pub fn sequence(&self) -> (r: Vec<PayloadType>)
        ensures
            r@ == self.spec_sequence(),
    {
        let r = match self {
            Flow::AaveToAave => vec![
                PayloadType::AaveWithdraw,
                PayloadType::CCTPBurn,
                PayloadType::CCTPMint,
                PayloadType::AaveSupply,
                PayloadType::CompleteRebalance,
            ],
            Flow::RebalancerToAave => vec![
                PayloadType::RebalancerWithdrawToAllocate,
                PayloadType::CCTPBurn,
                PayloadType::CCTPMint,
                PayloadType::AaveSupply,
                PayloadType::CompleteRebalance,
            ],
            Flow::AaveToRebalancer => vec![
                PayloadType::AaveWithdraw,
                PayloadType::CCTPBurn,
                PayloadType::CCTPMint,
                PayloadType::RebalancerDeposit,
                PayloadType::CompleteRebalance,
            ],
        };
        proof {
            assert(r@ =~= self.spec_sequence());
        }
        r
    }
}

} // verus!
