//! How a call of the contract can be refused.
use vstd::prelude::*;

verus! {

/// The reasons for which the contract refuses a call.
#[derive(Clone, Copy, Debug, PartialEq, Eq, Structural)]
pub enum ScoutAccessError {
    AlreadyInitialized,
    NotInitialized,
    ContractPaused,
    Unauthorized,
    ScoutNotSubscribed,
    SubscriptionExpired,
    AlreadyContacted,
    PlayerNotFound,
    TrialOfferNotFound,
    ProgressCallFailed,
}

/// The faults on which a call is abandoned instead of being answered.
#[derive(Clone, Copy, Debug, PartialEq, Eq, Structural)]
pub enum Trap {
    /// No fees were ever set.
    FeeConfigNotSet,
    /// The token in which fees are paid was never set.
    XlmTokenNotSet,
    /// The fees collected so far and the fee of the call are too much.
    FeesOverflow,
    /// The end of a subscription, or the index of a trial offer, is too large.
    Overflow,
}

impl Trap {
    /// The message of the fault.
    pub open spec fn spec_message(self) -> Seq<char> {
        match self {
            Trap::FeeConfigNotSet => "fee config not set"@,
            Trap::XlmTokenNotSet => "xlm token not set"@,
            Trap::FeesOverflow => "attempt to add with overflow"@,
            Trap::Overflow => "overflow"@,
        }
    }

    /// The message with which the call is abandoned.
    pub fn message(&self) -> (msg: &'static str)
        ensures
            msg@ == self.spec_message(),
    {
        match self {
            Trap::FeeConfigNotSet => "fee config not set",
            Trap::XlmTokenNotSet => "xlm token not set",
            Trap::FeesOverflow => "attempt to add with overflow",
            Trap::Overflow => "overflow",
        }
    }
}

} // verus!
