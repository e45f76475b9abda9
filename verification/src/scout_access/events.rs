//! What the contract announces.
use vstd::prelude::*;

use crate::scout_access::types::{Address, SubscriptionTier};

verus! {

/// An event of the contract.
#[derive(Debug, PartialEq, Eq)]
pub enum Event {
    FeesWithdrawn { to: Address, amount: i128 },
    ScoutSubscribed { scout: Address, tier: SubscriptionTier },
    PlayerContacted { player_id: u64, scout: Address },
    TrialOfferLogged { player_id: u64, scout: Address },
}

} // verus!
