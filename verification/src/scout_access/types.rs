//! The values that the contract stores and the keys that it stores them under.
use vstd::prelude::*;

verus! {

/// An account or a contract of the ledger, by its strkey.
///
/// The strkey of an address is unique, so two addresses are one party exactly
/// if their strkeys are the same text.
#[derive(Debug, PartialEq, Eq)]
pub struct Address {
    pub strkey: String,
}

impl View for Address {
    type V = Seq<char>;

    open spec fn view(&self) -> Seq<char> {
        self.strkey@
    }
}

impl Clone for Address {
    fn clone(&self) -> (res: Self)
        ensures
            res == *self,
    {
        Address { strkey: self.strkey.clone() }
    }
}

/// What a scout can subscribe to.
#[derive(Clone, Copy, Debug, PartialEq, Eq, Structural)]
pub enum SubscriptionTier {
    Basic,
    Pro,
    Elite,
}

/// The prices, in stroops, and the length of a subscription.
#[derive(Clone, Copy, Debug, PartialEq, Eq, Structural)]
pub struct FeeConfig {
    pub contact_fee_stroops: i128,
    pub basic_sub_stroops: i128,
    pub pro_sub_stroops: i128,
    pub elite_sub_stroops: i128,
    pub sub_duration_secs: u64,
}

impl FeeConfig {
    /// The price of a subscription of the given tier.
    pub open spec fn price(self, tier: SubscriptionTier) -> i128 {
        match tier {
            SubscriptionTier::Basic => self.basic_sub_stroops,
            SubscriptionTier::Pro => self.pro_sub_stroops,
            SubscriptionTier::Elite => self.elite_sub_stroops,
        }
    }
}

/// A scout's subscription.
#[derive(Debug, PartialEq, Eq)]
pub struct Subscription {
    pub scout: Address,
    pub tier: SubscriptionTier,
    /// The last second at which the subscription is active.
    pub expires_at: u64,
    pub subscribed_at: u64,
}

impl Subscription {
    /// Whether the subscription is active at the given time.
    pub open spec fn active_at(self, now: u64) -> bool {
        now <= self.expires_at
    }
}

impl Clone for Subscription {
    fn clone(&self) -> (res: Self)
        ensures
            res == *self,
    {
        Subscription {
            scout: self.scout.clone(),
            tier: self.tier,
            expires_at: self.expires_at,
            subscribed_at: self.subscribed_at,
        }
    }
}

/// A trial offer that a scout made to a player.
#[derive(Debug, PartialEq, Eq)]
pub struct TrialOffer {
    pub player_id: u64,
    pub scout: Address,
    pub details_hash: String,
    pub logged_at: u64,
}

impl Clone for TrialOffer {
    fn clone(&self) -> (res: Self)
        ensures
            res == *self,
    {
        TrialOffer {
            player_id: self.player_id,
            scout: self.scout.clone(),
            details_hash: self.details_hash.clone(),
            logged_at: self.logged_at,
        }
    }
}

/// The keys under which the contract stores its data.
#[derive(Debug, PartialEq, Eq)]
pub enum DataKey {
    Admin,
    XlmToken,
    FeeConfig,
    Initialized,
    Paused,
    AccumulatedFees,
    /// Address of the progress contract.
    ProgressContract,
    /// Address of the registration contract.
    RegistrationContract,
    /// The subscription of a scout.
    Subscription(Address),
    /// That a player's contact details are unlocked for a scout.
    ContactRecord(u64, Address),
    /// The number of trial offers made to a player.
    TrialCounter(u64),
    /// A trial offer, by the player and the offer's index.
    TrialOffer(u64, u32),
}

} // verus!
