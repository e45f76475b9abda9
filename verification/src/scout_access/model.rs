//! What each call of the contract answers, and what it does to the ledger.
//!
//! A call is described by two functions of the environment that it starts in:
//! the answer (`.._result`) and the environment that it leaves (`.._after`).
use vstd::prelude::*;

use crate::scout_access::env::{
    AdvanceReply, Entry, EnvView, HostCall, Instance, Query, Step, StorageView,
};
use crate::scout_access::errors::{ScoutAccessError, Trap};
use crate::scout_access::events::Event;
use crate::scout_access::types::{
    Address, DataKey, FeeConfig, Subscription, SubscriptionTier, TrialOffer,
};

verus! {

/// A trial offer's entries are given a new life when they have no more than
/// this many ledgers left: about 15 days, at 5 seconds a ledger.
pub const TRIAL_TTL_THRESHOLD: u32 = 259_200;

/// The life that a trial offer's entries are given: about 30 days.
pub const TRIAL_TTL_EXTEND_TO: u32 = 518_400;

/// A subscription or a contact is given a new life when it has no more than
/// this many ledgers left: about 7 days.
pub const PERSISTENT_TTL_MIN: u32 = 120_960;

/// The life that a subscription or a contact is given: about 14 days.
pub const PERSISTENT_TTL_MAX: u32 = 241_920;

impl StorageView {
    /// Whether the contract is paused.
    pub open spec fn paused(self) -> bool {
        self.instance.paused == Some(true)
    }

    /// Whether the contract was initialized.
    pub open spec fn initialized(self) -> bool {
        self.instance.initialized == Some(true)
    }

    /// The fees collected since the last withdrawal.
    pub open spec fn fees(self) -> i128 {
        match self.instance.accumulated_fees {
            Some(fees) => fees,
            None => 0,
        }
    }

    /// How many trial offers were made to a player.
    pub open spec fn trial_count(self, player_id: u64) -> u32 {
        if self.trial_counters.contains_key(player_id) {
            self.trial_counters[player_id]
        } else {
            0
        }
    }

    /// Whether a fee can be charged: the token is known, and the sum of the
    /// fees is representable.
    pub open spec fn can_charge(self, fee: i128) -> bool {
        self.instance.xlm_token is Some && i128::MIN <= self.fees() + fee <= i128::MAX
    }
}

/// The request for a subscription to be kept alive.
pub open spec fn keep_subscription(scout: Address) -> HostCall {
    HostCall::ExtendTtl {
        key: DataKey::Subscription(scout),
        threshold: PERSISTENT_TTL_MIN,
        extend_to: PERSISTENT_TTL_MAX,
    }
}

/// The request for a contact record to be kept alive.
pub open spec fn keep_contact(player_id: u64, scout: Address) -> HostCall {
    HostCall::ExtendTtl {
        key: DataKey::ContactRecord(player_id, scout),
        threshold: PERSISTENT_TTL_MIN,
        extend_to: PERSISTENT_TTL_MAX,
    }
}

/// The request for a trial offer to be kept alive.
pub open spec fn keep_trial_offer(player_id: u64, index: u32) -> HostCall {
    HostCall::ExtendTtl {
        key: DataKey::TrialOffer(player_id, index),
        threshold: TRIAL_TTL_THRESHOLD,
        extend_to: TRIAL_TTL_EXTEND_TO,
    }
}

/// The request for the number of a player's trial offers to be kept alive.
pub open spec fn keep_trial_counter(player_id: u64) -> HostCall {
    HostCall::ExtendTtl {
        key: DataKey::TrialCounter(player_id),
        threshold: TRIAL_TTL_THRESHOLD,
        extend_to: TRIAL_TTL_EXTEND_TO,
    }
}

// Administration.
impl EnvView {
    /// `initialize` is refused if it was done before.
    pub open spec fn initialize_result(self) -> Result<(), ScoutAccessError> {
        if self.storage.instance.initialized is Some {
            Err(ScoutAccessError::AlreadyInitialized)
        } else {
            Ok(())
        }
    }

    /// The first `initialize` sets up the instance storage.
    pub open spec fn initialize_after(
        self,
        admin: Address,
        xlm_token: Address,
        fee_config: FeeConfig,
    ) -> EnvView {
        if self.initialize_result() is Err {
            self
        } else {
            self.after(
                StorageView {
                    instance: Instance {
                        admin: Some(admin),
                        xlm_token: Some(xlm_token),
                        fee_config: Some(fee_config),
                        initialized: Some(true),
                        paused: Some(false),
                        accumulated_fees: Some(0),
                        ..self.storage.instance
                    },
                    ..self.storage
                },
                seq![
                    HostCall::RequireAuth(admin),
                    HostCall::Store(Entry::Admin(admin)),
                    HostCall::Store(Entry::XlmToken(xlm_token)),
                    HostCall::Store(Entry::FeeConfig(fee_config)),
                    HostCall::Store(Entry::Initialized(true)),
                    HostCall::Store(Entry::Paused(false)),
                    HostCall::Store(Entry::AccumulatedFees(0)),
                ],
            )
        }
    }

    /// What is for the admin alone is refused while there is no admin.
    pub open spec fn admin_result(self) -> Result<(), ScoutAccessError> {
        if self.storage.instance.admin is None {
            Err(ScoutAccessError::NotInitialized)
        } else {
            Ok(())
        }
    }

    /// The admin, who has to authorize the call, stores one entry.
    pub open spec fn admin_store_after(self, entry: Entry) -> EnvView {
        match self.storage.instance.admin {
            None => self,
            Some(admin) => self.after(
                self.storage.write(entry),
                seq![HostCall::RequireAuth(admin), HostCall::Store(entry)],
            ),
        }
    }

    /// The fault on which `withdraw_fees` is abandoned, if there is one.
    pub open spec fn withdraw_trap(self) -> Option<Trap> {
        if self.storage.instance.admin is Some && self.storage.fees() != 0
            && self.storage.instance.xlm_token is None {
            Some(Trap::XlmTokenNotSet)
        } else {
            None
        }
    }

    /// `withdraw_fees` answers with the amount paid out.
    pub open spec fn withdraw_result(self) -> Result<i128, ScoutAccessError> {
        if self.storage.instance.admin is None {
            Err(ScoutAccessError::NotInitialized)
        } else {
            Ok(self.storage.fees())
        }
    }

    /// All collected fees are paid out, if there are any.
    pub open spec fn withdraw_after(self, to: Address) -> EnvView {
        let fees = self.storage.fees();
        match self.storage.instance.admin {
            None => self,
            Some(admin) => if fees == 0 {
                self.asks(seq![HostCall::RequireAuth(admin)])
            } else {
                self.after(
                    StorageView {
                        instance: Instance {
                            accumulated_fees: Some(0),
                            ..self.storage.instance
                        },
                        ..self.storage
                    },
                    seq![
                        HostCall::RequireAuth(admin),
                        HostCall::Transfer {
                            token: self.storage.instance.xlm_token->0,
                            from: self.contract,
                            to,
                            amount: fees,
                        },
                        HostCall::Store(Entry::AccumulatedFees(0)),
                        HostCall::Publish(Event::FeesWithdrawn { to, amount: fees }),
                    ],
                )
            },
        }
    }
}

// Subscriptions.
impl EnvView {
    /// `subscribe` is refused while the contract is paused or not initialized.
    pub open spec fn subscribe_result(self) -> Result<(), ScoutAccessError> {
        if self.storage.paused() {
            Err(ScoutAccessError::ContractPaused)
        } else if !self.storage.initialized() {
            Err(ScoutAccessError::NotInitialized)
        } else {
            Ok(())
        }
    }

    /// The fault on which `subscribe` is abandoned, if there is one.
    pub open spec fn subscribe_trap(self, tier: SubscriptionTier) -> Option<Trap> {
        if self.subscribe_result() is Err {
            None
        } else if self.storage.instance.fee_config is None {
            Some(Trap::FeeConfigNotSet)
        } else if self.storage.instance.xlm_token is None {
            Some(Trap::XlmTokenNotSet)
        } else if !self.storage.can_charge(self.storage.instance.fee_config->0.price(tier)) {
            Some(Trap::FeesOverflow)
        } else if self.timestamp + self.storage.instance.fee_config->0.sub_duration_secs
            > u64::MAX {
            Some(Trap::Overflow)
        } else {
            None
        }
    }

    /// The subscription that is bought now: it runs for the configured time.
    pub open spec fn new_subscription(
        self,
        scout: Address,
        tier: SubscriptionTier,
    ) -> Subscription {
        Subscription {
            scout,
            tier,
            expires_at: (self.timestamp
                + self.storage.instance.fee_config->0.sub_duration_secs) as u64,
            subscribed_at: self.timestamp,
        }
    }

    /// The scout pays the price of the tier and is given the subscription.
    pub open spec fn subscribe_after(self, scout: Address, tier: SubscriptionTier) -> EnvView {
        if self.subscribe_result() is Err {
            self
        } else {
            let price = self.storage.instance.fee_config->0.price(tier);
            let fees = (self.storage.fees() + price) as i128;
            let sub = self.new_subscription(scout, tier);
            self.after(
                StorageView {
                    instance: Instance { accumulated_fees: Some(fees), ..self.storage.instance },
                    subscriptions: self.storage.subscriptions.insert(scout@, sub),
                    ..self.storage
                },
                seq![
                    HostCall::RequireAuth(scout),
                    HostCall::Transfer {
                        token: self.storage.instance.xlm_token->0,
                        from: scout,
                        to: self.contract,
                        amount: price,
                    },
                    HostCall::Store(Entry::AccumulatedFees(fees)),
                    HostCall::Store(Entry::Subscription(scout, sub)),
                    keep_subscription(scout),
                    HostCall::Publish(Event::ScoutSubscribed { scout, tier }),
                ],
            )
        }
    }

    /// The subscription of a scout, if it is active now.
    pub open spec fn active_subscription(self, scout: Address) -> Result<
        Subscription,
        ScoutAccessError,
    > {
        if !self.storage.subscriptions.contains_key(scout@) {
            Err(ScoutAccessError::ScoutNotSubscribed)
        } else if !self.storage.subscriptions[scout@].active_at(self.timestamp) {
            Err(ScoutAccessError::SubscriptionExpired)
        } else {
            Ok(self.storage.subscriptions[scout@])
        }
    }
}

// Paid contacts.
impl EnvView {
    /// Whether `pay_to_contact` is refused before the player is looked up.
    pub open spec fn contact_check(self, scout: Address, player_id: u64) -> Result<
        (),
        ScoutAccessError,
    > {
        if self.storage.paused() {
            Err(ScoutAccessError::ContractPaused)
        } else {
            match self.active_subscription(scout) {
                Err(e) => Err(e),
                Ok(_) => if self.storage.contacts.contains_key((player_id, scout@)) {
                    Err(ScoutAccessError::AlreadyContacted)
                } else {
                    Ok(())
                },
            }
        }
    }

    /// The answer of `pay_to_contact`: it waits for the registration contract
    /// if there is one, and is done at once if there is none.
    pub open spec fn pay_to_contact_result(self, scout: Address, player_id: u64) -> Result<
        Step<()>,
        ScoutAccessError,
    > {
        match self.contact_check(scout, player_id) {
            Err(e) => Err(e),
            Ok(_) => match self.storage.instance.registration_contract {
                Some(registration) => Ok(Step::Ask(Query::GetPlayer { registration, player_id })),
                None => Ok(Step::Done(())),
            },
        }
    }

    /// The fault on which the charge for a contact is abandoned, if there is
    /// one.
    pub open spec fn contact_fee_trap(self) -> Option<Trap> {
        if self.storage.instance.fee_config is None {
            Some(Trap::FeeConfigNotSet)
        } else if self.storage.instance.xlm_token is None {
            Some(Trap::XlmTokenNotSet)
        } else if !self.storage.can_charge(
            self.storage.instance.fee_config->0.contact_fee_stroops,
        ) {
            Some(Trap::FeesOverflow)
        } else {
            None
        }
    }

    /// The fault on which `pay_to_contact` is abandoned, if there is one.
    pub open spec fn pay_to_contact_trap(self, scout: Address, player_id: u64) -> Option<Trap> {
        if self.pay_to_contact_result(scout, player_id) == Ok::<_, ScoutAccessError>(
            Step::Done(()),
        ) {
            self.contact_fee_trap()
        } else {
            None
        }
    }

    /// The scout pays the fee, and the contact is recorded.
    pub open spec fn contact_after(self, scout: Address, player_id: u64) -> EnvView {
        let fee = self.storage.instance.fee_config->0.contact_fee_stroops;
        let fees = (self.storage.fees() + fee) as i128;
        self.after(
            StorageView {
                instance: Instance { accumulated_fees: Some(fees), ..self.storage.instance },
                contacts: self.storage.contacts.insert((player_id, scout@), true),
                ..self.storage
            },
            seq![
                HostCall::Transfer {
                    token: self.storage.instance.xlm_token->0,
                    from: scout,
                    to: self.contract,
                    amount: fee,
                },
                HostCall::Store(Entry::AccumulatedFees(fees)),
                HostCall::Store(Entry::ContactRecord(player_id, scout, true)),
                keep_contact(player_id, scout),
                keep_subscription(scout),
                HostCall::Publish(Event::PlayerContacted { player_id, scout }),
            ],
        )
    }

    /// What `pay_to_contact` leaves.
    pub open spec fn pay_to_contact_after(self, scout: Address, player_id: u64) -> EnvView {
        if self.storage.paused() {
            self
        } else {
            let authorized = self.asks(seq![HostCall::RequireAuth(scout)]);
            if self.pay_to_contact_result(scout, player_id) == Ok::<_, ScoutAccessError>(
                Step::Done(()),
            ) {
                authorized.contact_after(scout, player_id)
            } else {
                authorized
            }
        }
    }

    /// The answer of `finish_contact`, by what the registration contract said.
    pub open spec fn finish_contact_result(self, found: bool) -> Result<(), ScoutAccessError> {
        if found {
            Ok(())
        } else {
            Err(ScoutAccessError::PlayerNotFound)
        }
    }

    /// What `finish_contact` leaves.
    pub open spec fn finish_contact_after(
        self,
        scout: Address,
        player_id: u64,
        found: bool,
    ) -> EnvView {
        if found {
            self.contact_after(scout, player_id)
        } else {
            self
        }
    }
}

// Trial offers.
impl EnvView {
    /// Whether `log_trial_offer` is refused.
    pub open spec fn trial_check(self, scout: Address) -> Result<(), ScoutAccessError> {
        if self.storage.paused() {
            Err(ScoutAccessError::ContractPaused)
        } else {
            match self.active_subscription(scout) {
                Err(e) => Err(e),
                Ok(sub) => if sub.tier == SubscriptionTier::Elite {
                    Ok(())
                } else {
                    Err(ScoutAccessError::Unauthorized)
                },
            }
        }
    }

    /// The index that the next trial offer to a player gets.
    pub open spec fn next_index(self, player_id: u64) -> u32 {
        (self.storage.trial_count(player_id) + 1) as u32
    }

    /// The fault on which `log_trial_offer` is abandoned, if there is one.
    pub open spec fn log_trial_offer_trap(self, scout: Address, player_id: u64) -> Option<Trap> {
        if self.trial_check(scout) is Ok && self.storage.trial_count(player_id) == u32::MAX {
            Some(Trap::Overflow)
        } else {
            None
        }
    }

    /// The answer of `log_trial_offer`: it waits for the progress contract if
    /// there is one, and is done at once if there is none.
    pub open spec fn log_trial_offer_result(self, scout: Address, player_id: u64) -> Result<
        Step<u32>,
        ScoutAccessError,
    > {
        let index = self.next_index(player_id);
        match self.trial_check(scout) {
            Err(e) => Err(e),
            Ok(_) => match self.storage.instance.progress_contract {
                Some(progress) => Ok(
                    Step::Ask(Query::AdvanceLevel { progress, scout, player_id, index }),
                ),
                None => Ok(Step::Done(index)),
            },
        }
    }

    /// What `log_trial_offer` leaves: the offer is stored under the next index.
    pub open spec fn log_trial_offer_after(
        self,
        scout: Address,
        player_id: u64,
        details_hash: String,
    ) -> EnvView {
        let index = self.next_index(player_id);
        let offer = TrialOffer { player_id, scout, details_hash, logged_at: self.timestamp };
        if self.storage.paused() {
            self
        } else if self.trial_check(scout) is Err {
            self.asks(seq![HostCall::RequireAuth(scout)])
        } else {
            self.after(
                StorageView {
                    trial_offers: self.storage.trial_offers.insert((player_id, index), offer),
                    trial_counters: self.storage.trial_counters.insert(player_id, index),
                    ..self.storage
                },
                seq![
                    HostCall::RequireAuth(scout),
                    keep_subscription(scout),
                    HostCall::Store(Entry::TrialOffer(player_id, index, offer)),
                    keep_trial_offer(player_id, index),
                    HostCall::Store(Entry::TrialCounter(player_id, index)),
                    keep_trial_counter(player_id),
                    HostCall::Publish(Event::TrialOfferLogged { player_id, scout }),
                ],
            )
        }
    }
}

/// The answer of `finish_trial_offer`, by what the progress contract said.
pub open spec fn finish_trial_offer_result(index: u32, reply: AdvanceReply) -> Result<
    u32,
    ScoutAccessError,
> {
    if reply == AdvanceReply::Failed {
        Err(ScoutAccessError::ProgressCallFailed)
    } else {
        Ok(index)
    }
}

// Queries.
impl EnvView {
    /// The fault on which `get_fee_config` is abandoned, if there is one.
    pub open spec fn get_fee_config_trap(self) -> Option<Trap> {
        if self.storage.instance.fee_config is None {
            Some(Trap::FeeConfigNotSet)
        } else {
            None
        }
    }

    /// The answer of `get_subscription`.
    pub open spec fn get_subscription_result(self, scout: Address) -> Result<
        Subscription,
        ScoutAccessError,
    > {
        if self.storage.subscriptions.contains_key(scout@) {
            Ok(self.storage.subscriptions[scout@])
        } else {
            Err(ScoutAccessError::ScoutNotSubscribed)
        }
    }

    /// A subscription that is read is kept alive.
    pub open spec fn get_subscription_after(self, scout: Address) -> EnvView {
        if self.storage.subscriptions.contains_key(scout@) {
            self.asks(seq![keep_subscription(scout)])
        } else {
            self
        }
    }

    /// The answer of `has_contacted`.
    pub open spec fn has_contacted_result(self, scout: Address, player_id: u64) -> bool {
        self.storage.contacts.contains_key((player_id, scout@))
    }

    /// A contact record that is read is kept alive.
    pub open spec fn has_contacted_after(self, scout: Address, player_id: u64) -> EnvView {
        if self.has_contacted_result(scout, player_id) {
            self.asks(seq![keep_contact(player_id, scout)])
        } else {
            self
        }
    }

    /// The answer of `get_trial_offer`.
    pub open spec fn get_trial_offer_result(self, player_id: u64, index: u32) -> Result<
        TrialOffer,
        ScoutAccessError,
    > {
        if self.storage.trial_offers.contains_key((player_id, index)) {
            Ok(self.storage.trial_offers[(player_id, index)])
        } else {
            Err(ScoutAccessError::TrialOfferNotFound)
        }
    }

    /// A trial offer that is read is kept alive.
    pub open spec fn get_trial_offer_after(self, player_id: u64, index: u32) -> EnvView {
        if self.storage.trial_offers.contains_key((player_id, index)) {
            self.asks(seq![keep_trial_offer(player_id, index)])
        } else {
            self
        }
    }

    /// A number of trial offers that is read, and is not zero, is kept alive.
    pub open spec fn get_trial_count_after(self, player_id: u64) -> EnvView {
        if self.storage.trial_count(player_id) > 0 {
            self.asks(seq![keep_trial_counter(player_id)])
        } else {
            self
        }
    }
}

} // verus!
