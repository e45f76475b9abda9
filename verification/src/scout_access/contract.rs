//! The calls of the scout access contract.
//!
//! Each call decides from the environment that it is given. What it wants from
//! the ledger (authorizations, transfers, writes, longer lives of entries,
//! events) it appends to the environment's list, which the host carries out.
//! A call that depends on another contract ends in `Step::Ask`; the matching
//! `finish_..` call takes the other contract's answer and completes it.
use vstd::prelude::*;

use crate::scout_access::calls::Call;
use crate::scout_access::env::{AdvanceReply, Entry, Env, HostCall, Query, Step};
use crate::scout_access::errors::{ScoutAccessError, Trap};
use crate::scout_access::events::Event;
use crate::scout_access::model::{
    PERSISTENT_TTL_MAX, PERSISTENT_TTL_MIN, TRIAL_TTL_EXTEND_TO, TRIAL_TTL_THRESHOLD,
};
use crate::scout_access::types::{
    Address, DataKey, FeeConfig, Subscription, SubscriptionTier, TrialOffer,
};

verus! {

/// The scout access contract.
pub struct ScoutAccessContract;

// Administration.
impl ScoutAccessContract {
    /// Sets the contract up, once.
    pub fn initialize(
        env: &mut Env,
        admin: Address,
        xlm_token: Address,
        fee_config: FeeConfig,
    ) -> (res: Result<(), ScoutAccessError>)
        ensures
            res == old(env)@.initialize_result(),
            final(env)@ == old(env)@.initialize_after(admin, xlm_token, fee_config),
    {
        if env.storage.instance.initialized.is_some() {
            return Err(ScoutAccessError::AlreadyInitialized);
        }
        env.ask(HostCall::RequireAuth(admin.clone()));
        env.store(Entry::Admin(admin));
        env.store(Entry::XlmToken(xlm_token));
        env.store(Entry::FeeConfig(fee_config));
        env.store(Entry::Initialized(true));
        env.store(Entry::Paused(false));
        env.store(Entry::AccumulatedFees(0));
        Ok(())
    }

    /// Replaces the fees (admin only).
    pub fn update_fee_config(env: &mut Env, fee_config: FeeConfig) -> (res: Result<
        (),
        ScoutAccessError,
    >)
        ensures
            res == old(env)@.admin_result(),
            final(env)@ == old(env)@.admin_store_after(Entry::FeeConfig(fee_config)),
            final(env)@ == old(env)@.done(Call::UpdateFeeConfig { fee_config }),
    {
        Self::require_admin(env)?;
        env.store(Entry::FeeConfig(fee_config));
        Ok(())
    }

    /// The fault on which `withdraw_fees` would be abandoned.
    pub fn withdraw_trap(env: &Env) -> (trap: Option<Trap>)
        ensures
            trap == env@.withdraw_trap(),
    {
        if env.storage.instance.admin.is_some() && Self::get_accumulated_fees(env) != 0
            && env.storage.instance.xlm_token.is_none() {
            Some(Trap::XlmTokenNotSet)
        } else {
            None
        }
    }

    /// Pays all collected fees out to `to` (admin only), and answers with the
    /// amount.
    pub fn withdraw_fees(env: &mut Env, to: Address) -> (res: Result<i128, ScoutAccessError>)
        requires
            old(env)@.withdraw_trap() is None,
        ensures
            res == old(env)@.withdraw_result(),
            final(env)@ == old(env)@.withdraw_after(to),
    {
        Self::require_admin(env)?;
        let fees: i128 = Self::get_accumulated_fees(env);
        if fees == 0 {
            return Ok(0);
        }
        let token = Self::xlm_token(env);
        let from = env.contract.clone();
        env.ask(HostCall::Transfer { token, from, to: to.clone(), amount: fees });
        env.store(Entry::AccumulatedFees(0));
        env.ask(HostCall::Publish(Event::FeesWithdrawn { to, amount: fees }));
        Ok(fees)
    }

    /// Stops subscriptions, contacts and trial offers (admin only).
    pub fn pause_contract(env: &mut Env) -> (res: Result<(), ScoutAccessError>)
        ensures
            res == old(env)@.admin_result(),
            final(env)@ == old(env)@.admin_store_after(Entry::Paused(true)),
            final(env)@ == old(env)@.done(Call::PauseContract),
    {
        Self::require_admin(env)?;
        env.store(Entry::Paused(true));
        Ok(())
    }

    /// Allows subscriptions, contacts and trial offers again (admin only).
    pub fn unpause_contract(env: &mut Env) -> (res: Result<(), ScoutAccessError>)
        ensures
            res == old(env)@.admin_result(),
            final(env)@ == old(env)@.admin_store_after(Entry::Paused(false)),
            final(env)@ == old(env)@.done(Call::UnpauseContract),
    {
        Self::require_admin(env)?;
        env.store(Entry::Paused(false));
        Ok(())
    }

    /// Registers the progress contract, so that a trial offer also advances
    /// the player (admin only).
    pub fn set_progress_contract(env: &mut Env, addr: Address) -> (res: Result<
        (),
        ScoutAccessError,
    >)
        ensures
            res == old(env)@.admin_result(),
            final(env)@ == old(env)@.admin_store_after(Entry::ProgressContract(addr)),
            final(env)@ == old(env)@.done(Call::SetProgressContract { addr }),
    {
        Self::require_admin(env)?;
        env.store(Entry::ProgressContract(addr));
        Ok(())
    }

    /// Registers the registration contract, so that a contact is paid only
    /// for a player that exists (admin only).
    pub fn set_registration_contract(env: &mut Env, addr: Address) -> (res: Result<
        (),
        ScoutAccessError,
    >)
        ensures
            res == old(env)@.admin_result(),
            final(env)@ == old(env)@.admin_store_after(Entry::RegistrationContract(addr)),
            final(env)@ == old(env)@.done(Call::SetRegistrationContract { addr }),
    {
        Self::require_admin(env)?;
        env.store(Entry::RegistrationContract(addr));
        Ok(())
    }
}

// Subscriptions.
impl ScoutAccessContract {
    /// The fault on which `subscribe` would be abandoned.
    pub fn subscribe_trap(env: &Env, tier: SubscriptionTier) -> (trap: Option<Trap>)
        ensures
            trap == env@.subscribe_trap(tier),
    {
        if Self::require_not_paused(env).is_err() || Self::require_initialized(env).is_err() {
            return None;
        }
        if env.storage.instance.fee_config.is_none() {
            return Some(Trap::FeeConfigNotSet);
        }
        let config = Self::fee_config(env);
        let trap = Self::charge_trap(env, Self::price(&config, tier));
        if trap.is_some() {
            return trap;
        }
        if env.timestamp.checked_add(config.sub_duration_secs).is_none() {
            return Some(Trap::Overflow);
        }
        None
    }

    /// Buys a subscription. The scout pays the price of the tier.
    pub fn subscribe(env: &mut Env, scout: Address, tier: SubscriptionTier) -> (res: Result<
        (),
        ScoutAccessError,
    >)
        requires
            old(env)@.subscribe_trap(tier) is None,
        ensures
            res == old(env)@.subscribe_result(),
            final(env)@ == old(env)@.subscribe_after(scout, tier),
    {
        Self::require_not_paused(env)?;
        Self::require_initialized(env)?;
        env.ask(HostCall::RequireAuth(scout.clone()));

        let config = Self::fee_config(env);
        let fee: i128 = Self::price(&config, tier);
        let token = Self::xlm_token(env);
        let to = env.contract.clone();
        env.ask(HostCall::Transfer { token, from: scout.clone(), to, amount: fee });
        Self::accumulate_fee(env, fee);

        let now: u64 = env.timestamp;
        let sub = Subscription {
            scout: scout.clone(),
            tier,
            expires_at: now + config.sub_duration_secs,
            subscribed_at: now,
        };
        env.store(Entry::Subscription(scout.clone(), sub));
        Self::extend_subscription(env, &scout);
        env.ask(HostCall::Publish(Event::ScoutSubscribed { scout, tier }));
        Ok(())
    }

    /// The price of a subscription of the given tier.
    fn price(config: &FeeConfig, tier: SubscriptionTier) -> (fee: i128)
        ensures
            fee == config.price(tier),
    {
        match tier {
            SubscriptionTier::Basic => config.basic_sub_stroops,
            SubscriptionTier::Pro => config.pro_sub_stroops,
            SubscriptionTier::Elite => config.elite_sub_stroops,
        }
    }
}

// Paid contacts.
impl ScoutAccessContract {
    /// The fault on which `pay_to_contact` would be abandoned.
    pub fn pay_to_contact_trap(env: &Env, scout: &Address, player_id: u64) -> (trap: Option<Trap>)
        ensures
            trap == env@.pay_to_contact_trap(*scout, player_id),
    {
        if Self::require_not_paused(env).is_err() || Self::check_contact(env, scout, player_id).is_err()
            || env.storage.instance.registration_contract.is_some() {
            None
        } else {
            Self::contact_fee_trap(env)
        }
    }

    /// The fault on which the charge for a contact would be abandoned, and
    /// `finish_contact` with it, for a player that exists.
    pub fn contact_fee_trap(env: &Env) -> (trap: Option<Trap>)
        ensures
            trap == env@.contact_fee_trap(),
    {
        if env.storage.instance.fee_config.is_none() {
            return Some(Trap::FeeConfigNotSet);
        }
        Self::charge_trap(env, Self::fee_config(env).contact_fee_stroops)
    }

    /// Unlocks a player's contact details for a fee.
    ///
    /// The scout needs an active subscription. Where a registration contract
    /// is set, the player is looked up there first, and `finish_contact`
    /// completes the call.
    pub fn pay_to_contact(env: &mut Env, scout: Address, player_id: u64) -> (res: Result<
        Step<()>,
        ScoutAccessError,
    >)
        requires
            old(env)@.pay_to_contact_trap(scout, player_id) is None,
        ensures
            res == old(env)@.pay_to_contact_result(scout, player_id),
            final(env)@ == old(env)@.pay_to_contact_after(scout, player_id),
    {
        Self::require_not_paused(env)?;
        env.ask(HostCall::RequireAuth(scout.clone()));
        Self::check_contact(env, &scout, player_id)?;

        if let Some(registration) = &env.storage.instance.registration_contract {
            let registration = registration.clone();
            return Ok(Step::Ask(Query::GetPlayer { registration, player_id }));
        }
        Self::charge_contact(env, scout, player_id);
        Ok(Step::Done(()))
    }

    /// Completes a `pay_to_contact` that asked the registration contract:
    /// `found` says whether it knows the player.
    pub fn finish_contact(env: &mut Env, scout: Address, player_id: u64, found: bool) -> (res:
        Result<(), ScoutAccessError>)
        requires
            found ==> old(env)@.contact_fee_trap() is None,
        ensures
            res == old(env)@.finish_contact_result(found),
            final(env)@ == old(env)@.finish_contact_after(scout, player_id, found),
    {
        if !found {
            return Err(ScoutAccessError::PlayerNotFound);
        }
        Self::charge_contact(env, scout, player_id);
        Ok(())
    }

    /// Whether the scout may contact the player, on a contract that is not
    /// paused.
    fn check_contact(env: &Env, scout: &Address, player_id: u64) -> (res: Result<
        (),
        ScoutAccessError,
    >)
        requires
            !env@.storage.paused(),
        ensures
            res == env@.contact_check(*scout, player_id),
    {
        Self::require_active_subscription(env, scout)?;
        if env.storage.contacts.has(&(player_id, scout.clone())) {
            return Err(ScoutAccessError::AlreadyContacted);
        }
        Ok(())
    }

    /// Charges the scout for a contact, and records it.
    fn charge_contact(env: &mut Env, scout: Address, player_id: u64)
        requires
            old(env)@.contact_fee_trap() is None,
        ensures
            final(env)@ == old(env)@.contact_after(scout, player_id),
    {
        let fee: i128 = Self::fee_config(env).contact_fee_stroops;
        let token = Self::xlm_token(env);
        let to = env.contract.clone();
        env.ask(HostCall::Transfer { token, from: scout.clone(), to, amount: fee });
        Self::accumulate_fee(env, fee);

        env.store(Entry::ContactRecord(player_id, scout.clone(), true));
        Self::extend_contact(env, player_id, &scout);
        Self::extend_subscription(env, &scout);
        env.ask(HostCall::Publish(Event::PlayerContacted { player_id, scout }));
    }
}

// Trial offers.
impl ScoutAccessContract {
    /// The fault on which `log_trial_offer` would be abandoned.
    pub fn log_trial_offer_trap(env: &Env, scout: &Address, player_id: u64) -> (trap: Option<
        Trap,
    >)
        ensures
            trap == env@.log_trial_offer_trap(*scout, player_id),
    {
        if Self::require_not_paused(env).is_ok() && Self::check_trial(env, scout).is_ok()
            && Self::trial_count(env, player_id) == u32::MAX {
            Some(Trap::Overflow)
        } else {
            None
        }
    }

    /// Logs a trial offer, and answers with its index.
    ///
    /// The scout needs an active Elite subscription. Where a progress contract
    /// is set, it is asked to advance the player, and `finish_trial_offer`
    /// completes the call.
    pub fn log_trial_offer(
        env: &mut Env,
        scout: Address,
        player_id: u64,
        details_hash: String,
    ) -> (res: Result<Step<u32>, ScoutAccessError>)
        requires
            old(env)@.log_trial_offer_trap(scout, player_id) is None,
        ensures
            res == old(env)@.log_trial_offer_result(scout, player_id),
            final(env)@ == old(env)@.log_trial_offer_after(scout, player_id, details_hash),
    {
        Self::require_not_paused(env)?;
        env.ask(HostCall::RequireAuth(scout.clone()));
        Self::check_trial(env, &scout)?;
        Self::extend_subscription(env, &scout);

        let index: u32 = Self::trial_count(env, player_id) + 1;
        let offer = TrialOffer {
            player_id,
            scout: scout.clone(),
            details_hash,
            logged_at: env.timestamp,
        };
        env.store(Entry::TrialOffer(player_id, index, offer));
        Self::extend_trial_offer(env, player_id, index);
        env.store(Entry::TrialCounter(player_id, index));
        Self::extend_trial_counter(env, player_id);
        env.ask(HostCall::Publish(Event::TrialOfferLogged { player_id, scout: scout.clone() }));

        if let Some(progress) = &env.storage.instance.progress_contract {
            let progress = progress.clone();
            return Ok(Step::Ask(Query::AdvanceLevel { progress, scout, player_id, index }));
        }
        Ok(Step::Done(index))
    }

    /// Completes a `log_trial_offer` that asked the progress contract. That
    /// the player is at the top already is no failure.
    pub fn finish_trial_offer(index: u32, reply: AdvanceReply) -> (res: Result<
        u32,
        ScoutAccessError,
    >)
        ensures
            res == crate::scout_access::model::finish_trial_offer_result(index, reply),
    {
        match reply {
            AdvanceReply::Advanced => Ok(index),
            AdvanceReply::AlreadyAtMaxLevel => Ok(index),
            AdvanceReply::Failed => Err(ScoutAccessError::ProgressCallFailed),
        }
    }

    /// Whether the scout may log trial offers, on a contract that is not
    /// paused.
    fn check_trial(env: &Env, scout: &Address) -> (res: Result<(), ScoutAccessError>)
        requires
            !env@.storage.paused(),
        ensures
            res == env@.trial_check(*scout),
    {
        let sub = Self::require_active_subscription(env, scout)?;
        if sub.tier != SubscriptionTier::Elite {
            return Err(ScoutAccessError::Unauthorized);
        }
        Ok(())
    }

    /// The number of trial offers made to a player.
    fn trial_count(env: &Env, player_id: u64) -> (count: u32)
        ensures
            count == env@.storage.trial_count(player_id),
    {
        match env.storage.trial_counters.get(&player_id) {
            Some(count) => *count,
            None => 0,
        }
    }
}

// Queries.
impl ScoutAccessContract {
    /// The subscription of a scout, active or not.
    pub fn get_subscription(env: &mut Env, scout: Address) -> (res: Result<
        Subscription,
        ScoutAccessError,
    >)
        ensures
            res == old(env)@.get_subscription_result(scout),
            final(env)@ == old(env)@.get_subscription_after(scout),
    {
        let sub = match env.storage.subscriptions.get(&scout) {
            Some(sub) => sub.clone(),
            None => {
                return Err(ScoutAccessError::ScoutNotSubscribed);
            },
        };
        Self::extend_subscription(env, &scout);
        Ok(sub)
    }

    /// The fault on which `get_fee_config` would be abandoned.
    pub fn get_fee_config_trap(env: &Env) -> (trap: Option<Trap>)
        ensures
            trap == env@.get_fee_config_trap(),
    {
        if env.storage.instance.fee_config.is_none() {
            Some(Trap::FeeConfigNotSet)
        } else {
            None
        }
    }

    /// The fees in force.
    pub fn get_fee_config(env: &Env) -> (config: FeeConfig)
        requires
            env@.get_fee_config_trap() is None,
        ensures
            env@.storage.instance.fee_config == Some(config),
    {
        Self::fee_config(env)
    }

    /// The fees collected since the last withdrawal.
    pub fn get_accumulated_fees(env: &Env) -> (fees: i128)
        ensures
            fees == env@.storage.fees(),
    {
        match env.storage.instance.accumulated_fees {
            Some(fees) => fees,
            None => 0,
        }
    }

    /// Whether the scout has unlocked the player's contact details.
    pub fn has_contacted(env: &mut Env, scout: Address, player_id: u64) -> (found: bool)
        ensures
            found == old(env)@.has_contacted_result(scout, player_id),
            final(env)@ == old(env)@.has_contacted_after(scout, player_id),
    {
        let found = env.storage.contacts.has(&(player_id, scout.clone()));
        if found {
            Self::extend_contact(env, player_id, &scout);
        }
        found
    }

    /// A trial offer, by the player and the offer's index.
    pub fn get_trial_offer(env: &mut Env, player_id: u64, index: u32) -> (res: Result<
        TrialOffer,
        ScoutAccessError,
    >)
        ensures
            res == old(env)@.get_trial_offer_result(player_id, index),
            final(env)@ == old(env)@.get_trial_offer_after(player_id, index),
    {
        let offer = match env.storage.trial_offers.get(&(player_id, index)) {
            Some(offer) => offer.clone(),
            None => {
                return Err(ScoutAccessError::TrialOfferNotFound);
            },
        };
        Self::extend_trial_offer(env, player_id, index);
        Ok(offer)
    }

    /// The number of trial offers made to a player.
    pub fn get_trial_count(env: &mut Env, player_id: u64) -> (count: u32)
        ensures
            count == old(env)@.storage.trial_count(player_id),
            final(env)@ == old(env)@.get_trial_count_after(player_id),
    {
        let count: u32 = Self::trial_count(env, player_id);
        if count > 0 {
            Self::extend_trial_counter(env, player_id);
        }
        count
    }

    /// Whether the contract was initialized.
    pub fn health(env: &Env) -> (b: bool)
        ensures
            b == env@.storage.initialized(),
    {
        match env.storage.instance.initialized {
            Some(initialized) => initialized,
            None => false,
        }
    }
}

// Internal helpers.
impl ScoutAccessContract {
    /// Asks for the admin's authorization.
    fn require_admin(env: &mut Env) -> (res: Result<(), ScoutAccessError>)
        ensures
            res == old(env)@.admin_result(),
            match old(env)@.storage.instance.admin {
                Some(admin) => final(env)@ == old(env)@.asks(seq![HostCall::RequireAuth(admin)]),
                None => final(env)@ == old(env)@,
            },
    {
        let admin = match &env.storage.instance.admin {
            Some(admin) => admin.clone(),
            None => {
                return Err(ScoutAccessError::NotInitialized);
            },
        };
        env.ask(HostCall::RequireAuth(admin));
        Ok(())
    }

    /// Refuses a contract that is not initialized.
    fn require_initialized(env: &Env) -> (res: Result<(), ScoutAccessError>)
        ensures
            res == (if env@.storage.initialized() {
                Ok(())
            } else {
                Err(ScoutAccessError::NotInitialized)
            }),
    {
        if !Self::health(env) {
            return Err(ScoutAccessError::NotInitialized);
        }
        Ok(())
    }

    /// Refuses a contract that is paused.
    fn require_not_paused(env: &Env) -> (res: Result<(), ScoutAccessError>)
        ensures
            res == (if env@.storage.paused() {
                Err(ScoutAccessError::ContractPaused)
            } else {
                Ok(())
            }),
    {
        match env.storage.instance.paused {
            Some(true) => Err(ScoutAccessError::ContractPaused),
            _ => Ok(()),
        }
    }

    /// The subscription of a scout, which has to be active.
    fn require_active_subscription(env: &Env, scout: &Address) -> (res: Result<
        Subscription,
        ScoutAccessError,
    >)
        ensures
            res == env@.active_subscription(*scout),
    {
        match env.storage.subscriptions.get(scout) {
            None => Err(ScoutAccessError::ScoutNotSubscribed),
            Some(sub) => if env.timestamp > sub.expires_at {
                Err(ScoutAccessError::SubscriptionExpired)
            } else {
                Ok(sub.clone())
            },
        }
    }

    /// The fees in force.
    fn fee_config(env: &Env) -> (config: FeeConfig)
        requires
            env@.storage.instance.fee_config is Some,
        ensures
            env@.storage.instance.fee_config == Some(config),
    {
        env.storage.instance.fee_config.unwrap()
    }

    /// The token in which fees are paid.
    fn xlm_token(env: &Env) -> (token: Address)
        requires
            env@.storage.instance.xlm_token is Some,
        ensures
            env@.storage.instance.xlm_token == Some(token),
    {
        env.storage.instance.xlm_token.as_ref().unwrap().clone()
    }

    /// Adds a fee to those collected.
    fn accumulate_fee(env: &mut Env, amount: i128)
        requires
            i128::MIN <= old(env)@.storage.fees() + amount <= i128::MAX,
        ensures
            final(env)@ == ({
                let entry = Entry::AccumulatedFees((old(env)@.storage.fees() + amount) as i128);
                old(env)@.after(old(env)@.storage.write(entry), seq![HostCall::Store(entry)])
            }),
    {
        let current: i128 = Self::get_accumulated_fees(env);
        env.store(Entry::AccumulatedFees(current + amount));
    }

    /// The fault on which the charge of a fee would be abandoned.
    fn charge_trap(env: &Env, fee: i128) -> (trap: Option<Trap>)
        ensures
            trap == (if env@.storage.instance.xlm_token is None {
                Some(Trap::XlmTokenNotSet)
            } else if !env@.storage.can_charge(fee) {
                Some(Trap::FeesOverflow)
            } else {
                None
            }),
    {
        if env.storage.instance.xlm_token.is_none() {
            Some(Trap::XlmTokenNotSet)
        } else if Self::get_accumulated_fees(env).checked_add(fee).is_none() {
            Some(Trap::FeesOverflow)
        } else {
            None
        }
    }

    /// Keeps a subscription alive.
    fn extend_subscription(env: &mut Env, scout: &Address)
        ensures
            final(env)@ == old(env)@.asks(
                seq![crate::scout_access::model::keep_subscription(*scout)],
            ),
    {
        env.ask(
            HostCall::ExtendTtl {
                key: DataKey::Subscription(scout.clone()),
                threshold: PERSISTENT_TTL_MIN,
                extend_to: PERSISTENT_TTL_MAX,
            },
        );
    }

    /// Keeps a contact record alive.
    fn extend_contact(env: &mut Env, player_id: u64, scout: &Address)
        ensures
            final(env)@ == old(env)@.asks(
                seq![crate::scout_access::model::keep_contact(player_id, *scout)],
            ),
    {
        env.ask(
            HostCall::ExtendTtl {
                key: DataKey::ContactRecord(player_id, scout.clone()),
                threshold: PERSISTENT_TTL_MIN,
                extend_to: PERSISTENT_TTL_MAX,
            },
        );
    }

    /// Keeps a trial offer alive.
    fn extend_trial_offer(env: &mut Env, player_id: u64, index: u32)
        ensures
            final(env)@ == old(env)@.asks(
                seq![crate::scout_access::model::keep_trial_offer(player_id, index)],
            ),
    {
        env.ask(
            HostCall::ExtendTtl {
                key: DataKey::TrialOffer(player_id, index),
                threshold: TRIAL_TTL_THRESHOLD,
                extend_to: TRIAL_TTL_EXTEND_TO,
            },
        );
    }

    /// Keeps the number of a player's trial offers alive.
    fn extend_trial_counter(env: &mut Env, player_id: u64)
        ensures
            final(env)@ == old(env)@.asks(
                seq![crate::scout_access::model::keep_trial_counter(player_id)],
            ),
    {
        env.ask(
            HostCall::ExtendTtl {
                key: DataKey::TrialCounter(player_id),
                threshold: TRIAL_TTL_THRESHOLD,
                extend_to: TRIAL_TTL_EXTEND_TO,
            },
        );
    }
}

} // verus!
