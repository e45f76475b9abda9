//! The calls of the contract as one kind of thing, for statements about all of
//! them.
use vstd::prelude::*;

use crate::scout_access::env::{AdvanceReply, Entry, EnvView, HostCall, Step, StorageView};
use crate::scout_access::errors::{ScoutAccessError, Trap};
use crate::scout_access::events::Event;
use crate::scout_access::types::{Address, DataKey, FeeConfig, SubscriptionTier};

verus! {

/// A call of the contract, with the answer of the other contract that it may
/// ask.
pub enum Call {
    Initialize { admin: Address, xlm_token: Address, fee_config: FeeConfig },
    UpdateFeeConfig { fee_config: FeeConfig },
    WithdrawFees { to: Address },
    PauseContract,
    UnpauseContract,
    SetProgressContract { addr: Address },
    SetRegistrationContract { addr: Address },
    Subscribe { scout: Address, tier: SubscriptionTier },
    PayToContact { scout: Address, player_id: u64, found: bool },
    LogTrialOffer { scout: Address, player_id: u64, details_hash: String, reply: AdvanceReply },
    GetSubscription { scout: Address },
    HasContacted { scout: Address, player_id: u64 },
    GetTrialOffer { player_id: u64, index: u32 },
    GetTrialCount { player_id: u64 },
    GetFeeConfig,
    GetAccumulatedFees,
    Health,
}

/// The error of a result.
pub open spec fn error_of<T>(res: Result<T, ScoutAccessError>) -> Option<ScoutAccessError> {
    match res {
        Ok(_) => None,
        Err(e) => Some(e),
    }
}

/// The events that the given calls of the host publish, in order.
pub open spec fn published(calls: Seq<HostCall>) -> Seq<Event>
    decreases calls.len(),
{
    if calls.len() == 0 {
        Seq::empty()
    } else {
        let before = published(calls.drop_last());
        match calls.last() {
            HostCall::Publish(event) => before.push(event),
            _ => before,
        }
    }
}

impl Call {
    /// The keys of the persistent storage that a call reads.
    pub open spec fn reads(self) -> Set<DataKey> {
        match self {
            Call::PayToContact { scout, player_id, .. } => set![
                DataKey::Subscription(scout),
                DataKey::ContactRecord(player_id, scout),
            ],
            Call::LogTrialOffer { scout, player_id, .. } => set![
                DataKey::Subscription(scout),
                DataKey::TrialCounter(player_id),
            ],
            Call::GetSubscription { scout } => set![DataKey::Subscription(scout)],
            Call::HasContacted { scout, player_id } => set![
                DataKey::ContactRecord(player_id, scout),
            ],
            Call::GetTrialOffer { player_id, index } => set![
                DataKey::TrialOffer(player_id, index),
            ],
            Call::GetTrialCount { player_id } => set![DataKey::TrialCounter(player_id)],
            _ => Set::empty(),
        }
    }
}

impl EnvView {
    /// Whether a contact waits for the registration contract.
    pub open spec fn contact_asks(self, scout: Address, player_id: u64) -> bool {
        self.pay_to_contact_result(scout, player_id) matches Ok(Step::Ask(_))
    }

    /// The fault on which a call is abandoned, if there is one.
    pub open spec fn trap(self, call: Call) -> Option<Trap> {
        match call {
            Call::WithdrawFees { .. } => self.withdraw_trap(),
            Call::Subscribe { tier, .. } => self.subscribe_trap(tier),
            Call::PayToContact { scout, player_id, found } => if self.contact_asks(
                scout,
                player_id,
            ) {
                if found {
                    self.pay_to_contact_after(scout, player_id).contact_fee_trap()
                } else {
                    None
                }
            } else {
                self.pay_to_contact_trap(scout, player_id)
            },
            Call::LogTrialOffer { scout, player_id, .. } => self.log_trial_offer_trap(
                scout,
                player_id,
            ),
            Call::GetFeeConfig => self.get_fee_config_trap(),
            _ => None,
        }
    }

    /// The error with which a call is refused, if it is.
    pub open spec fn error(self, call: Call) -> Option<ScoutAccessError> {
        match call {
            Call::Initialize { .. } => error_of(self.initialize_result()),
            Call::UpdateFeeConfig { .. } => error_of(self.admin_result()),
            Call::WithdrawFees { .. } => error_of(self.withdraw_result()),
            Call::PauseContract => error_of(self.admin_result()),
            Call::UnpauseContract => error_of(self.admin_result()),
            Call::SetProgressContract { .. } => error_of(self.admin_result()),
            Call::SetRegistrationContract { .. } => error_of(self.admin_result()),
            Call::Subscribe { .. } => error_of(self.subscribe_result()),
            Call::PayToContact { scout, player_id, found } => if self.contact_asks(
                scout,
                player_id,
            ) {
                error_of(self.pay_to_contact_after(scout, player_id).finish_contact_result(found))
            } else {
                error_of(self.pay_to_contact_result(scout, player_id))
            },
            Call::LogTrialOffer { scout, player_id, reply, .. } => match
                self.log_trial_offer_result(scout, player_id) {
                Ok(Step::Ask(_)) => error_of(
                    crate::scout_access::model::finish_trial_offer_result(self.next_index(player_id), reply),
                ),
                other => error_of(other),
            },
            Call::GetSubscription { scout } => error_of(self.get_subscription_result(scout)),
            Call::GetTrialOffer { player_id, index } => error_of(
                self.get_trial_offer_result(player_id, index),
            ),
            Call::HasContacted { .. } => None,
            Call::GetTrialCount { .. } => None,
            Call::GetFeeConfig => None,
            Call::GetAccumulatedFees => None,
            Call::Health => None,
        }
    }

    /// The environment at the end of a call, before the host commits what was
    /// stored and announced, or takes it back: see `committed_if`.
    pub open spec fn done(self, call: Call) -> EnvView {
        match call {
            Call::Initialize { admin, xlm_token, fee_config } => self.initialize_after(
                admin,
                xlm_token,
                fee_config,
            ),
            Call::UpdateFeeConfig { fee_config } => self.admin_store_after(
                Entry::FeeConfig(fee_config),
            ),
            Call::WithdrawFees { to } => self.withdraw_after(to),
            Call::PauseContract => self.admin_store_after(Entry::Paused(true)),
            Call::UnpauseContract => self.admin_store_after(Entry::Paused(false)),
            Call::SetProgressContract { addr } => self.admin_store_after(
                Entry::ProgressContract(addr),
            ),
            Call::SetRegistrationContract { addr } => self.admin_store_after(
                Entry::RegistrationContract(addr),
            ),
            Call::Subscribe { scout, tier } => self.subscribe_after(scout, tier),
            Call::PayToContact { scout, player_id, found } => if self.contact_asks(
                scout,
                player_id,
            ) {
                self.pay_to_contact_after(scout, player_id).finish_contact_after(
                    scout,
                    player_id,
                    found,
                )
            } else {
                self.pay_to_contact_after(scout, player_id)
            },
            Call::LogTrialOffer { scout, player_id, details_hash, .. } =>
                self.log_trial_offer_after(scout, player_id, details_hash),
            Call::GetSubscription { scout } => self.get_subscription_after(scout),
            Call::HasContacted { scout, player_id } => self.has_contacted_after(scout, player_id),
            Call::GetTrialOffer { player_id, index } => self.get_trial_offer_after(
                player_id,
                index,
            ),
            Call::GetTrialCount { player_id } => self.get_trial_count_after(player_id),
            Call::GetFeeConfig => self,
            Call::GetAccumulatedFees => self,
            Call::Health => self,
        }
    }

    /// What a call asks of the host, in order.
    pub open spec fn asked(self, call: Call) -> Seq<HostCall> {
        self.done(call).calls.skip(self.calls.len() as int)
    }

    /// Whether a call is not completed: it is abandoned on a fault, or refused.
    pub open spec fn fails(self, call: Call) -> bool {
        self.trap(call) is Some || self.error(call) is Some
    }

    /// The storage that the ledger holds once a call is over. The host takes
    /// back all of a call that fails, and of one for which it did not carry
    /// out all that was asked: an authorization was missing, or a transfer
    /// failed.
    pub open spec fn committed_if(self, call: Call, carried_out: bool) -> StorageView {
        if !carried_out || self.fails(call) {
            self.storage
        } else {
            self.done(call).storage
        }
    }

    /// What stays of what a call has asked of the host, once the call is over.
    pub open spec fn kept_if(self, call: Call, carried_out: bool) -> Seq<HostCall> {
        if !carried_out || self.fails(call) {
            Seq::empty()
        } else {
            self.asked(call)
        }
    }

    /// The events of a call that are announced once it is over.
    pub open spec fn announced_if(self, call: Call, carried_out: bool) -> Seq<Event> {
        published(self.kept_if(call, carried_out))
    }

    /// The storage that the ledger holds once a call is over for which the host
    /// carried out all that was asked.
    pub open spec fn committed(self, call: Call) -> StorageView {
        self.committed_if(call, true)
    }

    /// Whether a host that grants the given requests carries out all that a
    /// call asks for.
    pub open spec fn carried_out(self, call: Call, grants: spec_fn(HostCall) -> bool) -> bool {
        forall|i: int| 0 <= i < self.asked(call).len() ==> grants(#[trigger] self.asked(call)[i])
    }

    /// The environment at another time.
    pub open spec fn at(self, timestamp: u64) -> EnvView {
        EnvView { timestamp, ..self }
    }

    /// The party that a call needs the authorization of, if any.
    pub open spec fn authorizer(self, call: Call) -> Option<Address> {
        match call {
            Call::Initialize { admin, .. } => Some(admin),
            Call::UpdateFeeConfig { .. } => self.storage.instance.admin,
            Call::WithdrawFees { .. } => self.storage.instance.admin,
            Call::PauseContract => self.storage.instance.admin,
            Call::UnpauseContract => self.storage.instance.admin,
            Call::SetProgressContract { .. } => self.storage.instance.admin,
            Call::SetRegistrationContract { .. } => self.storage.instance.admin,
            Call::Subscribe { scout, .. } => Some(scout),
            Call::PayToContact { scout, .. } => Some(scout),
            Call::LogTrialOffer { scout, .. } => Some(scout),
            _ => None,
        }
    }
}

} // verus!
