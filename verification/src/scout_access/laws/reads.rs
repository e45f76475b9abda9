//! Which stored entries a call depends on.
use vstd::prelude::*;

use crate::scout_access::calls::Call;
use crate::scout_access::env::{EnvView, StorageView};
use crate::scout_access::types::DataKey;

verus! {

/// Whether two maps have the same at a key: the same value, or none.
pub open spec fn same_at<K, V>(a: Map<K, V>, b: Map<K, V>, k: K) -> bool {
    &&& a.contains_key(k) <==> b.contains_key(k)
    &&& a.contains_key(k) ==> a[k] == b[k]
}

impl StorageView {
    /// Whether two storages have the same under a persistent key.
    pub open spec fn agrees_at(self, other: StorageView, key: DataKey) -> bool {
        match key {
            DataKey::Subscription(scout) => same_at(
                self.subscriptions,
                other.subscriptions,
                scout@,
            ),
            DataKey::ContactRecord(player_id, scout) => same_at(
                self.contacts,
                other.contacts,
                (player_id, scout@),
            ),
            DataKey::TrialCounter(player_id) => same_at(
                self.trial_counters,
                other.trial_counters,
                player_id,
            ),
            DataKey::TrialOffer(player_id, index) => same_at(
                self.trial_offers,
                other.trial_offers,
                (player_id, index),
            ),
            _ => true,
        }
    }
}

impl EnvView {
    /// Whether two environments agree on what a call depends on: the contract,
    /// the time, the instance storage, and the persistent entries it reads.
    pub open spec fn agrees_for(self, other: EnvView, call: Call) -> bool {
        &&& self.contract == other.contract
        &&& self.timestamp == other.timestamp
        &&& self.storage.instance == other.storage.instance
        &&& forall|key: DataKey| #[trigger]
            call.reads().contains(key) ==> self.storage.agrees_at(other.storage, key)
    }

    /// Whether a call is answered alike in two environments.
    pub open spec fn answers_alike(self, other: EnvView, call: Call) -> bool {
        match call {
            Call::WithdrawFees { .. } => self.withdraw_result() == other.withdraw_result(),
            Call::PayToContact { scout, player_id, .. } => self.pay_to_contact_result(
                scout,
                player_id,
            ) == other.pay_to_contact_result(scout, player_id),
            Call::LogTrialOffer { scout, player_id, .. } => self.log_trial_offer_result(
                scout,
                player_id,
            ) == other.log_trial_offer_result(scout, player_id),
            Call::GetSubscription { scout } => self.get_subscription_result(scout)
                == other.get_subscription_result(scout),
            Call::HasContacted { scout, player_id } => self.has_contacted_result(scout, player_id)
                == other.has_contacted_result(scout, player_id),
            Call::GetTrialOffer { player_id, index } => self.get_trial_offer_result(
                player_id,
                index,
            ) == other.get_trial_offer_result(player_id, index),
            Call::GetTrialCount { player_id } => self.storage.trial_count(player_id)
                == other.storage.trial_count(player_id),
            Call::GetFeeConfig => self.storage.instance.fee_config
                == other.storage.instance.fee_config,
            Call::GetAccumulatedFees => self.storage.fees() == other.storage.fees(),
            Call::Health => self.storage.initialized() == other.storage.initialized(),
            _ => self.error(call) == other.error(call),
        }
    }
}

/// A call depends on nothing in the persistent storage but the entries that it
/// reads: where two environments agree on those, it is abandoned, refused and
/// answered alike, and asks the host for the same. So it is enough to fetch
/// these entries before the call.
#[verifier::rlimit(40)]
#[verifier::spinoff_prover]
pub proof fn law_calls_depend_on_what_they_read(env: EnvView, other: EnvView, call: Call)
    requires
        env.agrees_for(other, call),
    ensures
        env.trap(call) == other.trap(call),
        env.error(call) == other.error(call),
        env.answers_alike(other, call),
        env.asked(call) == other.asked(call),
{
    match call {
        Call::PayToContact { scout, player_id, .. } => {
            assert(call.reads().contains(DataKey::Subscription(scout)));
            assert(call.reads().contains(DataKey::ContactRecord(player_id, scout)));
        },
        Call::LogTrialOffer { scout, player_id, .. } => {
            assert(call.reads().contains(DataKey::Subscription(scout)));
            assert(call.reads().contains(DataKey::TrialCounter(player_id)));
        },
        Call::GetSubscription { scout } => {
            assert(call.reads().contains(DataKey::Subscription(scout)));
        },
        Call::HasContacted { scout, player_id } => {
            assert(call.reads().contains(DataKey::ContactRecord(player_id, scout)));
        },
        Call::GetTrialOffer { player_id, index } => {
            assert(call.reads().contains(DataKey::TrialOffer(player_id, index)));
        },
        Call::GetTrialCount { player_id } => {
            assert(call.reads().contains(DataKey::TrialCounter(player_id)));
        },
        _ => {},
    }
    assert(env.asked(call) =~= other.asked(call));
}

/// A call that was given only a part of the storage, with all entries that it
/// reads, changes the whole storage as it would if it had been given that.
pub proof fn law_part_of_the_storage_is_enough(
    whole: EnvView,
    part: EnvView,
    call: Call,
    carried_out: bool,
)
    requires
        whole.agrees_for(part, call),
    ensures
        whole.kept_if(call, carried_out) == part.kept_if(call, carried_out),
        whole.committed_if(call, carried_out) == whole.storage.perform(
            part.kept_if(call, carried_out),
        ),
{
    law_calls_depend_on_what_they_read(whole, part, call);
    crate::scout_access::laws::commit::law_ledger_stores_what_is_kept(whole, call, carried_out);
}

} // verus!
