//! What holds of the storage at all times.
use vstd::prelude::*;

use crate::scout_access::calls::Call;
use crate::scout_access::env::{EnvView, StorageView};
use crate::scout_access::errors::Trap;

verus! {

impl StorageView {
    /// What is set up is set up completely, and before that nothing is stored.
    pub open spec fn set_up_as_one(self) -> bool {
        let set_up = self.initialized();
        &&& self.instance.initialized is Some <==> set_up
        &&& self.instance.admin is Some <==> set_up
        &&& self.instance.xlm_token is Some <==> set_up
        &&& self.instance.fee_config is Some <==> set_up
        &&& self.instance.paused is Some <==> set_up
        &&& self.instance.accumulated_fees is Some <==> set_up
        &&& self.instance.progress_contract is Some ==> set_up
        &&& self.instance.registration_contract is Some ==> set_up
        &&& forall|scout: Seq<char>| #[trigger]
            self.subscriptions.contains_key(scout) ==> set_up
    }

    /// A subscription is stored under its scout, and does not end before it
    /// begins.
    pub open spec fn subscriptions_sound(self) -> bool {
        forall|scout: Seq<char>| #[trigger]
            self.subscriptions.contains_key(scout) ==> {
                &&& self.subscriptions[scout].scout@ == scout
                &&& self.subscriptions[scout].subscribed_at <= self.subscriptions[scout].expires_at
            }
    }

    /// Only a scout who has subscribed has contacts.
    pub open spec fn contacts_sound(self) -> bool {
        forall|player_id: u64, scout: Seq<char>| #[trigger]
            self.contacts.contains_key((player_id, scout)) ==> {
                &&& self.contacts[(player_id, scout)]
                &&& self.subscriptions.contains_key(scout)
            }
    }

    /// A player's trial offers are numbered from 1 without a gap, and each was
    /// made to that player by a scout who has subscribed.
    pub open spec fn trial_offers_sound(self) -> bool {
        forall|player_id: u64, index: u32|
            {
                &&& #[trigger] self.trial_offers.contains_key((player_id, index)) <==> 1 <= index
                    <= self.trial_count(player_id)
                &&& self.trial_offers.contains_key((player_id, index)) ==> {
                    let offer = self.trial_offers[(player_id, index)];
                    offer.player_id == player_id && self.subscriptions.contains_key(offer.scout@)
                }
            }
    }

    /// What holds of the whole storage at all times.
    pub open spec fn sound(self) -> bool {
        &&& self.set_up_as_one()
        &&& self.subscriptions_sound()
        &&& self.contacts_sound()
        &&& self.trial_offers_sound()
    }
}

/// The storage of a contract that was never called is sound.
pub proof fn law_new_storage_is_sound()
    ensures
        StorageView::empty().sound(),
{
}

/// Every call that is not abandoned, refused or not, leaves a sound storage
/// sound.
pub proof fn law_calls_keep_storage_sound(env: EnvView, call: Call)
    requires
        env.storage.sound(),
        env.trap(call) is None,
    ensures
        env.done(call).storage.sound(),
{
    let before = env.storage;
    let after = env.done(call).storage;
    assert forall|p: u64, i: u32|
        {
            &&& #[trigger] after.trial_offers.contains_key((p, i)) <==> 1 <= i
                <= after.trial_count(p)
            &&& after.trial_offers.contains_key((p, i)) ==> {
                let offer = after.trial_offers[(p, i)];
                offer.player_id == p && after.subscriptions.contains_key(offer.scout@)
            }
        } by {
        assert(before.trial_offers.contains_key((p, i)) <==> 1 <= i <= before.trial_count(p));
    }
}

/// On a sound storage no call is abandoned because something is not set: what
/// is left are sums that are not representable. The one exception is reading
/// the fees of a contract that was not initialized.
pub proof fn law_nothing_is_missing(env: EnvView, call: Call)
    requires
        env.storage.sound(),
    ensures
        env.trap(call) == Some(Trap::FeeConfigNotSet) <==> call is GetFeeConfig
            && !env.storage.initialized(),
        env.trap(call) != Some(Trap::XlmTokenNotSet),
{
}

/// Once set, the admin and the token stay as they are, and the contract stays
/// initialized, whatever is called.
pub proof fn law_admin_and_token_stay(env: EnvView, call: Call)
    requires
        env.storage.sound(),
        env.storage.initialized(),
    ensures
        env.done(call).storage.initialized(),
        env.done(call).storage.instance.admin == env.storage.instance.admin,
        env.done(call).storage.instance.xlm_token == env.storage.instance.xlm_token,
{
}

/// A subscription is changed only by its own scout's next one. Contacts and
/// trial offers, once recorded, stay as they are, whatever is called, and the
/// number of a player's trial offers never falls.
pub proof fn law_records_stay(env: EnvView, call: Call)
    requires
        env.storage.sound(),
        env.trap(call) is None,
    ensures
        forall|scout: Seq<char>| #[trigger]
            env.storage.subscriptions.contains_key(scout) ==> {
                let after = env.done(call).storage.subscriptions;
                &&& after.contains_key(scout)
                &&& !(call matches Call::Subscribe { scout: s, .. } && s@ == scout)
                    ==> after[scout] == env.storage.subscriptions[scout]
            },
        env.storage.contacts.submap_of(env.done(call).storage.contacts),
        env.storage.trial_offers.submap_of(env.done(call).storage.trial_offers),
        forall|player_id: u64|
            env.storage.trial_count(player_id) <= #[trigger] env.done(call).storage.trial_count(
                player_id,
            ),
{
    if let Call::LogTrialOffer { player_id, .. } = call {
        let index = env.next_index(player_id);
        if env.trial_check(call->LogTrialOffer_scout) is Ok {
            assert(!env.storage.trial_offers.contains_key((player_id, index)));
        }
    }
}

} // verus!
