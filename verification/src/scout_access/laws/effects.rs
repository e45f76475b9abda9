//! What one call means for those after it.
use vstd::prelude::*;

use crate::scout_access::calls::Call;
use crate::scout_access::env::{EnvView, Step};
use crate::scout_access::errors::ScoutAccessError;
use crate::scout_access::types::{Address, FeeConfig, Subscription, SubscriptionTier, TrialOffer};

verus! {

/// The contract is initialized at most once: after a first `initialize`
/// any other is refused, at any time, and changes nothing.
pub proof fn law_initialize_happens_once(
    env: EnvView,
    admin: Address,
    xlm_token: Address,
    fee_config: FeeConfig,
    again: Call,
    later: u64,
)
    requires
        again is Initialize,
    ensures
        ({
            let first = env.done(Call::Initialize { admin, xlm_token, fee_config }).at(later);
            &&& first.error(again) == Some(ScoutAccessError::AlreadyInitialized)
            &&& first.done(again) == first
        }),
{
}

/// A contract that was just initialized works, is not paused, charges the
/// given fees and has collected nothing.
pub proof fn law_initialize_starts_the_contract(
    env: EnvView,
    admin: Address,
    xlm_token: Address,
    fee_config: FeeConfig,
)
    requires
        env.storage.instance.initialized is None,
    ensures
        ({
            let after = env.done(Call::Initialize { admin, xlm_token, fee_config }).storage;
            &&& after.initialized()
            &&& !after.paused()
            &&& after.fees() == 0
            &&& after.instance.fee_config == Some(fee_config)
            &&& after.instance.admin == Some(admin)
            &&& after.instance.xlm_token == Some(xlm_token)
        }),
{
}

/// While the contract is paused, subscriptions, contacts and trial offers are
/// refused before anything is asked for.
pub proof fn law_paused_contract_refuses(env: EnvView, call: Call)
    requires
        env.storage.paused(),
        call is Subscribe || call is PayToContact || call is LogTrialOffer,
    ensures
        env.error(call) == Some(ScoutAccessError::ContractPaused),
        env.done(call) == env,
        env.trap(call) is None,
{
}

/// The admin's pausing pauses, and unpausing undoes it and nothing else.
pub proof fn law_unpause_undoes_pause(env: EnvView)
    requires
        env.storage.sound(),
        env.storage.initialized(),
    ensures
        env.done(Call::PauseContract).storage.paused(),
        !env.done(Call::UnpauseContract).storage.paused(),
        !env.storage.paused() ==> env.done(Call::PauseContract).done(Call::UnpauseContract).storage
            == env.storage,
{
    let both = env.done(Call::PauseContract).done(Call::UnpauseContract).storage;
    if !env.storage.paused() {
        assert(env.storage.instance.paused == Some(false));
        assert(both.instance == env.storage.instance);
    }
}

/// New fees are in force from the next call on, and change no subscription
/// that was bought before.
pub proof fn law_fee_config_is_read_back(env: EnvView, fee_config: FeeConfig)
    requires
        env.storage.instance.admin is Some,
    ensures
        ({
            let after = env.done(Call::UpdateFeeConfig { fee_config }).storage;
            &&& after.instance.fee_config == Some(fee_config)
            &&& after.subscriptions == env.storage.subscriptions
            &&& after.fees() == env.storage.fees()
        }),
{
}

/// A subscription that was bought is read back as it was bought, at any later
/// time, and the fees have grown by its price.
pub proof fn law_subscription_is_read_back(
    env: EnvView,
    scout: Address,
    tier: SubscriptionTier,
    later: u64,
)
    requires
        env.subscribe_result() is Ok,
        env.subscribe_trap(tier) is None,
    ensures
        ({
            let config = env.storage.instance.fee_config->0;
            let after = env.done(Call::Subscribe { scout, tier }).at(later);
            &&& after.get_subscription_result(scout) matches Ok(sub)
            &&& sub.scout == scout
            &&& sub.tier == tier
            &&& sub.subscribed_at == env.timestamp
            &&& sub.expires_at == env.timestamp + config.sub_duration_secs
            &&& after.storage.fees() == env.storage.fees() + config.price(tier)
        }),
{
}

/// A subscription is active through the last second of its time, and expired
/// from the next second on.
pub proof fn law_subscription_expires(
    env: EnvView,
    scout: Address,
    tier: SubscriptionTier,
    later: u64,
)
    requires
        env.subscribe_result() is Ok,
        env.subscribe_trap(tier) is None,
    ensures
        ({
            let end = env.timestamp + env.storage.instance.fee_config->0.sub_duration_secs;
            let after = env.done(Call::Subscribe { scout, tier }).at(later);
            &&& later <= end ==> after.active_subscription(scout) == Ok::<
                Subscription,
                ScoutAccessError,
            >(env.new_subscription(scout, tier))
            &&& later > end ==> after.active_subscription(scout) == Err::<
                Subscription,
                ScoutAccessError,
            >(ScoutAccessError::SubscriptionExpired)
        }),
{
}

/// A contact that was paid for is there, costs the contact fee, and cannot be
/// paid for again: at any later time a second call is refused and costs
/// nothing. If nothing else is against it, it is refused as
/// `AlreadyContacted`.
pub proof fn law_contact_is_paid_once(
    env: EnvView,
    scout: Address,
    player_id: u64,
    found: bool,
    found_again: bool,
    later: u64,
)
    requires
        env.trap(Call::PayToContact { scout, player_id, found }) is None,
        env.error(Call::PayToContact { scout, player_id, found }) is None,
    ensures
        ({
            let again = Call::PayToContact { scout, player_id, found: found_again };
            let after = env.done(Call::PayToContact { scout, player_id, found }).at(later);
            &&& !env.has_contacted_result(scout, player_id)
            &&& after.has_contacted_result(scout, player_id)
            &&& after.storage.fees() == env.storage.fees()
                + env.storage.instance.fee_config->0.contact_fee_stroops
            &&& after.error(again) is Some
            &&& after.done(again).storage == after.storage
            &&& after.active_subscription(scout) is Ok ==> after.error(again) == Some(
                ScoutAccessError::AlreadyContacted,
            )
        }),
{
}

/// A contact that is there is never charged for again, whatever has happened
/// since it was paid for.
pub proof fn law_known_contact_costs_nothing(
    env: EnvView,
    scout: Address,
    player_id: u64,
    found: bool,
)
    requires
        env.has_contacted_result(scout, player_id),
    ensures
        ({
            let call = Call::PayToContact { scout, player_id, found };
            &&& env.trap(call) is None
            &&& env.error(call) is Some
            &&& env.done(call).storage == env.storage
            &&& forall|i: int|
                0 <= i < env.asked(call).len() ==> #[trigger] env.asked(call)[i] is RequireAuth
        }),
{
    let call = Call::PayToContact { scout, player_id, found };
    assert(env.done(call).calls =~= env.calls + env.asked(call));
}

/// A contact is paid for only with an active subscription, and where a
/// registration contract is set only for a player that it knows.
pub proof fn law_contact_needs_subscription_and_player(
    env: EnvView,
    scout: Address,
    player_id: u64,
    found: bool,
)
    ensures
        ({
            let call = Call::PayToContact { scout, player_id, found };
            let registered = env.storage.instance.registration_contract is Some;
            &&& env.error(call) is None ==> env.active_subscription(scout) is Ok && (registered
                ==> found)
            &&& env.contact_check(scout, player_id) is Ok && registered && !found ==> env.error(
                call,
            ) == Some(ScoutAccessError::PlayerNotFound)
        }),
{
}

/// Without a registration contract no player is looked up: the call is done
/// at once, and it makes no difference which players exist.
pub proof fn law_without_registration_no_lookup(env: EnvView, scout: Address, player_id: u64)
    requires
        env.storage.instance.registration_contract is None,
        env.contact_check(scout, player_id) is Ok,
    ensures
        env.pay_to_contact_result(scout, player_id) == Ok::<Step<()>, ScoutAccessError>(
            Step::Done(()),
        ),
        env.done(Call::PayToContact { scout, player_id, found: true }) == env.done(
            Call::PayToContact { scout, player_id, found: false },
        ),
        env.done(Call::PayToContact { scout, player_id, found: false }).has_contacted_result(
            scout,
            player_id,
        ),
{
}

/// A trial offer that was logged is counted and read back as it was logged,
/// at any later time. It does not touch the offers to other players.
pub proof fn law_trial_offer_is_read_back(
    env: EnvView,
    call: Call,
    other: u64,
    later: u64,
)
    requires
        call is LogTrialOffer,
        env.trap(call) is None,
        env.error(call) is None,
    ensures
        ({
            let player_id = call->LogTrialOffer_player_id;
            let index = (env.storage.trial_count(player_id) + 1) as u32;
            let after = env.done(call).at(later);
            &&& after.storage.trial_count(player_id) == env.storage.trial_count(player_id) + 1
            &&& after.get_trial_offer_result(player_id, index) == Ok::<
                TrialOffer,
                ScoutAccessError,
            >(
                TrialOffer {
                    player_id,
                    scout: call->LogTrialOffer_scout,
                    details_hash: call->details_hash,
                    logged_at: env.timestamp,
                },
            )
            &&& other != player_id ==> after.storage.trial_count(other)
                == env.storage.trial_count(other)
        }),
{
}

/// Trial offers are for scouts with an active Elite subscription: a scout of
/// another tier is refused as `Unauthorized`, one without a subscription, or
/// with one that has expired, as such.
pub proof fn law_trial_offers_need_elite(env: EnvView, call: Call)
    requires
        call is LogTrialOffer,
        !env.storage.paused(),
    ensures
        match env.active_subscription(call->LogTrialOffer_scout) {
            Ok(sub) => sub.tier != SubscriptionTier::Elite ==> env.error(call) == Some(
                ScoutAccessError::Unauthorized,
            ),
            Err(e) => env.error(call) == Some(e),
        },
        env.error(call) is None ==> env.active_subscription(call->LogTrialOffer_scout) is Ok,
{
}

/// A trial offer is answered with its index whether the progress contract
/// advances the player or finds it at the top already; any other outcome is
/// an error.
pub proof fn law_progress_decides_at_last(env: EnvView, call: Call)
    requires
        call is LogTrialOffer,
        env.trial_check(call->LogTrialOffer_scout) is Ok,
    ensures
        env.error(call) == (if env.storage.instance.progress_contract is Some && call->reply
            is Failed {
            Some(ScoutAccessError::ProgressCallFailed)
        } else {
            None
        }),
{
}

} // verus!
