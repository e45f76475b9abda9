//! What `subscribe` does, said of what is stored.
use vstd::prelude::*;

use crate::scout_access::env::{Entry, EnvView, Instance};
use crate::scout_access::errors::{ScoutAccessError, Trap};
use crate::scout_access::events::Event;
use crate::scout_access::laws::requests::{Extension, Requests};
use crate::scout_access::types::{Address, DataKey, FeeConfig, SubscriptionTier};

verus! {

/// A scout can subscribe exactly if the contract is set up and not paused. A
/// paused contract says so first. A refused scout is asked for nothing, and
/// nothing changes.
pub proof fn law_who_can_subscribe(env: EnvView, scout: Address, tier: SubscriptionTier)
    ensures
        env.subscribe_result() == Err::<(), _>(ScoutAccessError::ContractPaused)
            <==> env.storage.instance.paused == Some(true),
        env.subscribe_result() == Err::<(), _>(ScoutAccessError::NotInitialized)
            <==> env.storage.instance.paused != Some(true)
            && env.storage.instance.initialized != Some(true),
        env.subscribe_result() is Ok <==> env.storage.instance.paused != Some(true)
            && env.storage.instance.initialized == Some(true),
        env.storage.instance.paused == Some(true) || env.storage.instance.initialized != Some(true)
            ==> env.subscribe_after(scout, tier) == env && env.subscribe_trap(tier) is None,
{
}

/// Where a scout can subscribe, the call is abandoned exactly if there are no
/// prices, or no token, or the fees with the price of the tier among them do not
/// fit in 128 bits, or the end of the subscription does not fit in 64. The first
/// of these that holds is the fault.
pub proof fn law_subscribe_faults(env: EnvView, tier: SubscriptionTier, collected: i128)
    requires
        env.storage.instance.paused != Some(true),
        env.storage.instance.initialized == Some(true),
        env.storage.instance.accumulated_fees == Some(collected)
            || env.storage.instance.accumulated_fees is None && collected == 0,
    ensures
        ({
            let config = env.storage.instance.fee_config->0;
            let priced = env.storage.instance.fee_config is Some;
            let payable = priced && env.storage.instance.xlm_token is Some;
            let sum = collected + match tier {
                SubscriptionTier::Basic => config.basic_sub_stroops,
                SubscriptionTier::Pro => config.pro_sub_stroops,
                SubscriptionTier::Elite => config.elite_sub_stroops,
            };
            let countable = payable && i128::MIN <= sum <= i128::MAX;
            let end = env.timestamp + config.sub_duration_secs;
            &&& env.subscribe_trap(tier) == Some(Trap::FeeConfigNotSet) <==> !priced
            &&& env.subscribe_trap(tier) == Some(Trap::XlmTokenNotSet) <==> priced && !payable
            &&& env.subscribe_trap(tier) == Some(Trap::FeesOverflow) <==> payable && !countable
            &&& env.subscribe_trap(tier) == Some(Trap::Overflow) <==> countable && end > u64::MAX
            &&& env.subscribe_trap(tier) is None <==> countable && end <= u64::MAX
        }),
{
}

/// A scout who subscribes pays, in one transfer to the contract, the amount that
/// is configured for the tier, and the fees grow by just that amount. The scout
/// alone authorizes it.
pub proof fn law_subscriber_pays_the_configured_price(
    env: EnvView,
    scout: Address,
    tier: SubscriptionTier,
    config: FeeConfig,
    token: Address,
    collected: i128,
)
    requires
        env.subscribe_result() is Ok,
        env.subscribe_trap(tier) is None,
        env.storage.instance.fee_config == Some(config),
        env.storage.instance.xlm_token == Some(token),
        env.storage.instance.accumulated_fees == Some(collected)
            || env.storage.instance.accumulated_fees is None && collected == 0,
    ensures
        ({
            let after = env.subscribe_after(scout, tier);
            let asked = Requests::between(env, after);
            let paid = asked.payments[0];
            &&& crate::scout_access::laws::requests::continues(env, after)
            &&& asked.authorizations == seq![scout]
            &&& asked.payments.len() == 1
            &&& paid.token == token
            &&& paid.from == scout
            &&& paid.to == env.contract
            &&& tier == SubscriptionTier::Basic ==> paid.amount == config.basic_sub_stroops
            &&& tier == SubscriptionTier::Pro ==> paid.amount == config.pro_sub_stroops
            &&& tier == SubscriptionTier::Elite ==> paid.amount == config.elite_sub_stroops
            &&& after.storage.instance.accumulated_fees matches Some(fees)
            &&& fees == collected + paid.amount
            &&& after.storage.instance == (Instance {
                accumulated_fees: Some(fees),
                ..env.storage.instance
            })
            &&& asked.writes.len() == 2
            &&& asked.writes[0] == Entry::AccumulatedFees(fees)
        }),
{
    let after = env.subscribe_after(scout, tier);
    assert(after.calls.take(env.calls.len() as int) =~= env.calls);
    crate::scout_access::laws::requests::lemma_requests(env, after);
}

/// A scout who subscribes is given a subscription of the tier that was asked
/// for, which starts now and ends after the configured time. It takes the place
/// of an earlier one; the subscriptions of others, the contacts and the trial
/// offers stay as they are. The entry is kept alive, and the subscription
/// announced.
pub proof fn law_subscriber_is_given_the_tier_asked_for(
    env: EnvView,
    scout: Address,
    tier: SubscriptionTier,
    config: FeeConfig,
)
    requires
        env.subscribe_result() is Ok,
        env.subscribe_trap(tier) is None,
        env.storage.instance.fee_config == Some(config),
    ensures
        ({
            let after = env.subscribe_after(scout, tier);
            let asked = Requests::between(env, after);
            let given = after.storage.subscriptions[scout@];
            &&& after.storage.subscriptions.contains_key(scout@)
            &&& given.scout == scout
            &&& given.tier == tier
            &&& given.subscribed_at == env.timestamp
            &&& given.expires_at == env.timestamp + config.sub_duration_secs
            &&& asked.writes.len() == 2
            &&& asked.writes[1] == Entry::Subscription(scout, given)
            &&& asked.extensions == seq![
                Extension {
                    key: DataKey::Subscription(scout),
                    threshold: 120_960,
                    extend_to: 241_920,
                },
            ]
            &&& asked.events == seq![Event::ScoutSubscribed { scout, tier }]
            &&& forall|other: Seq<char>|
                other != scout@ ==> {
                    &&& #[trigger] after.storage.subscriptions.contains_key(other)
                        <==> env.storage.subscriptions.contains_key(other)
                    &&& after.storage.subscriptions[other] == env.storage.subscriptions[other]
                }
            &&& after.storage.contacts == env.storage.contacts
            &&& after.storage.trial_counters == env.storage.trial_counters
            &&& after.storage.trial_offers == env.storage.trial_offers
        }),
{
    let after = env.subscribe_after(scout, tier);
    crate::scout_access::laws::requests::lemma_requests(env, after);
}

/// A subscription that was bought is the one that is read back, whoever else
/// subscribed before.
pub proof fn law_bought_subscription_is_read_back(
    env: EnvView,
    scout: Address,
    tier: SubscriptionTier,
    config: FeeConfig,
)
    requires
        env.subscribe_result() is Ok,
        env.subscribe_trap(tier) is None,
        env.storage.instance.fee_config == Some(config),
    ensures
        env.subscribe_after(scout, tier).get_subscription_result(scout) matches Ok(sub) && {
            &&& sub.scout == scout
            &&& sub.tier == tier
            &&& sub.subscribed_at == env.timestamp
            &&& sub.expires_at - sub.subscribed_at == config.sub_duration_secs
        },
{
}

} // verus!
