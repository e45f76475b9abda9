//! What `pay_to_contact` and `finish_contact` do, said of what is stored.
use vstd::prelude::*;

use crate::scout_access::calls::Call;
use crate::scout_access::env::{Entry, EnvView, Instance, Query, Step};
use crate::scout_access::errors::{ScoutAccessError, Trap};
use crate::scout_access::events::Event;
use crate::scout_access::laws::requests::{Extension, Payment, Requests};
use crate::scout_access::types::{Address, DataKey, FeeConfig};

verus! {

/// Whether what is stored lets the scout contact the player: the contract is not
/// paused, the scout has a subscription, of whatever tier, that has not ended,
/// and the contact was not made before.
pub open spec fn contact_allowed(env: EnvView, scout: Address, player_id: u64) -> bool {
    &&& env.storage.instance.paused != Some(true)
    &&& env.storage.subscriptions.contains_key(scout@)
    &&& env.timestamp <= env.storage.subscriptions[scout@].expires_at
    &&& !env.storage.contacts.contains_key((player_id, scout@))
}

/// A contact is refused for one of four reasons, and each is given exactly where
/// it holds and none of those before it does: the contract is paused; the scout
/// has no subscription; it has ended; the contact was made before. Otherwise the
/// call is done where there is no registration contract, and asks it about the
/// player where there is one.
pub proof fn law_who_can_contact(env: EnvView, scout: Address, player_id: u64)
    ensures
        ({
            let res = env.pay_to_contact_result(scout, player_id);
            let running = env.storage.instance.paused != Some(true);
            let subscribed = env.storage.subscriptions.contains_key(scout@);
            let end = env.storage.subscriptions[scout@].expires_at;
            let known = env.storage.contacts.contains_key((player_id, scout@));
            let allowed = running && subscribed && env.timestamp <= end && !known;
            &&& res == Err::<Step<()>, _>(ScoutAccessError::ContractPaused) <==> !running
            &&& res == Err::<Step<()>, _>(ScoutAccessError::ScoutNotSubscribed) <==> running
                && !subscribed
            &&& res == Err::<Step<()>, _>(ScoutAccessError::SubscriptionExpired) <==> running
                && subscribed && end < env.timestamp
            &&& res == Err::<Step<()>, _>(ScoutAccessError::AlreadyContacted) <==> running
                && subscribed && env.timestamp <= end && known
            &&& res is Ok <==> allowed
            &&& res == Ok::<_, ScoutAccessError>(Step::Done(())) <==> allowed
                && env.storage.instance.registration_contract is None
            &&& allowed ==> (env.storage.instance.registration_contract matches Some(registration)
                ==> res == Ok::<Step<()>, ScoutAccessError>(
                Step::Ask(Query::GetPlayer { registration, player_id }),
            ))
        }),
{
}

/// The whole of a contact, with what the registration contract says where there
/// is one, is accepted exactly if what is stored allows it, and the player is
/// known or there is no one to ask. A player that is not known is the reason
/// exactly if there is no other.
pub proof fn law_contact_is_accepted(env: EnvView, scout: Address, player_id: u64, found: bool)
    ensures
        ({
            let call = Call::PayToContact { scout, player_id, found };
            let unknown = env.storage.instance.registration_contract is Some && !found;
            &&& env.error(call) is None <==> contact_allowed(env, scout, player_id) && !unknown
            &&& env.error(call) == Some(ScoutAccessError::PlayerNotFound) <==> contact_allowed(
                env,
                scout,
                player_id,
            ) && unknown
        }),
{
}

/// The answer of the registration contract decides alone how a contact that
/// waited for it ends. Without the player nothing more is asked for or changed.
pub proof fn law_unknown_player(env: EnvView, scout: Address, player_id: u64)
    ensures
        env.finish_contact_result(true) == Ok::<(), ScoutAccessError>(()),
        env.finish_contact_result(false) == Err::<(), _>(ScoutAccessError::PlayerNotFound),
        env.finish_contact_after(scout, player_id, false) == env,
{
}

/// A contact that is refused, or waits for the registration contract, has
/// changed nothing, and has asked for the scout's authorization and for nothing
/// else. On a paused contract not even that was asked for.
pub proof fn law_contact_not_charged(env: EnvView, scout: Address, player_id: u64)
    requires
        !contact_allowed(env, scout, player_id)
            || env.storage.instance.registration_contract is Some,
    ensures
        env.pay_to_contact_trap(scout, player_id) is None,
        env.storage.instance.paused == Some(true) ==> env.pay_to_contact_after(scout, player_id)
            == env,
        env.storage.instance.paused != Some(true) ==> {
            let after = env.pay_to_contact_after(scout, player_id);
            &&& crate::scout_access::laws::requests::continues(env, after)
            &&& after.storage == env.storage
            &&& Requests::between(env, after) == (Requests {
                authorizations: seq![scout],
                payments: Seq::empty(),
                writes: Seq::empty(),
                extensions: Seq::empty(),
                events: Seq::empty(),
            })
        },
{
    let after = env.pay_to_contact_after(scout, player_id);
    assert(after.calls.take(env.calls.len() as int) =~= env.calls);
    crate::scout_access::laws::requests::lemma_requests(env, after);
}

/// What a contact that is charged for changes and asks for, the authorization
/// left aside: the scout pays the configured fee, whatever the tier, in one
/// transfer to the contract; the fees grow by just that; the contact is
/// recorded, and no other entry changes; the record and the subscription are
/// kept alive; and the contact is announced.
pub open spec fn charged(
    before: EnvView,
    after: EnvView,
    scout: Address,
    player_id: u64,
    token: Address,
    fee: i128,
    collected: i128,
) -> bool {
    let asked = Requests::between(before, after);
    &&& crate::scout_access::laws::requests::continues(before, after)
    &&& asked.payments =~= seq![Payment { token, from: scout, to: before.contract, amount: fee }]
    &&& asked.writes =~= seq![
        Entry::AccumulatedFees((collected + fee) as i128),
        Entry::ContactRecord(player_id, scout, true),
    ]
    &&& asked.extensions =~= seq![
        Extension {
            key: DataKey::ContactRecord(player_id, scout),
            threshold: 120_960,
            extend_to: 241_920,
        },
        Extension { key: DataKey::Subscription(scout), threshold: 120_960, extend_to: 241_920 },
    ]
    &&& asked.events =~= seq![Event::PlayerContacted { player_id, scout }]
    &&& after.storage.instance.accumulated_fees matches Some(fees)
    &&& fees == collected + fee
    &&& after.storage.instance == (Instance {
        accumulated_fees: Some(fees),
        ..before.storage.instance
    })
    &&& after.storage.contacts == before.storage.contacts.insert((player_id, scout@), true)
    &&& after.storage.subscriptions == before.storage.subscriptions
    &&& after.storage.trial_counters == before.storage.trial_counters
    &&& after.storage.trial_offers == before.storage.trial_offers
}

/// A contact that is allowed, where there is no registration contract, is
/// charged for at once. The scout alone authorizes it.
pub proof fn law_contact_is_charged_at_once(
    env: EnvView,
    scout: Address,
    player_id: u64,
    config: FeeConfig,
    token: Address,
    collected: i128,
)
    requires
        contact_allowed(env, scout, player_id),
        env.storage.instance.registration_contract is None,
        env.storage.instance.fee_config == Some(config),
        env.storage.instance.xlm_token == Some(token),
        env.storage.instance.accumulated_fees == Some(collected)
            || env.storage.instance.accumulated_fees is None && collected == 0,
        i128::MIN <= collected + config.contact_fee_stroops <= i128::MAX,
    ensures
        env.pay_to_contact_trap(scout, player_id) is None,
        ({
            let after = env.pay_to_contact_after(scout, player_id);
            &&& Requests::between(env, after).authorizations == seq![scout]
            &&& charged(
                env,
                after,
                scout,
                player_id,
                token,
                config.contact_fee_stroops,
                collected,
            )
        }),
{
    let after = env.pay_to_contact_after(scout, player_id);
    assert(after.calls.take(env.calls.len() as int) =~= env.calls);
    crate::scout_access::laws::requests::lemma_requests(env, after);
}

/// A contact that waited for the registration contract is charged for once the
/// player is found, and no further authorization is asked for.
pub proof fn law_found_player_is_charged(
    env: EnvView,
    scout: Address,
    player_id: u64,
    config: FeeConfig,
    token: Address,
    collected: i128,
)
    requires
        env.storage.instance.fee_config == Some(config),
        env.storage.instance.xlm_token == Some(token),
        env.storage.instance.accumulated_fees == Some(collected)
            || env.storage.instance.accumulated_fees is None && collected == 0,
        i128::MIN <= collected + config.contact_fee_stroops <= i128::MAX,
    ensures
        env.contact_fee_trap() is None,
        ({
            let after = env.finish_contact_after(scout, player_id, true);
            &&& Requests::between(env, after).authorizations == Seq::<Address>::empty()
            &&& charged(
                env,
                after,
                scout,
                player_id,
                token,
                config.contact_fee_stroops,
                collected,
            )
        }),
{
    let after = env.finish_contact_after(scout, player_id, true);
    assert(after.calls.take(env.calls.len() as int) =~= env.calls);
    crate::scout_access::laws::requests::lemma_requests(env, after);
}

/// The whole of an accepted contact, at once or after the registration contract
/// was asked, comes to the same: one charge of the configured fee, authorized by
/// the scout alone.
pub proof fn law_accepted_contact_is_charged_once(
    env: EnvView,
    scout: Address,
    player_id: u64,
    found: bool,
    config: FeeConfig,
    token: Address,
    collected: i128,
)
    requires
        contact_allowed(env, scout, player_id),
        found || env.storage.instance.registration_contract is None,
        env.storage.instance.fee_config == Some(config),
        env.storage.instance.xlm_token == Some(token),
        env.storage.instance.accumulated_fees == Some(collected)
            || env.storage.instance.accumulated_fees is None && collected == 0,
        i128::MIN <= collected + config.contact_fee_stroops <= i128::MAX,
    ensures
        ({
            let call = Call::PayToContact { scout, player_id, found };
            &&& env.trap(call) is None
            &&& env.error(call) is None
            &&& Requests::between(env, env.done(call)).authorizations == seq![scout]
            &&& charged(
                env,
                env.done(call),
                scout,
                player_id,
                token,
                config.contact_fee_stroops,
                collected,
            )
        }),
{
    let call = Call::PayToContact { scout, player_id, found };
    let after = env.done(call);
    assert(after.calls.take(env.calls.len() as int) =~= env.calls);
    crate::scout_access::laws::requests::lemma_requests(env, after);
}

/// The charge for a contact is abandoned exactly if there are no prices, or no
/// token, or the fees with the contact's among them do not fit in 128 bits. The
/// first of these that holds is the fault.
pub proof fn law_contact_faults(env: EnvView, scout: Address, player_id: u64, collected: i128)
    requires
        env.storage.instance.accumulated_fees == Some(collected)
            || env.storage.instance.accumulated_fees is None && collected == 0,
    ensures
        ({
            let config = env.storage.instance.fee_config->0;
            let priced = env.storage.instance.fee_config is Some;
            let payable = priced && env.storage.instance.xlm_token is Some;
            let sum = collected + config.contact_fee_stroops;
            let countable = payable && i128::MIN <= sum <= i128::MAX;
            &&& env.contact_fee_trap() == Some(Trap::FeeConfigNotSet) <==> !priced
            &&& env.contact_fee_trap() == Some(Trap::XlmTokenNotSet) <==> priced && !payable
            &&& env.contact_fee_trap() == Some(Trap::FeesOverflow) <==> payable && !countable
            &&& env.contact_fee_trap() is None <==> countable
            &&& contact_allowed(env, scout, player_id)
                && env.storage.instance.registration_contract is None
                ==> env.pay_to_contact_trap(scout, player_id) == env.contact_fee_trap()
        }),
{
}

/// Once a contact is charged for, the scout is answered that it was made. No
/// other scout is, and for no other player, unless it was so before.
pub proof fn law_contact_is_read_back(
    env: EnvView,
    scout: Address,
    player_id: u64,
    found: bool,
    other: Address,
    other_id: u64,
)
    requires
        contact_allowed(env, scout, player_id),
        found || env.storage.instance.registration_contract is None,
    ensures
        ({
            let after = env.done(Call::PayToContact { scout, player_id, found });
            &&& after.has_contacted_result(scout, player_id)
            &&& other.strkey@ != scout.strkey@ || other_id != player_id
                ==> after.has_contacted_result(other, other_id)
                == env.storage.contacts.contains_key((other_id, other.strkey@))
        }),
{
}

} // verus!
