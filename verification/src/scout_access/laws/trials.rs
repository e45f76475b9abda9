//! What `log_trial_offer` and `finish_trial_offer` do, said of what is stored.
use vstd::prelude::*;

use crate::scout_access::calls::Call;
use crate::scout_access::env::{AdvanceReply, Entry, EnvView, Query, Step};
use crate::scout_access::errors::{ScoutAccessError, Trap};
use crate::scout_access::events::Event;
use crate::scout_access::laws::requests::{Extension, Requests};
use crate::scout_access::types::{Address, DataKey, SubscriptionTier, TrialOffer};

verus! {

/// Whether what is stored lets the scout log a trial offer: the contract is not
/// paused, and the scout has an Elite subscription that has not ended.
pub open spec fn trial_allowed(env: EnvView, scout: Address) -> bool {
    &&& env.storage.instance.paused != Some(true)
    &&& env.storage.subscriptions.contains_key(scout@)
    &&& env.timestamp <= env.storage.subscriptions[scout@].expires_at
    &&& env.storage.subscriptions[scout@].tier == SubscriptionTier::Elite
}

/// Whether `count` trial offers to the player were counted: none, where nothing
/// is stored of it.
pub open spec fn counted(env: EnvView, player_id: u64, count: u32) -> bool {
    ||| env.storage.trial_counters.contains_key(player_id)
        && env.storage.trial_counters[player_id] == count
    ||| !env.storage.trial_counters.contains_key(player_id) && count == 0
}

/// A trial offer is refused for one of four reasons, and each is given exactly
/// where it holds and none of those before it does: the contract is paused; the
/// scout has no subscription; it has ended; it is not Elite. Otherwise the offer
/// gets the number after those counted for the player. The call is done where
/// there is no progress contract, and asks it to advance the player for that
/// number where there is one.
pub proof fn law_who_can_log_trial_offers(
    env: EnvView,
    scout: Address,
    player_id: u64,
    count: u32,
)
    requires
        counted(env, player_id, count),
    ensures
        ({
            let res = env.log_trial_offer_result(scout, player_id);
            let running = env.storage.instance.paused != Some(true);
            let subscribed = env.storage.subscriptions.contains_key(scout@);
            let end = env.storage.subscriptions[scout@].expires_at;
            let elite = env.storage.subscriptions[scout@].tier is Elite;
            let allowed = running && subscribed && env.timestamp <= end && elite;
            &&& res == Err::<Step<u32>, _>(ScoutAccessError::ContractPaused) <==> !running
            &&& res == Err::<Step<u32>, _>(ScoutAccessError::ScoutNotSubscribed) <==> running
                && !subscribed
            &&& res == Err::<Step<u32>, _>(ScoutAccessError::SubscriptionExpired) <==> running
                && subscribed && end < env.timestamp
            &&& res == Err::<Step<u32>, _>(ScoutAccessError::Unauthorized) <==> running
                && subscribed && env.timestamp <= end && !elite
            &&& res is Ok <==> allowed
            &&& allowed && count < u32::MAX ==> {
                let index = (count + 1) as u32;
                match env.storage.instance.progress_contract {
                    None => res == Ok::<_, ScoutAccessError>(Step::Done(index)),
                    Some(progress) => res == Ok::<Step<u32>, ScoutAccessError>(
                        Step::Ask(Query::AdvanceLevel { progress, scout, player_id, index }),
                    ),
                }
            }
        }),
{
}

/// The whole of a trial offer, with what the progress contract says where there
/// is one, is accepted exactly if what is stored allows it, and the progress
/// contract did not fail or there is none. That the player is at the top already
/// is no failure. A failure there is the reason exactly if there is no other.
pub proof fn law_trial_offer_is_accepted(
    env: EnvView,
    scout: Address,
    player_id: u64,
    details_hash: String,
    reply: AdvanceReply,
)
    ensures
        ({
            let call = Call::LogTrialOffer { scout, player_id, details_hash, reply };
            let failed = env.storage.instance.progress_contract is Some && reply
                != AdvanceReply::Advanced && reply != AdvanceReply::AlreadyAtMaxLevel;
            &&& env.error(call) is None <==> trial_allowed(env, scout) && !failed
            &&& env.error(call) == Some(ScoutAccessError::ProgressCallFailed) <==> trial_allowed(
                env,
                scout,
            ) && failed
        }),
{
}

/// A trial offer is abandoned exactly if it is allowed and the greatest number
/// is given out already.
pub proof fn law_trial_offer_faults(env: EnvView, scout: Address, player_id: u64)
    ensures
        env.log_trial_offer_trap(scout, player_id) is None || env.log_trial_offer_trap(
            scout,
            player_id,
        ) == Some(Trap::Overflow),
        env.log_trial_offer_trap(scout, player_id) is Some <==> trial_allowed(env, scout)
            && env.storage.trial_counters.contains_key(player_id)
            && env.storage.trial_counters[player_id] == u32::MAX,
{
}

/// A trial offer that waited for the progress contract is answered with its
/// number, whether the player was advanced or was at the top already, and with
/// an error exactly if the progress contract failed.
pub proof fn law_progress_does_not_change_the_index(index: u32, reply: AdvanceReply)
    ensures
        ({
            let res = crate::scout_access::model::finish_trial_offer_result(index, reply);
            &&& reply == AdvanceReply::Advanced || reply == AdvanceReply::AlreadyAtMaxLevel
                <==> res == Ok::<u32, ScoutAccessError>(index)
            &&& reply == AdvanceReply::Failed <==> res == Err::<u32, _>(
                ScoutAccessError::ProgressCallFailed,
            )
        }),
{
}

/// The number that a completed trial offer is answered with: at once, or once
/// the progress contract has replied.
pub open spec fn answered(
    env: EnvView,
    scout: Address,
    player_id: u64,
    reply: AdvanceReply,
) -> Result<u32, ScoutAccessError> {
    match env.log_trial_offer_result(scout, player_id) {
        Ok(Step::Done(index)) => Ok(index),
        Ok(Step::Ask(Query::AdvanceLevel { index, .. })) =>
            crate::scout_access::model::finish_trial_offer_result(index, reply),
        Ok(Step::Ask(Query::GetPlayer { .. })) => Err(ScoutAccessError::ProgressCallFailed),
        Err(e) => Err(e),
    }
}

/// A completed trial offer is answered with the number after those counted for
/// the player, whether there is no progress contract, or it advanced the player,
/// or found the player at the top already. Under the answered number the very
/// offer is read back: of this scout, to this player, with these details, logged
/// now. The number is then the count.
pub proof fn law_answered_index_reads_the_offer_back(
    env: EnvView,
    scout: Address,
    player_id: u64,
    details_hash: String,
    reply: AdvanceReply,
    count: u32,
)
    requires
        trial_allowed(env, scout),
        counted(env, player_id, count),
        count < u32::MAX,
        env.storage.instance.progress_contract is None || reply == AdvanceReply::Advanced || reply
            == AdvanceReply::AlreadyAtMaxLevel,
    ensures
        answered(env, scout, player_id, reply) matches Ok(index) && {
            let after = env.log_trial_offer_after(scout, player_id, details_hash);
            &&& index == count + 1
            &&& counted(after, player_id, index)
            &&& after.storage.trial_count(player_id) == index
            &&& after.get_trial_offer_result(player_id, index) matches Ok(offer) && {
                &&& offer.player_id == player_id
                &&& offer.scout == scout
                &&& offer.details_hash == details_hash
                &&& offer.logged_at == env.timestamp
            }
        },
{
}

/// A trial offer that is refused has changed nothing, and has asked for the
/// scout's authorization and for nothing else. On a paused contract not even
/// that was asked for.
pub proof fn law_refused_trial_offer(
    env: EnvView,
    scout: Address,
    player_id: u64,
    details_hash: String,
)
    requires
        !trial_allowed(env, scout),
    ensures
        env.storage.instance.paused == Some(true) ==> env.log_trial_offer_after(
            scout,
            player_id,
            details_hash,
        ) == env,
        env.storage.instance.paused != Some(true) ==> {
            let after = env.log_trial_offer_after(scout, player_id, details_hash);
            &&& crate::scout_access::laws::requests::continues(env, after)
            &&& after.storage == env.storage
            &&& Requests::between(env, after) == (Requests {
                authorizations: seq![scout],
                payments: Seq::empty(),
                writes: Seq::empty(),
                extensions: Seq::empty(),
                events: Seq::empty(),
            })
        },
{
    let after = env.log_trial_offer_after(scout, player_id, details_hash);
    assert(after.calls.take(env.calls.len() as int) =~= env.calls);
    crate::scout_access::laws::requests::lemma_requests(env, after);
}

/// A trial offer that is logged is stored under the number after those counted
/// for the player, and counted. No other entry changes and nothing is paid,
/// whether or not there is a progress contract. The scout alone authorizes it;
/// the subscription, the offer and the count are kept alive; and the offer is
/// announced.
pub proof fn law_logged_trial_offer(
    env: EnvView,
    scout: Address,
    player_id: u64,
    details_hash: String,
    count: u32,
)
    requires
        trial_allowed(env, scout),
        counted(env, player_id, count),
        count < u32::MAX,
    ensures
        ({
            let after = env.log_trial_offer_after(scout, player_id, details_hash);
            let index = (count + 1) as u32;
            let offer = TrialOffer { player_id, scout, details_hash, logged_at: env.timestamp };
            &&& crate::scout_access::laws::requests::continues(env, after)
            &&& after.storage.instance == env.storage.instance
            &&& after.storage.subscriptions == env.storage.subscriptions
            &&& after.storage.contacts == env.storage.contacts
            &&& after.storage.trial_counters == env.storage.trial_counters.insert(player_id, index)
            &&& after.storage.trial_offers == env.storage.trial_offers.insert(
                (player_id, index),
                offer,
            )
            &&& Requests::between(env, after) == (Requests {
                authorizations: seq![scout],
                payments: Seq::empty(),
                writes: seq![
                    Entry::TrialOffer(player_id, index, offer),
                    Entry::TrialCounter(player_id, index),
                ],
                extensions: seq![
                    Extension {
                        key: DataKey::Subscription(scout),
                        threshold: 120_960,
                        extend_to: 241_920,
                    },
                    Extension {
                        key: DataKey::TrialOffer(player_id, index),
                        threshold: 259_200,
                        extend_to: 518_400,
                    },
                    Extension {
                        key: DataKey::TrialCounter(player_id),
                        threshold: 259_200,
                        extend_to: 518_400,
                    },
                ],
                events: seq![Event::TrialOfferLogged { player_id, scout }],
            })
        }),
{
    let after = env.log_trial_offer_after(scout, player_id, details_hash);
    assert(after.calls.take(env.calls.len() as int) =~= env.calls);
    crate::scout_access::laws::requests::lemma_requests(env, after);
}

} // verus!
