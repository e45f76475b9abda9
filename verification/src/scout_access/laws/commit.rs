//! What the ledger keeps of a call.
use vstd::prelude::*;

use crate::scout_access::calls::Call;
use crate::scout_access::env::{EnvView, HostCall};
use crate::scout_access::errors::ScoutAccessError;
use crate::scout_access::events::Event;
use crate::scout_access::types::TrialOffer;

verus! {

/// Of a call that is refused or abandoned nothing stays, whatever the reason,
/// and neither of one for which the host did not carry out all that was asked:
/// the ledger stores what it stored, no tokens have moved, no entry lives
/// longer and nothing is announced.
pub proof fn law_nothing_stays_of_a_failed_call(env: EnvView, call: Call, carried_out: bool)
    requires
        env.error(call) is Some || env.trap(call) is Some || !carried_out,
    ensures
        env.committed_if(call, carried_out) == env.storage,
        env.kept_if(call, carried_out) == Seq::<HostCall>::empty(),
        env.announced_if(call, carried_out) == Seq::<Event>::empty(),
{
}

/// Of any other call all stays: the ledger stores what the environment shows,
/// and all that was asked for is kept.
pub proof fn law_all_stays_of_an_accepted_call(env: EnvView, call: Call)
    requires
        env.error(call) is None,
        env.trap(call) is None,
    ensures
        env.committed_if(call, true) == env.done(call).storage,
        env.kept_if(call, true) == env.asked(call),
{
}

/// Nothing is changed without consent and payment. If the ledger stores
/// anything else after a call, the host was granted the authorization of the
/// admin or the scout whose call it is. For a subscription it was also granted
/// the transfer of the tier's price from that scout to the contract, and for a
/// contact that of the contact fee.
pub proof fn law_no_record_without_consent_and_payment(
    env: EnvView,
    call: Call,
    grants: spec_fn(HostCall) -> bool,
)
    requires
        env.committed_if(call, env.carried_out(call, grants)) != env.storage,
    ensures
        env.authorizer(call) is Some,
        grants(HostCall::RequireAuth(env.authorizer(call)->0)),
        call matches Call::Subscribe { scout, tier } ==> grants(
            HostCall::Transfer {
                token: env.storage.instance.xlm_token->0,
                from: scout,
                to: env.contract,
                amount: env.storage.instance.fee_config->0.price(tier),
            },
        ),
        call matches Call::PayToContact { scout, .. } ==> grants(
            HostCall::Transfer {
                token: env.storage.instance.xlm_token->0,
                from: scout,
                to: env.contract,
                amount: env.storage.instance.fee_config->0.contact_fee_stroops,
            },
        ),
{
    let asked = env.asked(call);
    assert(env.done(call).calls =~= env.calls + asked);
    crate::scout_access::laws::host::law_authorization_comes_first(env, call);
    assert(grants(asked[0]));
    if call is Subscribe || call is PayToContact {
        assert(grants(asked[1]));
    }
}

/// What the ledger stores once a call is over comes from carrying out what is
/// kept of it.
pub proof fn law_ledger_stores_what_is_kept(env: EnvView, call: Call, carried_out: bool)
    ensures
        env.committed_if(call, carried_out) == env.storage.perform(
            env.kept_if(call, carried_out),
        ),
{
    crate::scout_access::laws::host::law_host_stores_what_is_shown(env, call);
}

/// The storage that the ledger holds is sound after every call, whether it was
/// accepted, refused, abandoned or not carried out.
pub proof fn law_ledger_stays_sound(env: EnvView, call: Call, carried_out: bool)
    requires
        env.storage.sound(),
    ensures
        env.committed_if(call, carried_out).sound(),
{
    if carried_out && !env.fails(call) {
        crate::scout_access::laws::soundness::law_calls_keep_storage_sound(env, call);
    }
}

/// Calls that publish nothing have no events.
proof fn lemma_published_nothing(calls: Seq<HostCall>)
    requires
        forall|i: int| 0 <= i < calls.len() ==> !(#[trigger] calls[i] is Publish),
    ensures
        crate::scout_access::calls::published(calls) == Seq::<Event>::empty(),
    decreases calls.len(),
{
    if calls.len() > 0 {
        lemma_published_nothing(calls.drop_last());
    }
}

/// A trial offer and the player's advance happen together or not at all.
///
/// Where the progress contract fails, the call is refused as
/// `ProgressCallFailed`, and no offer, no count and no event stays of it.
/// Where it does not fail, and there is an index left for the offer, the offer
/// is stored, counted and announced.
pub proof fn law_trial_offer_and_advance_are_one(env: EnvView, call: Call)
    requires
        call is LogTrialOffer,
        env.trial_check(call->LogTrialOffer_scout) is Ok,
        env.storage.instance.progress_contract is Some,
    ensures
        call->reply is Failed ==> {
            &&& env.error(call) == Some(ScoutAccessError::ProgressCallFailed)
            &&& env.committed(call) == env.storage
            &&& env.committed(call).trial_counters == env.storage.trial_counters
            &&& env.committed(call).trial_offers == env.storage.trial_offers
            &&& env.announced_if(call, true) == Seq::<Event>::empty()
        },
        !(call->reply is Failed) && env.trap(call) is None ==> {
            let player_id = call->LogTrialOffer_player_id;
            let scout = call->LogTrialOffer_scout;
            let index = env.next_index(player_id);
            &&& env.error(call) is None
            &&& env.committed(call).trial_count(player_id) == env.storage.trial_count(player_id)
                + 1
            &&& env.committed(call).trial_offers == env.storage.trial_offers.insert(
                (player_id, index),
                TrialOffer {
                    player_id,
                    scout,
                    details_hash: call->details_hash,
                    logged_at: env.timestamp,
                },
            )
            &&& env.announced_if(call, true) == seq![Event::TrialOfferLogged { player_id, scout }]
        },
{
    if !(call->reply is Failed) && env.trap(call) is None {
        let asked = env.asked(call);
        assert(env.done(call).calls =~= env.calls + asked);
        assert(asked.len() == 7);
        lemma_published_nothing(asked.drop_last());
        assert(env.announced_if(call, true) =~= seq![
            Event::TrialOfferLogged {
                player_id: call->LogTrialOffer_player_id,
                scout: call->LogTrialOffer_scout,
            },
        ]);
    }
}

/// The fees that the ledger counts are those that the contract holds, after
/// every call: accepted, refused, abandoned or not carried out.
pub proof fn law_kept_fees_are_backed(env: EnvView, call: Call, carried_out: bool)
    requires
        env.storage.sound(),
        env.storage.initialized(),
        carried_out && !env.fails(call) ==> !env.pays_itself(call),
    ensures
        env.committed_if(call, carried_out).fees() - env.storage.fees()
            == crate::scout_access::laws::fees::received(
            env.kept_if(call, carried_out),
            env.storage.instance.xlm_token->0@,
            env.contract@,
        ),
{
    if carried_out && !env.fails(call) {
        crate::scout_access::laws::fees::law_fees_are_backed(env, call);
    }
}

} // verus!
