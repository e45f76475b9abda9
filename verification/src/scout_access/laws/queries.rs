//! What the queries answer, said of what is stored.
use vstd::prelude::*;

use crate::scout_access::env::{Entry, Env, EnvView, Instance, StorageView};
use crate::scout_access::errors::{ScoutAccessError, Trap};
use crate::scout_access::laws::requests::{Extension, Requests};
use crate::scout_access::types::{Address, DataKey};

verus! {

/// A scout's subscription is answered as it is stored, ended or not, and is kept
/// alive by that. A scout who has none is told so, and nothing is asked for.
/// Nothing changes either way.
pub proof fn law_get_subscription(env: EnvView, scout: Address)
    ensures
        ({
            let res = env.get_subscription_result(scout);
            let after = env.get_subscription_after(scout);
            let stored = env.storage.subscriptions.contains_key(scout@);
            &&& stored ==> {
                &&& res == Ok::<_, ScoutAccessError>(env.storage.subscriptions[scout@])
                &&& crate::scout_access::laws::requests::continues(env, after)
                &&& after.storage == env.storage
                &&& Requests::between(env, after) == (Requests {
                    extensions: seq![
                        Extension {
                            key: DataKey::Subscription(scout),
                            threshold: 120_960,
                            extend_to: 241_920,
                        },
                    ],
                    authorizations: Seq::empty(),
                    payments: Seq::empty(),
                    writes: Seq::empty(),
                    events: Seq::empty(),
                })
            }
            &&& !stored ==> res is Err && res->Err_0 == ScoutAccessError::ScoutNotSubscribed
                && after == env
        }),
{
    let after = env.get_subscription_after(scout);
    assert(after.calls.take(env.calls.len() as int) =~= env.calls);
    crate::scout_access::laws::requests::lemma_requests(env, after);
}

/// A contact is answered to have been made exactly if it is stored, and its
/// record is kept alive by that. Nothing changes either way.
pub proof fn law_has_contacted(env: EnvView, scout: Address, player_id: u64)
    ensures
        ({
            let after = env.has_contacted_after(scout, player_id);
            let stored = env.storage.contacts.contains_key((player_id, scout@));
            &&& env.has_contacted_result(scout, player_id) == stored
            &&& stored ==> {
                &&& crate::scout_access::laws::requests::continues(env, after)
                &&& after.storage == env.storage
                &&& Requests::between(env, after) == (Requests {
                    extensions: seq![
                        Extension {
                            key: DataKey::ContactRecord(player_id, scout),
                            threshold: 120_960,
                            extend_to: 241_920,
                        },
                    ],
                    authorizations: Seq::empty(),
                    payments: Seq::empty(),
                    writes: Seq::empty(),
                    events: Seq::empty(),
                })
            }
            &&& !stored ==> after == env
        }),
{
    let after = env.has_contacted_after(scout, player_id);
    assert(after.calls.take(env.calls.len() as int) =~= env.calls);
    crate::scout_access::laws::requests::lemma_requests(env, after);
}

/// A trial offer is answered as it is stored, and is kept alive by that. Where
/// none is stored under the number, that is said, and nothing is asked for.
/// Nothing changes either way.
pub proof fn law_get_trial_offer(env: EnvView, player_id: u64, index: u32)
    ensures
        ({
            let res = env.get_trial_offer_result(player_id, index);
            let after = env.get_trial_offer_after(player_id, index);
            let stored = env.storage.trial_offers.contains_key((player_id, index));
            &&& stored ==> {
                &&& res == Ok::<_, ScoutAccessError>(env.storage.trial_offers[(player_id, index)])
                &&& crate::scout_access::laws::requests::continues(env, after)
                &&& after.storage == env.storage
                &&& Requests::between(env, after) == (Requests {
                    extensions: seq![
                        Extension {
                            key: DataKey::TrialOffer(player_id, index),
                            threshold: 259_200,
                            extend_to: 518_400,
                        },
                    ],
                    authorizations: Seq::empty(),
                    payments: Seq::empty(),
                    writes: Seq::empty(),
                    events: Seq::empty(),
                })
            }
            &&& !stored ==> res is Err && res->Err_0 == ScoutAccessError::TrialOfferNotFound
                && after == env
        }),
{
    let after = env.get_trial_offer_after(player_id, index);
    assert(after.calls.take(env.calls.len() as int) =~= env.calls);
    crate::scout_access::laws::requests::lemma_requests(env, after);
}

/// The number of a player's trial offers is answered as it is stored, and as
/// zero where it is not. It is kept alive exactly if it is not zero. Nothing
/// changes.
pub proof fn law_get_trial_count(env: EnvView, player_id: u64)
    ensures
        ({
            let after = env.get_trial_count_after(player_id);
            let stored = env.storage.trial_counters.contains_key(player_id);
            let count = env.storage.trial_counters[player_id];
            &&& stored ==> env.storage.trial_count(player_id) == count
            &&& !stored ==> env.storage.trial_count(player_id) == 0
            &&& stored && count != 0 ==> {
                &&& crate::scout_access::laws::requests::continues(env, after)
                &&& after.storage == env.storage
                &&& Requests::between(env, after) == (Requests {
                    extensions: seq![
                        Extension {
                            key: DataKey::TrialCounter(player_id),
                            threshold: 259_200,
                            extend_to: 518_400,
                        },
                    ],
                    authorizations: Seq::empty(),
                    payments: Seq::empty(),
                    writes: Seq::empty(),
                    events: Seq::empty(),
                })
            }
            &&& !stored || count == 0 ==> after == env
        }),
{
    let after = env.get_trial_count_after(player_id);
    assert(after.calls.take(env.calls.len() as int) =~= env.calls);
    crate::scout_access::laws::requests::lemma_requests(env, after);
}

/// The fees are answered as they are stored, and as zero where none are; the
/// contract is healthy exactly if its set-up is stored as done; and the prices
/// can be asked for exactly if there are any.
pub proof fn law_instance_queries(env: EnvView)
    ensures
        env.storage.instance.accumulated_fees matches Some(fees) ==> env.storage.fees() == fees,
        env.storage.instance.accumulated_fees is None ==> env.storage.fees() == 0,
        env.storage.initialized() <==> env.storage.instance.initialized == Some(true),
        env.get_fee_config_trap() is None <==> env.storage.instance.fee_config is Some,
        env.get_fee_config_trap() is Some ==> env.get_fee_config_trap() == Some(
            Trap::FeeConfigNotSet,
        ),
{
}

/// What is shown of an environment is what it holds, and two addresses are shown
/// as the same exactly if their strkeys are the same text.
pub proof fn law_views_show_what_is_held(env: Env, a: Address, b: Address)
    ensures
        env@.contract == env.contract,
        env@.timestamp == env.timestamp,
        env@.calls == env.calls@,
        env@.storage == env.storage@,
        env.storage@.instance == env.storage.instance,
        env.storage@.subscriptions == env.storage.subscriptions@,
        env.storage@.contacts == env.storage.contacts@,
        env.storage@.trial_counters == env.storage.trial_counters@,
        env.storage@.trial_offers == env.storage.trial_offers@,
        a@ == b@ <==> a.strkey@ == b.strkey@,
{
}

/// In a contract that was never called nothing is stored.
pub proof fn law_nothing_is_stored_at_first(scout: Seq<char>, player_id: u64, index: u32)
    ensures
        StorageView::empty().instance == (Instance {
            admin: None,
            xlm_token: None,
            fee_config: None,
            initialized: None,
            paused: None,
            accumulated_fees: None,
            progress_contract: None,
            registration_contract: None,
        }),
        !StorageView::empty().subscriptions.contains_key(scout),
        !StorageView::empty().contacts.contains_key((player_id, scout)),
        !StorageView::empty().trial_counters.contains_key(player_id),
        !StorageView::empty().trial_offers.contains_key((player_id, index)),
{
}

/// An entry that was written is read back, and no entry under another key has
/// changed.
pub proof fn law_written_entries_are_read_back(storage: StorageView, entry: Entry)
    ensures
        ({
            let after = storage.write(entry);
            let held = after.instance;
            let was = storage.instance;
            match entry {
                Entry::Admin(v) => held.admin == Some(v) && was == (Instance {
                    admin: was.admin,
                    ..held
                }),
                Entry::XlmToken(v) => held.xlm_token == Some(v) && was == (Instance {
                    xlm_token: was.xlm_token,
                    ..held
                }),
                Entry::FeeConfig(v) => held.fee_config == Some(v) && was == (Instance {
                    fee_config: was.fee_config,
                    ..held
                }),
                Entry::Initialized(v) => held.initialized == Some(v) && was == (Instance {
                    initialized: was.initialized,
                    ..held
                }),
                Entry::Paused(v) => held.paused == Some(v) && was == (Instance {
                    paused: was.paused,
                    ..held
                }),
                Entry::AccumulatedFees(v) => held.accumulated_fees == Some(v) && was == (Instance {
                    accumulated_fees: was.accumulated_fees,
                    ..held
                }),
                Entry::ProgressContract(v) => held.progress_contract == Some(v) && was
                    == (Instance { progress_contract: was.progress_contract, ..held }),
                Entry::RegistrationContract(v) => held.registration_contract == Some(v) && was
                    == (Instance { registration_contract: was.registration_contract, ..held }),
                Entry::Subscription(scout, v) => {
                    &&& held == was
                    &&& after.subscriptions.contains_key(scout@)
                    &&& after.subscriptions[scout@] == v
                    &&& after.subscriptions.remove(scout@) == storage.subscriptions.remove(scout@)
                },
                Entry::ContactRecord(player_id, scout, v) => {
                    &&& held == was
                    &&& after.contacts.contains_key((player_id, scout@))
                    &&& after.contacts[(player_id, scout@)] == v
                    &&& after.contacts.remove((player_id, scout@)) == storage.contacts.remove(
                        (player_id, scout@),
                    )
                },
                Entry::TrialCounter(player_id, v) => {
                    &&& held == was
                    &&& after.trial_counters.contains_key(player_id)
                    &&& after.trial_counters[player_id] == v
                    &&& after.trial_counters.remove(player_id) == storage.trial_counters.remove(
                        player_id,
                    )
                },
                Entry::TrialOffer(player_id, index, v) => {
                    &&& held == was
                    &&& after.trial_offers.contains_key((player_id, index))
                    &&& after.trial_offers[(player_id, index)] == v
                    &&& after.trial_offers.remove((player_id, index))
                        == storage.trial_offers.remove((player_id, index))
                },
            }
        }),
        !(entry is Subscription) ==> storage.write(entry).subscriptions == storage.subscriptions,
        !(entry is ContactRecord) ==> storage.write(entry).contacts == storage.contacts,
        !(entry is TrialCounter) ==> storage.write(entry).trial_counters == storage.trial_counters,
        !(entry is TrialOffer) ==> storage.write(entry).trial_offers == storage.trial_offers,
{
    let after = storage.write(entry);
    match entry {
        Entry::Subscription(scout, _) => {
            assert(after.subscriptions.remove(scout@) =~= storage.subscriptions.remove(scout@));
        },
        Entry::ContactRecord(player_id, scout, _) => {
            let key = (player_id, scout@);
            assert(after.contacts.remove(key) =~= storage.contacts.remove(key));
        },
        Entry::TrialCounter(player_id, _) => {
            assert(after.trial_counters.remove(player_id) =~= storage.trial_counters.remove(
                player_id,
            ));
        },
        Entry::TrialOffer(player_id, index, _) => {
            let key = (player_id, index);
            assert(after.trial_offers.remove(key) =~= storage.trial_offers.remove(key));
        },
        _ => {},
    }
}

/// Each fault has a message of its own.
pub proof fn law_fault_messages(trap: Trap)
    ensures
        trap == Trap::FeeConfigNotSet <==> trap.spec_message() == "fee config not set"@,
        trap == Trap::XlmTokenNotSet <==> trap.spec_message() == "xlm token not set"@,
        trap == Trap::FeesOverflow <==> trap.spec_message() == "attempt to add with overflow"@,
        trap == Trap::Overflow <==> trap.spec_message() == "overflow"@,
{
    reveal_strlit("fee config not set");
    reveal_strlit("xlm token not set");
    reveal_strlit("attempt to add with overflow");
    reveal_strlit("overflow");
    assert("fee config not set"@.len() == 18);
    assert("xlm token not set"@.len() == 17);
    assert("attempt to add with overflow"@.len() == 28);
    assert("overflow"@.len() == 8);
}

} // verus!
