//! The rules by themselves, on a storage in memory.
use scoutchain::progress::{DataKey as ProgressKey, ProgressEntry, ProgressLevel};
use scoutchain::scout_access::contract::ScoutAccessContract as Contract;
use scoutchain::scout_access::env::{AdvanceReply, Entry, Env, HostCall, Query, Step};
use scoutchain::scout_access::errors::{ScoutAccessError, Trap};
use scoutchain::scout_access::events::Event;
use scoutchain::scout_access::table::Table;
use scoutchain::scout_access::types::{
    Address, DataKey, FeeConfig, Subscription, SubscriptionTier, TrialOffer,
};

const NOW: u64 = 1_700_000_000;
const MONTH: u64 = 30 * 24 * 60 * 60;

fn addr(name: &str) -> Address {
    Address { strkey: String::from(name) }
}

fn fees() -> FeeConfig {
    FeeConfig {
        contact_fee_stroops: 100_000,
        basic_sub_stroops: 1_000_000,
        pro_sub_stroops: 3_000_000,
        elite_sub_stroops: 7_000_000,
        sub_duration_secs: MONTH,
    }
}

fn fresh() -> Env {
    Env::new(addr("CONTRACT"), NOW)
}

fn ready() -> Env {
    let mut env = fresh();
    assert_eq!(Contract::initialize(&mut env, addr("ADMIN"), addr("XLM"), fees()), Ok(()));
    env.calls.clear();
    env
}

fn with_scout(tier: SubscriptionTier) -> Env {
    let mut env = ready();
    assert_eq!(Contract::subscribe(&mut env, addr("SCOUT"), tier), Ok(()));
    env.calls.clear();
    env
}

fn auth(name: &str) -> HostCall {
    HostCall::RequireAuth(addr(name))
}

fn keep_sub() -> HostCall {
    HostCall::ExtendTtl {
        key: DataKey::Subscription(addr("SCOUT")),
        threshold: 120_960,
        extend_to: 241_920,
    }
}

fn keep_contact(player_id: u64) -> HostCall {
    HostCall::ExtendTtl {
        key: DataKey::ContactRecord(player_id, addr("SCOUT")),
        threshold: 120_960,
        extend_to: 241_920,
    }
}

fn keep_offer(player_id: u64, index: u32) -> HostCall {
    HostCall::ExtendTtl {
        key: DataKey::TrialOffer(player_id, index),
        threshold: 259_200,
        extend_to: 518_400,
    }
}

fn keep_counter(player_id: u64) -> HostCall {
    HostCall::ExtendTtl {
        key: DataKey::TrialCounter(player_id),
        threshold: 259_200,
        extend_to: 518_400,
    }
}

#[test]
fn initialize_asks_the_admin_and_stores_everything() {
    let mut env = fresh();
    assert!(!Contract::health(&env));
    assert_eq!(Contract::initialize(&mut env, addr("ADMIN"), addr("XLM"), fees()), Ok(()));
    assert_eq!(
        env.calls,
        vec![
            auth("ADMIN"),
            HostCall::Store(Entry::Admin(addr("ADMIN"))),
            HostCall::Store(Entry::XlmToken(addr("XLM"))),
            HostCall::Store(Entry::FeeConfig(fees())),
            HostCall::Store(Entry::Initialized(true)),
            HostCall::Store(Entry::Paused(false)),
            HostCall::Store(Entry::AccumulatedFees(0)),
        ]
    );
    assert!(Contract::health(&env));
    assert_eq!(Contract::get_fee_config(&env), fees());
    assert_eq!(Contract::get_accumulated_fees(&env), 0);
}

#[test]
fn second_initialize_is_refused() {
    let mut env = ready();
    assert_eq!(
        Contract::initialize(&mut env, addr("OTHER"), addr("GOLD"), fees()),
        Err(ScoutAccessError::AlreadyInitialized)
    );
    assert_eq!(env.calls, vec![]);
    assert_eq!(env.storage.instance.admin, Some(addr("ADMIN")));
    assert_eq!(env.storage.instance.xlm_token, Some(addr("XLM")));
}

#[test]
fn initialized_counts_as_set_even_if_false() {
    let mut env = fresh();
    env.storage.instance.initialized = Some(false);
    assert!(!Contract::health(&env));
    assert_eq!(
        Contract::initialize(&mut env, addr("ADMIN"), addr("XLM"), fees()),
        Err(ScoutAccessError::AlreadyInitialized)
    );
}

#[test]
fn admin_calls_need_an_admin() {
    let mut env = fresh();
    let refused = Err(ScoutAccessError::NotInitialized);
    assert_eq!(Contract::update_fee_config(&mut env, fees()), refused);
    assert_eq!(Contract::pause_contract(&mut env), refused);
    assert_eq!(Contract::unpause_contract(&mut env), refused);
    assert_eq!(Contract::set_progress_contract(&mut env, addr("P")), refused);
    assert_eq!(Contract::set_registration_contract(&mut env, addr("R")), refused);
    assert_eq!(
        Contract::withdraw_fees(&mut env, addr("TO")),
        Err(ScoutAccessError::NotInitialized)
    );
    assert_eq!(env.calls, vec![]);
}

#[test]
fn admin_calls_store_one_entry() {
    let mut env = ready();
    let mut dearer = fees();
    dearer.contact_fee_stroops = 200_000;
    assert_eq!(Contract::update_fee_config(&mut env, dearer), Ok(()));
    assert_eq!(env.calls, vec![auth("ADMIN"), HostCall::Store(Entry::FeeConfig(dearer))]);
    assert_eq!(Contract::get_fee_config(&env).contact_fee_stroops, 200_000);

    env.calls.clear();
    assert_eq!(Contract::set_progress_contract(&mut env, addr("P")), Ok(()));
    assert_eq!(Contract::set_registration_contract(&mut env, addr("R")), Ok(()));
    assert_eq!(
        env.calls,
        vec![
            auth("ADMIN"),
            HostCall::Store(Entry::ProgressContract(addr("P"))),
            auth("ADMIN"),
            HostCall::Store(Entry::RegistrationContract(addr("R"))),
        ]
    );
    assert_eq!(env.storage.instance.progress_contract, Some(addr("P")));
    assert_eq!(env.storage.instance.registration_contract, Some(addr("R")));
}

#[test]
fn paused_contract_refuses_until_unpaused() {
    let mut env = with_scout(SubscriptionTier::Elite);
    assert_eq!(Contract::pause_contract(&mut env), Ok(()));
    env.calls.clear();
    assert_eq!(
        Contract::subscribe(&mut env, addr("SCOUT"), SubscriptionTier::Pro),
        Err(ScoutAccessError::ContractPaused)
    );
    assert_eq!(
        Contract::pay_to_contact(&mut env, addr("SCOUT"), 1),
        Err(ScoutAccessError::ContractPaused)
    );
    assert_eq!(
        Contract::log_trial_offer(&mut env, addr("SCOUT"), 1, String::from("Qm")),
        Err(ScoutAccessError::ContractPaused)
    );
    assert_eq!(env.calls, vec![]);

    assert_eq!(Contract::unpause_contract(&mut env), Ok(()));
    assert_eq!(Contract::pay_to_contact(&mut env, addr("SCOUT"), 1), Ok(Step::Done(())));
}

#[test]
fn subscription_is_paid_for_and_read_back() {
    let mut env = ready();
    assert_eq!(Contract::subscribe(&mut env, addr("SCOUT"), SubscriptionTier::Pro), Ok(()));
    let sub = Subscription {
        scout: addr("SCOUT"),
        tier: SubscriptionTier::Pro,
        expires_at: NOW + MONTH,
        subscribed_at: NOW,
    };
    assert_eq!(
        env.calls,
        vec![
            auth("SCOUT"),
            HostCall::Transfer {
                token: addr("XLM"),
                from: addr("SCOUT"),
                to: addr("CONTRACT"),
                amount: 3_000_000,
            },
            HostCall::Store(Entry::AccumulatedFees(3_000_000)),
            HostCall::Store(Entry::Subscription(addr("SCOUT"), sub.clone())),
            keep_sub(),
            HostCall::Publish(Event::ScoutSubscribed {
                scout: addr("SCOUT"),
                tier: SubscriptionTier::Pro,
            }),
        ]
    );
    env.calls.clear();
    assert_eq!(Contract::get_subscription(&mut env, addr("SCOUT")), Ok(sub));
    assert_eq!(env.calls, vec![keep_sub()]);
    assert_eq!(Contract::get_accumulated_fees(&env), 3_000_000);
}

#[test]
fn each_tier_has_its_price() {
    let mut env = ready();
    for (tier, total) in [
        (SubscriptionTier::Basic, 1_000_000),
        (SubscriptionTier::Pro, 4_000_000),
        (SubscriptionTier::Elite, 11_000_000),
    ] {
        assert_eq!(Contract::subscribe(&mut env, addr("SCOUT"), tier), Ok(()));
        assert_eq!(Contract::get_accumulated_fees(&env), total);
    }
    let sub = Contract::get_subscription(&mut env, addr("SCOUT")).unwrap();
    assert_eq!(sub.tier, SubscriptionTier::Elite);
}

#[test]
fn subscribe_needs_an_initialized_contract() {
    let mut env = fresh();
    assert_eq!(
        Contract::subscribe(&mut env, addr("SCOUT"), SubscriptionTier::Basic),
        Err(ScoutAccessError::NotInitialized)
    );
    assert_eq!(env.calls, vec![]);
}

#[test]
fn unknown_scout_has_no_subscription() {
    let mut env = with_scout(SubscriptionTier::Basic);
    assert_eq!(
        Contract::get_subscription(&mut env, addr("OTHER")),
        Err(ScoutAccessError::ScoutNotSubscribed)
    );
    assert_eq!(env.calls, vec![]);
}

#[test]
fn subscription_is_active_through_its_last_second() {
    let mut env = with_scout(SubscriptionTier::Elite);
    env.timestamp = NOW + MONTH;
    assert_eq!(Contract::pay_to_contact(&mut env, addr("SCOUT"), 1), Ok(Step::Done(())));
    env.timestamp = NOW + MONTH + 1;
    assert_eq!(
        Contract::pay_to_contact(&mut env, addr("SCOUT"), 2),
        Err(ScoutAccessError::SubscriptionExpired)
    );
    assert_eq!(
        Contract::log_trial_offer(&mut env, addr("SCOUT"), 2, String::from("Qm")),
        Err(ScoutAccessError::SubscriptionExpired)
    );
    // It can still be read.
    assert!(Contract::get_subscription(&mut env, addr("SCOUT")).is_ok());
}

#[test]
fn contact_is_paid_for_once() {
    let mut env = with_scout(SubscriptionTier::Basic);
    assert!(!Contract::has_contacted(&mut env, addr("SCOUT"), 7));
    assert_eq!(env.calls, vec![]);
    assert_eq!(Contract::pay_to_contact(&mut env, addr("SCOUT"), 7), Ok(Step::Done(())));
    assert_eq!(
        env.calls,
        vec![
            auth("SCOUT"),
            HostCall::Transfer {
                token: addr("XLM"),
                from: addr("SCOUT"),
                to: addr("CONTRACT"),
                amount: 100_000,
            },
            HostCall::Store(Entry::AccumulatedFees(1_100_000)),
            HostCall::Store(Entry::ContactRecord(7, addr("SCOUT"), true)),
            keep_contact(7),
            keep_sub(),
            HostCall::Publish(Event::PlayerContacted { player_id: 7, scout: addr("SCOUT") }),
        ]
    );
    env.calls.clear();
    assert!(Contract::has_contacted(&mut env, addr("SCOUT"), 7));
    assert_eq!(env.calls, vec![keep_contact(7)]);
    assert!(!Contract::has_contacted(&mut env, addr("OTHER"), 7));
    assert!(!Contract::has_contacted(&mut env, addr("SCOUT"), 8));

    env.calls.clear();
    assert_eq!(
        Contract::pay_to_contact(&mut env, addr("SCOUT"), 7),
        Err(ScoutAccessError::AlreadyContacted)
    );
    assert_eq!(env.calls, vec![auth("SCOUT")]);
    assert_eq!(Contract::get_accumulated_fees(&env), 1_100_000);
}

#[test]
fn contact_needs_a_subscription() {
    let mut env = ready();
    assert_eq!(
        Contract::pay_to_contact(&mut env, addr("SCOUT"), 1),
        Err(ScoutAccessError::ScoutNotSubscribed)
    );
    assert_eq!(env.calls, vec![auth("SCOUT")]);
}

#[test]
fn player_is_looked_up_where_a_registration_contract_is_set() {
    let mut env = with_scout(SubscriptionTier::Basic);
    assert_eq!(Contract::set_registration_contract(&mut env, addr("REG")), Ok(()));
    env.calls.clear();
    let asked = Ok(Step::Ask(Query::GetPlayer { registration: addr("REG"), player_id: 3 }));
    assert_eq!(Contract::pay_to_contact(&mut env, addr("SCOUT"), 3), asked);
    assert_eq!(env.calls, vec![auth("SCOUT")]);

    env.calls.clear();
    assert_eq!(
        Contract::finish_contact(&mut env, addr("SCOUT"), 3, false),
        Err(ScoutAccessError::PlayerNotFound)
    );
    assert_eq!(env.calls, vec![]);
    assert_eq!(Contract::get_accumulated_fees(&env), 1_000_000);

    assert_eq!(Contract::finish_contact(&mut env, addr("SCOUT"), 3, true), Ok(()));
    assert_eq!(Contract::get_accumulated_fees(&env), 1_100_000);
    assert!(Contract::has_contacted(&mut env, addr("SCOUT"), 3));
}

#[test]
fn trial_offers_are_numbered_by_player() {
    let mut env = with_scout(SubscriptionTier::Elite);
    assert_eq!(Contract::get_trial_count(&mut env, 1), 0);
    assert_eq!(env.calls, vec![]);
    let offer = |hash: &str, player_id: u64| TrialOffer {
        player_id,
        scout: addr("SCOUT"),
        details_hash: String::from(hash),
        logged_at: NOW,
    };
    assert_eq!(
        Contract::log_trial_offer(&mut env, addr("SCOUT"), 1, String::from("QmA")),
        Ok(Step::Done(1))
    );
    assert_eq!(
        env.calls,
        vec![
            auth("SCOUT"),
            keep_sub(),
            HostCall::Store(Entry::TrialOffer(1, 1, offer("QmA", 1))),
            keep_offer(1, 1),
            HostCall::Store(Entry::TrialCounter(1, 1)),
            keep_counter(1),
            HostCall::Publish(Event::TrialOfferLogged { player_id: 1, scout: addr("SCOUT") }),
        ]
    );
    assert_eq!(
        Contract::log_trial_offer(&mut env, addr("SCOUT"), 1, String::from("QmB")),
        Ok(Step::Done(2))
    );
    assert_eq!(
        Contract::log_trial_offer(&mut env, addr("SCOUT"), 2, String::from("QmC")),
        Ok(Step::Done(1))
    );
    env.calls.clear();
    assert_eq!(Contract::get_trial_count(&mut env, 1), 2);
    assert_eq!(Contract::get_trial_offer(&mut env, 1, 1), Ok(offer("QmA", 1)));
    assert_eq!(env.calls, vec![keep_counter(1), keep_offer(1, 1)]);
    assert_eq!(Contract::get_trial_offer(&mut env, 1, 2), Ok(offer("QmB", 1)));
    assert_eq!(Contract::get_trial_offer(&mut env, 2, 1), Ok(offer("QmC", 2)));

    env.calls.clear();
    for (player_id, index) in [(1, 0), (1, 3), (3, 1)] {
        assert_eq!(
            Contract::get_trial_offer(&mut env, player_id, index),
            Err(ScoutAccessError::TrialOfferNotFound)
        );
    }
    assert_eq!(env.calls, vec![]);
}

#[test]
fn trial_offers_are_for_the_elite() {
    for tier in [SubscriptionTier::Basic, SubscriptionTier::Pro] {
        let mut env = with_scout(tier);
        assert_eq!(
            Contract::log_trial_offer(&mut env, addr("SCOUT"), 1, String::from("Qm")),
            Err(ScoutAccessError::Unauthorized)
        );
        assert_eq!(env.calls, vec![auth("SCOUT")]);
        assert_eq!(Contract::get_trial_count(&mut env, 1), 0);
    }
    let mut env = ready();
    assert_eq!(
        Contract::log_trial_offer(&mut env, addr("SCOUT"), 1, String::from("Qm")),
        Err(ScoutAccessError::ScoutNotSubscribed)
    );
}

#[test]
fn progress_contract_is_asked_to_advance_the_player() {
    let mut env = with_scout(SubscriptionTier::Elite);
    assert_eq!(Contract::set_progress_contract(&mut env, addr("PROGRESS")), Ok(()));
    assert_eq!(
        Contract::log_trial_offer(&mut env, addr("SCOUT"), 9, String::from("Qm")),
        Ok(Step::Ask(Query::AdvanceLevel {
            progress: addr("PROGRESS"),
            scout: addr("SCOUT"),
            player_id: 9,
            index: 1,
        }))
    );
    assert_eq!(Contract::finish_trial_offer(1, AdvanceReply::Advanced), Ok(1));
    assert_eq!(Contract::finish_trial_offer(1, AdvanceReply::AlreadyAtMaxLevel), Ok(1));
    assert_eq!(
        Contract::finish_trial_offer(1, AdvanceReply::Failed),
        Err(ScoutAccessError::ProgressCallFailed)
    );
}

#[test]
fn withdrawal_pays_everything_out() {
    let mut env = with_scout(SubscriptionTier::Elite);
    assert_eq!(Contract::withdraw_fees(&mut env, addr("TO")), Ok(7_000_000));
    assert_eq!(
        env.calls,
        vec![
            auth("ADMIN"),
            HostCall::Transfer {
                token: addr("XLM"),
                from: addr("CONTRACT"),
                to: addr("TO"),
                amount: 7_000_000,
            },
            HostCall::Store(Entry::AccumulatedFees(0)),
            HostCall::Publish(Event::FeesWithdrawn { to: addr("TO"), amount: 7_000_000 }),
        ]
    );
    assert_eq!(Contract::get_accumulated_fees(&env), 0);
    env.calls.clear();
    assert_eq!(Contract::withdraw_fees(&mut env, addr("TO")), Ok(0));
    assert_eq!(env.calls, vec![auth("ADMIN")]);
}

#[test]
fn faults_are_found_before_the_call() {
    let mut env = ready();
    let tier = SubscriptionTier::Basic;
    assert_eq!(Contract::subscribe_trap(&env, tier), None);
    assert_eq!(Contract::withdraw_trap(&env), None);

    env.storage.instance.accumulated_fees = Some(i128::MAX - 999_999);
    assert_eq!(Contract::subscribe_trap(&env, tier), Some(Trap::FeesOverflow));
    assert_eq!(Contract::contact_fee_trap(&env), None);
    env.storage.instance.accumulated_fees = Some(i128::MAX - 1_000_000);
    assert_eq!(Contract::subscribe_trap(&env, tier), None);

    env.timestamp = u64::MAX - MONTH + 1;
    assert_eq!(Contract::subscribe_trap(&env, tier), Some(Trap::Overflow));
    env.timestamp = u64::MAX - MONTH;
    assert_eq!(Contract::subscribe_trap(&env, tier), None);

    env.storage.instance.xlm_token = None;
    assert_eq!(Contract::subscribe_trap(&env, tier), Some(Trap::XlmTokenNotSet));
    assert_eq!(Contract::contact_fee_trap(&env), Some(Trap::XlmTokenNotSet));
    assert_eq!(Contract::withdraw_trap(&env), Some(Trap::XlmTokenNotSet));

    env.storage.instance.fee_config = None;
    assert_eq!(Contract::subscribe_trap(&env, tier), Some(Trap::FeeConfigNotSet));
    assert_eq!(Contract::contact_fee_trap(&env), Some(Trap::FeeConfigNotSet));

    env.storage.instance.paused = Some(true);
    assert_eq!(Contract::subscribe_trap(&env, tier), None);
}

#[test]
fn fees_of_a_new_contract_cannot_be_read() {
    assert_eq!(Contract::get_fee_config_trap(&fresh()), Some(Trap::FeeConfigNotSet));
    assert_eq!(Contract::get_fee_config_trap(&ready()), None);
    assert_eq!(Contract::get_accumulated_fees(&fresh()), 0);
}

#[test]
fn fees_are_the_sum_of_what_was_charged_less_what_was_withdrawn() {
    let mut env = ready();
    let _ = Contract::subscribe(&mut env, addr("SCOUT"), SubscriptionTier::Elite);
    let _ = Contract::subscribe(&mut env, addr("OTHER"), SubscriptionTier::Pro);
    let _ = Contract::pay_to_contact(&mut env, addr("OTHER"), 1);
    assert_eq!(Contract::withdraw_fees(&mut env, addr("TO")), Ok(10_100_000));
    // Refused: already contacted, and no subscription.
    assert!(Contract::pay_to_contact(&mut env, addr("OTHER"), 1).is_err());
    assert!(Contract::pay_to_contact(&mut env, addr("THIRD"), 1).is_err());
    let _ = Contract::pay_to_contact(&mut env, addr("SCOUT"), 1);
    assert_eq!(Contract::get_accumulated_fees(&env), 100_000);
}

#[test]
fn faults_of_contacts_and_trial_offers() {
    let mut env = with_scout(SubscriptionTier::Elite);
    let scout = addr("SCOUT");
    assert_eq!(Contract::pay_to_contact_trap(&env, &scout, 1), None);
    env.storage.instance.accumulated_fees = Some(i128::MAX);
    assert_eq!(Contract::pay_to_contact_trap(&env, &scout, 1), Some(Trap::FeesOverflow));
    // Without a subscription the call is refused before it is charged.
    assert_eq!(Contract::pay_to_contact_trap(&env, &addr("OTHER"), 1), None);
    // With a registration contract the charge comes later.
    env.storage.instance.registration_contract = Some(addr("REG"));
    assert_eq!(Contract::pay_to_contact_trap(&env, &scout, 1), None);
    assert_eq!(Contract::contact_fee_trap(&env), Some(Trap::FeesOverflow));

    env.storage.trial_counters.set(5, u32::MAX);
    assert_eq!(Contract::log_trial_offer_trap(&env, &scout, 5), Some(Trap::Overflow));
    assert_eq!(Contract::log_trial_offer_trap(&env, &scout, 6), None);
    assert_eq!(Contract::log_trial_offer_trap(&env, &addr("OTHER"), 5), None);
    env.storage.trial_counters.set(5, u32::MAX - 1);
    assert_eq!(
        Contract::log_trial_offer(&mut env, scout, 5, String::from("Qm")),
        Ok(Step::Done(u32::MAX))
    );
}

#[test]
fn faults_have_their_messages() {
    assert_eq!(Trap::FeeConfigNotSet.message(), "fee config not set");
    assert_eq!(Trap::XlmTokenNotSet.message(), "xlm token not set");
    assert_eq!(Trap::FeesOverflow.message(), "attempt to add with overflow");
    assert_eq!(Trap::Overflow.message(), "overflow");
}

#[test]
fn negative_fee_lowers_the_count() {
    let mut env = ready();
    let mut odd = fees();
    odd.basic_sub_stroops = -5;
    assert_eq!(Contract::update_fee_config(&mut env, odd), Ok(()));
    assert_eq!(Contract::subscribe(&mut env, addr("SCOUT"), SubscriptionTier::Basic), Ok(()));
    assert_eq!(Contract::get_accumulated_fees(&env), -5);
}

#[test]
fn stored_entries_replayed_give_the_same_storage() {
    let mut env = fresh();
    let _ = Contract::initialize(&mut env, addr("ADMIN"), addr("XLM"), fees());
    let _ = Contract::subscribe(&mut env, addr("SCOUT"), SubscriptionTier::Elite);
    let _ = Contract::pay_to_contact(&mut env, addr("SCOUT"), 4);
    let _ = Contract::log_trial_offer(&mut env, addr("SCOUT"), 4, String::from("Qm"));

    let mut copy = fresh();
    for call in std::mem::take(&mut env.calls) {
        if let HostCall::Store(entry) = call {
            copy.storage.write(entry);
        }
    }
    assert_eq!(copy.storage.instance, env.storage.instance);
    assert_eq!(
        Contract::get_subscription(&mut copy, addr("SCOUT")),
        Contract::get_subscription(&mut env, addr("SCOUT"))
    );
    assert!(Contract::has_contacted(&mut copy, addr("SCOUT"), 4));
    assert_eq!(
        Contract::get_trial_offer(&mut copy, 4, 1),
        Contract::get_trial_offer(&mut env, 4, 1)
    );
    assert_eq!(Contract::get_trial_count(&mut copy, 4), 1);
}

#[test]
fn entries_that_a_call_does_not_read_make_no_difference() {
    let mut whole = with_scout(SubscriptionTier::Elite);
    let _ = Contract::subscribe(&mut whole, addr("OTHER"), SubscriptionTier::Basic);
    let _ = Contract::pay_to_contact(&mut whole, addr("OTHER"), 1);
    let _ = Contract::log_trial_offer(&mut whole, addr("SCOUT"), 1, String::from("QmA"));
    let _ = Contract::log_trial_offer(&mut whole, addr("SCOUT"), 2, String::from("QmB"));
    whole.calls.clear();

    let mut part = fresh();
    part.storage.instance.admin = Some(addr("ADMIN"));
    part.storage.instance.xlm_token = Some(addr("XLM"));
    part.storage.instance.fee_config = Some(fees());
    part.storage.instance.initialized = Some(true);
    part.storage.instance.paused = Some(false);
    part.storage.instance.accumulated_fees = Some(Contract::get_accumulated_fees(&whole));
    let sub = whole.storage.subscriptions.get(&addr("SCOUT")).unwrap().clone();
    part.storage.subscriptions.set(addr("SCOUT"), sub);
    part.storage.trial_counters.set(1, 1);

    assert_eq!(
        Contract::pay_to_contact(&mut part, addr("SCOUT"), 1),
        Contract::pay_to_contact(&mut whole, addr("SCOUT"), 1)
    );
    assert_eq!(
        Contract::log_trial_offer(&mut part, addr("SCOUT"), 1, String::from("QmC")),
        Contract::log_trial_offer(&mut whole, addr("SCOUT"), 1, String::from("QmC"))
    );
    assert_eq!(part.calls.len(), 14);
    assert_eq!(part.calls, whole.calls);
}

#[test]
fn table_keeps_one_value_for_each_key() {
    let mut table: Table<u64, u32> = Table::new();
    assert_eq!(table.get(&1), None);
    table.set(1, 10);
    table.set(2, 20);
    table.set(1, 11);
    assert_eq!(table.get(&1), Some(&11));
    assert_eq!(table.get(&2), Some(&20));
    assert!(table.has(&2));
    assert!(!table.has(&3));
}

#[test]
fn progress_entry_is_cloned_whole() {
    let entry = ProgressEntry {
        player_id: 1,
        old_level: ProgressLevel { number: 2 },
        new_level: ProgressLevel { number: 3 },
        updated_by: addr("SCOUT"),
        updated_at: NOW,
        milestone_ref: 4,
        ledger_sequence: 5,
    };
    assert_eq!(entry.clone(), entry);
    assert_ne!(ProgressKey::PlayerLevel(1), ProgressKey::HistoryCounter(1));
}
