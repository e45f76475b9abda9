//! The contract on a Soroban host: the rules decide, and the host keeps the
//! storage, moves the tokens and checks the authorizations.
use scoutchain::scout_access::contract::ScoutAccessContract as Rules;
use scoutchain::scout_access::env::{AdvanceReply, Entry, Env as State, HostCall, Query, Step};
use scoutchain::scout_access::errors::{ScoutAccessError, Trap};
use scoutchain::scout_access::events::Event;
use scoutchain::scout_access::types::{
    Address as Party, DataKey, FeeConfig, Subscription, SubscriptionTier, TrialOffer,
};
use soroban_sdk::testutils::storage::Persistent as _;
use soroban_sdk::testutils::{
    Address as _, ContractFunctionSet, EnvTestConfig, Events as _, Ledger as _,
};
use soroban_sdk::token::{StellarAssetClient, TokenClient};
use soroban_sdk::{Address, Env, Error, IntoVal, String as HostString, Symbol, TryFromVal, Val};

// ---------------------------------------------------------------------------
// Values between the host and the rules
// ---------------------------------------------------------------------------

type Fees = (i128, i128, i128, i128, u64);
type Sub = (Address, u32, u64, u64);
type Offer = (u64, Address, HostString, u64);

fn text(s: &HostString) -> String {
    let mut bytes = vec![0u8; s.len() as usize];
    s.copy_into_slice(&mut bytes);
    bytes.into_iter().map(char::from).collect()
}

fn party(a: &Address) -> Party {
    Party { strkey: text(&a.to_string()) }
}

fn address(env: &Env, p: &Party) -> Address {
    Address::from_str(env, &p.strkey)
}

fn fees_of(c: FeeConfig) -> Fees {
    (
        c.contact_fee_stroops,
        c.basic_sub_stroops,
        c.pro_sub_stroops,
        c.elite_sub_stroops,
        c.sub_duration_secs,
    )
}

fn config_of(f: Fees) -> FeeConfig {
    FeeConfig {
        contact_fee_stroops: f.0,
        basic_sub_stroops: f.1,
        pro_sub_stroops: f.2,
        elite_sub_stroops: f.3,
        sub_duration_secs: f.4,
    }
}

fn tier_number(t: SubscriptionTier) -> u32 {
    match t {
        SubscriptionTier::Basic => 0,
        SubscriptionTier::Pro => 1,
        SubscriptionTier::Elite => 2,
    }
}

fn tier_of(n: u32) -> SubscriptionTier {
    match n {
        0 => SubscriptionTier::Basic,
        1 => SubscriptionTier::Pro,
        2 => SubscriptionTier::Elite,
        _ => panic!("no such tier"),
    }
}

fn sub_val(env: &Env, s: &Subscription) -> Sub {
    (address(env, &s.scout), tier_number(s.tier), s.expires_at, s.subscribed_at)
}

fn sub_of(s: Sub) -> Subscription {
    Subscription { scout: party(&s.0), tier: tier_of(s.1), expires_at: s.2, subscribed_at: s.3 }
}

fn offer_val(env: &Env, o: &TrialOffer) -> Offer {
    (
        o.player_id,
        address(env, &o.scout),
        HostString::from_str(env, &o.details_hash),
        o.logged_at,
    )
}

fn offer_of(o: Offer) -> TrialOffer {
    TrialOffer { player_id: o.0, scout: party(&o.1), details_hash: text(&o.2), logged_at: o.3 }
}

fn symbol(env: &Env, name: &str) -> Symbol {
    Symbol::new(env, name)
}

fn key(env: &Env, k: &DataKey) -> Val {
    match k {
        DataKey::Admin => symbol(env, "Admin").into_val(env),
        DataKey::XlmToken => symbol(env, "XlmToken").into_val(env),
        DataKey::FeeConfig => symbol(env, "FeeConfig").into_val(env),
        DataKey::Initialized => symbol(env, "Initialized").into_val(env),
        DataKey::Paused => symbol(env, "Paused").into_val(env),
        DataKey::AccumulatedFees => symbol(env, "AccumulatedFees").into_val(env),
        DataKey::ProgressContract => symbol(env, "ProgressContract").into_val(env),
        DataKey::RegistrationContract => symbol(env, "RegistrationContract").into_val(env),
        DataKey::Subscription(scout) => {
            (symbol(env, "Subscription"), address(env, scout)).into_val(env)
        }
        DataKey::ContactRecord(player_id, scout) => {
            (symbol(env, "ContactRecord"), *player_id, address(env, scout)).into_val(env)
        }
        DataKey::TrialCounter(player_id) => (symbol(env, "TrialCounter"), *player_id).into_val(env),
        DataKey::TrialOffer(player_id, index) => {
            (symbol(env, "TrialOffer"), *player_id, *index).into_val(env)
        }
    }
}

// ---------------------------------------------------------------------------
// Reading the ledger, and carrying out what a call asks for
// ---------------------------------------------------------------------------

fn load(env: &Env) -> State {
    let mut state = State::new(party(&env.current_contract_address()), env.ledger().timestamp());
    let storage = env.storage().instance();
    let who = |k: DataKey| storage.get::<Val, Address>(&key(env, &k)).map(|a| party(&a));
    let instance = &mut state.storage.instance;
    instance.admin = who(DataKey::Admin);
    instance.xlm_token = who(DataKey::XlmToken);
    instance.fee_config =
        storage.get::<Val, Fees>(&key(env, &DataKey::FeeConfig)).map(config_of);
    instance.initialized = storage.get(&key(env, &DataKey::Initialized));
    instance.paused = storage.get(&key(env, &DataKey::Paused));
    instance.accumulated_fees = storage.get(&key(env, &DataKey::AccumulatedFees));
    instance.progress_contract = who(DataKey::ProgressContract);
    instance.registration_contract = who(DataKey::RegistrationContract);
    state
}

fn load_key(env: &Env, state: &mut State, k: DataKey) {
    let storage = env.storage().persistent();
    let at = key(env, &k);
    if !storage.has(&at) {
        return;
    }
    match k {
        DataKey::Subscription(scout) => {
            let sub: Sub = storage.get(&at).unwrap();
            state.storage.subscriptions.set(scout, sub_of(sub));
        }
        DataKey::ContactRecord(player_id, scout) => {
            state.storage.contacts.set((player_id, scout), storage.get(&at).unwrap());
        }
        DataKey::TrialCounter(player_id) => {
            state.storage.trial_counters.set(player_id, storage.get(&at).unwrap());
        }
        DataKey::TrialOffer(player_id, index) => {
            let offer: Offer = storage.get(&at).unwrap();
            state.storage.trial_offers.set((player_id, index), offer_of(offer));
        }
        _ => panic!("not a persistent key"),
    }
}

fn store(env: &Env, entry: Entry) {
    let instance = env.storage().instance();
    let persistent = env.storage().persistent();
    match entry {
        Entry::Admin(a) => instance.set(&key(env, &DataKey::Admin), &address(env, &a)),
        Entry::XlmToken(a) => instance.set(&key(env, &DataKey::XlmToken), &address(env, &a)),
        Entry::FeeConfig(c) => instance.set(&key(env, &DataKey::FeeConfig), &fees_of(c)),
        Entry::Initialized(b) => instance.set(&key(env, &DataKey::Initialized), &b),
        Entry::Paused(b) => instance.set(&key(env, &DataKey::Paused), &b),
        Entry::AccumulatedFees(f) => instance.set(&key(env, &DataKey::AccumulatedFees), &f),
        Entry::ProgressContract(a) => {
            instance.set(&key(env, &DataKey::ProgressContract), &address(env, &a))
        }
        Entry::RegistrationContract(a) => {
            instance.set(&key(env, &DataKey::RegistrationContract), &address(env, &a))
        }
        Entry::Subscription(scout, sub) => {
            persistent.set(&key(env, &DataKey::Subscription(scout)), &sub_val(env, &sub))
        }
        Entry::ContactRecord(player_id, scout, b) => {
            persistent.set(&key(env, &DataKey::ContactRecord(player_id, scout)), &b)
        }
        Entry::TrialCounter(player_id, count) => {
            persistent.set(&key(env, &DataKey::TrialCounter(player_id)), &count)
        }
        Entry::TrialOffer(player_id, index, offer) => {
            persistent.set(&key(env, &DataKey::TrialOffer(player_id, index)), &offer_val(env, &offer))
        }
    }
}

#[allow(deprecated)]
fn publish(env: &Env, event: Event) {
    match event {
        Event::FeesWithdrawn { to, amount } => {
            env.events().publish((symbol(env, "withdrawn"), address(env, &to)), amount)
        }
        Event::ScoutSubscribed { scout, tier } => {
            env.events().publish((symbol(env, "subscribed"), address(env, &scout)), tier_number(tier))
        }
        Event::PlayerContacted { player_id, scout } => {
            env.events().publish((symbol(env, "contacted"), player_id), address(env, &scout))
        }
        Event::TrialOfferLogged { player_id, scout } => {
            env.events().publish((symbol(env, "trial_offer"), player_id), address(env, &scout))
        }
    }
}

fn perform(env: &Env, state: &mut State) {
    for call in std::mem::take(&mut state.calls) {
        match call {
            HostCall::RequireAuth(who) => address(env, &who).require_auth(),
            HostCall::Transfer { token, from, to, amount } => {
                TokenClient::new(env, &address(env, &token)).transfer(
                    &address(env, &from),
                    &address(env, &to),
                    &amount,
                );
            }
            HostCall::Store(entry) => store(env, entry),
            HostCall::ExtendTtl { key: k, threshold, extend_to } => {
                env.storage().persistent().extend_ttl(&key(env, &k), threshold, extend_to)
            }
            HostCall::Publish(event) => publish(env, event),
        }
    }
}

fn abandon_on(trap: Option<Trap>) {
    if let Some(trap) = trap {
        panic!("{}", trap.message());
    }
}

// ---------------------------------------------------------------------------
// The contracts
// ---------------------------------------------------------------------------

const PLAYER_AT_TOP: u32 = 5;

fn code(e: ScoutAccessError) -> u32 {
    match e {
        ScoutAccessError::AlreadyInitialized => 1,
        ScoutAccessError::NotInitialized => 2,
        ScoutAccessError::ContractPaused => 3,
        ScoutAccessError::Unauthorized => 4,
        ScoutAccessError::ScoutNotSubscribed => 5,
        ScoutAccessError::SubscriptionExpired => 6,
        ScoutAccessError::AlreadyContacted => 7,
        ScoutAccessError::PlayerNotFound => 8,
        ScoutAccessError::TrialOfferNotFound => 9,
        ScoutAccessError::ProgressCallFailed => 10,
    }
}

fn answer<T: IntoVal<Env, Val>>(env: &Env, res: Result<T, ScoutAccessError>) -> Val {
    match res {
        Ok(v) => v.into_val(env),
        Err(e) => Error::from_contract_error(code(e)).to_val(),
    }
}

fn arg<T: TryFromVal<Env, Val>>(env: &Env, args: &[Val], i: usize) -> T {
    match T::try_from_val(env, &args[i]) {
        Ok(v) => v,
        Err(_) => panic!("bad argument"),
    }
}

fn list(env: &Env, args: &[Val]) -> soroban_sdk::Vec<Val> {
    soroban_sdk::Vec::from_slice(env, args)
}

fn pay_to_contact(env: &Env, scout: Address, player_id: u64) -> Result<(), ScoutAccessError> {
    let who = party(&scout);
    let mut state = load(env);
    load_key(env, &mut state, DataKey::Subscription(who.clone()));
    load_key(env, &mut state, DataKey::ContactRecord(player_id, who.clone()));
    abandon_on(Rules::pay_to_contact_trap(&state, &who, player_id));
    let res = Rules::pay_to_contact(&mut state, who.clone(), player_id);
    perform(env, &mut state);
    if let Step::Ask(Query::GetPlayer { registration, player_id }) = res? {
        let found = env
            .try_invoke_contract::<Val, Error>(
                &address(env, &registration),
                &symbol(env, "get_player"),
                list(env, &[player_id.into_val(env)]),
            )
            .is_ok();
        if found {
            abandon_on(Rules::contact_fee_trap(&state));
        }
        let res = Rules::finish_contact(&mut state, who, player_id, found);
        perform(env, &mut state);
        return res;
    }
    Ok(())
}

fn log_trial_offer(
    env: &Env,
    scout: Address,
    player_id: u64,
    details_hash: HostString,
) -> Result<u32, ScoutAccessError> {
    let who = party(&scout);
    let mut state = load(env);
    load_key(env, &mut state, DataKey::Subscription(who.clone()));
    load_key(env, &mut state, DataKey::TrialCounter(player_id));
    abandon_on(Rules::log_trial_offer_trap(&state, &who, player_id));
    let res = Rules::log_trial_offer(&mut state, who, player_id, text(&details_hash));
    perform(env, &mut state);
    match res? {
        Step::Done(index) => Ok(index),
        Step::Ask(Query::AdvanceLevel { progress, scout, player_id, index }) => {
            let reply = env.try_invoke_contract::<Val, Error>(
                &address(env, &progress),
                &symbol(env, "advance_level"),
                list(
                    env,
                    &[
                        address(env, &scout).into_val(env),
                        player_id.into_val(env),
                        index.into_val(env),
                    ],
                ),
            );
            let reply = match reply {
                Ok(_) => AdvanceReply::Advanced,
                Err(Ok(e)) if e == Error::from_contract_error(PLAYER_AT_TOP) => {
                    AdvanceReply::AlreadyAtMaxLevel
                }
                Err(_) => AdvanceReply::Failed,
            };
            Rules::finish_trial_offer(index, reply)
        }
        Step::Ask(other) => panic!("{:?}", other),
    }
}

struct ScoutAccess;

impl ContractFunctionSet for ScoutAccess {
    fn call(&self, func: &str, env: Env, args: &[Val]) -> Option<Val> {
        let env = &env;
        let val = match func {
            "initialize" => {
                let mut state = load(env);
                let admin: Address = arg(env, args, 0);
                let token: Address = arg(env, args, 1);
                let fees: Fees = arg(env, args, 2);
                let res =
                    Rules::initialize(&mut state, party(&admin), party(&token), config_of(fees));
                perform(env, &mut state);
                answer(env, res)
            }
            "update_fee_config" => {
                let mut state = load(env);
                let res = Rules::update_fee_config(&mut state, config_of(arg(env, args, 0)));
                perform(env, &mut state);
                answer(env, res)
            }
            "withdraw_fees" => {
                let mut state = load(env);
                let to: Address = arg(env, args, 0);
                abandon_on(Rules::withdraw_trap(&state));
                let res = Rules::withdraw_fees(&mut state, party(&to));
                perform(env, &mut state);
                answer(env, res)
            }
            "pause_contract" => {
                let mut state = load(env);
                let res = Rules::pause_contract(&mut state);
                perform(env, &mut state);
                answer(env, res)
            }
            "unpause_contract" => {
                let mut state = load(env);
                let res = Rules::unpause_contract(&mut state);
                perform(env, &mut state);
                answer(env, res)
            }
            "set_progress_contract" => {
                let mut state = load(env);
                let addr: Address = arg(env, args, 0);
                let res = Rules::set_progress_contract(&mut state, party(&addr));
                perform(env, &mut state);
                answer(env, res)
            }
            "set_registration_contract" => {
                let mut state = load(env);
                let addr: Address = arg(env, args, 0);
                let res = Rules::set_registration_contract(&mut state, party(&addr));
                perform(env, &mut state);
                answer(env, res)
            }
            "subscribe" => {
                let mut state = load(env);
                let scout: Address = arg(env, args, 0);
                let tier = tier_of(arg(env, args, 1));
                abandon_on(Rules::subscribe_trap(&state, tier));
                let res = Rules::subscribe(&mut state, party(&scout), tier);
                perform(env, &mut state);
                answer(env, res)
            }
            "pay_to_contact" => {
                answer(env, pay_to_contact(env, arg(env, args, 0), arg(env, args, 1)))
            }
            "log_trial_offer" => answer(
                env,
                log_trial_offer(env, arg(env, args, 0), arg(env, args, 1), arg(env, args, 2)),
            ),
            "get_subscription" => {
                let scout: Address = arg(env, args, 0);
                let mut state = load(env);
                load_key(env, &mut state, DataKey::Subscription(party(&scout)));
                let res = Rules::get_subscription(&mut state, party(&scout));
                perform(env, &mut state);
                answer(env, res.map(|sub| sub_val(env, &sub)))
            }
            "get_fee_config" => {
                let state = load(env);
                abandon_on(Rules::get_fee_config_trap(&state));
                fees_of(Rules::get_fee_config(&state)).into_val(env)
            }
            "get_accumulated_fees" => Rules::get_accumulated_fees(&load(env)).into_val(env),
            "has_contacted" => {
                let scout: Address = arg(env, args, 0);
                let player_id: u64 = arg(env, args, 1);
                let mut state = load(env);
                load_key(env, &mut state, DataKey::ContactRecord(player_id, party(&scout)));
                let found = Rules::has_contacted(&mut state, party(&scout), player_id);
                perform(env, &mut state);
                found.into_val(env)
            }
            "get_trial_offer" => {
                let player_id: u64 = arg(env, args, 0);
                let index: u32 = arg(env, args, 1);
                let mut state = load(env);
                load_key(env, &mut state, DataKey::TrialOffer(player_id, index));
                let res = Rules::get_trial_offer(&mut state, player_id, index);
                perform(env, &mut state);
                answer(env, res.map(|offer| offer_val(env, &offer)))
            }
            "get_trial_count" => {
                let player_id: u64 = arg(env, args, 0);
                let mut state = load(env);
                load_key(env, &mut state, DataKey::TrialCounter(player_id));
                let count = Rules::get_trial_count(&mut state, player_id);
                perform(env, &mut state);
                count.into_val(env)
            }
            "health" => Rules::health(&load(env)).into_val(env),
            _ => return None,
        };
        Some(val)
    }
}

/// A registration contract that knows the players with an even number.
struct Registration;

impl ContractFunctionSet for Registration {
    fn call(&self, func: &str, env: Env, args: &[Val]) -> Option<Val> {
        if func != "get_player" {
            return None;
        }
        let player_id: u64 = arg(&env, args, 0);
        if player_id % 2 == 0 {
            Some(player_id.into_val(&env))
        } else {
            Some(Error::from_contract_error(1).to_val())
        }
    }
}

/// A progress contract: player 1 can be advanced, player 2 is at the top, and
/// it fails for any other.
struct Progress;

impl ContractFunctionSet for Progress {
    fn call(&self, func: &str, env: Env, args: &[Val]) -> Option<Val> {
        if func != "advance_level" {
            return None;
        }
        let player_id: u64 = arg(&env, args, 1);
        match player_id {
            1 => Some(().into_val(&env)),
            2 => Some(Error::from_contract_error(PLAYER_AT_TOP).to_val()),
            _ => Some(Error::from_contract_error(2).to_val()),
        }
    }
}

/// Calls of the contract, which panic where it refuses, unless they begin
/// with `try_`.
struct Client {
    env: Env,
    id: Address,
}

impl Client {
    fn run<T: TryFromVal<Env, Val>>(&self, func: &str, args: &[Val]) -> T {
        self.env.invoke_contract(&self.id, &symbol(&self.env, func), list(&self.env, args))
    }

    fn try_run(&self, func: &str, args: &[Val]) -> Result<Val, Error> {
        let res = self.env.try_invoke_contract::<Val, Error>(
            &self.id,
            &symbol(&self.env, func),
            list(&self.env, args),
        );
        match res {
            Ok(Ok(v)) => Ok(v),
            Ok(Err(_)) => panic!("no value"),
            Err(Ok(e)) => Err(e),
            Err(Err(_)) => panic!("the call was abandoned"),
        }
    }

    fn initialize(&self, admin: &Address, xlm: &Address, fees: &FeeConfig) {
        let e = &self.env;
        self.run::<()>(
            "initialize",
            &[admin.into_val(e), xlm.into_val(e), fees_of(*fees).into_val(e)],
        )
    }

    fn health(&self) -> bool {
        self.run("health", &[])
    }

    fn subscribe(&self, scout: &Address, tier: &SubscriptionTier) {
        let e = &self.env;
        self.run::<()>("subscribe", &[scout.into_val(e), tier_number(*tier).into_val(e)])
    }

    fn pay_to_contact(&self, scout: &Address, player_id: &u64) {
        let e = &self.env;
        self.run::<()>("pay_to_contact", &[scout.into_val(e), player_id.into_val(e)])
    }

    fn try_pay_to_contact(&self, scout: &Address, player_id: &u64) -> Result<Val, Error> {
        let e = &self.env;
        self.try_run("pay_to_contact", &[scout.into_val(e), player_id.into_val(e)])
    }

    fn log_trial_offer(&self, scout: &Address, player_id: &u64, details: &str) -> u32 {
        let e = &self.env;
        let details = HostString::from_str(e, details);
        self.run(
            "log_trial_offer",
            &[scout.into_val(e), player_id.into_val(e), details.into_val(e)],
        )
    }

    fn try_log_trial_offer(
        &self,
        scout: &Address,
        player_id: &u64,
        details: &str,
    ) -> Result<Val, Error> {
        let e = &self.env;
        let details = HostString::from_str(e, details);
        self.try_run(
            "log_trial_offer",
            &[scout.into_val(e), player_id.into_val(e), details.into_val(e)],
        )
    }

    fn get_subscription(&self, scout: &Address) -> Subscription {
        sub_of(self.run("get_subscription", &[scout.into_val(&self.env)]))
    }

    fn get_accumulated_fees(&self) -> i128 {
        self.run("get_accumulated_fees", &[])
    }

    fn has_contacted(&self, scout: &Address, player_id: &u64) -> bool {
        let e = &self.env;
        self.run("has_contacted", &[scout.into_val(e), player_id.into_val(e)])
    }

    fn get_trial_offer(&self, player_id: &u64, index: &u32) -> TrialOffer {
        let e = &self.env;
        offer_of(self.run("get_trial_offer", &[player_id.into_val(e), index.into_val(e)]))
    }

    fn get_trial_count(&self, player_id: &u64) -> u32 {
        self.run("get_trial_count", &[player_id.into_val(&self.env)])
    }

    fn set_registration_contract(&self, addr: &Address) {
        self.run::<()>("set_registration_contract", &[addr.into_val(&self.env)])
    }

    fn set_progress_contract(&self, addr: &Address) {
        self.run::<()>("set_progress_contract", &[addr.into_val(&self.env)])
    }

    fn withdraw_fees(&self, to: &Address) -> i128 {
        self.run("withdraw_fees", &[to.into_val(&self.env)])
    }

    fn ttl(&self, k: DataKey) -> u32 {
        self.env.as_contract(&self.id, || {
            self.env.storage().persistent().get_ttl(&key(&self.env, &k))
        })
    }
}

/// How many events the contract announced in its last call.
fn events(client: &Client) -> usize {
    client.env.events().all().filter_by_contract(&client.id).events().len()
}

fn refused(e: ScoutAccessError) -> Error {
    Error::from_contract_error(code(e))
}

fn mint_token(env: &Env, token: &Address, to: &Address, amount: i128) {
    StellarAssetClient::new(env, token).mint(to, &amount);
}

fn balance(env: &Env, token: &Address, of: &Address) -> i128 {
    TokenClient::new(env, token).balance(of)
}

fn default_fees() -> FeeConfig {
    FeeConfig {
        contact_fee_stroops: 100_000,
        basic_sub_stroops: 1_000_000,
        pro_sub_stroops: 3_000_000,
        elite_sub_stroops: 7_000_000,
        sub_duration_secs: 30 * 24 * 60 * 60,
    }
}

fn setup() -> (Env, Address, Address, Address, Client) {
    let env = Env::new_with_config(EnvTestConfig { capture_snapshot_at_drop: false });
    env.mock_all_auths();
    let admin = Address::generate(&env);
    let xlm = env.register_stellar_asset_contract_v2(admin.clone()).address();
    let contract_id = env.register(ScoutAccess, ());
    let client = Client { env: env.clone(), id: contract_id.clone() };
    client.initialize(&admin, &xlm, &default_fees());
    (env, admin, xlm, contract_id, client)
}

// ---------------------------------------------------------------------------
// Tests
// ---------------------------------------------------------------------------

#[test]
fn test_initialize_and_health() {
    let (_, _, _, _, client) = setup();
    assert!(client.health());
}

#[test]
fn test_subscribe_basic() {
    let (env, _admin, xlm, contract_id, client) = setup();
    let scout = Address::generate(&env);
    mint_token(&env, &xlm, &scout, 10_000_000);

    client.subscribe(&scout, &SubscriptionTier::Basic);

    let sub = client.get_subscription(&scout);
    assert_eq!(sub.tier, SubscriptionTier::Basic);
    assert!(sub.expires_at > sub.subscribed_at);
    assert_eq!(client.get_accumulated_fees(), 1_000_000);
    assert_eq!(balance(&env, &xlm, &scout), 9_000_000);
    assert_eq!(balance(&env, &xlm, &contract_id), 1_000_000);
}

#[test]
fn test_subscribe_elite_and_pay_to_contact() {
    let (env, _admin, xlm, _contract_id, client) = setup();
    let scout = Address::generate(&env);
    mint_token(&env, &xlm, &scout, 100_000_000);

    client.subscribe(&scout, &SubscriptionTier::Elite);
    client.pay_to_contact(&scout, &1u64);

    assert!(client.has_contacted(&scout, &1u64));
    // elite fee + contact fee
    assert_eq!(client.get_accumulated_fees(), 7_000_000 + 100_000);
}

#[test]
#[should_panic]
fn test_duplicate_contact_fails() {
    let (env, _admin, xlm, _contract_id, client) = setup();
    let scout = Address::generate(&env);
    mint_token(&env, &xlm, &scout, 100_000_000);

    client.subscribe(&scout, &SubscriptionTier::Elite);
    client.pay_to_contact(&scout, &1u64);
    // A second contact with the same player panics.
    client.pay_to_contact(&scout, &1u64);
}

#[test]
fn test_log_trial_offer_elite() {
    let (env, _admin, xlm, _contract_id, client) = setup();
    let scout = Address::generate(&env);
    mint_token(&env, &xlm, &scout, 100_000_000);

    client.subscribe(&scout, &SubscriptionTier::Elite);
    let idx = client.log_trial_offer(&scout, &1u64, "QmTrialDetails");
    assert_eq!(idx, 1);
    assert_eq!(client.get_trial_count(&1u64), 1);

    let offer = client.get_trial_offer(&1u64, &1u32);
    assert_eq!(offer.player_id, 1);
    assert_eq!(offer.scout, party(&scout));
    assert_eq!(offer.details_hash, "QmTrialDetails");
}

#[test]
fn test_trial_offer_ttl_extended_after_ledger_advance() {
    let (env, _admin, xlm, _contract_id, client) = setup();

    env.ledger().with_mut(|l| {
        l.sequence_number = 100_000;
        l.min_persistent_entry_ttl = 500;
        l.max_entry_ttl = 600_000;
    });

    let scout = Address::generate(&env);
    mint_token(&env, &xlm, &scout, 100_000_000);
    client.subscribe(&scout, &SubscriptionTier::Elite);

    client.log_trial_offer(&scout, &1u64, "QmTTLTest");
    assert_eq!(client.ttl(DataKey::TrialOffer(1, 1)), 518_400);
    assert_eq!(client.ttl(DataKey::TrialCounter(1)), 518_400);

    // Past the shortest life of an entry, but within the one it was given.
    env.ledger().with_mut(|l| {
        l.sequence_number = 100_000 + 1_000;
    });

    let offer = client.get_trial_offer(&1u64, &1u32);
    assert_eq!(offer.player_id, 1);
    assert_eq!(client.get_trial_count(&1u64), 1);
}

#[test]
#[should_panic]
fn test_trial_offer_requires_elite() {
    let (env, _admin, xlm, _contract_id, client) = setup();
    let scout = Address::generate(&env);
    mint_token(&env, &xlm, &scout, 100_000_000);

    client.subscribe(&scout, &SubscriptionTier::Pro);
    client.log_trial_offer(&scout, &1u64, "QmDetails");
}

#[test]
#[should_panic]
fn test_trial_offer_rejected_for_basic_tier() {
    let (env, _admin, xlm, _contract_id, client) = setup();
    let scout = Address::generate(&env);
    mint_token(&env, &xlm, &scout, 100_000_000);

    client.subscribe(&scout, &SubscriptionTier::Basic);
    client.log_trial_offer(&scout, &1u64, "QmDetails");
}

#[test]
#[should_panic]
fn test_contact_without_subscription_fails() {
    let (env, _, _, _, client) = setup();
    let scout = Address::generate(&env);
    client.pay_to_contact(&scout, &1u64);
}

#[test]
fn test_subscription_expiry() {
    let (env, _admin, xlm, _contract_id, client) = setup();
    let scout = Address::generate(&env);
    mint_token(&env, &xlm, &scout, 100_000_000);

    client.subscribe(&scout, &SubscriptionTier::Pro);

    // Past the end of the subscription (31 days).
    env.ledger().with_mut(|l| {
        l.timestamp += 31 * 24 * 60 * 60;
    });

    assert_eq!(
        client.try_pay_to_contact(&scout, &1u64).unwrap_err(),
        refused(ScoutAccessError::SubscriptionExpired)
    );
}

#[test]
fn test_subscription_ttl_extended_after_ledger_advance() {
    let (env, _admin, xlm, _contract_id, client) = setup();

    env.ledger().with_mut(|l| {
        l.sequence_number = 100_000;
        l.min_persistent_entry_ttl = 200;
        l.max_entry_ttl = 10_000;
    });

    let scout = Address::generate(&env);
    mint_token(&env, &xlm, &scout, 10_000_000);

    client.subscribe(&scout, &SubscriptionTier::Basic);

    env.ledger().with_mut(|l| {
        l.sequence_number = 100_000 + 500;
    });

    let sub = client.get_subscription(&scout);
    assert_eq!(sub.tier, SubscriptionTier::Basic);
}

#[test]
fn test_pay_to_contact_without_registration_contract_skips_validation() {
    let (env, _admin, xlm, _contract_id, client) = setup();
    let scout = Address::generate(&env);
    mint_token(&env, &xlm, &scout, 100_000_000);

    client.subscribe(&scout, &SubscriptionTier::Elite);
    // Player 999 does not exist anywhere, but nobody looks.
    client.pay_to_contact(&scout, &999u64);
    assert!(client.has_contacted(&scout, &999u64));
}

#[test]
#[should_panic]
fn test_pay_to_contact_with_registration_contract_rejects_unknown_player() {
    let (env, _admin, xlm, _contract_id, client) = setup();
    let reg_id = env.register(Registration, ());
    client.set_registration_contract(&reg_id);

    let scout = Address::generate(&env);
    mint_token(&env, &xlm, &scout, 100_000_000);
    client.subscribe(&scout, &SubscriptionTier::Elite);

    client.pay_to_contact(&scout, &1u64);
}

#[test]
fn registered_player_is_contacted_and_unknown_one_costs_nothing() {
    let (env, _admin, xlm, _contract_id, client) = setup();
    client.set_registration_contract(&env.register(Registration, ()));
    let scout = Address::generate(&env);
    mint_token(&env, &xlm, &scout, 100_000_000);
    client.subscribe(&scout, &SubscriptionTier::Basic);

    assert_eq!(
        client.try_pay_to_contact(&scout, &1u64).unwrap_err(),
        refused(ScoutAccessError::PlayerNotFound)
    );
    assert_eq!(balance(&env, &xlm, &scout), 99_000_000);
    client.pay_to_contact(&scout, &2u64);
    assert_eq!(balance(&env, &xlm, &scout), 98_900_000);
    assert!(client.has_contacted(&scout, &2u64));
    assert!(!client.has_contacted(&scout, &1u64));
    assert_eq!(
        client.try_pay_to_contact(&scout, &2u64).unwrap_err(),
        refused(ScoutAccessError::AlreadyContacted)
    );
}

#[test]
fn progress_contract_decides_on_a_trial_offer() {
    let (env, _admin, xlm, _contract_id, client) = setup();
    client.set_progress_contract(&env.register(Progress, ()));
    let scout = Address::generate(&env);
    mint_token(&env, &xlm, &scout, 100_000_000);
    client.subscribe(&scout, &SubscriptionTier::Elite);

    assert_eq!(client.log_trial_offer(&scout, &1u64, "QmA"), 1);
    assert_eq!(events(&client), 1);
    assert_eq!(client.log_trial_offer(&scout, &2u64, "QmB"), 1);
    assert_eq!(events(&client), 1);
    assert_eq!(
        client.try_log_trial_offer(&scout, &3u64, "QmC").unwrap_err(),
        refused(ScoutAccessError::ProgressCallFailed)
    );
    // The host takes back what the refused call stored and announced.
    assert_eq!(events(&client), 0);
    assert_eq!(client.get_trial_count(&3u64), 0);
    assert_eq!(
        client
            .try_run("get_trial_offer", &[3u64.into_val(&env), 1u32.into_val(&env)])
            .unwrap_err(),
        refused(ScoutAccessError::TrialOfferNotFound)
    );
    assert_eq!(client.log_trial_offer(&scout, &1u64, "QmD"), 2);
}

#[test]
fn collected_fees_are_held_and_paid_out() {
    let (env, _admin, xlm, contract_id, client) = setup();
    let scout = Address::generate(&env);
    let treasury = Address::generate(&env);
    mint_token(&env, &xlm, &scout, 100_000_000);
    client.subscribe(&scout, &SubscriptionTier::Pro);
    client.pay_to_contact(&scout, &1u64);
    client.pay_to_contact(&scout, &2u64);

    assert_eq!(client.get_accumulated_fees(), 3_200_000);
    assert_eq!(balance(&env, &xlm, &contract_id), 3_200_000);
    assert_eq!(client.withdraw_fees(&treasury), 3_200_000);
    assert_eq!(balance(&env, &xlm, &treasury), 3_200_000);
    assert_eq!(balance(&env, &xlm, &contract_id), 0);
    assert_eq!(client.get_accumulated_fees(), 0);
    assert_eq!(client.withdraw_fees(&treasury), 0);
}

#[test]
fn scout_without_funds_gets_no_subscription() {
    let (env, _, _, contract_id, client) = setup();
    let scout = Address::generate(&env);
    let args = [scout.into_val(&env), tier_number(SubscriptionTier::Basic).into_val(&env)];
    let res = env.try_invoke_contract::<Val, Error>(
        &contract_id,
        &symbol(&env, "subscribe"),
        list(&env, &args),
    );
    assert!(res.is_err());
    assert_eq!(client.get_accumulated_fees(), 0);
    assert_eq!(
        client.try_run("get_subscription", &[scout.into_val(&env)]).unwrap_err(),
        refused(ScoutAccessError::ScoutNotSubscribed)
    );
}

#[test]
fn nothing_stays_without_the_authorization() {
    let (env, _admin, xlm, contract_id, client) = setup();
    let scout = Address::generate(&env);
    mint_token(&env, &xlm, &scout, 100_000_000);

    env.set_auths(&[]);
    let tier = tier_number(SubscriptionTier::Basic);
    for (func, args) in [
        ("subscribe", vec![scout.into_val(&env), tier.into_val(&env)]),
        ("pause_contract", vec![]),
        ("withdraw_fees", vec![scout.into_val(&env)]),
    ] {
        let res = env.try_invoke_contract::<Val, Error>(
            &contract_id,
            &symbol(&env, func),
            list(&env, &args),
        );
        assert!(res.is_err());
    }
    assert_eq!(client.get_accumulated_fees(), 0);
    assert_eq!(balance(&env, &xlm, &scout), 100_000_000);
    assert_eq!(
        client.try_run("get_subscription", &[scout.into_val(&env)]).unwrap_err(),
        refused(ScoutAccessError::ScoutNotSubscribed)
    );
    env.mock_all_auths();
    client.subscribe(&scout, &SubscriptionTier::Basic);
}

#[test]
fn entries_that_are_read_are_kept_alive() {
    let (env, _admin, xlm, _contract_id, client) = setup();
    env.ledger().with_mut(|l| {
        l.sequence_number = 100_000;
        l.min_persistent_entry_ttl = 500;
        l.max_entry_ttl = 600_000;
    });
    // The contract itself has to outlive the test.
    env.as_contract(&client.id, || env.storage().instance().extend_ttl(599_000, 599_000));

    let scout = Address::generate(&env);
    mint_token(&env, &xlm, &scout, 100_000_000);
    client.subscribe(&scout, &SubscriptionTier::Basic);
    let k = || DataKey::Subscription(party(&scout));
    assert_eq!(client.ttl(k()), 241_920);

    env.ledger().with_mut(|l| l.sequence_number += 100_000);
    client.get_subscription(&scout);
    assert_eq!(client.ttl(k()), 141_920);
    env.ledger().with_mut(|l| l.sequence_number += 20_960);
    client.get_subscription(&scout);
    assert_eq!(client.ttl(k()), 241_920);
}
