//! What the contract sees of the ledger, and what it asks of the host.
use vstd::prelude::*;

use crate::scout_access::events::Event;
use crate::scout_access::table::Table;
use crate::scout_access::types::{
    Address, DataKey, FeeConfig, Subscription, TrialOffer,
};

verus! {

/// The contract's instance storage.
#[derive(Debug, PartialEq, Eq)]
pub struct Instance {
    pub admin: Option<Address>,
    pub xlm_token: Option<Address>,
    pub fee_config: Option<FeeConfig>,
    pub initialized: Option<bool>,
    pub paused: Option<bool>,
    pub accumulated_fees: Option<i128>,
    pub progress_contract: Option<Address>,
    pub registration_contract: Option<Address>,
}

/// The contract's storage: all of the instance storage, and of the persistent
/// storage at least the entries that the call at hand reads. Which those are
/// is said by `reads` of the call.
pub struct Storage {
    pub instance: Instance,
    pub subscriptions: Table<Address, Subscription>,
    pub contacts: Table<(u64, Address), bool>,
    pub trial_counters: Table<u64, u32>,
    pub trial_offers: Table<(u64, u32), TrialOffer>,
}

/// A storage key with a value for it.
#[derive(Debug, PartialEq, Eq)]
pub enum Entry {
    Admin(Address),
    XlmToken(Address),
    FeeConfig(FeeConfig),
    Initialized(bool),
    Paused(bool),
    AccumulatedFees(i128),
    ProgressContract(Address),
    RegistrationContract(Address),
    Subscription(Address, Subscription),
    ContactRecord(u64, Address, bool),
    TrialCounter(u64, u32),
    TrialOffer(u64, u32, TrialOffer),
}

/// Something that the host has to do for the contract.
#[derive(Debug, PartialEq, Eq)]
pub enum HostCall {
    /// Abandon the call unless the address has authorized it.
    RequireAuth(Address),
    /// Move tokens, or abandon the call where that fails.
    Transfer { token: Address, from: Address, to: Address, amount: i128 },
    /// Write an entry to the ledger.
    Store(Entry),
    /// Give a persistent entry that has no more than `threshold` ledgers left
    /// a life of `extend_to` ledgers.
    ExtendTtl { key: DataKey, threshold: u32, extend_to: u32 },
    /// Announce an event.
    Publish(Event),
}

/// A question to another contract, whose answer a call waits for.
#[derive(Debug, PartialEq, Eq)]
pub enum Query {
    /// Does the registration contract know the player?
    GetPlayer { registration: Address, player_id: u64 },
    /// Advance the player in the progress contract, for a trial offer.
    AdvanceLevel { progress: Address, scout: Address, player_id: u64, index: u32 },
}

/// How far a call has come.
#[derive(Debug, PartialEq, Eq)]
pub enum Step<T> {
    /// It is done, with this result.
    Done(T),
    /// It goes on when the question is answered.
    Ask(Query),
}

/// What became of a `Query::AdvanceLevel`.
#[derive(Clone, Copy, Debug, PartialEq, Eq, Structural)]
pub enum AdvanceReply {
    Advanced,
    AlreadyAtMaxLevel,
    Failed,
}

/// A call's view of the ledger, with the list of what it asks of the host.
///
/// The host carries the list out in order. What the contract stores is written
/// to `storage` too, so that a later part of the call reads it.
pub struct Env {
    /// The address of the contract itself.
    pub contract: Address,
    /// When the ledger was closed, in seconds since the Unix epoch.
    pub timestamp: u64,
    pub storage: Storage,
    pub calls: Vec<HostCall>,
}

/// The contract's storage as maps.
#[verifier::ext_equal]
pub struct StorageView {
    pub instance: Instance,
    pub subscriptions: Map<Seq<char>, Subscription>,
    pub contacts: Map<(u64, Seq<char>), bool>,
    pub trial_counters: Map<u64, u32>,
    pub trial_offers: Map<(u64, u32), TrialOffer>,
}

/// An `Env` as mathematical values.
#[verifier::ext_equal]
pub struct EnvView {
    pub contract: Address,
    pub timestamp: u64,
    pub storage: StorageView,
    pub calls: Seq<HostCall>,
}

impl View for Storage {
    type V = StorageView;

    open spec fn view(&self) -> StorageView {
        StorageView {
            instance: self.instance,
            subscriptions: self.subscriptions@,
            contacts: self.contacts@,
            trial_counters: self.trial_counters@,
            trial_offers: self.trial_offers@,
        }
    }
}

impl View for Env {
    type V = EnvView;

    open spec fn view(&self) -> EnvView {
        EnvView {
            contract: self.contract,
            timestamp: self.timestamp,
            storage: self.storage@,
            calls: self.calls@,
        }
    }
}

impl Entry {
    /// The key that the entry is stored under.
    pub open spec fn key(self) -> DataKey {
        match self {
            Entry::Admin(_) => DataKey::Admin,
            Entry::XlmToken(_) => DataKey::XlmToken,
            Entry::FeeConfig(_) => DataKey::FeeConfig,
            Entry::Initialized(_) => DataKey::Initialized,
            Entry::Paused(_) => DataKey::Paused,
            Entry::AccumulatedFees(_) => DataKey::AccumulatedFees,
            Entry::ProgressContract(_) => DataKey::ProgressContract,
            Entry::RegistrationContract(_) => DataKey::RegistrationContract,
            Entry::Subscription(scout, _) => DataKey::Subscription(scout),
            Entry::ContactRecord(player_id, scout, _) => DataKey::ContactRecord(player_id, scout),
            Entry::TrialCounter(player_id, _) => DataKey::TrialCounter(player_id),
            Entry::TrialOffer(player_id, index, _) => DataKey::TrialOffer(player_id, index),
        }
    }

    /// Whether the entry belongs to the persistent storage.
    pub open spec fn persistent(self) -> bool {
        self is Subscription || self is ContactRecord || self is TrialCounter || self is TrialOffer
    }
}

impl StorageView {
    /// The storage of a contract that was never called.
    pub open spec fn empty() -> StorageView {
        StorageView {
            instance: Instance {
                admin: None,
                xlm_token: None,
                fee_config: None,
                initialized: None,
                paused: None,
                accumulated_fees: None,
                progress_contract: None,
                registration_contract: None,
            },
            subscriptions: Map::empty(),
            contacts: Map::empty(),
            trial_counters: Map::empty(),
            trial_offers: Map::empty(),
        }
    }

    /// The storage after an entry was written.
    pub open spec fn write(self, entry: Entry) -> StorageView {
        match entry {
            Entry::Admin(v) => StorageView {
                instance: Instance { admin: Some(v), ..self.instance },
                ..self
            },
            Entry::XlmToken(v) => StorageView {
                instance: Instance { xlm_token: Some(v), ..self.instance },
                ..self
            },
            Entry::FeeConfig(v) => StorageView {
                instance: Instance { fee_config: Some(v), ..self.instance },
                ..self
            },
            Entry::Initialized(v) => StorageView {
                instance: Instance { initialized: Some(v), ..self.instance },
                ..self
            },
            Entry::Paused(v) => StorageView {
                instance: Instance { paused: Some(v), ..self.instance },
                ..self
            },
            Entry::AccumulatedFees(v) => StorageView {
                instance: Instance { accumulated_fees: Some(v), ..self.instance },
                ..self
            },
            Entry::ProgressContract(v) => StorageView {
                instance: Instance { progress_contract: Some(v), ..self.instance },
                ..self
            },
            Entry::RegistrationContract(v) => StorageView {
                instance: Instance { registration_contract: Some(v), ..self.instance },
                ..self
            },
            Entry::Subscription(scout, v) => StorageView {
                subscriptions: self.subscriptions.insert(scout@, v),
                ..self
            },
            Entry::ContactRecord(player_id, scout, v) => StorageView {
                contacts: self.contacts.insert((player_id, scout@), v),
                ..self
            },
            Entry::TrialCounter(player_id, v) => StorageView {
                trial_counters: self.trial_counters.insert(player_id, v),
                ..self
            },
            Entry::TrialOffer(player_id, index, v) => StorageView {
                trial_offers: self.trial_offers.insert((player_id, index), v),
                ..self
            },
        }
    }

    /// The storage after the host has carried out one call.
    pub open spec fn carry_out(self, call: HostCall) -> StorageView {
        match call {
            HostCall::Store(entry) => self.write(entry),
            _ => self,
        }
    }

    /// The storage after the host has carried out the given calls, in order.
    pub open spec fn perform(self, calls: Seq<HostCall>) -> StorageView
        decreases calls.len(),
    {
        if calls.len() == 0 {
            self
        } else {
            self.perform(calls.drop_last()).carry_out(calls.last())
        }
    }
}

impl Clone for Entry {
    fn clone(&self) -> (res: Self)
        ensures
            res == *self,
    {
        match self {
            Entry::Admin(v) => Entry::Admin(v.clone()),
            Entry::XlmToken(v) => Entry::XlmToken(v.clone()),
            Entry::FeeConfig(v) => Entry::FeeConfig(*v),
            Entry::Initialized(v) => Entry::Initialized(*v),
            Entry::Paused(v) => Entry::Paused(*v),
            Entry::AccumulatedFees(v) => Entry::AccumulatedFees(*v),
            Entry::ProgressContract(v) => Entry::ProgressContract(v.clone()),
            Entry::RegistrationContract(v) => Entry::RegistrationContract(v.clone()),
            Entry::Subscription(scout, v) => Entry::Subscription(scout.clone(), v.clone()),
            Entry::ContactRecord(player_id, scout, v) => Entry::ContactRecord(
                *player_id,
                scout.clone(),
                *v,
            ),
            Entry::TrialCounter(player_id, v) => Entry::TrialCounter(*player_id, *v),
            Entry::TrialOffer(player_id, index, v) => Entry::TrialOffer(
                *player_id,
                *index,
                v.clone(),
            ),
        }
    }
}

impl Storage {
    /// The storage of a contract that was never called.
    pub fn new() -> (storage: Self)
        ensures
            storage@ == StorageView::empty(),
    {
        Storage {
            instance: Instance {
                admin: None,
                xlm_token: None,
                fee_config: None,
                initialized: None,
                paused: None,
                accumulated_fees: None,
                progress_contract: None,
                registration_contract: None,
            },
            subscriptions: Table::new(),
            contacts: Table::new(),
            trial_counters: Table::new(),
            trial_offers: Table::new(),
        }
    }

    /// Writes an entry.
    pub fn write(&mut self, entry: Entry)
        ensures
            final(self)@ == old(self)@.write(entry),
    {
        match entry {
            Entry::Admin(v) => {
                self.instance.admin = Some(v);
            },
            Entry::XlmToken(v) => {
                self.instance.xlm_token = Some(v);
            },
            Entry::FeeConfig(v) => {
                self.instance.fee_config = Some(v);
            },
            Entry::Initialized(v) => {
                self.instance.initialized = Some(v);
            },
            Entry::Paused(v) => {
                self.instance.paused = Some(v);
            },
            Entry::AccumulatedFees(v) => {
                self.instance.accumulated_fees = Some(v);
            },
            Entry::ProgressContract(v) => {
                self.instance.progress_contract = Some(v);
            },
            Entry::RegistrationContract(v) => {
                self.instance.registration_contract = Some(v);
            },
            Entry::Subscription(scout, v) => {
                self.subscriptions.set(scout, v);
            },
            Entry::ContactRecord(player_id, scout, v) => {
                self.contacts.set((player_id, scout), v);
            },
            Entry::TrialCounter(player_id, v) => {
                self.trial_counters.set(player_id, v);
            },
            Entry::TrialOffer(player_id, index, v) => {
                self.trial_offers.set((player_id, index), v);
            },
        }
    }
}

impl EnvView {
    /// The environment after further calls of the host were asked for, and
    /// `storage` is what is stored.
    pub open spec fn after(self, storage: StorageView, calls: Seq<HostCall>) -> EnvView {
        EnvView { storage, calls: self.calls + calls, ..self }
    }

    /// The environment after further calls of the host were asked for that
    /// store nothing.
    pub open spec fn asks(self, calls: Seq<HostCall>) -> EnvView {
        self.after(self.storage, calls)
    }
}

impl Env {
    /// The environment of a call on a contract that was never called before.
    pub fn new(contract: Address, timestamp: u64) -> (env: Self)
        ensures
            env@ == (EnvView {
                contract,
                timestamp,
                storage: StorageView::empty(),
                calls: Seq::empty(),
            }),
    {
        Env { contract, timestamp, storage: Storage::new(), calls: Vec::new() }
    }

    /// Asks the host for something that leaves the storage as it is.
    pub(crate) fn ask(&mut self, call: HostCall)
        requires
            !(call is Store),
        ensures
            final(self)@ == old(self)@.asks(seq![call]),
    {
        self.calls.push(call);
    }

    /// Writes an entry to the storage, and asks the host to write it too.
    pub(crate) fn store(&mut self, entry: Entry)
        ensures
            final(self)@ == old(self)@.after(
                old(self)@.storage.write(entry),
                seq![HostCall::Store(entry)],
            ),
    {
        self.calls.push(HostCall::Store(entry.clone()));
        self.storage.write(entry);
    }
}

} // verus!
