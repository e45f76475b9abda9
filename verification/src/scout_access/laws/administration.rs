//! What the calls of the admin do, said of what is stored.
use vstd::prelude::*;

use crate::scout_access::calls::Call;
use crate::scout_access::env::{Entry, EnvView, Instance, StorageView};
use crate::scout_access::errors::{ScoutAccessError, Trap};
use crate::scout_access::events::Event;
use crate::scout_access::laws::requests::{Payment, Requests};
use crate::scout_access::types::{Address, FeeConfig};

verus! {

/// Whether two storages differ in the instance storage at most.
pub open spec fn same_tables(a: StorageView, b: StorageView) -> bool {
    &&& a.subscriptions == b.subscriptions
    &&& a.contacts == b.contacts
    &&& a.trial_counters == b.trial_counters
    &&& a.trial_offers == b.trial_offers
}

/// The contract can be set up exactly if nothing is stored of its set-up, and a
/// second set-up changes nothing and asks for nothing. Who is to be the admin
/// authorizes the set-up, and no one else; what is stored is what was given,
/// and the contract starts unpaused and with no fees.
pub proof fn law_initialize(
    env: EnvView,
    admin: Address,
    xlm_token: Address,
    fee_config: FeeConfig,
)
    ensures
        env.initialize_result() is Ok <==> env.storage.instance.initialized is None,
        env.initialize_result() is Err ==> env.initialize_result() == Err::<(), _>(
            ScoutAccessError::AlreadyInitialized,
        ),
        ({
            let after = env.initialize_after(admin, xlm_token, fee_config);
            let set_up = after.storage.instance;
            &&& env.storage.instance.initialized is Some ==> after == env
            &&& env.storage.instance.initialized is None ==> {
                &&& crate::scout_access::laws::requests::continues(env, after)
                &&& set_up.admin == Some(admin)
                &&& set_up.xlm_token == Some(xlm_token)
                &&& set_up.fee_config == Some(fee_config)
                &&& set_up.initialized == Some(true)
                &&& set_up.paused == Some(false)
                &&& set_up.accumulated_fees == Some(0i128)
                &&& set_up.progress_contract == env.storage.instance.progress_contract
                &&& set_up.registration_contract == env.storage.instance.registration_contract
                &&& same_tables(after.storage, env.storage)
                &&& Requests::between(env, after) == (Requests {
                    authorizations: seq![admin],
                    payments: Seq::empty(),
                    writes: seq![
                        Entry::Admin(admin),
                        Entry::XlmToken(xlm_token),
                        Entry::FeeConfig(fee_config),
                        Entry::Initialized(true),
                        Entry::Paused(false),
                        Entry::AccumulatedFees(0),
                    ],
                    extensions: Seq::empty(),
                    events: Seq::empty(),
                })
            }
        }),
{
    let after = env.initialize_after(admin, xlm_token, fee_config);
    assert(after.calls.take(env.calls.len() as int) =~= env.calls);
    crate::scout_access::laws::requests::lemma_requests(env, after);
}

/// A setting is changed exactly if there is an admin, who authorizes it, and no
/// one else does. Nothing but the entry is written, and nothing is paid, kept
/// alive or announced. With no admin the call is refused, and nothing happens.
pub proof fn law_settings_are_for_the_admin(env: EnvView, entry: Entry)
    ensures
        env.admin_result() is Ok <==> env.storage.instance.admin is Some,
        env.admin_result() is Err ==> env.admin_result() == Err::<(), _>(
            ScoutAccessError::NotInitialized,
        ),
        env.storage.instance.admin is None ==> env.admin_store_after(entry) == env,
        env.storage.instance.admin matches Some(admin) ==> {
            let after = env.admin_store_after(entry);
            &&& crate::scout_access::laws::requests::continues(env, after)
            &&& Requests::between(env, after) == (Requests {
                authorizations: seq![admin],
                payments: Seq::empty(),
                writes: seq![entry],
                extensions: Seq::empty(),
                events: Seq::empty(),
            })
        },
{
    let after = env.admin_store_after(entry);
    assert(after.calls.take(env.calls.len() as int) =~= env.calls);
    crate::scout_access::laws::requests::lemma_requests(env, after);
}

/// Of all that is stored, each call of the admin changes the one setting that
/// it is named after, to the value that it was given.
pub proof fn law_settings_change_one_thing(env: EnvView, fee_config: FeeConfig, addr: Address)
    requires
        env.storage.instance.admin is Some,
    ensures
        ({
            let was = env.storage.instance;
            let priced = env.done(Call::UpdateFeeConfig { fee_config }).storage;
            let stopped = env.done(Call::PauseContract).storage;
            let started = env.done(Call::UnpauseContract).storage;
            let progress_set = env.done(Call::SetProgressContract { addr }).storage;
            let registration_set = env.done(Call::SetRegistrationContract { addr }).storage;
            &&& priced.instance == (Instance { fee_config: Some(fee_config), ..was })
            &&& stopped.instance == (Instance { paused: Some(true), ..was })
            &&& started.instance == (Instance { paused: Some(false), ..was })
            &&& progress_set.instance == (Instance { progress_contract: Some(addr), ..was })
            &&& registration_set.instance == (Instance {
                registration_contract: Some(addr),
                ..was
            })
            &&& same_tables(priced, env.storage)
            &&& same_tables(stopped, env.storage)
            &&& same_tables(started, env.storage)
            &&& same_tables(progress_set, env.storage)
            &&& same_tables(registration_set, env.storage)
            &&& env.committed(Call::UpdateFeeConfig { fee_config }) == priced
            &&& env.committed(Call::PauseContract) == stopped
            &&& env.committed(Call::UnpauseContract) == started
            &&& env.committed(Call::SetProgressContract { addr }) == progress_set
            &&& env.committed(Call::SetRegistrationContract { addr }) == registration_set
        }),
{
}

/// A call that changes a setting asks for the admin's authorization and for one
/// write, and for nothing else.
pub proof fn law_settings_ask_for_one_write(env: EnvView, call: Call, admin: Address)
    requires
        env.storage.instance.admin == Some(admin),
        call is UpdateFeeConfig || call is PauseContract || call is UnpauseContract
            || call is SetProgressContract || call is SetRegistrationContract,
    ensures
        env.trap(call) is None,
        env.error(call) is None,
        ({
            let asked = Requests::between(env, env.done(call));
            &&& crate::scout_access::laws::requests::continues(env, env.done(call))
            &&& asked.authorizations == seq![admin]
            &&& asked.writes.len() == 1
            &&& asked.payments.len() == 0
            &&& asked.extensions.len() == 0
            &&& asked.events.len() == 0
            &&& env.done(call).storage == env.storage.write(asked.writes[0])
        }),
{
    let after = env.done(call);
    assert(after.calls.take(env.calls.len() as int) =~= env.calls);
    crate::scout_access::laws::requests::lemma_requests(env, after);
}

/// A withdrawal of fees asks for one transfer: of the whole sum that is stored,
/// in the token that is stored, from the contract to the address that was
/// given. The admin alone authorizes it. Afterwards no fees are left, and all
/// else is as it was.
pub proof fn law_withdrawal_pays_the_address_given(
    env: EnvView,
    to: Address,
    admin: Address,
    token: Address,
    fees: i128,
)
    requires
        env.storage.instance.admin == Some(admin),
        env.storage.instance.xlm_token == Some(token),
        env.storage.instance.accumulated_fees == Some(fees),
        fees != 0,
    ensures
        env.withdraw_trap() is None,
        env.withdraw_result() == Ok::<i128, ScoutAccessError>(fees),
        ({
            let after = env.withdraw_after(to);
            &&& crate::scout_access::laws::requests::continues(env, after)
            &&& Requests::between(env, after) == (Requests {
                authorizations: seq![admin],
                payments: seq![Payment { token, from: env.contract, to, amount: fees }],
                writes: seq![Entry::AccumulatedFees(0)],
                extensions: Seq::empty(),
                events: seq![Event::FeesWithdrawn { to, amount: fees }],
            })
            &&& after.storage.instance == (Instance {
                accumulated_fees: Some(0),
                ..env.storage.instance
            })
            &&& same_tables(after.storage, env.storage)
        }),
{
    let after = env.withdraw_after(to);
    assert(after.calls.take(env.calls.len() as int) =~= env.calls);
    crate::scout_access::laws::requests::lemma_requests(env, after);
}

/// A withdrawal while no fees are stored answers zero. The admin is asked for
/// the authorization, and nothing else happens.
pub proof fn law_withdrawal_of_nothing(env: EnvView, to: Address, admin: Address)
    requires
        env.storage.instance.admin == Some(admin),
        env.storage.instance.accumulated_fees is None
            || env.storage.instance.accumulated_fees == Some(0i128),
    ensures
        env.withdraw_trap() is None,
        env.withdraw_result() == Ok::<i128, ScoutAccessError>(0),
        crate::scout_access::laws::requests::continues(env, env.withdraw_after(to)),
        env.withdraw_after(to).storage == env.storage,
        Requests::between(env, env.withdraw_after(to)) == (Requests {
            authorizations: seq![admin],
            payments: Seq::empty(),
            writes: Seq::empty(),
            extensions: Seq::empty(),
            events: Seq::empty(),
        }),
{
    let after = env.withdraw_after(to);
    assert(after.calls.take(env.calls.len() as int) =~= env.calls);
    crate::scout_access::laws::requests::lemma_requests(env, after);
}

/// A withdrawal is refused exactly if there is no admin, and then nothing
/// happens. It is abandoned exactly if there is an admin, and fees are stored,
/// and no token is.
pub proof fn law_withdrawal_failures(env: EnvView, to: Address)
    ensures
        env.withdraw_result() is Err <==> env.storage.instance.admin is None,
        env.storage.instance.admin is None ==> {
            &&& env.withdraw_result() == Err::<i128, _>(ScoutAccessError::NotInitialized)
            &&& env.withdraw_after(to) == env
        },
        env.withdraw_trap() is None || env.withdraw_trap() == Some(Trap::XlmTokenNotSet),
        env.withdraw_trap() is Some <==> {
            &&& env.storage.instance.admin is Some
            &&& env.storage.instance.xlm_token is None
            &&& env.storage.instance.accumulated_fees matches Some(fees)
            &&& fees != 0
        },
{
}

} // verus!
