//! What the host is asked for.
use vstd::prelude::*;

use crate::scout_access::calls::Call;
use crate::scout_access::env::{EnvView, HostCall, StorageView};
use crate::scout_access::errors::ScoutAccessError;

verus! {

/// Carrying out the first `n + 1` calls is carrying out the first `n`, and one
/// more.
proof fn lemma_perform_next(storage: StorageView, calls: Seq<HostCall>, n: int)
    requires
        0 <= n < calls.len(),
    ensures
        storage.perform(calls.take(n + 1)) == storage.perform(calls.take(n)).carry_out(calls[n]),
{
    assert(calls.take(n + 1).drop_last() =~= calls.take(n));
}

/// Carrying out as many calls as a call of the contract asks for, one by one.
proof fn lemma_perform_each(storage: StorageView, calls: Seq<HostCall>)
    ensures
        calls.len() == 0 ==> storage.perform(calls) == storage,
        calls.len() == 1 ==> storage.perform(calls) == storage.carry_out(calls[0]),
        calls.len() == 2 ==> storage.perform(calls) == storage.carry_out(calls[0]).carry_out(
            calls[1],
        ),
        calls.len() == 4 ==> storage.perform(calls) == storage.carry_out(calls[0]).carry_out(
            calls[1],
        ).carry_out(calls[2]).carry_out(calls[3]),
        calls.len() == 6 ==> storage.perform(calls) == storage.carry_out(calls[0]).carry_out(
            calls[1],
        ).carry_out(calls[2]).carry_out(calls[3]).carry_out(calls[4]).carry_out(calls[5]),
        calls.len() == 7 ==> storage.perform(calls) == storage.carry_out(calls[0]).carry_out(
            calls[1],
        ).carry_out(calls[2]).carry_out(calls[3]).carry_out(calls[4]).carry_out(
            calls[5],
        ).carry_out(calls[6]),
{
    let n = calls.len();
    assert(calls.take(n as int) =~= calls);
    assert(storage.perform(calls.take(0)) == storage);
    if n > 0 {
        lemma_perform_next(storage, calls, 0);
    }
    if n > 1 {
        lemma_perform_next(storage, calls, 1);
    }
    if n > 2 {
        lemma_perform_next(storage, calls, 2);
    }
    if n > 3 {
        lemma_perform_next(storage, calls, 3);
    }
    if n > 4 {
        lemma_perform_next(storage, calls, 4);
    }
    if n > 5 {
        lemma_perform_next(storage, calls, 5);
    }
    if n > 6 {
        lemma_perform_next(storage, calls, 6);
    }
}

/// What the host stores when it carries out the list is what the environment
/// shows as stored.
#[verifier::rlimit(30)]
#[verifier::spinoff_prover]
pub proof fn law_host_stores_what_is_shown(env: EnvView, call: Call)
    ensures
        env.done(call).calls == env.calls + env.asked(call),
        env.done(call).storage == env.storage.perform(env.asked(call)),
{
    let asked = env.asked(call);
    assert(env.done(call).calls =~= env.calls + asked);
    lemma_perform_each(env.storage, asked);
    assert(env.done(call).storage =~= env.storage.perform(asked));
}

/// A call that needs an authorization asks for it before anything else: the
/// calls of the admin for the admin's, those of a scout for the scout's.
/// Reading asks for none, and neither writes nor moves tokens.
pub proof fn law_authorization_comes_first(env: EnvView, call: Call)
    ensures
        env.asked(call).len() > 0 ==> match env.authorizer(call) {
            Some(who) => env.asked(call)[0] == HostCall::RequireAuth(who),
            None => forall|i: int|
                0 <= i < env.asked(call).len() ==> #[trigger] env.asked(call)[i] is ExtendTtl,
        },
        env.authorizer(call) is Some && env.error(call) is None ==> env.asked(call).len() > 0,
        env.authorizer(call) is None ==> env.done(call).storage == env.storage,
{
    assert(env.done(call).calls =~= env.calls + env.asked(call));
}

/// A refused call stores nothing, moves no tokens and announces nothing: all
/// it may ask for is an authorization. The one exception is a trial offer for
/// which the progress contract failed, where the offer is logged before: there
/// the host takes back what was asked for.
pub proof fn law_refused_calls_change_nothing(env: EnvView, call: Call)
    requires
        env.error(call) is Some,
        env.error(call) != Some(ScoutAccessError::ProgressCallFailed),
    ensures
        env.done(call).storage == env.storage,
        forall|i: int|
            0 <= i < env.asked(call).len() ==> #[trigger] env.asked(call)[i] is RequireAuth,
{
}

} // verus!
