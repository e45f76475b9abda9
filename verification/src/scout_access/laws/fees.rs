//! The fees that the contract counts are those that it holds.
use vstd::prelude::*;

use crate::scout_access::calls::Call;
use crate::scout_access::env::{EnvView, HostCall};
use crate::scout_access::errors::ScoutAccessError;
use crate::scout_access::types::Address;

verus! {

/// What the party `who` receives of a token by the given calls, less what it
/// pays.
pub open spec fn received(calls: Seq<HostCall>, token: Seq<char>, who: Seq<char>) -> int
    decreases calls.len(),
{
    if calls.len() == 0 {
        0
    } else {
        received(calls.drop_last(), token, who) + match calls.last() {
            HostCall::Transfer { token: t, from, to, amount } => if t@ == token {
                (if to@ == who {
                    amount as int
                } else {
                    0
                }) - (if from@ == who {
                    amount as int
                } else {
                    0
                })
            } else {
                0
            },
            _ => 0,
        }
    }
}

/// Without a transfer nothing is received.
pub(crate) proof fn lemma_received_nothing(calls: Seq<HostCall>, token: Seq<char>, who: Seq<char>)
    requires
        forall|i: int| 0 <= i < calls.len() ==> !(#[trigger] calls[i] is Transfer),
    ensures
        received(calls, token, who) == 0,
    decreases calls.len(),
{
    if calls.len() > 0 {
        lemma_received_nothing(calls.drop_last(), token, who);
    }
}

/// With one transfer, what it moves is received.
proof fn lemma_received_by(calls: Seq<HostCall>, at: int, token: Seq<char>, who: Seq<char>)
    requires
        0 <= at < calls.len(),
        forall|i: int| 0 <= i < calls.len() && i != at ==> !(#[trigger] calls[i] is Transfer),
    ensures
        received(calls, token, who) == received(seq![calls[at]], token, who),
    decreases calls.len(),
{
    if at == calls.len() - 1 {
        lemma_received_nothing(calls.drop_last(), token, who);
        assert(seq![calls[at]].drop_last() =~= Seq::empty());
        lemma_received_nothing(seq![calls[at]].drop_last(), token, who);
    } else {
        lemma_received_by(calls.drop_last(), at, token, who);
    }
}

/// What one transfer moves.
proof fn lemma_received_one(call: HostCall, token: Seq<char>, who: Seq<char>)
    requires
        call is Transfer,
        call->Transfer_token@ == token,
        call->Transfer_to@ == who || call->Transfer_from@ == who,
    ensures
        received(seq![call], token, who) == (if call->Transfer_from@ == call->Transfer_to@ {
            0
        } else if call->Transfer_to@ == who {
            call->Transfer_amount as int
        } else {
            -call->Transfer_amount
        }),
{
    assert(seq![call].drop_last() =~= Seq::empty());
    lemma_received_nothing(seq![call].drop_last(), token, who);
}

impl EnvView {
    /// Whether a call moves tokens from the contract to itself, which the
    /// contract counts although it holds no more and no less: it is the scout
    /// who pays, or is where its own fees go.
    pub open spec fn pays_itself(self, call: Call) -> bool {
        exists|i: int|
            0 <= i < self.asked(call).len() && (#[trigger] self.asked(call)[i] matches
                HostCall::Transfer { from, to, amount, .. } && from@ == to@ && amount != 0)
    }
}

/// By a call with which the contract pays itself it receives nothing.
pub(crate) proof fn lemma_self_payment(env: EnvView, call: Call)
    requires
        env.pays_itself(call),
    ensures
        received(env.asked(call), env.storage.instance.xlm_token->0@, env.contract@) == 0,
{
    let token = env.storage.instance.xlm_token->0@;
    let asked = env.asked(call);
    assert(env.done(call).calls =~= env.calls + asked);
    let i = choose|i: int|
        0 <= i < asked.len() && (#[trigger] asked[i] matches HostCall::Transfer {
            from,
            to,
            amount,
            ..
        } && from@ == to@ && amount != 0);
    assert(i == 1);
    lemma_received_by(asked, 1, token, env.contract@);
    lemma_received_one(asked[1], token, env.contract@);
}

/// A contract that is not initialized moves no tokens.
pub(crate) proof fn lemma_no_transfer_at_first(env: EnvView, call: Call)
    requires
        env.storage.sound(),
        !env.storage.initialized(),
    ensures
        forall|i: int|
            0 <= i < env.asked(call).len() ==> !(#[trigger] env.asked(call)[i] is Transfer),
        env.done(call).storage.fees() == 0,
{
    assert(env.done(call).calls =~= env.calls + env.asked(call));
}

/// The fees that the contract counts are those that it holds: by every call
/// the count changes by what the contract receives, less what it pays.
#[verifier::rlimit(30)]
#[verifier::spinoff_prover]
pub proof fn law_fees_are_backed(env: EnvView, call: Call)
    requires
        env.storage.sound(),
        env.trap(call) is None,
        !env.pays_itself(call),
    ensures
        env.storage.initialized() ==> env.done(call).storage.fees() - env.storage.fees()
            == received(
            env.asked(call),
            env.storage.instance.xlm_token->0@,
            env.contract@,
        ),
        !env.storage.initialized() ==> env.done(call).storage.fees() == 0 && forall|i: int|
            0 <= i < env.asked(call).len() ==> !(#[trigger] env.asked(call)[i] is Transfer),
{
    let token = env.storage.instance.xlm_token->0@;
    let who = env.contract@;
    let asked = env.asked(call);
    assert(env.done(call).calls =~= env.calls + asked);
    if forall|i: int| 0 <= i < asked.len() ==> !(#[trigger] asked[i] is Transfer) {
        lemma_received_nothing(asked, token, who);
    } else {
        assert(env.storage.initialized());
        assert(asked[1] is Transfer);
        lemma_received_by(asked, 1, token, who);
        lemma_received_one(asked[1], token, who);
    }
}

/// A withdrawal pays out all that was collected, and leaves nothing for a
/// second one.
pub proof fn law_withdrawal_empties(env: EnvView, to: Address, again: Address)
    requires
        env.storage.instance.admin is Some,
    ensures
        ({
            let after = env.done(Call::WithdrawFees { to });
            &&& env.withdraw_result() == Ok::<i128, ScoutAccessError>(env.storage.fees())
            &&& after.storage.fees() == 0
            &&& after.withdraw_result() == Ok::<i128, ScoutAccessError>(0)
            &&& after.withdraw_trap() is None
            &&& after.asked(Call::WithdrawFees { to: again }) == seq![
                HostCall::RequireAuth(env.storage.instance.admin->0),
            ]
        }),
{
    let after = env.done(Call::WithdrawFees { to });
    assert(after.asked(Call::WithdrawFees { to: again }) =~= seq![
        HostCall::RequireAuth(env.storage.instance.admin->0),
    ]);
}

} // verus!
