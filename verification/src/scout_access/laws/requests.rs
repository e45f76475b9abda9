//! The requests to the host, sorted by what they are for.
use vstd::prelude::*;

use crate::scout_access::env::{Entry, EnvView, HostCall};
use crate::scout_access::events::Event;
use crate::scout_access::types::{Address, DataKey};

verus! {

/// A transfer: the token, who pays, who is paid, and how much.
pub struct Payment {
    pub token: Address,
    pub from: Address,
    pub to: Address,
    pub amount: i128,
}

/// A longer life for an entry: if it has no more than `threshold` ledgers left,
/// it is given `extend_to`.
pub struct Extension {
    pub key: DataKey,
    pub threshold: u32,
    pub extend_to: u32,
}

/// Requests to the host by what they are for, each kind in order.
#[verifier::ext_equal]
pub struct Requests {
    /// Whose authorization is asked for.
    pub authorizations: Seq<Address>,
    pub payments: Seq<Payment>,
    /// What is to be stored.
    pub writes: Seq<Entry>,
    pub extensions: Seq<Extension>,
    /// What is to be announced.
    pub events: Seq<Event>,
}

impl Requests {
    /// No requests.
    pub open spec fn none() -> Requests {
        Requests {
            authorizations: Seq::empty(),
            payments: Seq::empty(),
            writes: Seq::empty(),
            extensions: Seq::empty(),
            events: Seq::empty(),
        }
    }

    /// These requests, and one more.
    pub open spec fn and(self, call: HostCall) -> Requests {
        match call {
            HostCall::RequireAuth(who) => Requests {
                authorizations: self.authorizations.push(who),
                ..self
            },
            HostCall::Transfer { token, from, to, amount } => Requests {
                payments: self.payments.push(Payment { token, from, to, amount }),
                ..self
            },
            HostCall::Store(entry) => Requests { writes: self.writes.push(entry), ..self },
            HostCall::ExtendTtl { key, threshold, extend_to } => Requests {
                extensions: self.extensions.push(Extension { key, threshold, extend_to }),
                ..self
            },
            HostCall::Publish(event) => Requests { events: self.events.push(event), ..self },
        }
    }

    /// The given calls of the host, sorted.
    pub open spec fn of(calls: Seq<HostCall>) -> Requests
        decreases calls.len(),
    {
        if calls.len() == 0 {
            Requests::none()
        } else {
            Requests::of(calls.drop_last()).and(calls.last())
        }
    }

    /// What was asked of the host between two environments of one call.
    pub open spec fn between(before: EnvView, after: EnvView) -> Requests {
        Requests::of(after.calls.skip(before.calls.len() as int))
    }
}

/// Whether `after` is a later environment of the same call: the contract and
/// the time are the same, and what was asked for before is still asked for,
/// first.
pub open spec fn continues(before: EnvView, after: EnvView) -> bool {
    &&& after.contract == before.contract
    &&& after.timestamp == before.timestamp
    &&& after.calls.len() >= before.calls.len()
    &&& after.calls.take(before.calls.len() as int) == before.calls
}

/// One more call, sorted after those before it.
proof fn lemma_requests_next(calls: Seq<HostCall>, n: int)
    requires
        0 <= n < calls.len(),
    ensures
        Requests::of(calls.take(n + 1)) == Requests::of(calls.take(n)).and(calls[n]),
{
    assert(calls.take(n + 1).drop_last() =~= calls.take(n));
}

/// The requests between two environments, of at most seven calls, sorted one by
/// one.
pub(crate) proof fn lemma_requests(before: EnvView, after: EnvView)
    requires
        before.calls.len() <= after.calls.len() <= before.calls.len() + 7,
    ensures
        ({
            let sorted = Requests::between(before, after);
            let none = Requests::none();
            let start = before.calls.len() as int;
            let n = after.calls.len() - start;
            let calls = after.calls;
            &&& n == 0 ==> sorted == none
            &&& n == 1 ==> sorted == none.and(calls[start])
            &&& n == 2 ==> sorted == none.and(calls[start]).and(calls[start + 1])
            &&& n == 4 ==> sorted == none.and(calls[start]).and(calls[start + 1]).and(
                calls[start + 2],
            ).and(calls[start + 3])
            &&& n == 6 ==> sorted == none.and(calls[start]).and(calls[start + 1]).and(
                calls[start + 2],
            ).and(calls[start + 3]).and(calls[start + 4]).and(calls[start + 5])
            &&& n == 7 ==> sorted == none.and(calls[start]).and(calls[start + 1]).and(
                calls[start + 2],
            ).and(calls[start + 3]).and(calls[start + 4]).and(calls[start + 5]).and(
                calls[start + 6],
            )
        }),
{
    let calls = after.calls.skip(before.calls.len() as int);
    let n = calls.len();
    assert(calls.take(n as int) =~= calls);
    assert(Requests::of(calls.take(0)) == Requests::none());
    if n > 0 {
        lemma_requests_next(calls, 0);
    }
    if n > 1 {
        lemma_requests_next(calls, 1);
    }
    if n > 2 {
        lemma_requests_next(calls, 2);
    }
    if n > 3 {
        lemma_requests_next(calls, 3);
    }
    if n > 4 {
        lemma_requests_next(calls, 4);
    }
    if n > 5 {
        lemma_requests_next(calls, 5);
    }
    if n > 6 {
        lemma_requests_next(calls, 6);
    }
}

} // verus!
