//! The order of what a call asks of the host.
use vstd::prelude::*;

use crate::scout_access::calls::Call;
use crate::scout_access::env::{EnvView, HostCall};

verus! {

/// Of two requests of one call, the later is no authorization and the earlier no
/// announcement. Before a transfer nothing but an authorization is asked for,
/// so nothing is written before it is paid. An entry is written before its life
/// is extended, and not again after that.
pub proof fn law_order_of_requests(env: EnvView, call: Call, i: int, j: int)
    requires
        0 <= i < j < env.asked(call).len(),
    ensures
        !(env.asked(call)[i] is Publish),
        !(env.asked(call)[j] is RequireAuth),
        env.asked(call)[j] is Transfer ==> env.asked(call)[i] is RequireAuth,
        env.asked(call)[i] matches HostCall::ExtendTtl { key, .. } ==> (env.asked(call)[j] matches
            HostCall::Store(entry) ==> entry.key() != key),
{
}

} // verus!
