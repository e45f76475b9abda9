//! How long stored entries live.
use vstd::prelude::*;

use crate::scout_access::calls::Call;
use crate::scout_access::env::{EnvView, HostCall};
use crate::scout_access::types::DataKey;

verus! {

/// The life of an entry, in ledgers left, after it was asked to be extended:
/// not past the longest life that the ledger allows.
pub open spec fn extended(ttl: nat, threshold: nat, extend_to: nat, max_ttl: nat) -> nat {
    let wanted = if extend_to < max_ttl {
        extend_to
    } else {
        max_ttl
    };
    if ttl <= threshold && ttl < wanted {
        wanted
    } else {
        ttl
    }
}

/// The life of the entry under `key` after the given calls.
pub open spec fn ttl_after(key: DataKey, ttl: nat, calls: Seq<HostCall>, max_ttl: nat) -> nat
    decreases calls.len(),
{
    if calls.len() == 0 {
        ttl
    } else {
        let before = ttl_after(key, ttl, calls.drop_last(), max_ttl);
        match calls.last() {
            HostCall::ExtendTtl { key: k, threshold, extend_to } => if k == key {
                extended(before, threshold as nat, extend_to as nat, max_ttl)
            } else {
                before
            },
            _ => before,
        }
    }
}

impl EnvView {
    /// Whether a call writes or reads the persistent entry under `key`, and so
    /// has to keep it alive.
    pub open spec fn uses(self, call: Call, key: DataKey) -> bool {
        match call {
            Call::Subscribe { scout, .. } => key == DataKey::Subscription(scout),
            Call::PayToContact { scout, player_id, .. } => {
                ||| key == DataKey::Subscription(scout)
                ||| key == DataKey::ContactRecord(player_id, scout)
            },
            Call::LogTrialOffer { scout, player_id, .. } => {
                ||| key == DataKey::Subscription(scout)
                ||| key == DataKey::TrialCounter(player_id)
                ||| key == DataKey::TrialOffer(player_id, self.next_index(player_id))
            },
            Call::GetSubscription { scout } => key == DataKey::Subscription(scout),
            Call::HasContacted { scout, player_id } => self.has_contacted_result(scout, player_id)
                && key == DataKey::ContactRecord(player_id, scout),
            Call::GetTrialOffer { player_id, index } => key == DataKey::TrialOffer(
                player_id,
                index,
            ),
            Call::GetTrialCount { player_id } => self.storage.trial_count(player_id) > 0 && key
                == DataKey::TrialCounter(player_id),
            _ => false,
        }
    }
}

/// Calls that do not name an entry leave its life as it is.
proof fn lemma_ttl_unnamed(key: DataKey, ttl: nat, calls: Seq<HostCall>, max_ttl: nat)
    requires
        forall|i: int|
            0 <= i < calls.len() ==> !(#[trigger] calls[i] is ExtendTtl && calls[i]->key == key),
    ensures
        ttl_after(key, ttl, calls, max_ttl) == ttl,
    decreases calls.len(),
{
    if calls.len() > 0 {
        lemma_ttl_unnamed(key, ttl, calls.drop_last(), max_ttl);
    }
}

/// One call among the given ones that names an entry extends its life.
proof fn lemma_ttl_named(key: DataKey, ttl: nat, calls: Seq<HostCall>, at: int, max_ttl: nat)
    requires
        0 <= at < calls.len(),
        calls[at] is ExtendTtl && calls[at]->key == key,
        forall|i: int|
            0 <= i < calls.len() && i != at ==> !(#[trigger] calls[i] is ExtendTtl && calls[i]->key
                == key),
    ensures
        ttl_after(key, ttl, calls, max_ttl) == extended(
            ttl,
            calls[at]->threshold as nat,
            calls[at]->extend_to as nat,
            max_ttl,
        ),
    decreases calls.len(),
{
    if at == calls.len() - 1 {
        lemma_ttl_unnamed(key, ttl, calls.drop_last(), max_ttl);
    } else {
        lemma_ttl_named(key, ttl, calls.drop_last(), at, max_ttl);
    }
}

/// A persistent entry that a call writes or reads is kept alive: of a
/// subscription or a contact at least 120960 ledgers are left, of a trial
/// offer and of a player's number of them at least 259200, or as many as the
/// ledger allows at most. An entry with fewer left is given twice as many.
pub proof fn law_used_entries_are_kept_alive(
    env: EnvView,
    call: Call,
    key: DataKey,
    ttl: nat,
    max_ttl: nat,
)
    requires
        env.error(call) is None,
        env.uses(call, key),
    ensures
        ({
            let threshold: nat = if key is TrialOffer || key is TrialCounter {
                259_200
            } else {
                120_960
            };
            let left = ttl_after(key, ttl, env.asked(call), max_ttl);
            &&& left == extended(ttl, threshold, 2 * threshold, max_ttl)
            &&& left >= ttl
            &&& left >= threshold || left >= max_ttl
        }),
{
    let asked = env.asked(call);
    assert(env.done(call).calls =~= env.calls + asked);
    let at: int = match call {
        Call::Subscribe { .. } => 4,
        Call::PayToContact { .. } => if key is ContactRecord {
            4
        } else {
            5
        },
        Call::LogTrialOffer { .. } => if key is Subscription {
            1
        } else if key is TrialOffer {
            3
        } else {
            5
        },
        _ => 0,
    };
    lemma_ttl_named(key, ttl, asked, at, max_ttl);
}

/// Every persistent entry that a call writes is one that it keeps alive.
pub proof fn law_written_entries_are_used(env: EnvView, call: Call, i: int)
    requires
        0 <= i < env.asked(call).len(),
        env.asked(call)[i] matches HostCall::Store(entry) && entry.persistent(),
    ensures
        env.uses(call, env.asked(call)[i]->Store_0.key()),
{
    assert(env.done(call).calls =~= env.calls + env.asked(call));
}

} // verus!
