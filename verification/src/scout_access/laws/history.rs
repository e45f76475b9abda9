//! What holds after any number of calls.
use vstd::prelude::*;

use crate::scout_access::calls::Call;
use crate::scout_access::env::{EnvView, StorageView};
use crate::scout_access::types::Address;

verus! {

/// A call that was made: when, and whether the host carried out all that it
/// asked for.
pub struct Turn {
    pub timestamp: u64,
    pub call: Call,
    pub carried_out: bool,
}

/// What the contract at `contract` sees at the time of a call.
pub open spec fn seen(contract: Address, storage: StorageView, turn: Turn) -> EnvView {
    EnvView { contract, timestamp: turn.timestamp, storage, calls: Seq::empty() }
}

/// Whether a call was completed: it was neither refused nor abandoned, and the
/// host carried out all that it asked for.
pub open spec fn completed(contract: Address, storage: StorageView, turn: Turn) -> bool {
    turn.carried_out && !seen(contract, storage, turn).fails(turn.call)
}

/// The storage that the ledger holds after a new contract has been called as
/// in the given history.
pub open spec fn run(contract: Address, history: Seq<Turn>) -> StorageView
    decreases history.len(),
{
    if history.len() == 0 {
        StorageView::empty()
    } else {
        let before = run(contract, history.drop_last());
        let turn = history.last();
        seen(contract, before, turn).committed_if(turn.call, turn.carried_out)
    }
}

/// Whatever has been called, the storage is sound.
pub proof fn law_storage_is_always_sound(contract: Address, history: Seq<Turn>)
    ensures
        run(contract, history).sound(),
    decreases history.len(),
{
    if history.len() == 0 {
        crate::scout_access::laws::soundness::law_new_storage_is_sound();
    } else {
        let before = run(contract, history.drop_last());
        let turn = history.last();
        law_storage_is_always_sound(contract, history.drop_last());
        crate::scout_access::laws::commit::law_ledger_stays_sound(
            seen(contract, before, turn),
            turn.call,
            turn.carried_out,
        );
    }
}

/// How many trial offers to a player were completed.
pub open spec fn offers_made(contract: Address, history: Seq<Turn>, player_id: u64) -> nat
    decreases history.len(),
{
    if history.len() == 0 {
        0
    } else {
        let earlier = history.drop_last();
        let turn = history.last();
        offers_made(contract, earlier, player_id) + if completed(
            contract,
            run(contract, earlier),
            turn,
        ) && (turn.call matches Call::LogTrialOffer { player_id: p, .. } && p == player_id) {
            1nat
        } else {
            0nat
        }
    }
}

/// The number of a player's trial offers is that of the completed calls that
/// made one.
pub proof fn law_trial_count_is_offers_made(
    contract: Address,
    history: Seq<Turn>,
    player_id: u64,
)
    ensures
        run(contract, history).trial_count(player_id) == offers_made(contract, history, player_id),
    decreases history.len(),
{
    if history.len() > 0 {
        law_trial_count_is_offers_made(contract, history.drop_last(), player_id);
    }
}

/// Whether a call pays for a scout's contact to a player, and is completed.
pub open spec fn pays_for(
    contract: Address,
    storage: StorageView,
    turn: Turn,
    player_id: u64,
    scout: Seq<char>,
) -> bool {
    &&& completed(contract, storage, turn)
    &&& turn.call matches Call::PayToContact { scout: s, player_id: p, .. }
    &&& s@ == scout
    &&& p == player_id
}

/// Whether the call at position `n` pays for a scout's contact to a player.
pub open spec fn pays_at(
    contract: Address,
    history: Seq<Turn>,
    n: int,
    player_id: u64,
    scout: Seq<char>,
) -> bool {
    &&& 0 <= n < history.len()
    &&& pays_for(contract, run(contract, history.take(n)), history[n], player_id, scout)
}

/// A contact is there after a call if it was there before, or the call pays
/// for it.
proof fn lemma_contact_after_turn(
    contract: Address,
    storage: StorageView,
    turn: Turn,
    player_id: u64,
    scout: Seq<char>,
)
    ensures
        seen(contract, storage, turn).committed_if(
            turn.call,
            turn.carried_out,
        ).contacts.contains_key((player_id, scout)) <==> storage.contacts.contains_key(
            (player_id, scout),
        ) || pays_for(contract, storage, turn, player_id, scout),
{
}

/// What a call at some position pays for does not depend on what came later.
proof fn lemma_pays_at_earlier(
    contract: Address,
    history: Seq<Turn>,
    n: int,
    player_id: u64,
    scout: Seq<char>,
)
    requires
        0 <= n < history.len(),
    ensures
        n < history.len() - 1 ==> pays_at(contract, history, n, player_id, scout) == pays_at(
            contract,
            history.drop_last(),
            n,
            player_id,
            scout,
        ),
        n == history.len() - 1 ==> pays_at(contract, history, n, player_id, scout) == pays_for(
            contract,
            run(contract, history.drop_last()),
            history.last(),
            player_id,
            scout,
        ),
{
    if n < history.len() - 1 {
        assert(history.drop_last().take(n) =~= history.take(n));
    } else {
        assert(history.take(n) =~= history.drop_last());
    }
}

/// A contact is there if and only if it was paid for.
pub proof fn law_contact_is_there_if_paid_for(
    contract: Address,
    history: Seq<Turn>,
    player_id: u64,
    scout: Seq<char>,
)
    ensures
        run(contract, history).contacts.contains_key((player_id, scout)) <==> exists|n: int|
            pays_at(contract, history, n, player_id, scout),
    decreases history.len(),
{
    if history.len() > 0 {
        let earlier = history.drop_last();
        let before = run(contract, earlier);
        law_contact_is_there_if_paid_for(contract, earlier, player_id, scout);
        lemma_contact_after_turn(contract, before, history.last(), player_id, scout);
        lemma_pays_at_earlier(contract, history, history.len() - 1, player_id, scout);
        if exists|n: int| pays_at(contract, earlier, n, player_id, scout) {
            let n = choose|n: int| pays_at(contract, earlier, n, player_id, scout);
            lemma_pays_at_earlier(contract, history, n, player_id, scout);
        }
        if exists|n: int| pays_at(contract, history, n, player_id, scout) {
            let n = choose|n: int| pays_at(contract, history, n, player_id, scout);
            lemma_pays_at_earlier(contract, history, n, player_id, scout);
        }
    }
}

/// What a completed call adds to the fees: the price of a subscription, the
/// fee of a contact, or, for a withdrawal, what it takes out.
pub open spec fn fee_of(env: EnvView, call: Call) -> int {
    match call {
        Call::Subscribe { tier, .. } => env.storage.instance.fee_config->0.price(tier) as int,
        Call::PayToContact { .. } => env.storage.instance.fee_config->0.contact_fee_stroops as int,
        Call::WithdrawFees { .. } => -env.storage.fees(),
        _ => 0,
    }
}

/// The sum of all prices and fees that were charged, less what was withdrawn.
pub open spec fn collected(contract: Address, history: Seq<Turn>) -> int
    decreases history.len(),
{
    if history.len() == 0 {
        0
    } else {
        let earlier = history.drop_last();
        let before = run(contract, earlier);
        let turn = history.last();
        collected(contract, earlier) + if completed(contract, before, turn) {
            fee_of(seen(contract, before, turn), turn.call)
        } else {
            0
        }
    }
}

/// The fees are the sum of what was charged, less what was withdrawn.
pub proof fn law_fees_are_what_was_collected(contract: Address, history: Seq<Turn>)
    ensures
        run(contract, history).fees() == collected(contract, history),
    decreases history.len(),
{
    if history.len() > 0 {
        law_fees_are_what_was_collected(contract, history.drop_last());
        law_storage_is_always_sound(contract, history.drop_last());
    }
}

/// What the contract has received of a token, less what it has paid.
pub open spec fn held(contract: Address, history: Seq<Turn>, token: Seq<char>) -> int
    decreases history.len(),
{
    if history.len() == 0 {
        0
    } else {
        let earlier = history.drop_last();
        let turn = history.last();
        held(contract, earlier, token) + crate::scout_access::laws::fees::received(
            seen(contract, run(contract, earlier), turn).kept_if(turn.call, turn.carried_out),
            token,
            contract@,
        )
    }
}

/// The sum of what calls added to the fees by which the contract paid itself:
/// it counts these, although it holds no more and no less.
pub open spec fn paid_to_itself(contract: Address, history: Seq<Turn>) -> int
    decreases history.len(),
{
    if history.len() == 0 {
        0
    } else {
        let earlier = history.drop_last();
        let before = run(contract, earlier);
        let turn = history.last();
        let env = seen(contract, before, turn);
        paid_to_itself(contract, earlier) + if completed(contract, before, turn)
            && env.pays_itself(turn.call) {
            fee_of(env, turn.call)
        } else {
            0
        }
    }
}

/// What one call does to the fees, and what the contract receives by it.
proof fn lemma_fees_by_turn(contract: Address, storage: StorageView, turn: Turn)
    requires
        storage.sound(),
        storage.initialized(),
    ensures
        ({
            let env = seen(contract, storage, turn);
            let after = env.committed_if(turn.call, turn.carried_out);
            after.fees() - storage.fees() == crate::scout_access::laws::fees::received(
                env.kept_if(turn.call, turn.carried_out),
                storage.instance.xlm_token->0@,
                contract@,
            ) + if completed(contract, storage, turn) && env.pays_itself(turn.call) {
                fee_of(env, turn.call)
            } else {
                0
            }
        }),
{
    let env = seen(contract, storage, turn);
    if completed(contract, storage, turn) && env.pays_itself(turn.call) {
        crate::scout_access::laws::fees::lemma_self_payment(env, turn.call);
    } else {
        crate::scout_access::laws::commit::law_kept_fees_are_backed(
            env,
            turn.call,
            turn.carried_out,
        );
    }
}

/// Before the contract is initialized it holds nothing.
proof fn lemma_nothing_held_at_first(contract: Address, history: Seq<Turn>, token: Seq<char>)
    requires
        history.len() == 0 || !run(contract, history.drop_last()).initialized(),
    ensures
        held(contract, history, token) == 0,
        paid_to_itself(contract, history) == 0,
        run(contract, history).fees() == 0,
    decreases history.len(),
{
    if history.len() > 0 {
        let earlier = history.drop_last();
        let turn = history.last();
        let env = seen(contract, run(contract, earlier), turn);
        law_storage_is_always_sound(contract, earlier);
        if earlier.len() > 0 {
            let start = earlier.drop_last();
            law_storage_is_always_sound(contract, start);
            if run(contract, start).initialized() {
                crate::scout_access::laws::soundness::law_admin_and_token_stay(
                    seen(contract, run(contract, start), earlier.last()),
                    earlier.last().call,
                );
            }
        }
        lemma_nothing_held_at_first(contract, earlier, token);
        crate::scout_access::laws::fees::lemma_no_transfer_at_first(env, turn.call);
        crate::scout_access::laws::fees::lemma_received_nothing(
            env.kept_if(turn.call, turn.carried_out),
            token,
            contract@,
        );
    }
}

/// At all times the contract holds the fees that it counts, in the token that
/// it was initialized with, but for what it paid to itself.
pub proof fn law_fees_are_always_backed(contract: Address, history: Seq<Turn>)
    requires
        run(contract, history).initialized(),
    ensures
        run(contract, history).fees() == held(
            contract,
            history,
            run(contract, history).instance.xlm_token->0@,
        ) + paid_to_itself(contract, history),
    decreases history.len(),
{
    if history.len() > 0 {
        let earlier = history.drop_last();
        let turn = history.last();
        let before = run(contract, earlier);
        let token = run(contract, history).instance.xlm_token->0@;
        law_storage_is_always_sound(contract, earlier);
        if before.initialized() {
            law_fees_are_always_backed(contract, earlier);
            crate::scout_access::laws::soundness::law_admin_and_token_stay(
                seen(contract, before, turn),
                turn.call,
            );
            lemma_fees_by_turn(contract, before, turn);
        } else {
            lemma_nothing_held_at_first(contract, history, token);
        }
    }
}

/// How many times the contract was initialized.
pub open spec fn times_initialized(contract: Address, history: Seq<Turn>) -> nat
    decreases history.len(),
{
    if history.len() == 0 {
        0
    } else {
        let earlier = history.drop_last();
        times_initialized(contract, earlier) + if completed(
            contract,
            run(contract, earlier),
            history.last(),
        ) && history.last().call is Initialize {
            1nat
        } else {
            0nat
        }
    }
}

/// The contract is initialized at most once, and works from then on.
pub proof fn law_initialized_at_most_once(contract: Address, history: Seq<Turn>)
    ensures
        times_initialized(contract, history) == (if run(contract, history).initialized() {
            1nat
        } else {
            0nat
        }),
    decreases history.len(),
{
    if history.len() > 0 {
        law_initialized_at_most_once(contract, history.drop_last());
        law_storage_is_always_sound(contract, history.drop_last());
    }
}

/// Whether the contract was last paused, and not unpaused since.
pub open spec fn last_paused(contract: Address, history: Seq<Turn>) -> bool
    decreases history.len(),
{
    if history.len() == 0 {
        false
    } else {
        let earlier = history.drop_last();
        let call = history.last().call;
        if completed(contract, run(contract, earlier), history.last()) && (call is PauseContract
            || call is UnpauseContract) {
            call is PauseContract
        } else {
            last_paused(contract, earlier)
        }
    }
}

/// The contract is paused if and only if the admin's last word was to pause.
pub proof fn law_paused_if_last_paused(contract: Address, history: Seq<Turn>)
    ensures
        run(contract, history).paused() <==> last_paused(contract, history),
    decreases history.len(),
{
    if history.len() > 0 {
        law_paused_if_last_paused(contract, history.drop_last());
        law_storage_is_always_sound(contract, history.drop_last());
    }
}

/// A map within a map within a map is within the last.
proof fn lemma_submap_transitive<K, V>(a: Map<K, V>, b: Map<K, V>, c: Map<K, V>)
    requires
        a.submap_of(b),
        b.submap_of(c),
    ensures
        a.submap_of(c),
{
    assert forall|k: K| #[trigger] a.dom().contains(k) implies c.dom().contains(k) && a[k]
        == c[k] by {
        assert(b.dom().contains(k));
    }
}

/// Contacts and trial offers that are there at some time are there, as they
/// were, at any later time.
pub proof fn law_records_are_never_lost(contract: Address, history: Seq<Turn>, n: int)
    requires
        0 <= n <= history.len(),
    ensures
        run(contract, history.take(n)).contacts.submap_of(run(contract, history).contacts),
        run(contract, history.take(n)).trial_offers.submap_of(
            run(contract, history).trial_offers,
        ),
    decreases history.len(),
{
    if n == history.len() {
        assert(history.take(n) =~= history);
    } else {
        let earlier = history.drop_last();
        let turn = history.last();
        let env = seen(contract, run(contract, earlier), turn);
        assert(earlier.take(n) =~= history.take(n));
        law_records_are_never_lost(contract, earlier, n);
        law_storage_is_always_sound(contract, earlier);
        if completed(contract, env.storage, turn) {
            crate::scout_access::laws::soundness::law_records_stay(env, turn.call);
        }
        let after = run(contract, history);
        assert(env.storage.contacts.submap_of(after.contacts));
        assert(env.storage.trial_offers.submap_of(after.trial_offers));
        lemma_submap_transitive(
            run(contract, history.take(n)).contacts,
            env.storage.contacts,
            after.contacts,
        );
        lemma_submap_transitive(
            run(contract, history.take(n)).trial_offers,
            env.storage.trial_offers,
            after.trial_offers,
        );
    }
}

} // verus!
