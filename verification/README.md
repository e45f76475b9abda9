# scoutchain

The rules of ScoutChain's scout access contract, written and proved in Verus.
Scouts buy subscriptions, pay to contact players and log trial offers; the
contract decides who may do what, what it costs, and what is stored.

## Layout

- `src/scout_access/contract.rs`: the calls of the contract.
- `src/scout_access/model.rs`: what each call answers and leaves, as
  mathematical functions that the contracts of the calls refer to.
- `src/scout_access/env.rs`: the environment of a call. It holds what the
  ledger stores, and the list of what the host is to do.
- `src/scout_access/table.rs`: the map that stored entries are kept in.
- `src/scout_access/calls.rs` and `src/scout_access/laws/`: what holds of all
  calls, and of calls after one another.
- `src/progress.rs`: data types of the progress contract.
- `app/`: the contract on the Soroban host. It reads the ledger, lets the
  library decide, and carries out the list.
- `tests/`: the rules by themselves, and on a Soroban host.

## How a call runs

A call gets an `Env` and appends to its list what it wants from the host: to
require an authorization, to transfer tokens, to store an entry, to extend an
entry's life, to publish an event. The host carries the list out in order. A
call that depends on another contract ends with a question. The answer goes
into the call's second half, `finish_contact` or `finish_trial_offer`.

The host fetches the entries that the call reads beforehand; `Call::reads` says
which. Once a call is over, the host keeps all of it, or takes all of it back:
the call was refused, or abandoned on a fault, or the host could not carry out
what it asked for. `EnvView::committed_if` is the storage that remains, and
`laws/history.rs` speaks of any number of calls one after another.

Before a call that can be abandoned on a fault, the matching `.._trap`
function says which fault it would be.
