# agent_ledger

An append-only ledger of blocks for LLM agents, with its rules proved in Verus.

A conversation is an ordered list of blocks. Every kind of block answers the
same few questions: who owes the next move, whether its own work is done, how it
reads to the model. A cursor advances through the ledger past the blocks whose
work is done, and a turn of the model is owed only where it has come to the end
and the frontier awaits the model.

- `src/block.rs`, `src/json.rs`, `src/clock.rs`: rows, their payloads and their
  stamps; what is taken to be true of `serde_json` and `chrono`.
- `src/agency/`: the kinds and their hooks, the composition of kinds, the ratchet
  that drives a ledger, the walk over deferred work, and what a ledger says of
  its tool calls.
- `src/actor/`: a conversation's actor, its scheduler's ticks, the routing of
  events and the announcement of changes, as decisions over plain values.
- `src/compose.rs`: which enums compose kinds, and what a composition has to
  pass.
- `app/`: the runtime around the library, over a consumer's store, providers and
  tools, and the expansion of the composing derive.
- `tests/`: the library run over ledgers in memory.
