# lore-server (verified core)

The decision logic of the Lore server, written in Verus and proved against
its contracts.

`src/` is the verified library:

- `hooks/` — hook points and errors, the read-only hook context and its
  builder, the registry of hook factories, and the dispatcher's decisions
  (which hooks run at a point, in which order, and what their runs amount
  to: the first pre-handler failure vetoes, response messages are merged).
- `revision_list.rs`, `legacy_revision_list.rs`, `state_history.rs` — the
  paging walks over a branch's history (segment-aligned pages of at most
  100 revisions with backward cursors, step-key backfills, capped history
  depth) as state machines: each says which revision state it wants next
  and takes the loaded state. The loop that loads the states from the
  revision stores is not in this crate (the store crates are not part of
  it).
- `revision_info.rs` — the commit fields and rendered entries of a
  revision's metadata.
- `validation.rs`, `outcomes.rs`, `storage.rs` — request checks and the
  statuses that operation outcomes are answered with.
- `environment.rs`, `notification.rs`, `replication.rs`,
  `response_trace.rs` — the environment, notification and replication
  services' decisions, and the response trace layer's clock.
- `external.rs` — the outside types the library carries.

`app/` holds what Verus does not see: the hook traits that hook authors
implement and the running of their handlers (panic isolation, timing,
background tasks), TOML (de)serialisation of hook settings, gRPC statuses
and file reads.

`tests/` exercises the library on concrete values.
