# rabia

State machine replication with the Rabia consensus protocol, with its logic
written in Verus and proved against its contracts.

## Layout

- `src/` — the verified library.
  - `types`, `ids`, `messages`, `votes`, `node_set`, `table`, `str_table`:
    identifiers, commands and batches, protocol messages, vote maps and the
    small collections the rest is built on.
  - `validation`, `network`, `engine_state`, `protocol`, `config`: message
    validation, quorums and connectivity events, the engine's state, and
    every decision of the consensus engine (votes of both rounds, decisions,
    commits, synchronization).
  - `batching`, `memory_pool`, `serialization`, `frame`, `reconnect`,
    `persistence`, `state_machine`, `checksum`: command batching, buffer
    pools, encoding choices and size estimates, message framing, the retry
    rule of outbound connections, persisted state, snapshots and an
    in-memory key-value state machine.
  - `kv_operations`, `kv_notifications`, `kv_store`: a key-value store with
    limits, versions, change notifications and snapshots.
  - `leader_selector`, `leadership`, `topology`, `health`,
    `leader_notifications`, `leader_error`: leader selection and election,
    cluster topology and node health.
  - `clock`, `text`, `error`: time, text and errors as the library reads
    them from std and its dependencies.
- `tests/` — tests of the library.
- `app/` — the runtime around it: serde forms of the wire types, codecs,
  async traits, the in-memory and TCP transports, file persistence, the
  engine driver, the async batcher and the shared stores and buses.

Laws of the library are public proof functions next to the functions they
relate; trusted items (calls into std and the dependencies) are the
functions marked `#[verifier::external_body]`, the `assume_specification`
items and the declared outside types, each with a doc comment saying what
is believed of it.
