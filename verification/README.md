# raft

Building blocks of a Raft consensus server, written in Verus: each function in
`src/` carries a `requires`/`ensures` contract that Verus proves.

- `src/config.rs`: cluster membership (`Configuration`, `check_configuration`,
  `next_configuration`), server settings (`Config`, `ConfigBuilder`,
  `ReloadableConfig`) and the rules they are checked against.
- `src/commitment.rs`: the leader's commit index, advanced to the highest log
  index that a majority of the voters store.
- `src/log.rs`, `src/mem_store.rs`, `src/stable.rs`: log entries, the log and
  key/value store interfaces, an in-memory store and a ring-buffer cache.
- `src/state.rs`, `src/future.rs`, `src/commands.rs`, `src/errors.rs`: node
  state, futures that carry an outcome, RPC messages and the error type.
- `src/names.rs`: comparing names spelled as text, for the `name`/`parse`
  methods of the library's enums.
- `src/ext_types.rs`: the types of other crates that the library's values
  carry, with the facts about their functions that the proofs rely on.

The public proof functions whose names start with `law_` state properties
that hold across calls, such as what `get` returns after `set`.

`app/` holds what stays outside the verifier: channels and threads, metrics
recording, MessagePack encoding of configurations, and the gRPC service code.
