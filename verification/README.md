# x4-carrier-native

The native side of the Live Galaxy carrier: a Lua 5.1 module loaded by
X4: Foundations that collects observation sections from the game and hands
them, one acknowledged message at a time, to the bridge over a local named
pipe.

## Layout

- `src/` is the verified library (Verus). It holds the rules the module
  follows:
  - `handle.rs`, `types.rs`, `abi.rs`: the registry of carrier handles and
    their tokens, limits and status codes;
  - `producer.rs`, `producer_types.rs`, `producer_message.rs`: the producer
    state machine (handshake, intent, demand, collection, start, batches,
    completion, dispositions, retries, reconnects) and message identities;
  - `host_tables.rs`, `lua_*.rs`, `ship_detail.rs`: what the host's tables
    must contain and what each operation answers;
  - `transport_types.rs`, `transport_worker.rs`: the transport's checks and
    the pipe worker's decisions;
  - `text.rs`: decimal, hexadecimal, UTF-8 and UTF-16 text.
- `app/` is the host glue: the Lua entry points, the Win32 pipe, its security
  descriptor and worker thread, and the calls into the observation crates
  that encode and decode the bridge's messages.
- `tests/` exercises the library on concrete values.
