# web3-proxy

The core of a proxy for Ethereum JSON-RPC servers, written in Rust and verified with Verus.

- `src/jsonrpc/builder.rs` puts together what is needed to make a request ready.
- `src/jsonrpc/setup.rs` makes a request ready, one answer at a time.
- `src/jsonrpc/validated.rs` is a request that is being worked on: which blocks it needs, when
  it times out, what is recorded of its response, and the stat that is sent when it is done.
- `src/jsonrpc/laws.rs` states what holds of requests across calls.
- `src/frontend/` holds the pages and what is known of a sender.
- `src/migration.rs` and `src/referee.rs` describe the database.
- `src/app.rs`, `src/stats.rs`, `src/block.rs`, `src/decimal.rs`, `src/time.rs` and
  `src/errors.rs` hold the values that the rest works on.
- `src/call.rs` makes calls whose arguments and result a contract can speak of.

`app/` is ordinary Rust around it: web handlers, SeaORM tables, locks and awaits.
