# shuvgrok

A library for a terminal client that drives several model subscriptions, with
its logic verified by Verus.

- `src/failover.rs`: health and rotation of a pool of endpoints for one model.
- `src/fanout.rs`: spreading subagents over such a pool.
- `src/auth/`: signing in with Anthropic, OpenAI and OpenID Connect providers,
  refreshing credentials, and what the client is told of them.
- `src/js_deps.rs`: when JavaScript dependencies have to be installed.
- `src/sky/`: desktop tools that talk to a `sky rpc` process.
- `src/json.rs`, `src/text.rs`, `src/radix64.rs`: the JSON values, text operations
  and base64 texts these need.

`app/` holds what touches the outside: environment, files, processes, network
and the browser. It performs what the library decides and hands back what
happened.
