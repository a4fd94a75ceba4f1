# paw

The verified core of the Paw messenger: the client runtime (sign-in flow,
realtime connection, message sync, agent streaming, end-to-end encryption)
and the decisions of the server (sign-in codes and their rate limiting,
agent tokens and permissions, agent stream relaying, channels, admin
actions, localized error bodies).

`src/` is written in Verus; every function there carries a contract that
Verus proves. The calls into outside crates (UUIDs, base64, SHA-256, hex,
X25519, HKDF, AES-GCM, URLs, randomness, the clock) stand behind a small set
of trusted wrappers whose contracts are documented next to them.

Layout of `src/`:

- `sync/` — per-scope sequence cursors (duplicate and gap detection, gap
  recovery), streamed agent replies, and the records the client stores.
- `ws/` — reconnect back-off, WebSocket endpoint construction, and the
  connection state machine.
- `auth/` — the sign-in state machine and its data.
- `runtime.rs`, `events.rs` — the client runtime that ties the above
  together, and the views it reports to the UI.
- `crypto.rs` — account keys and the sealed message format.
- `http.rs`, `api.rs` — API error classification and the checks and
  conversions of the platform API calls.
- `platform.rs`, `search.rs`, `text.rs`, `ids.rs`, `proto.rs`, `clock.rs`.
- `server/` — the server's rules and endpoint decisions.

`app/` holds what cannot be verified: the asynchronous drivers of the
client side that perform the network calls the library plans, the JSON
forms of library types, and locale negotiation over floating-point quality
values. `tests/` exercises the library from outside.

What is not provided:

- No server is built here: there are no routes, middleware, database
  queries, message-bus subscriptions or connection hub. The crates the
  server runs on (`axum`, `sqlx`, `async-nats`) are not available in this
  build, so the endpoint decisions in `src/server/` are exercised by the
  tests only. Each endpoint is cut into the steps its handler takes between
  reads (for example `invite_membership_gate`, `invite_manage_gate` and
  `invite_agent_answer`, or `agent_socket_token` and
  `agent_socket_after_lookup`), so that a driver reads only what the
  previous step allows.
- The client's local store (SQLite through `rusqlite`), its full-text
  search index and its WebSocket transport are not driven either; the
  library holds the records and queries they exchange.
- The MLS group functions (`create_credential`, `create_key_package`,
  `create_group`) are left out: they are thin calls into `openmls`, which is
  not available in this build.
