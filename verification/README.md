# chat

A self-hosted chat server whose core is verified with Verus.

## Layout

- `src/` is the verified library. It holds the chat domain (validated
  identifiers, names, titles and message bodies; conversations, memberships
  and messages), the use cases as pairs of steps around the store (a request
  step that validates a command and an outcome step that checks what the store
  answered and produces the events), page validation, the rules the SQLite
  store applies inside its transactions, the readers of stored rows, HTTP
  problem mapping and representations, the authentication primitives (tokens,
  cookies, verified identities, the login and sign-out state machines, and
  the bound on pending logins), the
  configuration checks, the operator command line, and the realtime
  subscription hub with the per-connection state machine.
- `app/` is the program around it: environment and command line, SQLite
  queries, the OpenID Connect client, the axum routes, the WebSocket task and
  graceful shutdown. It hands plain values to the library and acts on what
  the library decides.
- `tests/` exercises the library from outside: the domain rules, the use-case
  steps with simulated store answers, and the server-side decisions.

Outside crates are reached from `src/` only through trusted items: Base64 and
SHA-256 for tokens, constant-time comparison, the system random source, URL
parsing, cookie building and parsing, and Tokio channels for the hub.
