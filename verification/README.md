# rspc

A TRPC-like server for Rust: procedures (queries, mutations and subscriptions)
are registered under string keys on a router and called by clients over HTTP or
a websocket. This crate is the verified core of that server, written in Verus.

- `src/` holds the library. Every function in it carries a contract that Verus
  proves: error codes and their HTTP statuses, the errors reported to clients,
  procedures built from middleware and a resolver and registered by kind, their
  lookup, the decisions taken for each HTTP request and websocket message,
  subscription bookkeeping, the middleware layer (which hands the context it
  produces to the next layer) and the cookie jar (over the `cookie` crate). The laws the library keeps stand
  there too, as proof functions.
- `tests/` runs the library on concrete values.
- `app/` is the unverified part around it: JSON (de)serialisation with
  `serde_json`, error traits, and the async runners that await procedures, spawn
  subscription tasks and talk to the transport.
