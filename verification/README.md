# grpc_hook

An authorization hook for a publish/subscribe router. A gRPC server decides which peers may connect
and which messages may pass, and may rewrite the keys of messages; the way back to a peer undoes the
rewrite of what the peer declared.

- `src/` is the library, verified with Verus: what is asked of the server, what its answer means,
  what happens to a message, and the table that turns rewritten keys back. It does no I/O: a caller
  takes a question, gets it answered, and hands the outcome back.
  - `text`, `keyexpr`: key text, wildcards, white space, key expressions.
  - `rewrite`: the reverse table.
  - `message`, `client`: messages, requests, answers, decisions.
  - `interceptor`: the way in and the way out.
  - `factory`, `config`, `error`: peers that connect, the set-up, the errors.
  - `laws`: what holds across these modules.
- `tests/` runs the library.
- `app/` is the ordinary Rust around it: the gRPC client, the runtime, the locks, and the conversion
  of the router's own messages.

Two outside functions are taken on trust, each behind a small function with a contract: the parser
of key expressions (`keyexpr::parse_keyexpr`) and the parser of endpoint addresses
(`config::reject_endpoint`).
