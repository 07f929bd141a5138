# up_rust

The common interface of a message transport layer, verified with Verus.

- `src/transport.rs`: the traits `UTransport`, `UListener` and
  `LocalUriProvider`. The default methods of `UTransport` are proved to refuse
  with `UNIMPLEMENTED` and the message "not implemented".
- `src/listener.rs`: `ComparableListener`, which wraps a shared listener and
  compares, hashes and prints it by the address of its allocation; its equality
  is proved to be an equivalence and its debug text to name the listener.
- `src/status.rs`, `src/message.rs`, `src/uri.rs`: the status, message and URI
  types that the traits exchange.
- `src/decimal.rs`: decimal numerals of unsigned integers, for the debug text.
- `app/lib.rs`: asynchronous faces of the listener and transport traits, built
  with `async-trait` on top of the synchronous ones.
