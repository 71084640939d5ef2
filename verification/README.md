# ngnet_quic

A sans-I/O QUIC connection layer over a native transport engine, and the endpoint logic that
drives many connections over one socket, written and proved in Verus.

- `src/` is the library. Nothing in it performs socket I/O or calls the engine, and only
  `endpoint::tokio` reads the operating system's clock. Every other function takes what the
  engine, the socket or the clock reported as a plain value and answers with the decision that
  follows. Each one's contract says exactly which, and the `law_` proof functions state what
  holds across them.
- `app/` is what surrounds the library: the engine's bindings and callbacks, sockets, timers,
  locks and futures. It performs what the library decides and hands back what happened.
- `tests/` runs the library.
