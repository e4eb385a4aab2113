# Ember

A Wisp v1/v2 proxy server. The protocol core is a Verus library whose
functions carry `requires` / `ensures` contracts proved by Verus; the program
around it (sockets, WebSockets, TLS, the terminal dashboard, configuration
files) is ordinary Rust.

## Layout

- `src/` — the verified library:
  - `wisp/packet.rs` — the packet wire format, with encode/decode round trips;
  - `wisp/extensions.rs`, `wisp/handshake.rs` — extension lists, the v2
    handshake and version detection;
  - `wisp/buffer.rs` — per-stream adaptive flow-control buffers;
  - `wisp/mux.rs` — the stream table of a connection, per-stream flow
    control, and the decisions taken for each incoming frame;
  - `wisp/plugins.rs`, `wisp/plugin.rs` — the per-address rate limit and the
    plugin answers;
  - `circuit_breaker.rs` — the circuit breaker's state machine and its laws;
  - `config.rs` — configuration defaults, validation and command-line
    overrides;
  - `tls.rs` — the certificate chain and private key read from PEM text;
  - `server.rs`, `pool.rs`, `tui.rs` — the metrics endpoint's routing and
    responses, the connection limit, pool limits, and the dashboard's state and key handling;
  - `support/` — the trusted declarations of the outside types and calls
    (`bytes::Bytes`, strings, the clock).
- `tests/` — tests of the library.
- `app/` — the server program.

## Configuration

The `[buffer]` watermarks (`high_watermark`, `low_watermark`) are fractions
of a buffer's capacity. They are applied in thousandths: a value is rounded
to the nearest 0.001, so `0.8004` acts as `0.800`, and the high watermark
must stay above the low one after rounding. A negative watermark is taken
as 0. No byte budget limits a buffer's
growth; its capacity moves in slots between `min_size` and `max_size`.
