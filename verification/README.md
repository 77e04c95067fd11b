# tcp_stack

A small user-space TCP stack for a Linux TUN device, verified with Verus.

- `src/util/seq.rs` — sequence-number comparison modulo 2^32, with the laws
  of that order.
- `src/util/isn.rs` — initial send sequence numbers from the clock.
- `src/tcp/header.rs` — TCP and IPv4 header fields and their decoding by
  `etherparse`.
- `src/tcp/output.rs` — building the frames sent back (checksums and header
  encoding by `etherparse`).
- `src/tcp/frame.rs` — classifying device frames; sent frames decode to what
  they were built from.
- `src/tcp/connection.rs` — a connection's sequence spaces, segment
  acceptability and the passive-open handshake.
- `src/tcp/table.rs` — the connections by quad and what happens to each frame.
- `src/tcp/stream.rs` — copying received bytes to a reader's buffer.
- `app/` — the device loop, threads and channels around the library.
