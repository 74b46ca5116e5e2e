# substrate_course

A verified library of Substrate course exercises, written in Verus.

- `kitties`: the kitties pallet (create, transfer, breed, sell, buy) over plain
  storage; the runtime's currency and randomness come through the `Config` trait.
  `kitties_laws` proves what holds across its calls.
- `poe`: the proof-of-existence pallet (create, revoke and move claims);
  `poe_laws` proves what holds across its calls.
- `hashing`: the random payload, SCALE-encoded with `parity-scale-codec` and
  hashed with `sp-io`'s Blake2-128.
- `origin`: call origins and `ensure_signed`.
- `calculate`: a `u32` sum that reports overflow.
- `traffic_light`: how long each light stays on.
- `echo`: the decisions of an echo server's connection handler.

`app/` holds the echo server itself (sockets and threads) and the floating-point
shape areas.
