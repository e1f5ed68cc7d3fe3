# mitch

Wire codecs for MITCH, a little-endian binary protocol for market data:
a 16-byte header followed by 1 to 255 fixed-size bodies (trade, order,
tick, index, order book, bar, heartbeat), u48 timestamps in 16 µs ticks
since 2010, 64-bit ticker ids and 32-bit channel ids.

## Layout

- `src/` — the library, verified with Verus. Every record type states its
  wire image as a byte sequence; `pack`/`encode` write exactly that image,
  `unpack`/`decode` read it back, and the round-trip laws (`law_*`) are
  proved. Prices travel as the bit patterns of their IEEE-754 values, and
  the validation rules compare those patterns (`src/ieee.rs`) exactly as
  binary64 comparisons do.
- `app/` — ordinary Rust on top of the library: arithmetic on prices as
  `f64` (mid, spread, notional, the index spread cap, confidence codecs),
  `Display` forms that print floats, and `bytemuck::Pod` record types for
  zero-copy casts of byte buffers.
- `tests/` — tests of the library.
