//! Wire sizes in bytes.

use vstd::prelude::*;

verus! {

/// Asset size.
pub const ASSET: usize = 20;

/// Ticker size.
pub const TICKER: usize = 64;

/// Header size.
pub const HEADER: usize = 16;

/// Trade body size.
pub const TRADE: usize = 24;

/// Order body size.
pub const ORDER: usize = 32;

/// Tick body size.
pub const TICK: usize = 32;

/// Index body size (56 bytes framed with the 16-byte header).
pub const INDEX: usize = 40;

/// Order book body size.
pub const ORDER_BOOK: usize = 2072;

/// Order book bin size.
pub const BIN: usize = 8;

/// Bar body size (64-byte OHLCV block + 32-byte microstructure block).
pub const BAR: usize = 96;

/// Heartbeat body size.
pub const HEARTBEAT: usize = 16;

} // verus!
