//! 4-bit wire codes of the message types (low nibble of the header's
//! `type_provider` field).

use vstd::prelude::*;

verus! {

/// Trade message.
pub const TRADE: u8 = 1;

/// Order message.
pub const ORDER: u8 = 2;

/// Tick message.
pub const TICK: u8 = 3;

/// Index message.
pub const INDEX: u8 = 4;

/// Order book message.
pub const ORDER_BOOK: u8 = 5;

/// Bar message.
pub const BAR: u8 = 6;

/// Heartbeat message.
pub const HEARTBEAT: u8 = 7;

} // verus!
