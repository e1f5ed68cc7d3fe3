//! ASCII codes that name the message types in APIs.

use vstd::prelude::*;

verus! {

/// Trade message ('t').
pub const TRADE: u8 = 116;

/// Order message ('o').
pub const ORDER: u8 = 111;

/// Tick message ('s').
pub const TICK: u8 = 115;

/// Index message ('i').
pub const INDEX: u8 = 105;

/// Order book message ('b').
pub const ORDER_BOOK: u8 = 98;

/// Bar / kline ('k').
pub const BAR: u8 = 107;

/// Heartbeat ('h').
pub const HEARTBEAT: u8 = 104;

} // verus!
