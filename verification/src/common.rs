//! Types, codes and helpers shared by every MITCH message.

pub mod message_sizes;
pub mod message_type;
pub mod message_type_code;

use vstd::prelude::*;

use crate::text::{decimal, push_decimal};

verus! {

// ── Trading enums ────────────────────────────────────────────────────────

/// Side of an order or trade.
#[derive(Debug, Clone, Copy, PartialEq, Eq, Structural)]
pub enum OrderSide {
    /// Buy side (0).
    Buy,
    /// Sell side (1).
    Sell,
}

impl OrderSide {
    /// Wire value of the side.
    pub open spec fn spec_code(self) -> u8 {
        match self {
            OrderSide::Buy => 0,
            OrderSide::Sell => 1,
        }
    }

    /// Wire value of the side (0 = buy, 1 = sell).
    pub fn code(self) -> (r: u8)
        ensures
            r == self.spec_code(),
    {
        match self {
            OrderSide::Buy => 0,
            OrderSide::Sell => 1,
        }
    }
}

impl Default for OrderSide {
    fn default() -> (r: Self)
        ensures
            r == OrderSide::Buy,
    {
        OrderSide::Buy
    }
}

/// Kind of an order.
#[derive(Debug, Clone, Copy, PartialEq, Eq, Structural)]
pub enum OrderType {
    /// Market order (0).
    Market,
    /// Limit order (1).
    Limit,
    /// Stop order (2).
    Stop,
    /// Cancel order (3).
    Cancel,
}

impl OrderType {
    /// Wire value of the order type.
    pub open spec fn spec_code(self) -> u8 {
        match self {
            OrderType::Market => 0,
            OrderType::Limit => 1,
            OrderType::Stop => 2,
            OrderType::Cancel => 3,
        }
    }

    /// Wire value of the order type (0 market, 1 limit, 2 stop, 3 cancel).
    pub fn code(self) -> (r: u8)
        ensures
            r == self.spec_code(),
    {
        match self {
            OrderType::Market => 0,
            OrderType::Limit => 1,
            OrderType::Stop => 2,
            OrderType::Cancel => 3,
        }
    }
}

impl Default for OrderType {
    fn default() -> (r: Self)
        ensures
            r == OrderType::Market,
    {
        OrderType::Market
    }
}

// ── Errors ───────────────────────────────────────────────────────────────

/// Errors of MITCH protocol operations.
#[derive(Debug, PartialEq)]
pub enum MitchError {
    /// Invalid or corrupt data.
    InvalidData(String),
    /// An unrecognized message type.
    InvalidMessageType(u8),
    /// A buffer too small for a message.
    BufferTooSmall {
        /// The size the operation needs.
        expected: usize,
        /// The size it was given.
        actual: usize,
    },
    /// An invalid ticker ID.
    InvalidTickerId(String),
    /// An invalid channel ID.
    InvalidChannelId(String),
    /// A field holding an invalid value.
    InvalidFieldValue(String),
    /// A serialization failure.
    SerializationError(String),
}

impl MitchError {
    /// The human-readable description of the error.
    pub open spec fn text(self) -> Seq<char> {
        match self {
            MitchError::InvalidData(m) => "Invalid data: "@ + m@,
            MitchError::InvalidMessageType(t) => "Invalid message type: "@ + decimal(t as nat),
            MitchError::BufferTooSmall { expected, actual } => "Buffer too small: expected "@ + decimal(
                expected as nat,
            ) + ", got "@ + decimal(actual as nat),
            MitchError::InvalidTickerId(m) => "Invalid ticker ID: "@ + m@,
            MitchError::InvalidChannelId(m) => "Invalid channel ID: "@ + m@,
            MitchError::InvalidFieldValue(m) => "Invalid field value: "@ + m@,
            MitchError::SerializationError(m) => "Serialization error: "@ + m@,
        }
    }

    /// The human-readable description of the error.
    pub fn to_string(&self) -> (r: String)
        ensures
            r@ == self.text(),
    {
        let mut s = String::new();
        match self {
            MitchError::InvalidData(m) => {
                s.push_str("Invalid data: ");
                s.push_str(m.as_str());
            },
            MitchError::InvalidMessageType(t) => {
                s.push_str("Invalid message type: ");
                push_decimal(&mut s, *t as u64);
            },
            MitchError::BufferTooSmall { expected, actual } => {
                s.push_str("Buffer too small: expected ");
                push_decimal(&mut s, *expected as u64);
                s.push_str(", got ");
                push_decimal(&mut s, *actual as u64);
            },
            MitchError::InvalidTickerId(m) => {
                s.push_str("Invalid ticker ID: ");
                s.push_str(m.as_str());
            },
            MitchError::InvalidChannelId(m) => {
                s.push_str("Invalid channel ID: ");
                s.push_str(m.as_str());
            },
            MitchError::InvalidFieldValue(m) => {
                s.push_str("Invalid field value: ");
                s.push_str(m.as_str());
            },
            MitchError::SerializationError(m) => {
                s.push_str("Serialization error: ");
                s.push_str(m.as_str());
            },
        }
        s
    }
}

/// `r` failed with `InvalidFieldValue` carrying message `msg`.
pub open spec fn field_error<T>(r: Result<T, MitchError>, msg: Seq<char>) -> bool {
    r matches Err(MitchError::InvalidFieldValue(m)) && m@ == msg
}

/// `r` failed with `InvalidData` carrying message `msg`.
pub open spec fn data_error<T>(r: Result<T, MitchError>, msg: Seq<char>) -> bool {
    r matches Err(MitchError::InvalidData(m)) && m@ == msg
}

// ── Message type codes ───────────────────────────────────────────────────

/// The ASCII codes of the supported message types.
pub open spec fn is_message_type(m: u8) -> bool {
    m == message_type::TRADE || m == message_type::ORDER || m == message_type::TICK
        || m == message_type::INDEX || m == message_type::ORDER_BOOK || m == message_type::BAR
        || m == message_type::HEARTBEAT
}

/// The wire code of an ASCII message type, 0 when it names none.
pub open spec fn spec_msg_type_to_code(m: u8) -> u8 {
    if m == message_type::TRADE {
        message_type_code::TRADE
    } else if m == message_type::ORDER {
        message_type_code::ORDER
    } else if m == message_type::TICK {
        message_type_code::TICK
    } else if m == message_type::INDEX {
        message_type_code::INDEX
    } else if m == message_type::ORDER_BOOK {
        message_type_code::ORDER_BOOK
    } else if m == message_type::BAR {
        message_type_code::BAR
    } else if m == message_type::HEARTBEAT {
        message_type_code::HEARTBEAT
    } else {
        0
    }
}

/// The ASCII message type of a wire code, 0 when it names none.
pub open spec fn spec_code_to_msg_type(c: u8) -> u8 {
    if c == message_type_code::TRADE {
        message_type::TRADE
    } else if c == message_type_code::ORDER {
        message_type::ORDER
    } else if c == message_type_code::TICK {
        message_type::TICK
    } else if c == message_type_code::INDEX {
        message_type::INDEX
    } else if c == message_type_code::ORDER_BOOK {
        message_type::ORDER_BOOK
    } else if c == message_type_code::BAR {
        message_type::BAR
    } else if c == message_type_code::HEARTBEAT {
        message_type::HEARTBEAT
    } else {
        0
    }
}

/// Valid wire codes.
pub open spec fn is_message_type_code(c: u8) -> bool {
    1 <= c <= 7
}

/// Body size of a message type, 0 when it names none.
pub open spec fn spec_body_size(m: u8) -> nat {
    if m == message_type::TRADE {
        message_sizes::TRADE as nat
    } else if m == message_type::ORDER {
        message_sizes::ORDER as nat
    } else if m == message_type::TICK {
        message_sizes::TICK as nat
    } else if m == message_type::INDEX {
        message_sizes::INDEX as nat
    } else if m == message_type::ORDER_BOOK {
        message_sizes::ORDER_BOOK as nat
    } else if m == message_type::BAR {
        message_sizes::BAR as nat
    } else if m == message_type::HEARTBEAT {
        message_sizes::HEARTBEAT as nat
    } else {
        0
    }
}

/// The order side held in bit 0 of a combined type-and-side byte.
pub open spec fn spec_extract_order_side(type_and_side: u8) -> OrderSide {
    if type_and_side % 2 == 0 {
        OrderSide::Buy
    } else {
        OrderSide::Sell
    }
}

/// The order type held in bits 1-7 of a combined type-and-side byte
/// (market for codes it does not name).
pub open spec fn spec_extract_order_type(type_and_side: u8) -> OrderType {
    let c = type_and_side / 2;
    if c == 1 {
        OrderType::Limit
    } else if c == 2 {
        OrderType::Stop
    } else if c == 3 {
        OrderType::Cancel
    } else {
        OrderType::Market
    }
}

/// The combined byte: order type in bits 1-7, side in bit 0.
pub open spec fn spec_combine_type_and_side(order_type: OrderType, side: OrderSide) -> u8 {
    (order_type.spec_code() * 2 + side.spec_code()) as u8
}

/// Extracts the side from a combined type-and-side byte (bit 0).
pub fn extract_order_side(type_and_side: u8) -> (r: OrderSide)
    ensures
        r == spec_extract_order_side(type_and_side),
{
    proof {
        assert(type_and_side & 1 == type_and_side % 2) by (bit_vector);
    }
    match type_and_side & 0x01 {
        0 => OrderSide::Buy,
        _ => OrderSide::Sell,
    }
}

/// Extracts the order type from a combined type-and-side byte (bits 1-7);
/// codes that name no order type give a market order.
pub fn extract_order_type(type_and_side: u8) -> (r: OrderType)
    ensures
        r == spec_extract_order_type(type_and_side),
{
    proof {
        assert((type_and_side >> 1) & 0x7F == type_and_side / 2) by (bit_vector);
    }
    match (type_and_side >> 1) & 0x7F {
        0 => OrderType::Market,
        1 => OrderType::Limit,
        2 => OrderType::Stop,
        3 => OrderType::Cancel,
        _ => OrderType::Market,
    }
}

/// Combines an order type and a side into one byte.
pub fn combine_type_and_side(order_type: OrderType, side: OrderSide) -> (r: u8)
    ensures
        r == spec_combine_type_and_side(order_type, side),
        r < 8,
{
    let t = order_type.code();
    let s = side.code();
    proof {
        assert(t < 4 && s < 2 ==> (t << 1u8) | s == t * 2 + s) by (bit_vector);
    }
    (t << 1) | s
}

/// Splitting a combined byte gives back the order type and side that made it.
pub proof fn law_type_and_side_roundtrip(order_type: OrderType, side: OrderSide)
    ensures
        spec_extract_order_type(spec_combine_type_and_side(order_type, side)) == order_type,
        spec_extract_order_side(spec_combine_type_and_side(order_type, side)) == side,
{
}

/// The ASCII character of a message type code.
pub fn message_type_char(msg_type: u8) -> (r: Option<char>)
    ensures
        r is Some <==> is_message_type(msg_type),
        r matches Some(c) ==> c as u32 == msg_type as u32,
{
    match msg_type {
        message_type::TRADE => Some('t'),
        message_type::ORDER => Some('o'),
        message_type::TICK => Some('s'),
        message_type::INDEX => Some('i'),
        message_type::ORDER_BOOK => Some('b'),
        message_type::BAR => Some('k'),
        message_type::HEARTBEAT => Some('h'),
        _ => None,
    }
}

/// Checks that a message type is supported.
pub fn validate_message_type(msg_type: u8) -> (r: Result<(), MitchError>)
    ensures
        r is Ok <==> is_message_type(msg_type),
        r is Err ==> r == Err::<(), MitchError>(MitchError::InvalidMessageType(msg_type)),
{
    match message_type_char(msg_type) {
        Some(_) => Ok(()),
        None => Err(MitchError::InvalidMessageType(msg_type)),
    }
}

/// Maps an ASCII message type to its 4-bit wire code (0 for unknown input).
pub fn msg_type_to_code(ascii: u8) -> (r: u8)
    ensures
        r == spec_msg_type_to_code(ascii),
        is_message_type(ascii) <==> is_message_type_code(r),
{
    match ascii {
        message_type::TRADE => message_type_code::TRADE,
        message_type::ORDER => message_type_code::ORDER,
        message_type::TICK => message_type_code::TICK,
        message_type::INDEX => message_type_code::INDEX,
        message_type::ORDER_BOOK => message_type_code::ORDER_BOOK,
        message_type::BAR => message_type_code::BAR,
        message_type::HEARTBEAT => message_type_code::HEARTBEAT,
        _ => 0,
    }
}

/// Maps a 4-bit wire code back to its ASCII message type (0 for unknown input).
pub fn code_to_msg_type(code: u8) -> (r: u8)
    ensures
        r == spec_code_to_msg_type(code),
        is_message_type_code(code) <==> is_message_type(r),
{
    match code {
        message_type_code::TRADE => message_type::TRADE,
        message_type_code::ORDER => message_type::ORDER,
        message_type_code::TICK => message_type::TICK,
        message_type_code::INDEX => message_type::INDEX,
        message_type_code::ORDER_BOOK => message_type::ORDER_BOOK,
        message_type_code::BAR => message_type::BAR,
        message_type_code::HEARTBEAT => message_type::HEARTBEAT,
        _ => 0,
    }
}

/// Checks that a 4-bit wire code names a known message type.
pub fn validate_message_type_code(code: u8) -> (r: Result<(), MitchError>)
    ensures
        r is Ok <==> is_message_type_code(code),
        r is Err ==> r == Err::<(), MitchError>(MitchError::InvalidMessageType(code)),
{
    if code >= 1 && code <= 7 {
        Ok(())
    } else {
        Err(MitchError::InvalidMessageType(code))
    }
}

/// The ASCII codes and the wire codes are mapped one to one onto each other.
pub proof fn law_message_type_code_bijection(m: u8, c: u8)
    ensures
        is_message_type(m) ==> spec_code_to_msg_type(spec_msg_type_to_code(m)) == m,
        is_message_type_code(c) ==> spec_msg_type_to_code(spec_code_to_msg_type(c)) == c,
        is_message_type(m) <==> is_message_type_code(spec_msg_type_to_code(m)),
{
}

/// The ASCII message types in the order of their wire codes 1-7:
/// trade 't', order 'o', tick 's', index 'i', order book 'b', bar 'k',
/// heartbeat 'h'.
pub open spec fn documented_message_types() -> Seq<u8> {
    seq![116u8, 111u8, 115u8, 105u8, 98u8, 107u8, 104u8]
}

/// Each message type has the wire code of the protocol's table: the type at
/// position `i` of [`documented_message_types`] has code `i + 1`, code `i + 1`
/// names that type, and every other byte has code 0 and names no type.
pub proof fn law_message_type_code_table(m: u8, c: u8)
    ensures
        documented_message_types().len() == 7,
        1 <= c <= 7 ==> spec_code_to_msg_type(c) == documented_message_types()[c - 1],
        1 <= c <= 7 ==> spec_msg_type_to_code(documented_message_types()[c - 1]) == c,
        !(1 <= c <= 7) ==> spec_code_to_msg_type(c) == 0,
        is_message_type(m) <==> documented_message_types().contains(m),
        !documented_message_types().contains(m) ==> spec_msg_type_to_code(m) == 0,
{
    let t = documented_message_types();
    assert(t[0] == 116 && t[1] == 111 && t[2] == 115 && t[3] == 105 && t[4] == 98 && t[5] == 107 && t[6] == 104);
    if is_message_type(m) {
        if m == 116 { assert(t[0] == m); } else if m == 111 { assert(t[1] == m); } else if m == 115 {
            assert(t[2] == m);
        } else if m == 105 { assert(t[3] == m); } else if m == 98 { assert(t[4] == m); } else if m == 107 {
            assert(t[5] == m);
        } else { assert(t[6] == m); }
    }
}

/// The order types in the order of their wire codes 0-3: market, limit,
/// stop, cancel.
pub open spec fn documented_order_types() -> Seq<OrderType> {
    seq![OrderType::Market, OrderType::Limit, OrderType::Stop, OrderType::Cancel]
}

/// The combined byte holds the side in bit 0 (buy 0, sell 1) and, above it,
/// the order type's position in [`documented_order_types`]; reading a byte
/// gives back the side of bit 0 and the type at position `byte / 2`, or a
/// market order for positions past the table.
pub proof fn law_type_and_side_table(order_type: OrderType, side: OrderSide, b: u8)
    ensures
        documented_order_types().len() == 4,
        documented_order_types()[order_type.spec_code() as int] == order_type,
        spec_combine_type_and_side(order_type, side) / 2 == order_type.spec_code(),
        spec_combine_type_and_side(order_type, side) % 2 == (if side == OrderSide::Buy { 0int } else { 1int }),
        b / 2 < 4 ==> spec_extract_order_type(b) == documented_order_types()[(b / 2) as int],
        b / 2 >= 4 ==> spec_extract_order_type(b) == OrderType::Market,
        spec_extract_order_side(b) == (if b % 2 == 0 { OrderSide::Buy } else { OrderSide::Sell }),
{
    let t = documented_order_types();
    assert(t[0] == OrderType::Market && t[1] == OrderType::Limit && t[2] == OrderType::Stop && t[3] == OrderType::Cancel);
}

/// Body sizes in the order of the wire codes 1-7: trade 24, order 32,
/// tick 32, index 40, order book 2072, bar 96, heartbeat 16 bytes; a byte
/// that names no message type has no body size.
pub proof fn law_body_size_table(c: u8, m: u8)
    ensures
        ({
            let sizes = seq![24nat, 32nat, 32nat, 40nat, 2072nat, 96nat, 16nat];
            1 <= c <= 7 ==> spec_body_size(documented_message_types()[c - 1]) == sizes[c - 1]
        }),
        !is_message_type(m) ==> spec_body_size(m) == 0,
{
    law_message_type_code_table(m, c);
}

} // verus!
