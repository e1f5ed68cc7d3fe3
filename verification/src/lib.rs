//! MITCH (Moded Individual Trade Clearing and Handling): a transport-agnostic
//! binary protocol for low-latency market data.
//!
//! Every message is a 16-byte [`MitchHeader`] followed by 1 to 255 bodies of
//! one type, all fixed-width and little-endian. This crate holds the wire
//! codecs of the header and of every body, the u48 clock, ticker and channel
//! ids, and batch framing, each with its contract proved.

pub mod bar;
pub mod body;
pub mod bytes;
pub mod channel;
pub mod common;
pub mod constants;
pub mod frame;
pub mod header;
pub mod heartbeat;
pub mod ieee;
pub mod index;
pub mod market_providers;
pub mod order;
pub mod order_book;
pub mod tick;
pub mod text;
pub mod ticker;
pub mod timestamp;
pub mod trade;

pub use crate::bar::{Bar, BAR_SIZE};
pub use crate::body::{pack_batch, unpack_all, unpack_batch, MitchBody};
pub use crate::channel::ChannelId;
pub use crate::common::{
    code_to_msg_type, combine_type_and_side, extract_order_side, extract_order_type, message_sizes,
    message_type, message_type_char, message_type_code, msg_type_to_code, validate_message_type,
    validate_message_type_code, MitchError, OrderSide, OrderType,
};
pub use crate::constants::{AssetClass, BinAggregator, InstrumentType};
pub use crate::frame::{
    BarFrame, Frame, FrameBody, HeartbeatFrame, TickFrame, TradeFrame, BAR_FRAME_SIZE,
    HEARTBEAT_FRAME_SIZE, TICK_FRAME_SIZE, TRADE_FRAME_SIZE,
};
pub use crate::header::MitchHeader;
pub use crate::heartbeat::Heartbeat;
pub use crate::index::Index;
pub use crate::market_providers::MarketProvider;
pub use crate::order::Order;
pub use crate::order_book::{Bin, OrderBook};
pub use crate::tick::Tick;
pub use crate::ticker::{
    crypto_ticker, equity_ticker, forex_ticker, pack_asset, pack_ticker_batch, unpack_asset,
    unpack_ticker_batch, Asset, Ticker, TickerId,
};
pub use crate::trade::Trade;

use vstd::prelude::*;

use crate::common::{data_error, is_message_type, is_message_type_code, spec_body_size};
use crate::header::{header_from_wire, law_header_roundtrip};

verus! {

/// MITCH protocol version implemented by this crate.
pub const MITCH_VERSION: &'static str = "1.0.0";

/// Library version.
pub const LIB_VERSION: &'static str = "1.0.0";

/// Build information.
pub const BUILD_INFO: &'static str = "mitch-rust v1.0.0 (MITCH protocol v1.0.0)";

/// Size of a message of `count` bodies of type `message_type`: the 16-byte
/// header plus `count` bodies.
pub fn calculate_message_size(message_type: u8, count: u8) -> (r: Result<usize, MitchError>)
    ensures
        !is_message_type(message_type) ==> r == Err::<usize, MitchError>(MitchError::InvalidMessageType(message_type)),
        is_message_type(message_type) ==> r == Ok::<usize, MitchError>((16 + count * spec_body_size(message_type)) as usize),
{
    validate_message_type(message_type)?;
    let single_body_size = match message_type {
        message_type::TRADE => message_sizes::TRADE,
        message_type::ORDER => message_sizes::ORDER,
        message_type::TICK => message_sizes::TICK,
        message_type::INDEX => message_sizes::INDEX,
        message_type::ORDER_BOOK => message_sizes::ORDER_BOOK,
        message_type::BAR => message_sizes::BAR,
        message_type::HEARTBEAT => message_sizes::HEARTBEAT,
        _ => return Err(MitchError::InvalidMessageType(message_type)),
    };
    proof {
        assert(count as usize * single_body_size <= 255 * 2072) by (nonlinear_arith)
            requires
                count <= 255,
                single_body_size <= 2072,
        ;
    }
    Ok(message_sizes::HEADER + (count as usize * single_body_size))
}

/// Checks that `bytes` holds a whole MITCH message and returns its message
/// type and body count.
pub fn validate_message_buffer(bytes: &[u8]) -> (r: Result<(u8, u8), MitchError>)
    ensures
        bytes@.len() < 16 ==> r == Err::<(u8, u8), MitchError>(MitchError::BufferTooSmall {
            expected: 16,
            actual: bytes@.len() as usize,
        }),
        bytes@.len() >= 16 ==> ({
            let h = header_from_wire(bytes@);
            let code = h.spec_message_type_code();
            let expected = 16 + h.count * spec_body_size(h.spec_message_type());
            &&& !is_message_type_code(code) ==> r == Err::<(u8, u8), MitchError>(MitchError::InvalidMessageType(code))
            &&& is_message_type_code(code) && h.count == 0 ==> data_error(r, "Count cannot be 0"@)
            &&& h.well_formed() && bytes@.len() < expected ==> r == Err::<(u8, u8), MitchError>(
                MitchError::BufferTooSmall { expected: expected as usize, actual: bytes@.len() as usize })
            &&& h.well_formed() && bytes@.len() >= expected ==> r == Ok::<(u8, u8), MitchError>(
                (h.spec_message_type(), h.count))
        }),
{
    if bytes.len() < message_sizes::HEADER {
        return Err(MitchError::BufferTooSmall { expected: message_sizes::HEADER, actual: bytes.len() });
    }
    let header = MitchHeader::unpack(bytes)?;
    proof {
        let h = header_from_wire(bytes@);
        assert(h == header);
        let size = spec_body_size(h.spec_message_type());
        assert(h.count * size <= 255 * 2072) by (nonlinear_arith)
            requires
                h.count <= 255,
                size <= 2072,
        ;
    }
    let expected_size = calculate_message_size(header.message_type(), header.count)?;
    if bytes.len() < expected_size {
        return Err(MitchError::BufferTooSmall { expected: expected_size, actual: bytes.len() });
    }
    Ok((header.message_type(), header.count))
}

/// The packed bytes of a header made by `MitchHeader::new`, followed by at
/// least `count` bodies of its type, form a buffer that
/// `validate_message_buffer` accepts: the header read from it is that header,
/// well formed, of the given type and count, and the buffer is long enough.
pub proof fn law_new_header_message_validates(
    message_type: u8,
    provider_id: u16,
    timestamp: u64,
    count: u8,
    h: MitchHeader,
    bodies: Seq<u8>,
)
    requires
        is_message_type(message_type),
        count > 0,
        provider_id <= 0x0FFF,
        h.built_from(message_type, provider_id, timestamp, count),
        bodies.len() >= count * spec_body_size(message_type),
    ensures
        ({
            let bytes = h.wire() + bodies;
            let g = header_from_wire(bytes);
            &&& bytes.len() >= 16
            &&& g == h
            &&& g.well_formed()
            &&& g.spec_message_type() == message_type
            &&& g.count == count
            &&& bytes.len() >= 16 + g.count * spec_body_size(g.spec_message_type())
        }),
{
    law_header_roundtrip(h);
    h.lemma_built_from(message_type, provider_id, timestamp, count);
    let bytes = h.wire() + bodies;
    assert(bytes.subrange(0, 16) =~= h.wire());
    header_from_wire(bytes).lemma_wire_injective(h);
    assert(is_message_type_code(h.spec_message_type_code())) by {
        crate::common::law_message_type_code_bijection(message_type, h.spec_message_type_code());
    }
}

} // verus!
