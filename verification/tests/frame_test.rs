//! Tests for frames: one header and one body.

use mitch::timestamp::{from_epoch_ms, to_epoch_ms};
use mitch::{
    Bar, BarFrame, Heartbeat, HeartbeatFrame, MitchError, OrderSide, Tick, TickFrame, Trade, TradeFrame,
    BAR_FRAME_SIZE, HEARTBEAT_FRAME_SIZE, TICK_FRAME_SIZE, TRADE_FRAME_SIZE,
};

fn p(x: f64) -> u64 {
    x.to_bits()
}

#[test]
fn frame_sizes() {
    assert_eq!(core::mem::size_of::<TickFrame>(), 48);
    assert_eq!(core::mem::size_of::<TradeFrame>(), 40);
    assert_eq!(core::mem::size_of::<BarFrame>(), 112);
    assert_eq!(core::mem::size_of::<HeartbeatFrame>(), 32);
    assert_eq!(TICK_FRAME_SIZE, 48);
    assert_eq!(TRADE_FRAME_SIZE, 40);
    assert_eq!(BAR_FRAME_SIZE, 112);
    assert_eq!(HEARTBEAT_FRAME_SIZE, 32);
}

#[test]
fn tick_frame_round_trip() {
    let ticks = from_epoch_ms(1_744_364_200_000);
    let tick = Tick::new_unchecked(1, p(100.0), p(100.05), 500, 600);
    let frame = TickFrame::new(101, ticks, tick);
    let packed = frame.pack();
    let unpacked = TickFrame::unpack(&packed).unwrap();
    assert_eq!(frame, unpacked);
    assert_eq!(unpacked.provider_id(), 101);
}

#[test]
fn trade_frame_round_trip() {
    let ticks = from_epoch_ms(1_744_364_200_000);
    let trade = Trade::new(0x1234, p(99.5), 1000, 42, OrderSide::Buy).unwrap();
    let frame = TradeFrame::new(101, ticks, trade);
    let packed = frame.pack();
    let unpacked = TradeFrame::unpack(&packed).unwrap();
    assert_eq!(frame, unpacked);
    assert_eq!(unpacked.provider_id(), 101);
}

#[test]
fn bar_frame_round_trip() {
    let open_mts = from_epoch_ms(1_744_372_800_000);
    let close_mts = from_epoch_ms(1_744_372_860_000);
    let bar = Bar::new_ohlcv(open_mts, close_mts, p(100.0), p(105.0), p(99.0), p(103.0), 1000, 1200, 50);
    let frame = BarFrame::new(101, open_mts, bar);
    let packed = frame.pack();
    let unpacked = BarFrame::unpack(&packed).unwrap();
    assert_eq!(frame, unpacked);
}

#[test]
fn heartbeat_frame_round_trip() {
    let ticks = from_epoch_ms(1_744_364_200_000);
    let beat = Heartbeat::ticker(0x1234_5678_9ABC_DEF0, 4242);
    let frame = HeartbeatFrame::new(101, ticks, beat);
    let packed = frame.pack();
    let unpacked = HeartbeatFrame::unpack(&packed).unwrap();
    assert_eq!(frame, unpacked);
    assert_eq!(unpacked.provider_id(), 101);
    let body = unpacked.heartbeat();
    let msg_count = body.msg_count;
    let ticker = body.ticker;
    assert_eq!(msg_count, 4242);
    assert_eq!(ticker, 0x1234_5678_9ABC_DEF0);
}

#[test]
fn heartbeat_frame_feed_wide() {
    let ticks = from_epoch_ms(1_744_364_200_000);
    let beat = Heartbeat::feed(0);
    let frame = HeartbeatFrame::new(0, ticks, beat);
    let packed = frame.pack();
    let unpacked = HeartbeatFrame::unpack(&packed).unwrap();
    assert_eq!(frame, unpacked);
    let ticker = unpacked.heartbeat().ticker;
    assert_eq!(ticker, 0);
}

#[test]
fn tick_frame_timestamp() {
    let epoch_ms: i64 = 1_744_364_200_000;
    let ticks = from_epoch_ms(epoch_ms);
    let tick = Tick::new_unchecked(1, p(100.0), p(100.05), 0, 0);
    let frame = TickFrame::new(0, ticks, tick);
    assert_eq!(frame.timestamp(), ticks);
    let back_ms = to_epoch_ms(frame.timestamp());
    assert!((back_ms - epoch_ms).abs() <= 1);
    assert_eq!(frame.timestamp_ms(), back_ms);
}

#[test]
fn tick_frame_provider_id() {
    let tick = Tick::new_unchecked(1, p(100.0), p(100.05), 0, 0);
    let frame = TickFrame::new(1301, 0, tick);
    assert_eq!(frame.provider_id(), 1301);
}

#[test]
fn tick_frame_invalid_type() {
    let tick = Tick::new_unchecked(1, p(100.0), p(100.05), 0, 0);
    let frame = TickFrame::new(0, 0, tick);
    let mut packed = frame.pack();
    packed[0] = (packed[0] & 0xF0) | 0x0F;
    assert!(TickFrame::unpack(&packed).is_err());
}

#[test]
fn tick_frame_buffer_too_small() {
    let bytes = [0u8; 47];
    assert!(TickFrame::unpack(&bytes).is_err());
}

#[test]
fn trade_frame_rejects_wrong_type() {
    let tick = Tick::new_unchecked(1, p(100.0), p(100.05), 0, 0);
    let tick_frame = TickFrame::new(0, 0, tick);
    let bytes = tick_frame.pack();
    assert!(TradeFrame::unpack(&bytes[..TRADE_FRAME_SIZE]).is_err());
}

#[test]
fn frame_errors_are_exact() {
    assert!(matches!(
        TickFrame::unpack(&[0u8; 47]),
        Err(MitchError::BufferTooSmall { expected: 48, actual: 47 })
    ));
    let tick_frame = TickFrame::new(0, 0, Tick::new_unchecked(1, p(1.0), p(1.0), 0, 0));
    let bytes = tick_frame.pack();
    // The header names a tick ('s'), so a trade frame reader refuses it.
    assert!(matches!(TradeFrame::unpack(&bytes), Err(MitchError::InvalidMessageType(b's'))));
    // An unknown code decodes to message type 0.
    let mut bad = bytes;
    bad[0] = (bad[0] & 0xF0) | 0x0F;
    assert!(matches!(TickFrame::unpack(&bad), Err(MitchError::InvalidMessageType(0))));
}

#[test]
fn frame_wire_is_header_then_body() {
    let tick = Tick::new_unchecked(7, p(1.5), p(2.5), 3, 4);
    let frame = TickFrame::new(0x0ABC, 0x0605_0403_0201, tick);
    let bytes = frame.pack();
    assert_eq!(&bytes[16..48], &tick.pack()[..]);
    assert_eq!(u16::from_le_bytes([bytes[0], bytes[1]]), (0x0ABC << 4) | 3);
    assert_eq!(&bytes[2..8], &[1, 2, 3, 4, 5, 6]);
    assert_eq!(bytes[8], 1);
    assert_eq!(frame.tick(), tick);
    assert_eq!(frame.total_volume(), 7);
    assert_eq!(TickFrame::size(), 48);
}

#[test]
fn frame_body_accessors() {
    let trade = Trade::new(0x1234, p(99.5), 1000, 42, OrderSide::Sell).unwrap();
    assert_eq!(TradeFrame::new(1, 2, trade).trade(), trade);
    let bar = Bar::new_ohlcv(1, 2, p(1.0), p(2.0), p(0.5), p(1.5), 1, 2, 3);
    assert_eq!(BarFrame::new(1, 2, bar).bar(), bar);
    assert_eq!(BarFrame::new(1, 2, bar).pack().len(), 112);
    assert_eq!(HeartbeatFrame::new(1, 2, Heartbeat::feed(9)).pack().len(), 32);
}

#[test]
fn tick_frame_file_round_trip() {
    let tick = Tick::new_unchecked(1, p(100.0), p(100.05), 500, 600);
    let frames = vec![TickFrame::new(101, 100, tick), TickFrame::new(101, 200, tick), TickFrame::new(101, 300, tick)];
    let bytes = mitch::pack_batch(&frames);
    assert_eq!(bytes.len(), 144);
    assert_eq!(&bytes[48..96], &frames[1].pack()[..]);
    let back: Vec<TickFrame> = mitch::unpack_all(&bytes).unwrap();
    assert_eq!(back.len(), 3);
    assert_eq!(back[0], frames[0]);
    assert_eq!(back[2], frames[2]);
    assert!(matches!(mitch::unpack_all::<TickFrame>(&bytes[..100]), Err(MitchError::InvalidData(_))));
}

#[test]
fn bar_frame_file_round_trip() {
    let mts = from_epoch_ms(1_700_000_000_000);
    let bar = Bar::new_ohlcv(mts, mts + 1, p(100.0), p(105.0), p(99.0), p(103.0), 0, 0, 0);
    let frames: Vec<BarFrame> = (0..5).map(|i| BarFrame::new(101, mts + i, bar)).collect();
    let bytes = mitch::pack_batch(&frames);
    assert_eq!(bytes.len(), 5 * BAR_FRAME_SIZE);
    let back: Vec<BarFrame> = mitch::unpack_all(&bytes).unwrap();
    assert_eq!(back.len(), 5);
    assert_eq!(back[4], frames[4]);
}

#[test]
fn frame_unpack_unchecked_skips_type_check() {
    let tick_frame = TickFrame::new(7, 9, Tick::new_unchecked(1, p(1.0), p(2.0), 3, 4));
    let bytes = tick_frame.pack();
    assert_eq!(TickFrame::unpack_unchecked(&bytes), tick_frame);
    let as_trade = TradeFrame::unpack_unchecked(&bytes[..TRADE_FRAME_SIZE]);
    assert_eq!(as_trade.header, tick_frame.header);
}

#[test]
fn tick_frame_accessors_total_volume() {
    let tick = Tick::new_unchecked(42, p(100.0), p(100.10), 500, 600);
    let frame = TickFrame::new(0, 0, tick);
    assert_eq!(frame.total_volume(), 1100);
}
