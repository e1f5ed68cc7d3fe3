//! Tests for the Trade message type: size, round trip, validation, the u24
//! trade id and batches.

use mitch::{message_sizes, pack_batch, unpack_batch, MitchError, OrderSide, Trade};

/// A valid trade: FX EUR/USD on venue 1.
fn get_default_trade() -> Trade {
    Trade::new(0x0300_6F30_1CD0_0001, 1.08750f64.to_bits(), 1_000_000, 12345, OrderSide::Buy).unwrap()
}

#[test]
fn test_trade_size() {
    assert_eq!(core::mem::size_of::<Trade>(), message_sizes::TRADE);
    assert_eq!(core::mem::size_of::<Trade>(), 24);
}

#[test]
fn test_trade_pack_unpack_roundtrip() {
    let original = get_default_trade();
    let packed = original.pack();
    let unpacked = Trade::unpack(&packed).unwrap();
    assert_eq!(original, unpacked);
}

#[test]
fn test_trade_validation() {
    let trade = get_default_trade();
    assert!(trade.validate().is_ok());

    assert!(Trade::new(0, 1.0f64.to_bits(), 1, 1, OrderSide::Buy).is_err(), "Zero ticker");
    assert!(Trade::new(1, 0.0f64.to_bits(), 1, 1, OrderSide::Buy).is_err(), "Zero price");
    assert!(Trade::new(1, (-1.0f64).to_bits(), 1, 1, OrderSide::Buy).is_err(), "Negative price");
    assert!(Trade::new(1, 1.0f64.to_bits(), 0, 1, OrderSide::Buy).is_err(), "Zero qty");
    assert!(Trade::new(1, 1.0f64.to_bits(), 1, 0, OrderSide::Buy).is_err(), "Zero trade ID");
}

#[test]
fn test_trade_id_u24_encoding() {
    let trade = get_default_trade();
    assert_eq!(trade.get_trade_id(), 12345);

    let max_trade = Trade::new(1, 1.0f64.to_bits(), 1, 0xFF_FFFF, OrderSide::Buy).unwrap();
    assert_eq!(max_trade.get_trade_id(), 16_777_215);
    assert_eq!(max_trade.trade_id, [0xFF, 0xFF, 0xFF]);

    let trade2 = Trade::new(1, 1.0f64.to_bits(), 1, 0x03_0201, OrderSide::Buy).unwrap();
    assert_eq!(trade2.trade_id, [0x01, 0x02, 0x03]);
    assert_eq!(trade2.get_trade_id(), 0x03_0201);
}

#[test]
fn test_trade_set_trade_id() {
    let mut trade = get_default_trade();
    trade.set_trade_id(999);
    assert_eq!(trade.get_trade_id(), 999);
    trade.set_trade_id(0xFF_FFFF);
    assert_eq!(trade.get_trade_id(), 16_777_215);
}

#[test]
fn test_trade_batch_operations() {
    let trade1 = get_default_trade();
    let mut trade2 = get_default_trade();
    trade2.set_trade_id(54321);

    let messages = vec![trade1, trade2];
    let packed = pack_batch(&messages);
    let unpacked: Vec<Trade> = unpack_batch(&packed, 2).unwrap();

    assert_eq!(messages.len(), unpacked.len());
    assert_eq!(messages[0], unpacked[0]);
    assert_eq!(messages[1], unpacked[1]);
}

#[test]
fn trade_test_test_unpack_error_handling() {
    let original = get_default_trade();
    let packed = original.pack();

    let res = Trade::unpack(&packed[..23]);
    assert!(matches!(res, Err(MitchError::BufferTooSmall { expected: 24, actual: 23 })));

    let res_batch: Result<Vec<Trade>, _> = unpack_batch(&packed, 2);
    assert!(matches!(res_batch, Err(MitchError::BufferTooSmall { expected: 48, actual: 24 })));
}

#[test]
fn trade_side_helpers() {
    let buy_trade = get_default_trade();
    let mut sell_trade = get_default_trade();
    sell_trade.side = OrderSide::Sell as u8;

    assert!(buy_trade.is_buy());
    assert!(!buy_trade.is_sell());
    assert!(!sell_trade.is_buy());
    assert!(sell_trade.is_sell());
    assert_eq!(buy_trade.get_side(), OrderSide::Buy);
    assert_eq!(sell_trade.get_side(), OrderSide::Sell);
}

#[test]
fn trade_wire_layout() {
    let trade = get_default_trade();
    let bytes = trade.pack();
    assert_eq!(&bytes[0..8], &0x0300_6F30_1CD0_0001u64.to_le_bytes());
    assert_eq!(&bytes[8..16], &1.08750f64.to_le_bytes());
    assert_eq!(&bytes[16..20], &1_000_000u32.to_le_bytes());
    assert_eq!(&bytes[20..23], &[0x39, 0x30, 0x00]);
    assert_eq!(bytes[23], 0);
}

#[test]
fn trade_validation_messages() {
    let err = |r: Result<Trade, MitchError>| match r {
        Err(MitchError::InvalidFieldValue(m)) => m,
        other => panic!("unexpected {:?}", other),
    };
    assert_eq!(err(Trade::new(0, 1.0f64.to_bits(), 1, 1, OrderSide::Buy)), "ticker cannot be zero");
    assert_eq!(err(Trade::new(1, (-0.0f64).to_bits(), 1, 1, OrderSide::Buy)), "price must be positive");
    assert_eq!(err(Trade::new(1, 1.0f64.to_bits(), 0, 1, OrderSide::Buy)), "qty must be positive");
    assert_eq!(err(Trade::new(1, 1.0f64.to_bits(), 1, 0x100_0000, OrderSide::Buy)), "trade_id cannot be zero");
    // A NaN price is not above zero.
    assert_eq!(err(Trade::new(1, f64::NAN.to_bits(), 1, 1, OrderSide::Buy)), "price must be positive");
}
