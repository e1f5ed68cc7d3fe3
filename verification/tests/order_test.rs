//! Tests for the Order message type.

use mitch::{message_sizes, pack_batch, unpack_batch, MitchError, Order, OrderSide, OrderType};

/// A valid order: FX EUR/USD on venue 1.
fn get_default_order() -> Order {
    Order::new(
        0x0300_6F30_1CD0_0001,
        54321,
        1.08750f64.to_bits(),
        1_000_000,
        OrderType::Limit,
        OrderSide::Buy,
        1700000000123,
    )
    .unwrap()
}

fn p(x: f64) -> u64 {
    x.to_bits()
}

#[test]
fn test_order_size() {
    assert_eq!(core::mem::size_of::<Order>(), message_sizes::ORDER);
    assert_eq!(core::mem::size_of::<Order>(), 32);
}

#[test]
fn test_order_pack_unpack_roundtrip() {
    let original = get_default_order();
    let packed = original.pack();
    let unpacked = Order::unpack(&packed).unwrap();
    assert_eq!(original, unpacked);
}

#[test]
fn test_order_validation() {
    assert!(get_default_order().validate().is_ok());

    assert!(Order::new(0, 1, p(1.0), 1, OrderType::Limit, OrderSide::Buy, 0).is_err());
    assert!(Order::new(1, 0, p(1.0), 1, OrderType::Limit, OrderSide::Buy, 0).is_err());
    assert!(Order::new(1, 1, p(0.0), 1, OrderType::Limit, OrderSide::Buy, 0).is_err());
    assert!(Order::new(1, 1, p(1.0), 0, OrderType::Limit, OrderSide::Buy, 0).is_err());

    let cancel_order = Order::new(1, 1, p(0.0), 0, OrderType::Cancel, OrderSide::Buy, 0).unwrap();
    assert!(cancel_order.validate().is_ok());
}

#[test]
fn test_type_and_side_handling() {
    let order = get_default_order();
    assert_eq!(order.get_order_type(), OrderType::Limit);
    assert_eq!(order.get_order_side(), OrderSide::Buy);

    let market_sell = Order::new(1, 1, p(1.0), 1, OrderType::Market, OrderSide::Sell, 0).unwrap();
    assert_eq!(market_sell.get_order_type(), OrderType::Market);
    assert_eq!(market_sell.get_order_side(), OrderSide::Sell);
}

#[test]
fn test_expiry_handling() {
    let mut order = get_default_order();
    assert_eq!(order.get_expiry(), 1700000000123);
    assert!(!order.is_gtc());
    assert!(order.is_expired(1700000000124));
    assert!(!order.is_expired(1700000000122));

    order.set_expiry(0);
    assert!(order.is_gtc());
    assert!(!order.is_expired(u64::MAX));
}

#[test]
fn test_order_batch_operations() {
    let order1 = get_default_order();
    let mut order2 = get_default_order();
    order2.order_id = 12345;

    let messages = vec![order1, order2];
    let packed = pack_batch(&messages);
    let unpacked: Vec<Order> = unpack_batch(&packed, 2).unwrap();

    assert_eq!(messages.len(), unpacked.len());
    assert_eq!(messages[0], unpacked[0]);
    assert_eq!(messages[1], unpacked[1]);
}

#[test]
fn order_test_test_unpack_error_handling() {
    let packed = get_default_order().pack();

    let res = Order::unpack(&packed[..31]);
    assert!(matches!(res, Err(MitchError::BufferTooSmall { .. })));

    let res_batch: Result<Vec<Order>, _> = unpack_batch(&packed, 2);
    assert!(matches!(res_batch, Err(MitchError::BufferTooSmall { .. })));
}

#[test]
fn test_order_new() {
    let order =
        Order::new(0x123456789ABCDEF0, 12345, p(100.50), 1000, OrderType::Limit, OrderSide::Buy, 1640995200000)
            .unwrap();

    let ticker = order.ticker;
    let order_id = order.order_id;
    let price = f64::from_bits(order.price);
    let qty = order.qty;

    assert_eq!(ticker, 0x123456789ABCDEF0);
    assert_eq!(order_id, 12345);
    assert_eq!(price, 100.50);
    assert_eq!(qty, 1000);
    assert_eq!(order.get_order_type(), OrderType::Limit);
    assert_eq!(order.get_order_side(), OrderSide::Buy);
    assert_eq!(order.get_expiry(), 1640995200000);
}

#[test]
fn test_order_pack_unpack() {
    let original =
        Order::new(0x123456789ABCDEF0, 12345, p(100.50), 1000, OrderType::Limit, OrderSide::Buy, 1700000000123456)
            .unwrap();

    let packed = original.pack();
    let unpacked = Order::unpack(&packed).unwrap();

    let original_copy = original;
    let unpacked_copy = unpacked;
    assert_eq!(original_copy, unpacked_copy);
}

#[test]
fn test_type_and_side_encoding() {
    let order = Order::new(0x1, 1, p(100.0), 100, OrderType::Limit, OrderSide::Sell, 0).unwrap();

    assert_eq!(order.get_order_type(), OrderType::Limit);
    assert_eq!(order.get_order_side(), OrderSide::Sell);

    // Limit = 1, Sell = 1: (1 << 1) | 1 = 3.
    assert_eq!(order.type_and_side, 3);
}

#[test]
fn test_expiry_handling_alt() {
    let mut order = Order::new(0x1, 1, p(100.0), 100, OrderType::Market, OrderSide::Buy, 0).unwrap();

    assert!(order.is_gtc());
    assert!(!order.is_expired(999999999999));

    order.set_expiry(1000000);
    assert_eq!(order.get_expiry(), 1000000);
    assert!(!order.is_gtc());
    assert!(order.is_expired(1000001));
    assert!(!order.is_expired(999999));
}

#[test]
fn test_order_validation_alt() {
    let valid = Order::new(0x1, 1, p(100.0), 500, OrderType::Limit, OrderSide::Buy, 0);
    assert!(valid.is_ok());

    let invalid_id = Order::new(0x1, 0, p(100.0), 500, OrderType::Limit, OrderSide::Buy, 0);
    assert!(invalid_id.is_err());

    let invalid_price = Order::new(0x1, 1, p(-100.0), 500, OrderType::Limit, OrderSide::Buy, 0);
    assert!(invalid_price.is_err());

    let invalid_quantity = Order::new(0x1, 1, p(100.0), 0, OrderType::Limit, OrderSide::Buy, 0);
    assert!(invalid_quantity.is_err());
}

#[test]
fn test_batch_operations() {
    let orders = vec![
        Order::new(0x1, 1, p(100.0), 10, OrderType::Limit, OrderSide::Buy, 0).unwrap(),
        Order::new(0x2, 2, p(200.0), 20, OrderType::Market, OrderSide::Sell, 1000).unwrap(),
    ];

    let packed = pack_batch(&orders);
    assert_eq!(packed.len(), 64);

    let unpacked: Vec<Order> = unpack_batch(&packed, 2).unwrap();
    assert_eq!(orders, unpacked);
}

#[test]
fn test_48bit_expiry_truncation() {
    let mut order = Order::new(0x1, 1, p(100.0), 100, OrderType::Market, OrderSide::Buy, 0).unwrap();

    let large_expiry = 0xFFFFFFFFFFFFFFFF_u64;
    order.set_expiry(large_expiry);
    let retrieved = order.get_expiry();

    assert_eq!(retrieved, large_expiry & 0xFFFFFFFFFFFF);
}

#[test]
fn test_size_constant() {
    assert_eq!(Order::size(), 32);
}

#[test]
fn order_side_helpers() {
    let buy_order = Order::new(0x1, 1, p(100.0), 10, OrderType::Limit, OrderSide::Buy, 0).unwrap();
    let sell_order = Order::new(0x1, 2, p(100.0), 10, OrderType::Market, OrderSide::Sell, 0).unwrap();

    assert!(buy_order.is_buy());
    assert!(!buy_order.is_sell());
    assert!(sell_order.is_sell());
    assert!(!sell_order.is_buy());
}

#[test]
fn order_validation_messages() {
    let err = |r: Result<Order, MitchError>| match r {
        Err(MitchError::InvalidFieldValue(m)) => m,
        other => panic!("unexpected {:?}", other),
    };
    assert_eq!(err(Order::new(0, 1, p(1.0), 1, OrderType::Stop, OrderSide::Buy, 0)), "ticker cannot be zero");
    assert_eq!(err(Order::new(1, 0, p(1.0), 1, OrderType::Stop, OrderSide::Buy, 0)), "order_id cannot be zero");
    assert_eq!(
        err(Order::new(1, 1, p(-0.0), 1, OrderType::Stop, OrderSide::Buy, 0)),
        "price must be positive for this order type"
    );
    assert_eq!(
        err(Order::new(1, 1, p(1.0), 0, OrderType::Market, OrderSide::Buy, 0)),
        "qty must be positive for this order type"
    );
}

#[test]
fn order_wire_layout() {
    let order = Order::new(0x0102, 7, p(2.5), 9, OrderType::Stop, OrderSide::Sell, 0x0605_0403_0201).unwrap();
    let bytes = order.pack();
    assert_eq!(&bytes[0..8], &0x0102u64.to_le_bytes());
    assert_eq!(&bytes[8..12], &7u32.to_le_bytes());
    assert_eq!(&bytes[12..20], &2.5f64.to_le_bytes());
    assert_eq!(&bytes[20..24], &9u32.to_le_bytes());
    assert_eq!(bytes[24], (2 << 1) | 1);
    assert_eq!(&bytes[25..31], &[1, 2, 3, 4, 5, 6]);
    assert_eq!(bytes[31], 0);
}

#[test]
fn order_nan_price_rejected() {
    assert!(matches!(
        Order::new(1, 1, p(f64::NAN), 10, OrderType::Limit, OrderSide::Buy, 0),
        Err(MitchError::InvalidFieldValue(m)) if m == "price must be positive for this order type"
    ));
    // A cancel carries no price, so any pattern passes.
    assert!(Order::new(1, 1, p(f64::NAN), 0, OrderType::Cancel, OrderSide::Buy, 0).is_ok());
}
