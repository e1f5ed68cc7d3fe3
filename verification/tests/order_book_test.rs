//! Tests for the OrderBook message type and its bins.

use mitch::{pack_batch, unpack_all, unpack_batch, BinAggregator, Bin, MitchBody, MitchError, OrderBook};

fn p(x: f64) -> u64 {
    x.to_bits()
}

#[test]
fn sizes() {
    assert_eq!(core::mem::size_of::<Bin>(), 8);
    assert_eq!(core::mem::size_of::<OrderBook>(), 2072);
}

#[test]
fn order_book_test_test_pack_unpack() {
    let mut bids = [Bin::default(); 128];
    bids[0] = Bin::new(5, 1000);
    let mut asks = [Bin::default(); 128];
    asks[0] = Bin::new(3, 800);

    let original = OrderBook::new(0x123456789ABCDEF0, p(100.5), 0, bids, asks);
    let packed = original.pack();
    let unpacked = OrderBook::unpack(&packed).unwrap();

    assert_eq!(original.ticker, unpacked.ticker);
    assert_eq!(original.mid_price, unpacked.mid_price);
    assert_eq!(original.bin_aggregator, unpacked.bin_aggregator);
    assert_eq!(original.bids, unpacked.bids);
    assert_eq!(original.asks, unpacked.asks);
}

#[test]
fn volumes() {
    let mut bids = [Bin::default(); 128];
    bids[0] = Bin::new(1, 100);
    bids[1] = Bin::new(2, 200);
    let asks = [Bin::default(); 128];

    let ob = OrderBook::new(1, p(100.0), 0, bids, asks);
    assert_eq!(ob.total_bid_volume(), 300);
    assert_eq!(ob.total_ask_volume(), 0);
}

#[test]
fn validation() {
    let ob = OrderBook::new(1, p(100.0), 0, [Bin::default(); 128], [Bin::default(); 128]);
    assert!(ob.validate().is_ok());

    let mut invalid = ob;
    invalid.mid_price = p(0.0);
    assert!(invalid.validate().is_err());

    invalid.mid_price = p(100.0);
    invalid.bin_aggregator = 4;
    assert!(invalid.validate().is_err());
}

#[test]
fn batch() {
    let ob1 = OrderBook::new(1, p(100.0), 0, [Bin::default(); 128], [Bin::default(); 128]);
    let ob2 = OrderBook::new(2, p(200.0), 1, [Bin::default(); 128], [Bin::default(); 128]);
    let packed = pack_batch(&[ob1, ob2]);
    let unpacked: Vec<OrderBook> = unpack_batch(&packed, 2).unwrap();
    assert_eq!(unpacked[0].ticker, 1);
    assert_eq!(unpacked[1].ticker, 2);
}

#[test]
fn total_volume_of_full_bins_does_not_overflow() {
    let full = [Bin::new(1, u32::MAX); 128];
    let ob = OrderBook::new(1, p(1.0), 0, full, full);
    assert_eq!(ob.total_bid_volume(), 128 * u32::MAX as u64);
    assert_eq!(ob.total_ask_volume(), 128 * u32::MAX as u64);
}

#[test]
fn aggregator_ids() {
    let mut ob = OrderBook::new(1, p(1.0), 0, [Bin::default(); 128], [Bin::default(); 128]);
    let expected = [
        BinAggregator::DEFAULT_LINGAUSSIAN,
        BinAggregator::DEFAULT_LINGEOFLAT,
        BinAggregator::DEFAULT_BILINGEO,
        BinAggregator::DEFAULT_TRILINEAR,
        BinAggregator::DEFAULT_LINGAUSSIAN,
    ];
    for (id, want) in expected.iter().enumerate() {
        ob.bin_aggregator = id as u8;
        assert_eq!(ob.aggregator_type(), *want);
    }
    ob.bin_aggregator = 200;
    assert_eq!(ob.aggregator_type(), BinAggregator::DEFAULT_LINGAUSSIAN);
}

#[test]
fn validation_messages() {
    let mut ob = OrderBook::new(1, p(-3.0), 9, [Bin::default(); 128], [Bin::default(); 128]);
    assert!(matches!(ob.validate(), Err(MitchError::InvalidFieldValue(m)) if m == "mid_price"));
    ob.mid_price = p(3.0);
    assert!(matches!(ob.validate(), Err(MitchError::InvalidFieldValue(m)) if m == "bin_aggregator"));
}

#[test]
fn order_book_wire_layout() {
    let mut bids = [Bin::default(); 128];
    bids[127] = Bin::new(0x01020304, 0x05060708);
    let mut asks = [Bin::default(); 128];
    asks[0] = Bin::new(9, 10);
    let bytes = OrderBook::new(0xAB, p(2.0), 3, bids, asks).pack();
    assert_eq!(&bytes[0..8], &0xABu64.to_le_bytes());
    assert_eq!(&bytes[8..16], &2.0f64.to_le_bytes());
    assert_eq!(&bytes[16..24], &[3, 0, 0, 0, 0, 0, 0, 0]);
    assert_eq!(&bytes[24 + 127 * 8..24 + 128 * 8], &[4, 3, 2, 1, 8, 7, 6, 5]);
    assert_eq!(&bytes[1048..1056], &[9, 0, 0, 0, 10, 0, 0, 0]);
}

#[test]
fn bin_records() {
    assert!(Bin::new(3, 0).is_empty());
    assert!(!Bin::new(0, 1).is_empty());
    assert_eq!(Bin::body_size(), 8);
    let bins = vec![Bin::new(1, 2), Bin::new(3, 4)];
    let bytes = pack_batch(&bins);
    assert_eq!(bytes, vec![1, 0, 0, 0, 2, 0, 0, 0, 3, 0, 0, 0, 4, 0, 0, 0]);
    assert_eq!(unpack_all::<Bin>(&bytes).unwrap(), bins);
}

#[test]
fn unpack_all_rejects_misaligned_length() {
    match unpack_all::<Bin>(&[0u8; 5]) {
        Err(MitchError::InvalidData(m)) => assert_eq!(m, "buffer length 5 is not a multiple of body size 8"),
        other => panic!("unexpected {:?}", other),
    }
    assert_eq!(unpack_all::<Bin>(&[]).unwrap(), Vec::<Bin>::new());
}

#[test]
fn order_book_unpack_unchecked() {
    let mut bids = [Bin::default(); 128];
    bids[3] = Bin::new(1, 2);
    let ob = OrderBook::new(5, p(10.0), 2, bids, [Bin::default(); 128]);
    assert_eq!(OrderBook::unpack_unchecked(&ob.pack()), ob);
}

#[test]
fn order_book_nan_mid_rejected() {
    let ob = OrderBook::new(1, p(f64::NAN), 0, [Bin::default(); 128], [Bin::default(); 128]);
    assert!(matches!(ob.validate(), Err(MitchError::InvalidFieldValue(m)) if m == "mid_price"));
}
