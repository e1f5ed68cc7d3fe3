use mitch::constants::{AssetClass, InstrumentType};
use mitch::ticker::{
    crypto_ticker, equity_ticker, forex_ticker, pack_asset, pack_ticker_batch, unpack_asset,
    unpack_ticker_batch, TickerId,
};
use mitch::common::MitchError;

#[test]
fn test_ticker_creation_and_extraction() {
    let ticker = TickerId::new(InstrumentType::SPOT, AssetClass::FX, 978, AssetClass::FX, 840, 0).unwrap();

    assert_eq!(ticker.instrument_type(), InstrumentType::SPOT);
    assert_eq!(ticker.base_asset_class(), AssetClass::FX);
    assert_eq!(ticker.base_asset_id(), 978);
    assert_eq!(ticker.quote_asset_class(), AssetClass::FX);
    assert_eq!(ticker.quote_asset_id(), 840);
    assert_eq!(ticker.sub_type(), 0);
}

#[test]
fn test_ticker_pack_unpack() {
    let original = TickerId::new(InstrumentType::PERP, AssetClass::CR, 1, AssetClass::CR, 2, 100).unwrap();

    let packed = original.pack();
    let unpacked = TickerId::unpack(&packed).unwrap();
    assert_eq!(original, unpacked);
}

#[test]
fn test_ticker_convenience_functions() {
    let eur_usd = forex_ticker(978, 840, InstrumentType::SPOT, 0).unwrap();
    assert!(eur_usd.is_forex());
    assert!(eur_usd.is_spot());
    assert!(!eur_usd.is_crypto());

    let btc_usdt = crypto_ticker(1, 2, InstrumentType::PERP, 0).unwrap();
    assert!(btc_usdt.is_crypto());
    assert!(!btc_usdt.is_spot());

    let apple = equity_ticker(1000, 840, InstrumentType::SPOT, 0).unwrap();
    assert_eq!(apple.base_asset_class(), AssetClass::EQ);
    assert_eq!(apple.quote_asset_class(), AssetClass::FX);
}

#[test]
fn test_ticker_validation() {
    let _ticker = TickerId::new(InstrumentType::SPOT, AssetClass::FX, 978, AssetClass::FX, 840, 0).unwrap();

    let result = TickerId::new(InstrumentType::SPOT, AssetClass::FX, 978, AssetClass::FX, 840, 0x100000);
    assert!(result.is_err());
}

#[test]
fn test_ticker_batch_operations() {
    let tickers = vec![
        forex_ticker(978, 840, InstrumentType::SPOT, 0).unwrap(),
        crypto_ticker(1, 2, InstrumentType::PERP, 0).unwrap(),
        equity_ticker(1000, 840, InstrumentType::SPOT, 0).unwrap(),
    ];

    let packed = pack_ticker_batch(&tickers);
    let unpacked = unpack_ticker_batch(&packed, tickers.len()).unwrap();

    assert_eq!(tickers.len(), unpacked.len());
    for (orig, unpacked) in tickers.iter().zip(unpacked.iter()) {
        assert_eq!(*orig, *unpacked);
    }
}

#[test]
fn test_bit_manipulation_accuracy() {
    let ticker = TickerId::new(InstrumentType::STRUCT, AssetClass::LR, 65535, AssetClass::IN, 65535, 0xFFFFF).unwrap();

    assert_eq!(ticker.instrument_type(), InstrumentType::STRUCT);
    assert_eq!(ticker.base_asset_class(), AssetClass::LR);
    assert_eq!(ticker.base_asset_id(), 65535);
    assert_eq!(ticker.quote_asset_class(), AssetClass::IN);
    assert_eq!(ticker.quote_asset_id(), 65535);
    assert_eq!(ticker.sub_type(), 0xFFFFF);
}

#[test]
fn test_spec_compliance() {
    let ticker = TickerId::new(InstrumentType::SPOT, AssetClass::FX, 111, AssetClass::FX, 461, 0).unwrap();

    let expected_raw =
        (0x0u64 << 60) | (0x3u64 << 56) | (111u64 << 40) | (0x3u64 << 36) | (461u64 << 20) | 0u64;
    assert_eq!(ticker.raw, expected_raw);
}

#[test]
fn test_asset_pack_unpack() {
    let packed = pack_asset(AssetClass::EQ, 831);
    let (class, class_id) = unpack_asset(packed);
    assert_eq!(class, AssetClass::EQ);
    assert_eq!(class_id, 831);

    let crypto_packed = pack_asset(AssetClass::CR, 2701);
    let (crypto_class, crypto_id) = unpack_asset(crypto_packed);
    assert_eq!(crypto_class, AssetClass::CR);
    assert_eq!(crypto_id, 2701);
}

#[test]
fn ticker_doc_examples() {
    let eur_usd = TickerId::new(InstrumentType::SPOT, AssetClass::FX, 1301, AssetClass::FX, 5001, 0).unwrap();
    assert_eq!(eur_usd.raw, 0x0305153138900000);
    let aapl = equity_ticker(831, 5001, InstrumentType::SPOT, 0).unwrap();
    assert_eq!(aapl.raw, 0x00033F3138900000);
    let btc_usdt = crypto_ticker(2701, 17601, InstrumentType::PERP, 0).unwrap();
    assert_eq!(btc_usdt.raw, 0x460A8D644C100000);
    assert_eq!(pack_asset(AssetClass::FX, 1301), 0x30515);
    assert_eq!(u64::from(eur_usd), 0x0305153138900000);
    assert_eq!(TickerId::from(0x0305153138900000u64), eur_usd);
}

#[test]
fn ticker_errors_and_reserved_ids() {
    assert_eq!(
        forex_ticker(1, 2, InstrumentType::SPOT, 0x100000),
        Err(MitchError::InvalidData("Sub-type must fit in 20 bits".to_string()))
    );
    assert_eq!(TickerId::unpack(&[0u8; 7]), Err(MitchError::BufferTooSmall { expected: 8, actual: 7 }));
    assert_eq!(
        unpack_ticker_batch(&[0u8; 15], 2),
        Err(MitchError::BufferTooSmall { expected: 16, actual: 15 })
    );
    // reserved class and type ids decode to the first variants
    let t = TickerId::from_raw(0xFF00_0000_0000_0000);
    assert_eq!(t.instrument_type(), InstrumentType::SPOT);
    assert_eq!(t.base_asset_class(), AssetClass::EQ);
    assert_eq!(unpack_asset(0x000E_0001), (AssetClass::EQ, 1));
    assert_eq!(TickerId::from_raw(0x0102030405060708).pack(), [8, 7, 6, 5, 4, 3, 2, 1]);
}

#[test]
fn ticker_text() {
    let ticker = TickerId::new(InstrumentType::SPOT, AssetClass::FX, 978, AssetClass::FX, 840, 0).unwrap();
    assert_eq!(
        ticker.to_string(),
        format!("TickerId({:016X}: SPOT base=FX:978 quote=FX:840 sub=0)", ticker.raw)
    );
    let perp = TickerId::new(InstrumentType::PERP, AssetClass::CR, 1, AssetClass::EQ, 65535, 0xFFFFF).unwrap();
    assert_eq!(perp.raw, 0x4600010FFFFFFFFF);
    assert_eq!(perp.to_string(), "TickerId(4600010FFFFFFFFF: PERP base=CR:1 quote=EQ:65535 sub=1048575)");
    assert_eq!(TickerId::from_raw(0xE000_0000_0000_0000).to_string(), "TickerId(E000000000000000: SPOT base=EQ:0 quote=EQ:0 sub=0)");
}

#[test]
fn class_names_match_debug() {
    for id in 0..16u8 {
        let c = AssetClass::from_id(id);
        assert_eq!(c.name(), format!("{:?}", c));
        let t = InstrumentType::from_id(id);
        assert_eq!(t.name(), format!("{:?}", t));
    }
}
