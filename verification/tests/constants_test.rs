use mitch::constants::{AssetClass, InstrumentType};

#[test]
fn test_asset_class_ids() {
    assert_eq!(AssetClass::EQ as u64, 0);
    assert_eq!(AssetClass::FX as u64, 3);
    assert_eq!(AssetClass::CR as u64, 6);
}

#[test]
fn test_instrument_type_ids() {
    assert_eq!(InstrumentType::SPOT as u64, 0);
    assert_eq!(InstrumentType::FUT as u64, 1);
    assert_eq!(InstrumentType::PERP as u64, 4);
}

#[test]
fn class_and_type_ids_round_trip() {
    for id in 0u8..14 {
        assert_eq!(AssetClass::from_id(id).id(), id);
        assert_eq!(InstrumentType::from_id(id).id(), id);
    }
    assert_eq!(AssetClass::from_id(14), AssetClass::EQ);
    assert_eq!(InstrumentType::from_id(15), InstrumentType::SPOT);
    assert_eq!(AssetClass::IP.id(), 0xA);
    assert_eq!(InstrumentType::FUND.id(), 0xC);
}
