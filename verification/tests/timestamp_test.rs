use mitch::timestamp::{
    decode_u48, encode_u48, from_epoch_ms, from_epoch_ns, from_epoch_us, to_epoch_ms, to_epoch_ns,
    to_epoch_us, EPOCH_MS, EPOCH_NS, EPOCH_US, MAX_TICKS, TICK_NS, TICK_US,
};

#[test]
fn epoch_roundtrip() {
    assert_eq!(from_epoch_us(EPOCH_US), 0);
    assert_eq!(to_epoch_us(0), EPOCH_US);
}

#[test]
fn known_timestamp() {
    let epoch_s: u64 = 1_744_372_800;
    let epoch_us = epoch_s * 1_000_000;
    let ticks = from_epoch_us(epoch_us);
    let back = to_epoch_us(ticks);
    assert!(back.abs_diff(epoch_us) < TICK_US);
}

#[test]
fn ms_roundtrip() {
    let epoch_ms: i64 = 1_744_372_800_000;
    let ticks = from_epoch_ms(epoch_ms);
    let back = to_epoch_ms(ticks);
    assert!((back - epoch_ms).abs() <= 1);
}

#[test]
fn ns_roundtrip() {
    let epoch_ns: i64 = 1_744_372_800_000_000_000;
    let ticks = from_epoch_ns(epoch_ns);
    let back = to_epoch_ns(ticks);
    assert!((back - epoch_ns).abs() < TICK_NS as i64);
}

#[test]
fn supports_backtesting_from_2010() {
    let epoch_ms: i64 = 1_275_350_400_000;
    let ticks = from_epoch_ms(epoch_ms);
    assert!(ticks > 0, "2010 timestamps must be encodable");
    let back = to_epoch_ms(ticks);
    assert!((back - epoch_ms).abs() <= 1);
}

#[test]
fn fits_in_u48() {
    let epoch_2150_us: u64 = EPOCH_US + 140 * 365 * 86400 * 1_000_000;
    let ticks = from_epoch_us(epoch_2150_us);
    assert!(ticks <= MAX_TICKS, "ticks={ticks} > MAX={MAX_TICKS}");
}

#[test]
fn resolution_is_16us() {
    let t0 = from_epoch_us(EPOCH_US);
    let t1 = from_epoch_us(EPOCH_US + 16);
    assert_eq!(t1 - t0, 1);
}

#[test]
fn pre_epoch_saturates() {
    assert_eq!(from_epoch_us(0), 0);
    assert_eq!(from_epoch_us(EPOCH_US - 1), 0);
}

#[test]
fn pre_epoch_ms_saturates() {
    assert_eq!(from_epoch_ms(0), 0);
    assert_eq!(from_epoch_ms(-1_000_000), 0);
    assert_eq!(from_epoch_ms(EPOCH_MS - 1), 0);
    assert_eq!(from_epoch_ms(EPOCH_MS), 0);
}

#[test]
fn pre_epoch_ns_saturates() {
    assert_eq!(from_epoch_ns(0), 0);
    assert_eq!(from_epoch_ns(-1_000_000_000), 0);
    assert_eq!(from_epoch_ns(EPOCH_NS - 1), 0);
    assert_eq!(from_epoch_ns(EPOCH_NS), 0);
}

#[test]
fn doc_example_ms_is_exact() {
    let ticks = from_epoch_ms(1_744_372_800_000);
    assert_eq!(to_epoch_ms(ticks), 1_744_372_800_000);
    let ticks2 = from_epoch_ms(1_700_000_000_123);
    assert!((to_epoch_ms(ticks2) - 1_700_000_000_123).abs() <= 1);
}

#[test]
fn encode_formula_values() {
    // ticks = (epoch_us - EPOCH_US) >> 4
    assert_eq!(from_epoch_us(EPOCH_US + 160), 10);
    assert_eq!(from_epoch_us(EPOCH_US + 175), 10);
    assert_eq!(from_epoch_ms(EPOCH_MS + 1), 62);
    assert_eq!(from_epoch_ns(EPOCH_NS + 32_000), 2);
    assert_eq!(to_epoch_us(10), EPOCH_US + 160);
    assert_eq!(to_epoch_ns(1), (EPOCH_US as i64 + 16) * 1000);
}

#[test]
fn ms_roundtrip_one_ms_early() {
    // 1 ms after the epoch is 62.5 ticks; decoding 62 ticks gives 992 us.
    let ticks = from_epoch_ms(EPOCH_MS + 1);
    assert_eq!(to_epoch_ms(ticks), EPOCH_MS);
}

#[test]
fn u48_encode_decode_values() {
    assert_eq!(encode_u48(0x0605_0403_0201), [1, 2, 3, 4, 5, 6]);
    assert_eq!(decode_u48(&[1, 2, 3, 4, 5, 6]), 0x0605_0403_0201);
    // the top 16 bits are dropped
    assert_eq!(decode_u48(&encode_u48(0xFFFF_0000_0000_0001)), 1);
    assert_eq!(decode_u48(&encode_u48(MAX_TICKS)), MAX_TICKS);
}
