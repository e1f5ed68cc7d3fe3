//! Tests for the Bar message type (96 bytes).

use mitch::timestamp::from_epoch_ms;
use mitch::{pack_batch, unpack_all, Bar, MitchError, BAR_SIZE};

fn p(x: f64) -> u64 {
    x.to_bits()
}

/// A bar from 2026-04-11 12:00:00 UTC to 60 s later.
fn test_bar() -> Bar {
    let open_mts = from_epoch_ms(1_744_372_800_000);
    let close_mts = from_epoch_ms(1_744_372_860_000);
    Bar::new_ohlcv(open_mts, close_mts, p(100.0), p(105.0), p(99.0), p(103.0), 1000, 1200, 50)
}

#[test]
fn timestamp_encode_decode() {
    let bar = test_bar();
    let open_mts = bar.open_mts();
    let close_mts = bar.close_mts();

    assert_eq!(open_mts, from_epoch_ms(1_744_372_800_000));
    assert_eq!(close_mts, from_epoch_ms(1_744_372_860_000));

    assert!((bar.open_time_ms() - 1_744_372_800_000).abs() <= 1);
    assert!((bar.close_time_ms() - 1_744_372_860_000).abs() <= 1);
}

#[test]
fn set_timestamps() {
    let mut bar = test_bar();
    let new_ticks = from_epoch_ms(1_744_400_000_000);
    bar.set_open_mts(new_ticks);
    assert_eq!(bar.open_mts(), new_ticks);

    bar.set_close_mts(new_ticks + 1000);
    assert_eq!(bar.close_mts(), new_ticks + 1000);
}

#[test]
fn duration() {
    let bar = test_bar();
    let expected = bar.close_time_ms() - bar.open_time_ms();
    assert_eq!(bar.duration_ms(), expected);
    assert!((bar.duration_ms() - 60_000).abs() <= 1);
}

#[test]
fn bullish_bearish() {
    let open_t = from_epoch_ms(1_700_000_000_000);
    let close_t = from_epoch_ms(1_700_000_001_000);
    let bull = Bar::new_ohlcv(open_t, close_t, p(100.0), p(105.0), p(99.0), p(103.0), 0, 0, 0);
    let bear = Bar::new_ohlcv(open_t, close_t, p(103.0), p(105.0), p(99.0), p(100.0), 0, 0, 0);
    assert!(bull.is_bullish());
    assert!(!bear.is_bullish());
}

#[test]
fn renko_bullish_layout() {
    let t = from_epoch_ms(1_700_000_000_000);
    let bar = Bar::new_ohlcv(t, t + 1, p(100.0), p(102.0), p(98.0), p(102.0), 0, 0, 10);
    assert!(bar.is_bullish());
    let (h, c) = (bar.high, bar.close);
    assert_eq!(h, c);
}

#[test]
fn renko_bearish_layout() {
    let t = from_epoch_ms(1_700_000_000_000);
    let bar = Bar::new_ohlcv(t, t + 1, p(102.0), p(104.0), p(100.0), p(100.0), 0, 0, 10);
    assert!(!bar.is_bullish());
    let (l, c) = (bar.low, bar.close);
    assert_eq!(l, c);
}

#[test]
fn unpack_too_small() {
    let buf = [0u8; 64];
    assert!(Bar::unpack(&buf).is_err());
}

#[test]
fn u48_max_fits() {
    let max_ticks: u64 = (1u64 << 48) - 1;
    let bar = Bar::new_ohlcv(max_ticks, max_ticks, p(1.0), p(1.0), p(1.0), p(1.0), 0, 0, 0);
    assert_eq!(bar.open_mts(), max_ticks);
    assert_eq!(bar.close_mts(), max_ticks);
}

#[test]
fn bar_size_is_96() {
    assert_eq!(BAR_SIZE, 96);
    assert_eq!(Bar::size(), 96);
}

#[test]
fn bar_round_trip_96_bytes() {
    let mut bar = test_bar();
    bar.realized_var = 0.25f32.to_bits();
    bar.max_abs_return = 0.01f32.to_bits();
    bar.avg_ci_ubp = 300;
    bar.reject_rate = 65535;
    bar.kind = 1;
    let packed = bar.pack();
    assert_eq!(packed.len(), 96);
    assert_eq!(Bar::unpack(&packed).unwrap(), bar);
    assert!(matches!(Bar::unpack(&packed[..95]), Err(MitchError::BufferTooSmall { expected: 96, actual: 95 })));
}

#[test]
fn bar_wire_layout() {
    let mut bar = Bar::new_ohlcv(0x0605_0403_0201, 0x0C0B_0A09_0807, p(1.5), p(2.5), p(0.5), p(2.0), 7, 8, 9);
    bar.drift = (-1.0f32).to_bits();
    bar.avg_ci_ubp = 0x0102;
    bar.reject_rate = 0x0304;
    bar.kind = 3;
    let b = bar.pack();
    assert_eq!(&b[0..12], &[1, 2, 3, 4, 5, 6, 7, 8, 9, 10, 11, 12]);
    assert_eq!(&b[12..20], &1.5f64.to_le_bytes());
    assert_eq!(&b[20..28], &2.5f64.to_le_bytes());
    assert_eq!(&b[28..36], &0.5f64.to_le_bytes());
    assert_eq!(&b[36..44], &2.0f64.to_le_bytes());
    assert_eq!(&b[44..56], &[7, 0, 0, 0, 8, 0, 0, 0, 9, 0, 0, 0]);
    assert_eq!(&b[56..64], &[0; 8]);
    assert_eq!(&b[72..76], &(-1.0f32).to_le_bytes());
    assert_eq!(&b[88..92], &[2, 1, 4, 3]);
    assert_eq!(&b[92..96], &[3, 0, 0, 0]);
}

#[test]
fn bar_batch_round_trip_96_bytes() {
    let open_base = from_epoch_ms(1_700_000_000_000);
    let bars: Vec<Bar> = (0..20u64)
        .map(|i| {
            Bar::new_ohlcv(
                open_base + i * 60_000,
                open_base + (i + 1) * 60_000,
                p(100.0 + i as f64),
                p(105.0 + i as f64),
                p(99.0 + i as f64),
                p(103.0 + i as f64),
                100 * i as u32,
                120 * i as u32,
                50,
            )
        })
        .collect();
    let packed = pack_batch(&bars);
    assert_eq!(packed.len(), 20 * 96);
    let unpacked: Vec<Bar> = unpack_all(&packed).unwrap();
    assert_eq!(bars, unpacked);
}

#[test]
fn bar_total_volume() {
    assert_eq!(test_bar().total_volume(), 2200);
    let bar = Bar::new_ohlcv(0, 0, p(0.0), p(0.0), p(0.0), p(0.0), 0, 0, 0);
    assert_eq!(bar.total_volume(), 0);
}

#[test]
fn bar_time_ms_exact() {
    // 16 us ticks: tick 62_500 is exactly one second after the epoch.
    let bar = Bar::new_ohlcv(0, 62_500, p(1.0), p(1.0), p(1.0), p(1.0), 0, 0, 0);
    assert_eq!(bar.open_time_ms(), 1_262_304_000_000);
    assert_eq!(bar.close_time_ms(), 1_262_304_001_000);
    assert_eq!(bar.duration_ms(), 1000);
}

#[test]
fn bar_unpack_unchecked() {
    let bar = test_bar();
    assert_eq!(Bar::unpack_unchecked(&bar.pack()), bar);
}

#[test]
fn zero_bar_total_volume() {
    let bar = Bar::new_ohlcv(0, 0, p(0.0), p(0.0), p(0.0), p(0.0), 0, 0, 0);
    assert_eq!(bar.total_volume(), 0);
}
