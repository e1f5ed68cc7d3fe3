//! Tests for the Heartbeat message type.

use mitch::{message_sizes, pack_batch, unpack_batch, Heartbeat, MitchError};

#[test]
fn heartbeat_constructors() {
    let feed = Heartbeat::feed(12);
    assert_eq!((feed.ticker, feed.msg_count, feed._pad), (0, 12, [0; 4]));
    let per_ticker = Heartbeat::ticker(0xABCD, 3);
    assert_eq!((per_ticker.ticker, per_ticker.msg_count, per_ticker._pad), (0xABCD, 3, [0; 4]));
}

#[test]
fn heartbeat_round_trip_and_layout() {
    let beat = Heartbeat::ticker(0x0102_0304_0506_0708, 0x0A0B_0C0D);
    let bytes = beat.pack();
    assert_eq!(bytes, [8, 7, 6, 5, 4, 3, 2, 1, 0x0D, 0x0C, 0x0B, 0x0A, 0, 0, 0, 0]);
    assert_eq!(Heartbeat::unpack(&bytes).unwrap(), beat);
    assert_eq!(Heartbeat::size(), message_sizes::HEARTBEAT);
    assert_eq!(core::mem::size_of::<Heartbeat>(), 16);
}

#[test]
fn heartbeat_unpack_too_small() {
    assert!(matches!(
        Heartbeat::unpack(&[0u8; 15]),
        Err(MitchError::BufferTooSmall { expected: 16, actual: 15 })
    ));
}

#[test]
fn heartbeat_batch() {
    let beats = vec![Heartbeat::feed(1), Heartbeat::ticker(2, 3)];
    let bytes = pack_batch(&beats);
    assert_eq!(bytes.len(), 32);
    assert_eq!(unpack_batch::<Heartbeat>(&bytes, 2).unwrap(), beats);
    assert!(matches!(
        unpack_batch::<Heartbeat>(&bytes, 3),
        Err(MitchError::BufferTooSmall { expected: 48, actual: 32 })
    ));
}
