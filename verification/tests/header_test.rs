use mitch::common::{code_to_msg_type, message_type, msg_type_to_code, MitchError};
use mitch::header::MitchHeader;

#[test]
fn test_header_new() {
    let header = MitchHeader::new(message_type::TRADE, 101, 1234567890, 5);
    assert_eq!(header.message_type(), message_type::TRADE);
    assert_eq!(header.provider_id(), 101);
    assert_eq!(header.get_timestamp(), 1234567890);
    assert_eq!(header.count, 5);
}

#[test]
fn test_header_pack_unpack() {
    let original = MitchHeader::new(message_type::TICK, 1301, 9876543210, 100);
    let packed = original.pack();
    assert_eq!(packed.len(), 16);

    let unpacked = MitchHeader::unpack(&packed).unwrap();
    assert_eq!(original, unpacked);
    assert_eq!(unpacked.provider_id(), 1301);
    assert_eq!(unpacked.message_type(), message_type::TICK);
}

#[test]
fn test_timestamp_handling() {
    let mut header = MitchHeader::new(message_type::ORDER, 0, 0, 1);
    let large_timestamp = 0xFFFFFFFFFFFFFFFF_u64;
    header.set_timestamp(large_timestamp);
    let retrieved = header.get_timestamp();
    assert_eq!(retrieved, large_timestamp & 0xFFFFFFFFFFFF);
}

#[test]
fn header_test_test_invalid_message_type() {
    let result = MitchHeader::new_validated(b'x', 0, 1000, 1);
    assert!(result.is_err());
}

#[test]
fn test_zero_count() {
    let result = MitchHeader::new_validated(message_type::TRADE, 0, 1000, 0);
    assert!(result.is_err());
}

#[test]
fn test_provider_id_overflow() {
    let result = MitchHeader::new_validated(message_type::TRADE, 4096, 1000, 1);
    assert!(result.is_err());
}

#[test]
fn test_provider_id_max() {
    let result = MitchHeader::new_validated(message_type::TRADE, 4095, 1000, 1);
    assert!(result.is_ok());
    assert_eq!(result.unwrap().provider_id(), 4095);
}

#[test]
fn test_size_calculation() {
    let header = MitchHeader::new(message_type::TRADE, 0, 1000, 10);
    assert_eq!(header.total_message_size(32), 16 + 10 * 32);
}

#[test]
fn test_message_type_validation() {
    assert!(MitchHeader::new_validated(message_type::TRADE, 0, 1000, 1).is_ok());
    assert!(MitchHeader::new_validated(message_type::ORDER, 0, 1000, 1).is_ok());
    assert!(MitchHeader::new_validated(message_type::TICK, 0, 1000, 1).is_ok());
    assert!(MitchHeader::new_validated(message_type::INDEX, 0, 1000, 1).is_ok());
    assert!(MitchHeader::new_validated(message_type::ORDER_BOOK, 0, 1000, 1).is_ok());
    assert!(MitchHeader::new_validated(message_type::BAR, 0, 1000, 1).is_ok());
    assert!(MitchHeader::new_validated(b'z', 0, 1000, 1).is_err());
}

#[test]
fn test_header_size() {
    assert_eq!(core::mem::size_of::<MitchHeader>(), 16);
}

#[test]
fn test_sequence_number() {
    let mut header = MitchHeader::new(message_type::INDEX, 101, 0, 1);
    let seq = header.sequence;
    assert_eq!(seq, 0);
    header.set_sequence(42);
    let seq = header.sequence;
    assert_eq!(seq, 42);

    let packed = header.pack();
    let unpacked = MitchHeader::unpack(&packed).unwrap();
    let seq = unpacked.sequence;
    assert_eq!(seq, 42);
}

#[test]
fn test_message_type_code_mapping() {
    for &mt in &[
        message_type::TRADE,
        message_type::ORDER,
        message_type::TICK,
        message_type::INDEX,
        message_type::ORDER_BOOK,
        message_type::BAR,
    ] {
        let code = msg_type_to_code(mt);
        assert_ne!(code, 0, "code for {:?} should not be 0", mt as char);
        let back = code_to_msg_type(code);
        assert_eq!(back, mt, "round-trip failed for {:?}", mt as char);
    }
}

#[test]
fn test_all_providers_round_trip() {
    for pid in [0u16, 1, 101, 261, 341, 911, 1301, 4095] {
        let header = MitchHeader::new(message_type::TICK, pid, 12345, 1);
        let packed = header.pack();
        let unpacked = MitchHeader::unpack(&packed).unwrap();
        assert_eq!(unpacked.provider_id(), pid, "provider_id mismatch for {}", pid);
        assert_eq!(unpacked.message_type(), message_type::TICK);
    }
}

#[test]
fn header_wire_layout() {
    let mut header = MitchHeader::new(message_type::TRADE, 0x123, 0x0605_0403_0201, 7);
    header.set_sequence(0xBEEF);
    header.flags = 0x02;
    let packed = header.pack();
    // type_provider = code 1 | provider 0x123 << 4 = 0x1231, little-endian
    assert_eq!(packed, [0x31, 0x12, 1, 2, 3, 4, 5, 6, 7, 0x02, 0xEF, 0xBE, 0, 0, 0, 0]);
    assert_eq!(header.version(), 2);
    assert_eq!(header.message_type_code(), 1);
    assert_eq!(header.message_type_char(), 't');
}

#[test]
fn header_unpack_errors() {
    assert_eq!(
        MitchHeader::unpack(&[0u8; 15]),
        Err(MitchError::BufferTooSmall { expected: 16, actual: 15 })
    );
    let mut bytes = MitchHeader::new(message_type::TICK, 1, 1, 1).pack();
    bytes[0] = (bytes[0] & 0xF0) | 0x0F;
    assert_eq!(MitchHeader::unpack(&bytes), Err(MitchError::InvalidMessageType(0x0F)));
    let mut bytes = MitchHeader::new(message_type::TICK, 1, 1, 1).pack();
    bytes[8] = 0;
    assert_eq!(
        MitchHeader::unpack(&bytes),
        Err(MitchError::InvalidData("Count cannot be 0".to_string()))
    );
}

#[test]
fn header_new_validated_messages() {
    assert_eq!(
        MitchHeader::new_validated(b'x', 0, 0, 1),
        Err(MitchError::InvalidMessageType(b'x'))
    );
    assert_eq!(
        MitchHeader::new_validated(message_type::TRADE, 0, 0, 0),
        Err(MitchError::InvalidData("Count must be greater than 0".to_string()))
    );
    assert_eq!(
        MitchHeader::new_validated(message_type::TRADE, 4096, 0, 1),
        Err(MitchError::InvalidData("Provider ID must fit in 12 bits (max 4095)".to_string()))
    );
}

#[test]
fn header_setters_and_default() {
    let mut header = MitchHeader::new(message_type::BAR, 7, 0, 3);
    header.set_provider_id(4095);
    assert_eq!(header.provider_id(), 4095);
    assert_eq!(header.message_type(), message_type::BAR);
    let d = MitchHeader::default();
    assert_eq!(d.message_type(), message_type::TICK);
    assert_eq!(d.count, 1);
    assert_eq!(d.provider_id(), 0);
    assert!(d.validate().is_ok());
    let mut bad = d;
    bad.count = 0;
    assert!(bad.validate().is_err());
}

#[test]
fn heartbeat_type_code() {
    let header = MitchHeader::new(message_type::HEARTBEAT, 2, 0, 1);
    assert_eq!(header.message_type_code(), 7);
    assert_eq!(header.message_type(), b'h');
    assert_eq!(MitchHeader::unpack(&header.pack()), Ok(header));
}

#[test]
fn header_test_test_display_format() {
    let header = MitchHeader::new(message_type::TRADE, 101, 123456, 5);
    let display_str = header.to_string();
    assert!(display_str.contains("type: 't'"));
    assert!(display_str.contains("provider: 101"));
    assert!(display_str.contains("timestamp: 123456"));
    assert!(display_str.contains("count: 5"));
}

#[test]
fn header_text_exact() {
    let mut header = MitchHeader::new(message_type::HEARTBEAT, 4095, 0, 255);
    header.set_sequence(65535);
    assert_eq!(
        header.to_string(),
        "MitchHeader { type: 'h', provider: 4095, timestamp: 0, count: 255, seq: 65535 }"
    );
}

#[test]
fn error_text() {
    assert_eq!(MitchError::InvalidData("x".to_string()).to_string(), "Invalid data: x");
    assert_eq!(MitchError::InvalidMessageType(255).to_string(), "Invalid message type: 255");
    assert_eq!(
        MitchError::BufferTooSmall { expected: 2072, actual: 0 }.to_string(),
        "Buffer too small: expected 2072, got 0"
    );
    assert_eq!(MitchError::InvalidTickerId("t".to_string()).to_string(), "Invalid ticker ID: t");
    assert_eq!(MitchError::InvalidChannelId("c".to_string()).to_string(), "Invalid channel ID: c");
    assert_eq!(MitchError::InvalidFieldValue("f".to_string()).to_string(), "Invalid field value: f");
    assert_eq!(MitchError::SerializationError("s".to_string()).to_string(), "Serialization error: s");
}
