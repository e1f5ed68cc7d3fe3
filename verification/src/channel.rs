//! 32-bit channel ids for pub/sub routing:
//! `(provider_u16 << 16) | (msg_type_u8 << 8) | padding_u8`.

use vstd::prelude::*;

use crate::bytes::{le_bytes, le_value, lemma_le_bytes_len, lemma_le_read, lemma_le_uint, push_le, read_le, vec_to_array};
use crate::common::{field_error, message_type, MitchError};
use crate::text::{decimal, push_decimal};

verus! {

/// Channel id.
#[derive(Debug, Clone, Copy, PartialEq, Eq, Structural)]
pub struct ChannelId {
    /// Raw 32-bit identifier.
    pub raw: u32,
}

/// The message type byte of a character: its code point modulo 256.
pub open spec fn type_byte(c: char) -> u8 {
    ((c as u32) % 256) as u8
}

impl ChannelId {
    /// The provider id (bits 16-31).
    pub open spec fn spec_provider(self) -> u16 {
        (self.raw / 0x1_0000) as u16
    }

    /// The message type byte (bits 8-15).
    pub open spec fn spec_type_byte(self) -> u8 {
        ((self.raw / 0x100) % 0x100) as u8
    }

    /// The padding byte (bits 0-7).
    pub open spec fn spec_padding(self) -> u8 {
        (self.raw % 0x100) as u8
    }

    /// Creates a channel id from a provider id and a message type character
    /// (only the low 8 bits of the character's code are kept).
    pub fn new(provider: u16, msg_type: char) -> (r: Self)
        ensures
            r.raw == provider as nat * 0x1_0000 + type_byte(msg_type) as nat * 0x100,
            r.spec_provider() == provider,
            r.spec_type_byte() == type_byte(msg_type),
            r.spec_padding() == 0,
    {
        let code = msg_type as u32;
        proof {
            assert(code & 0xFF == code % 256) by (bit_vector);
        }
        let type_byte = (code & 0xFF) as u8;
        proof {
            assert(((provider as u32) << 16u32) | ((type_byte as u32) << 8u32) == provider as u32 * 0x1_0000
                + type_byte as u32 * 0x100) by (bit_vector);
        }
        let raw = ((provider as u32) << 16) | ((type_byte as u32) << 8);
        Self { raw }
    }

    /// The provider id (16 bits).
    pub fn provider(&self) -> (r: u16)
        ensures
            r == self.spec_provider(),
    {
        let raw = self.raw;
        proof {
            assert(raw >> 16u32 == raw / 0x1_0000) by (bit_vector);
        }
        (raw >> 16) as u16
    }

    /// The message type character.
    pub fn msg_type(&self) -> (r: char)
        ensures
            r as u32 == self.spec_type_byte() as u32,
    {
        let raw = self.raw;
        proof {
            assert((raw >> 8u32) & 0xFF == (raw / 0x100) % 0x100) by (bit_vector);
        }
        let byte = ((raw >> 8) & 0xFF) as u8;
        byte as char
    }

    /// The padding byte.
    pub fn padding(&self) -> (r: u8)
        ensures
            r == self.spec_padding(),
    {
        let raw = self.raw;
        proof {
            assert(raw & 0xFF == raw % 0x100) by (bit_vector);
        }
        (raw & 0xFF) as u8
    }

    /// The 4 little-endian bytes of the id.
    pub fn pack(&self) -> (r: [u8; 4])
        ensures
            r@ == le_bytes(self.raw as nat, 4),
    {
        let mut v: Vec<u8> = Vec::new();
        push_le(&mut v, self.raw as u64, 4);
        proof {
            lemma_le_bytes_len(self.raw as nat, 4);
        }
        vec_to_array::<4>(&v)
    }

    /// Reads a channel id from the first 4 little-endian bytes of `bytes`.
    pub fn unpack(bytes: &[u8]) -> (r: Result<Self, MitchError>)
        ensures
            bytes@.len() < 4 ==> r == Err::<Self, MitchError>(MitchError::BufferTooSmall {
                expected: 4,
                actual: bytes@.len() as usize,
            }),
            bytes@.len() >= 4 ==> r == Ok::<Self, MitchError>(ChannelId { raw: le_value(bytes@.subrange(0, 4)) as u32 }),
    {
        if bytes.len() < 4 {
            return Err(MitchError::BufferTooSmall { expected: 4, actual: bytes.len() });
        }
        let raw = read_le(bytes, 0, 4);
        proof {
            lemma_le_read(bytes@.subrange(0, 4));
        }
        Ok(Self { raw: raw as u32 })
    }

    /// Checks that the message type is one of 't', 'o', 's', 'i', 'b'.
    pub fn validate(&self) -> (r: Result<(), MitchError>)
        ensures
            r is Ok <==> (self.spec_type_byte() == message_type::TRADE || self.spec_type_byte() == message_type::ORDER
                || self.spec_type_byte() == message_type::TICK || self.spec_type_byte() == message_type::INDEX
                || self.spec_type_byte() == message_type::ORDER_BOOK),
            r is Err ==> field_error(r, "msg_type"@),
    {
        let msg_byte = self.msg_type() as u32;
        if !(msg_byte == 116 || msg_byte == 111 || msg_byte == 115 || msg_byte == 105 || msg_byte == 98) {
            return Err(MitchError::InvalidFieldValue("msg_type".to_string()));
        }
        Ok(())
    }
}

impl ChannelId {
    /// The text form `Channel(provider=P, type='C')`.
    pub fn to_string(&self) -> (r: String)
        ensures
            r@ == "Channel(provider="@ + decimal(self.spec_provider() as nat) + ", type='"@
                + seq![self.spec_type_byte() as char] + "')"@,
    {
        let mut s = String::new();
        s.push_str("Channel(provider=");
        push_decimal(&mut s, self.provider() as u64);
        s.push_str(", type='");
        s.push(self.msg_type());
        s.push_str("')");
        s
    }
}

/// Reading back the 4 bytes that `pack` writes gives the same channel id.
pub proof fn law_channel_roundtrip(c: ChannelId)
    ensures
        le_bytes(c.raw as nat, 4).len() == 4,
        (ChannelId { raw: le_value(le_bytes(c.raw as nat, 4).subrange(0, 4)) as u32 }) == c,
{
    lemma_le_uint(c.raw as nat, 4);
    lemma_le_bytes_len(c.raw as nat, 4);
    assert(le_bytes(c.raw as nat, 4).subrange(0, 4) =~= le_bytes(c.raw as nat, 4));
}

} // verus!
