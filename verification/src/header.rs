//! The 16-byte MITCH header that prefixes every message.
//!
//! ```text
//! Offset | Field          | Size | Type     | Description
//! -------|----------------|------|----------|--------------------------------------------
//! 0      | type_provider  | 2    | u16 LE   | [3:0] = msg_type code, [15:4] = provider_id
//! 2      | timestamp      | 6    | u48 LE   | 16µs ticks since 2010-01-01T00:00:00Z
//! 8      | count          | 1    | u8       | batch entry count (1-255)
//! 9      | flags          | 1    | u8       | [1:0] = version, [7:2] = reserved
//! 10     | sequence       | 2    | u16 LE   | per-stream sequence for gap detection
//! 12     | _reserved      | 4    | [u8; 4]  | reserved
//! ```

use vstd::prelude::*;

use crate::bytes::{
    le_bytes, le_value, lemma_le_read, lemma_le_uint, push_le, read_array, read_le, vec_to_array,
};
use crate::common::{
    code_to_msg_type, is_message_type, is_message_type_code, message_sizes, msg_type_to_code,
    spec_code_to_msg_type, spec_msg_type_to_code, validate_message_type,
    validate_message_type_code, MitchError,
};
use crate::text::{decimal, push_decimal};
use crate::timestamp::{decode_u48, encode_u48, u48_modulus, MAX_TICKS};

verus! {

/// The MITCH message header (16 bytes on the wire).
#[derive(Debug, Clone, Copy, PartialEq, Eq)]
pub struct MitchHeader {
    /// Low 4 bits: message type code (1-7); bits 4..16: provider id (0-4095).
    pub type_provider: u16,
    /// u48 little-endian: 16µs ticks since 2010-01-01T00:00:00Z.
    pub timestamp: [u8; 6],
    /// Number of body entries (1-255).
    pub count: u8,
    /// Bits 0-1: protocol version; bits 2-7: reserved.
    pub flags: u8,
    /// Per-stream sequence number for gap detection.
    pub sequence: u16,
    /// Reserved.
    pub _reserved: [u8; 4],
}

/// The header whose 16 wire bytes start `bytes`.
pub open spec fn header_from_wire(bytes: Seq<u8>) -> MitchHeader {
    choose|h: MitchHeader| h.wire() == bytes.subrange(0, 16)
}

impl MitchHeader {
    /// The 16 bytes of the header on the wire.
    pub open spec fn wire(self) -> Seq<u8> {
        le_bytes(self.type_provider as nat, 2) + self.timestamp@ + seq![self.count, self.flags]
            + le_bytes(self.sequence as nat, 2) + self._reserved@
    }

    /// The 4-bit message type code.
    pub open spec fn spec_message_type_code(self) -> u8 {
        (self.type_provider % 16) as u8
    }

    /// The ASCII message type (0 when the code names none).
    pub open spec fn spec_message_type(self) -> u8 {
        spec_code_to_msg_type(self.spec_message_type_code())
    }

    /// The 12-bit provider id.
    pub open spec fn spec_provider_id(self) -> u16 {
        (self.type_provider / 16) as u16
    }

    /// The u48 tick count.
    pub open spec fn spec_timestamp(self) -> nat {
        le_value(self.timestamp@)
    }

    /// A header that `unpack` accepts: a known type code and a nonzero count.
    pub open spec fn well_formed(self) -> bool {
        is_message_type_code(self.spec_message_type_code()) && self.count > 0
    }

    /// A header built by `new` from these arguments.
    pub open spec fn built_from(self, message_type: u8, provider_id: u16, timestamp: u64, count: u8) -> bool {
        &&& self.type_provider == spec_msg_type_to_code(message_type) + provider_id * 16
        &&& self.timestamp@ == le_bytes(timestamp as nat, 6)
        &&& self.count == count
        &&& self.flags == 0
        &&& self.sequence == 0
        &&& self._reserved@ == seq![0u8, 0u8, 0u8, 0u8]
    }

    /// A header built from valid arguments reads back those arguments.
    pub proof fn lemma_built_from(self, message_type: u8, provider_id: u16, timestamp: u64, count: u8)
        requires
            self.built_from(message_type, provider_id, timestamp, count),
            is_message_type(message_type),
            provider_id <= 0xFFF,
        ensures
            self.spec_message_type() == message_type,
            self.spec_message_type_code() == spec_msg_type_to_code(message_type),
            self.spec_provider_id() == provider_id,
            self.spec_timestamp() == timestamp as nat % u48_modulus(),
    {
        crate::timestamp::law_u48_decode_encode(timestamp);
    }

    /// Creates a header (flags, sequence and reserved bytes zero).
    ///
    /// The message type must be a supported ASCII code, the count nonzero and
    /// the provider id at most 4095.
    pub fn new(message_type: u8, provider_id: u16, timestamp: u64, count: u8) -> (r: Self)
        requires
            is_message_type(message_type),
            count > 0,
            provider_id <= 0x0FFF,
        ensures
            r.built_from(message_type, provider_id, timestamp, count),
            r.spec_message_type() == message_type,
            r.spec_provider_id() == provider_id,
            r.spec_timestamp() == timestamp as nat % u48_modulus(),
            r.well_formed(),
    {
        let code = msg_type_to_code(message_type);
        proof {
            assert(code < 16 && provider_id <= 0xFFF ==> ((code as u16) & 0x0F) | (provider_id << 4u16)
                == code as u16 + provider_id * 16) by (bit_vector);
        }
        let tp = (code as u16 & 0x0F) | (provider_id << 4);
        let r = MitchHeader {
            type_provider: tp,
            timestamp: encode_u48(timestamp),
            count,
            flags: 0,
            sequence: 0,
            _reserved: [0u8; 4],
        };
        proof {
            assert(r._reserved@ =~= seq![0u8, 0u8, 0u8, 0u8]);
            r.lemma_built_from(message_type, provider_id, timestamp, count);
        }
        r
    }

    /// Creates a header, or says which argument is out of range.
    pub fn new_validated(message_type: u8, provider_id: u16, timestamp: u64, count: u8) -> (r: Result<Self, MitchError>)
        ensures
            !is_message_type(message_type) ==> r == Err::<Self, MitchError>(MitchError::InvalidMessageType(message_type)),
            is_message_type(message_type) && count == 0 ==> (r matches Err(MitchError::InvalidData(m))
                && m@ == "Count must be greater than 0"@),
            is_message_type(message_type) && count > 0 && provider_id > 0x0FFF ==> (r matches Err(MitchError::InvalidData(m))
                && m@ == "Provider ID must fit in 12 bits (max 4095)"@),
            r is Ok <==> (is_message_type(message_type) && count > 0 && provider_id <= 0x0FFF),
            r matches Ok(h) ==> (h.built_from(message_type, provider_id, timestamp, count)
                && h.spec_message_type() == message_type && h.spec_provider_id() == provider_id
                && h.spec_timestamp() == timestamp as nat % u48_modulus() && h.well_formed()),
    {
        validate_message_type(message_type)?;
        if count == 0 {
            return Err(MitchError::InvalidData("Count must be greater than 0".to_string()));
        }
        if provider_id > 0x0FFF {
            return Err(MitchError::InvalidData("Provider ID must fit in 12 bits (max 4095)".to_string()));
        }
        Ok(Self::new(message_type, provider_id, timestamp, count))
    }

    /// The message type as its ASCII code ('t', 'o', 's', 'i', 'b', 'k', 'h'),
    /// or 0 when the wire code names none.
    pub fn message_type(&self) -> (r: u8)
        ensures
            r == self.spec_message_type(),
    {
        let c = self.message_type_code();
        code_to_msg_type(c)
    }

    /// The 4-bit message type wire code.
    pub fn message_type_code(&self) -> (r: u8)
        ensures
            r == self.spec_message_type_code(),
            r < 16,
    {
        let tp = self.type_provider;
        proof {
            assert(tp & 0x0F == tp % 16) by (bit_vector);
        }
        (tp & 0x0F) as u8
    }

    /// The 12-bit provider id.
    pub fn provider_id(&self) -> (r: u16)
        ensures
            r == self.spec_provider_id(),
            r <= 0x0FFF,
    {
        let tp = self.type_provider;
        proof {
            assert(tp >> 4u16 == tp / 16) by (bit_vector);
        }
        tp >> 4
    }

    /// The raw u48 tick count.
    pub fn get_timestamp(&self) -> (r: u64)
        ensures
            r as nat == self.spec_timestamp(),
            r <= MAX_TICKS,
    {
        decode_u48(&self.timestamp)
    }

    /// Sets the tick count (its top 16 bits are dropped).
    pub fn set_timestamp(&mut self, timestamp: u64)
        ensures
            final(self).timestamp@ == le_bytes(timestamp as nat, 6),
            final(self).spec_timestamp() == timestamp as nat % u48_modulus(),
            final(self).type_provider == old(self).type_provider,
            final(self).count == old(self).count,
            final(self).flags == old(self).flags,
            final(self).sequence == old(self).sequence,
            final(self)._reserved == old(self)._reserved,
    {
        self.timestamp = encode_u48(timestamp);
    }

    /// Sets the provider id (at most 4095), keeping the message type.
    pub fn set_provider_id(&mut self, provider_id: u16)
        requires
            provider_id <= 0x0FFF,
        ensures
            final(self).spec_provider_id() == provider_id,
            final(self).spec_message_type_code() == old(self).spec_message_type_code(),
            final(self).timestamp == old(self).timestamp,
            final(self).count == old(self).count,
            final(self).flags == old(self).flags,
            final(self).sequence == old(self).sequence,
            final(self)._reserved == old(self)._reserved,
    {
        let tp = self.type_provider;
        proof {
            assert(provider_id <= 0xFFF ==> (tp & 0x0F) | (provider_id << 4u16) == tp % 16 + provider_id * 16)
                by (bit_vector);
        }
        self.type_provider = (tp & 0x0F) | (provider_id << 4);
    }

    /// Sets the sequence number.
    pub fn set_sequence(&mut self, seq: u16)
        ensures
            *final(self) == (MitchHeader { sequence: seq, ..*old(self) }),
    {
        self.sequence = seq;
    }

    /// The protocol version (bits 0-1 of the flags).
    pub fn version(&self) -> (r: u8)
        ensures
            r == self.flags % 4,
    {
        let f = self.flags;
        proof {
            assert(f & 0x03 == f % 4) by (bit_vector);
        }
        f & 0x03
    }

    /// Appends the 16 wire bytes of the header.
    pub fn encode(&self, out: &mut Vec<u8>)
        ensures
            final(out)@ == old(out)@ + self.wire(),
    {
        let ghost before = out@;
        push_le(out, self.type_provider as u64, 2);
        let mut i: usize = 0;
        while i < 6
            invariant
                i <= 6,
                out@ == before + le_bytes(self.type_provider as nat, 2) + self.timestamp@.subrange(0, i as int),
            decreases 6 - i,
        {
            out.push(self.timestamp[i]);
            proof {
                assert(self.timestamp@.subrange(0, i + 1) =~= self.timestamp@.subrange(0, i as int).push(self.timestamp@[i as int]));
            }
            i = i + 1;
        }
        out.push(self.count);
        out.push(self.flags);
        push_le(out, self.sequence as u64, 2);
        let mut j: usize = 0;
        let ghost mid = out@;
        while j < 4
            invariant
                j <= 4,
                out@ == mid + self._reserved@.subrange(0, j as int),
            decreases 4 - j,
        {
            out.push(self._reserved[j]);
            proof {
                assert(self._reserved@.subrange(0, j + 1) =~= self._reserved@.subrange(0, j as int).push(self._reserved@[j as int]));
            }
            j = j + 1;
        }
        proof {
            assert(self.timestamp@.subrange(0, 6) =~= self.timestamp@);
            assert(self._reserved@.subrange(0, 4) =~= self._reserved@);
            assert(out@ =~= before + self.wire());
        }
    }

    /// Reads the header from the 16 bytes of `bytes` starting at `start`.
    pub fn decode(bytes: &[u8], start: usize) -> (r: Self)
        requires
            start + 16 <= bytes@.len(),
        ensures
            r.wire() == bytes@.subrange(start as int, start + 16),
    {
        let _len = bytes.len();
        let tp = read_le(bytes, start, 2);
        let ts = read_array::<6>(bytes, start + 2);
        let count = bytes[start + 8];
        let flags = bytes[start + 9];
        let seq = read_le(bytes, start + 10, 2);
        let reserved = read_array::<4>(bytes, start + 12);
        proof {
            lemma_le_read(bytes@.subrange(start as int, start + 2));
            lemma_le_read(bytes@.subrange(start + 10, start + 12));
        }
        let r = MitchHeader {
            type_provider: tp as u16,
            timestamp: ts,
            count,
            flags,
            sequence: seq as u16,
            _reserved: reserved,
        };
        proof {
            assert(r.wire() =~= bytes@.subrange(start as int, start + 16));
        }
        r
    }

    /// Two headers with the same wire bytes are the same header.
    pub proof fn lemma_wire_injective(self, other: Self)
        requires
            self.wire() == other.wire(),
        ensures
            self == other,
    {
        lemma_le_uint(self.type_provider as nat, 2);
        lemma_le_uint(other.type_provider as nat, 2);
        lemma_le_uint(self.sequence as nat, 2);
        lemma_le_uint(other.sequence as nat, 2);
        let w = self.wire();
        assert(w.subrange(0, 2) =~= le_bytes(self.type_provider as nat, 2));
        assert(other.wire().subrange(0, 2) =~= le_bytes(other.type_provider as nat, 2));
        assert(w.subrange(2, 8) =~= self.timestamp@);
        assert(other.wire().subrange(2, 8) =~= other.timestamp@);
        assert(w.subrange(10, 12) =~= le_bytes(self.sequence as nat, 2));
        assert(other.wire().subrange(10, 12) =~= le_bytes(other.sequence as nat, 2));
        assert(w.subrange(12, 16) =~= self._reserved@);
        assert(other.wire().subrange(12, 16) =~= other._reserved@);
        assert(self.timestamp =~= other.timestamp);
        assert(self._reserved =~= other._reserved);
        assert(w[8] == self.count && other.wire()[8] == other.count);
        assert(w[9] == self.flags && other.wire()[9] == other.flags);
    }

    /// The 16 wire bytes of the header.
    pub fn pack(&self) -> (r: [u8; 16])
        ensures
            r@ == self.wire(),
    {
        let mut v: Vec<u8> = Vec::new();
        self.encode(&mut v);
        proof {
            crate::bytes::lemma_le_bytes_len(self.type_provider as nat, 2);
            crate::bytes::lemma_le_bytes_len(self.sequence as nat, 2);
            assert(v@ =~= self.wire());
        }
        vec_to_array::<16>(&v)
    }

    /// Reads a header from the start of `bytes`, checking its buffer size,
    /// message type code and count.
    pub fn unpack(bytes: &[u8]) -> (r: Result<Self, MitchError>)
        ensures
            bytes@.len() < 16 ==> r == Err::<Self, MitchError>(MitchError::BufferTooSmall {
                expected: 16,
                actual: bytes@.len() as usize,
            }),
            bytes@.len() >= 16 ==> ({
                let h = header_from_wire(bytes@);
                &&& !is_message_type_code(h.spec_message_type_code()) ==> r == Err::<Self, MitchError>(
                    MitchError::InvalidMessageType(h.spec_message_type_code()))
                &&& is_message_type_code(h.spec_message_type_code()) && h.count == 0 ==> (r matches Err(
                    MitchError::InvalidData(m)) && m@ == "Count cannot be 0"@)
                &&& h.well_formed() ==> r == Ok::<Self, MitchError>(h)
            }),
            r matches Ok(h) ==> (h.wire() == bytes@.subrange(0, 16) && h.well_formed()),
    {
        if bytes.len() < message_sizes::HEADER {
            return Err(MitchError::BufferTooSmall { expected: message_sizes::HEADER, actual: bytes.len() });
        }
        let header = Self::decode(bytes, 0);
        proof {
            let h = header_from_wire(bytes@);
            h.lemma_wire_injective(header);
        }
        validate_message_type_code(header.message_type_code())?;
        if header.count == 0 {
            return Err(MitchError::InvalidData("Count cannot be 0".to_string()));
        }
        Ok(header)
    }

    /// Total size of a message with this header and bodies of `body_size` bytes.
    pub fn total_message_size(&self, body_size: usize) -> (r: usize)
        requires
            16 + self.count * body_size <= usize::MAX,
        ensures
            r == 16 + self.count * body_size,
    {
        message_sizes::HEADER + (self.count as usize * body_size)
    }

    /// The message type as a character.
    pub fn message_type_char(&self) -> (r: char)
        ensures
            r as u32 == self.spec_message_type() as u32,
    {
        self.message_type() as char
    }

    /// Checks the header's message type code and count.
    pub fn validate(&self) -> (r: Result<(), MitchError>)
        ensures
            !is_message_type_code(self.spec_message_type_code()) ==> r == Err::<(), MitchError>(
                MitchError::InvalidMessageType(self.spec_message_type_code())),
            is_message_type_code(self.spec_message_type_code()) && self.count == 0 ==> (r matches Err(
                MitchError::InvalidData(m)) && m@ == "Count must be greater than 0"@),
            r is Ok <==> self.well_formed(),
    {
        validate_message_type_code(self.message_type_code())?;
        if self.count == 0 {
            return Err(MitchError::InvalidData("Count must be greater than 0".to_string()));
        }
        if self.provider_id() > 0x0FFF {
            return Err(MitchError::InvalidData("Provider ID exceeds 12 bits".to_string()));
        }
        Ok(())
    }
}

impl MitchHeader {
    /// The text form
    /// `MitchHeader { type: 'T', provider: P, timestamp: TS, count: N, seq: S }`.
    pub fn to_string(&self) -> (r: String)
        ensures
            r@ == "MitchHeader { type: '"@ + seq![self.spec_message_type() as char] + "', provider: "@
                + decimal(self.spec_provider_id() as nat) + ", timestamp: "@ + decimal(self.spec_timestamp())
                + ", count: "@ + decimal(self.count as nat) + ", seq: "@ + decimal(self.sequence as nat) + " }"@,
    {
        let mut s = String::new();
        s.push_str("MitchHeader { type: '");
        s.push(self.message_type_char());
        s.push_str("', provider: ");
        push_decimal(&mut s, self.provider_id() as u64);
        s.push_str(", timestamp: ");
        push_decimal(&mut s, self.get_timestamp());
        s.push_str(", count: ");
        push_decimal(&mut s, self.count as u64);
        s.push_str(", seq: ");
        push_decimal(&mut s, self.sequence as u64);
        s.push_str(" }");
        s
    }
}

impl Default for MitchHeader {
    /// A tick header from provider 0 at tick 0 with one body.
    fn default() -> (r: Self)
        ensures
            r.type_provider == 3,
            r.timestamp@ == seq![0u8, 0u8, 0u8, 0u8, 0u8, 0u8],
            r.count == 1,
            r.flags == 0,
            r.sequence == 0,
            r._reserved@ == seq![0u8, 0u8, 0u8, 0u8],
    {
        let code = msg_type_to_code(crate::common::message_type::TICK);
        let r = Self {
            type_provider: code as u16,
            timestamp: [0u8; 6],
            count: 1,
            flags: 0,
            sequence: 0,
            _reserved: [0u8; 4],
        };
        assert(r.timestamp@ =~= seq![0u8, 0u8, 0u8, 0u8, 0u8, 0u8]);
        assert(r._reserved@ =~= seq![0u8, 0u8, 0u8, 0u8]);
        r
    }
}

/// Reading back the 16 wire bytes of a header gives that header.
pub proof fn law_header_roundtrip(h: MitchHeader)
    ensures
        header_from_wire(h.wire()) == h,
        h.wire().len() == 16,
{
    crate::bytes::lemma_le_bytes_len(h.type_provider as nat, 2);
    crate::bytes::lemma_le_bytes_len(h.sequence as nat, 2);
    assert(h.wire().subrange(0, 16) =~= h.wire());
    let g = header_from_wire(h.wire());
    g.lemma_wire_injective(h);
}

/// The documented layout of the 16 header bytes: bytes 0-1 hold, little
/// endian, the 4-bit message type code plus 16 times the 12-bit provider id;
/// bytes 2-7 the u48 timestamp; byte 8 the count; byte 9 the flags; bytes
/// 10-11 the sequence number, little endian; bytes 12-15 the reserved bytes.
pub proof fn law_header_layout(h: MitchHeader)
    ensures
        h.wire().len() == 16,
        h.wire()[0] as nat + 256 * (h.wire()[1] as nat) == h.spec_message_type_code() as nat + 16 * (
        h.spec_provider_id() as nat),
        h.spec_message_type_code() < 16,
        h.spec_provider_id() < 4096,
        le_value(h.wire().subrange(2, 8)) == h.spec_timestamp(),
        h.wire()[8] == h.count,
        h.wire()[9] == h.flags,
        h.wire()[10] as nat + 256 * (h.wire()[11] as nat) == h.sequence as nat,
        h.wire().subrange(12, 16) == h._reserved@,
{
    law_header_roundtrip(h);
    reveal_with_fuel(le_bytes, 3);
    let w = h.wire();
    let tp = h.type_provider as nat;
    let sq = h.sequence as nat;
    assert(w.subrange(0, 2) =~= le_bytes(tp, 2));
    assert(w.subrange(2, 8) =~= h.timestamp@);
    assert(w.subrange(10, 12) =~= le_bytes(sq, 2));
    assert(w.subrange(12, 16) =~= h._reserved@);
    assert(w[0] == le_bytes(tp, 2)[0] && w[1] == le_bytes(tp, 2)[1]);
    assert(w[10] == le_bytes(sq, 2)[0] && w[11] == le_bytes(sq, 2)[1]);
    assert(le_bytes(tp, 2)[0] == (tp % 256) as u8);
    assert(le_bytes(tp, 2)[1] == ((tp / 256) % 256) as u8);
    assert(le_bytes(sq, 2)[0] == (sq % 256) as u8);
    assert(le_bytes(sq, 2)[1] == ((sq / 256) % 256) as u8);
    assert(tp % 256 + 256 * ((tp / 256) % 256) == tp) by (nonlinear_arith)
        requires
            tp < 0x1_0000,
    ;
    assert(sq % 256 + 256 * ((sq / 256) % 256) == sq) by (nonlinear_arith)
        requires
            sq < 0x1_0000,
    ;
    assert(tp % 16 + 16 * (tp / 16) == tp) by (nonlinear_arith);
}

} // verus!
