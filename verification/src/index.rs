//! Index message body (`i`, 40 bytes): an aggregated multi-provider quote.
//!
//! ```text
//! Offset | Field      | Size | Type  | Description
//! -------|------------|------|-------|------------------------------------
//! 0      | ticker     | 8    | u64   | MITCH ticker identifier
//! 8      | bid        | 8    | f64   | Best bid price (VWAP composite)
//! 16     | ask        | 8    | f64   | Best ask price (VWAP composite)
//! 24     | vbid       | 4    | u32   | Aggregated bid volume
//! 28     | vask       | 4    | u32   | Aggregated ask volume
//! 32     | ci         | 2    | u16   | Confidence interval, sqrt-compressed ubp
//! 34     | tick_count | 2    | u16   | Raw ticks in aggregation window
//! 36     | confidence | 1    | u8    | Freshness percent or provider count
//! 37     | accepted   | 1    | u8    | Accepted providers
//! 38     | rejected   | 1    | u8    | Rejected providers
//! 39     | flags      | 1    | u8    | Bitfield
//! ```
//!
//! Prices are held as the bit patterns of their binary64 values.

use vstd::prelude::*;

use crate::body::{lemma_record_from_wire, record_from_wire, MitchBody};
use crate::bytes::{le_bytes, lemma_le_bytes_len, lemma_le_read, lemma_le_uint, push_le, read_le, vec_to_array};
use crate::common::{field_error, message_sizes, MitchError};
use crate::ieee;

verus! {

/// Bit pattern of 1.0e9, the ceiling on index prices: no instrument is quoted
/// in the billions, so a larger finite price is garbage.
pub const MAX_PRICE_BITS: u64 = 0x41CD_CD65_0000_0000;

/// Index message.
#[derive(Debug, Clone, Copy, PartialEq, Eq)]
pub struct Index {
    /// Ticker identifier.
    pub ticker: u64,
    /// Best bid price (bit pattern of a binary64 value).
    pub bid: u64,
    /// Best ask price (bit pattern of a binary64 value).
    pub ask: u64,
    /// Aggregated bid volume.
    pub vbid: u32,
    /// Aggregated ask volume.
    pub vask: u32,
    /// Confidence interval, sqrt-compressed micro basis points of mid.
    pub ci: u16,
    /// Raw ticks in the aggregation window.
    pub tick_count: u16,
    /// Freshness percent (flag bit 3 set) or legacy active-provider count.
    pub confidence: u8,
    /// Accepted providers.
    pub accepted: u8,
    /// Rejected providers.
    pub rejected: u8,
    /// Flags bitfield.
    pub flags: u8,
}

impl Index {
    /// Creates an index message with no flags set.
    pub fn new(
        ticker: u64,
        bid: u64,
        ask: u64,
        ci: u16,
        vbid: u32,
        vask: u32,
        tick_count: u16,
        confidence: u8,
        accepted: u8,
        rejected: u8,
    ) -> (r: Self)
        ensures
            r == (Index { ticker, bid, ask, vbid, vask, ci, tick_count, confidence, accepted, rejected, flags: 0 }),
    {
        Self { ticker, bid, ask, vbid, vask, ci, tick_count, confidence, accepted, rejected, flags: 0 }
    }

    /// The 40 wire bytes.
    pub fn pack(&self) -> (r: [u8; 40])
        ensures
            r@ == self.wire(),
    {
        let mut v: Vec<u8> = Vec::new();
        self.encode(&mut v);
        proof {
            self.lemma_wire_len();
        }
        vec_to_array::<40>(&v)
    }

    /// Reads an index message from the start of `bytes`.
    pub fn unpack(bytes: &[u8]) -> (r: Result<Self, MitchError>)
        ensures
            bytes@.len() < 40 ==> r == Err::<Self, MitchError>(MitchError::BufferTooSmall {
                expected: 40,
                actual: bytes@.len() as usize,
            }),
            bytes@.len() >= 40 ==> r == Ok::<Self, MitchError>(record_from_wire::<Index>(bytes@)),
            r matches Ok(i) ==> i.wire() == bytes@.subrange(0, 40),
    {
        if bytes.len() < message_sizes::INDEX {
            return Err(MitchError::BufferTooSmall { expected: message_sizes::INDEX, actual: bytes.len() });
        }
        let index = Self::decode(bytes, 0);
        proof {
            lemma_record_from_wire::<Index>(bytes@, index);
        }
        Ok(index)
    }

    /// Reads an index message from the start of `bytes`, which must hold at least
    /// 40 bytes (the checked form is [`Self::unpack`]).
    pub fn unpack_unchecked(bytes: &[u8]) -> (r: Self)
        requires
            bytes@.len() >= 40,
        ensures
            r == record_from_wire::<Index>(bytes@),
            r.wire() == bytes@.subrange(0, 40),
    {
        let r = Self::decode(bytes, 0);
        proof {
            lemma_record_from_wire::<Index>(bytes@, r);
        }
        r
    }

    /// Body size in bytes.
    pub fn size() -> (r: usize)
        ensures
            r == 40,
    {
        message_sizes::INDEX
    }

    /// The message of the first quote rule that `self` breaks, in the order
    /// they are checked: nonzero ticker, finite bid and ask, both above zero,
    /// ask at or above bid, neither above [`MAX_PRICE_BITS`].
    pub open spec fn quote_error(self) -> Option<Seq<char>> {
        if self.ticker == 0 {
            Some("Ticker cannot be zero"@)
        } else if !ieee::is_finite(self.bid) {
            Some("Bid must be finite"@)
        } else if !ieee::is_finite(self.ask) {
            Some("Ask must be finite"@)
        } else if ieee::spec_le(self.bid, 0) {
            Some("Bid price must be positive"@)
        } else if ieee::spec_le(self.ask, 0) {
            Some("Ask price must be positive"@)
        } else if ieee::spec_lt(self.ask, self.bid) {
            Some("Ask must be >= bid"@)
        } else if ieee::spec_lt(MAX_PRICE_BITS, self.bid) || ieee::spec_lt(MAX_PRICE_BITS, self.ask) {
            Some("price exceeds 1e9 sanity cap"@)
        } else {
            None
        }
    }

    /// Checks the quote rules of index validation, all but the last one: the
    /// cap on the spread in basis points, which is computed in binary64
    /// arithmetic on the prices and so is checked by the caller after this.
    pub fn validate_quote(&self) -> (r: Result<(), MitchError>)
        ensures
            self.quote_error() is None <==> r is Ok,
            self.quote_error() matches Some(m) ==> field_error(r, m),
    {
        if self.ticker == 0 {
            return Err(MitchError::InvalidFieldValue("Ticker cannot be zero".to_string()));
        }
        if !ieee::finite(self.bid) {
            return Err(MitchError::InvalidFieldValue("Bid must be finite".to_string()));
        }
        if !ieee::finite(self.ask) {
            return Err(MitchError::InvalidFieldValue("Ask must be finite".to_string()));
        }
        if ieee::le(self.bid, 0) {
            return Err(MitchError::InvalidFieldValue("Bid price must be positive".to_string()));
        }
        if ieee::le(self.ask, 0) {
            return Err(MitchError::InvalidFieldValue("Ask price must be positive".to_string()));
        }
        if ieee::lt(self.ask, self.bid) {
            return Err(MitchError::InvalidFieldValue("Ask must be >= bid".to_string()));
        }
        if ieee::lt(MAX_PRICE_BITS, self.bid) || ieee::lt(MAX_PRICE_BITS, self.ask) {
            return Err(MitchError::InvalidFieldValue("price exceeds 1e9 sanity cap".to_string()));
        }
        Ok(())
    }
}

impl MitchBody for Index {
    open spec fn wire_size() -> nat {
        40
    }

    open spec fn wire(&self) -> Seq<u8> {
        le_bytes(self.ticker as nat, 8) + le_bytes(self.bid as nat, 8) + le_bytes(self.ask as nat, 8)
            + le_bytes(self.vbid as nat, 4) + le_bytes(self.vask as nat, 4) + le_bytes(self.ci as nat, 2)
            + le_bytes(self.tick_count as nat, 2) + seq![self.confidence, self.accepted, self.rejected, self.flags]
    }

    fn body_size() -> (n: usize) {
        40
    }

    proof fn lemma_wire_len(&self) {
        lemma_le_bytes_len(self.ticker as nat, 8);
        lemma_le_bytes_len(self.bid as nat, 8);
        lemma_le_bytes_len(self.ask as nat, 8);
        lemma_le_bytes_len(self.vbid as nat, 4);
        lemma_le_bytes_len(self.vask as nat, 4);
        lemma_le_bytes_len(self.ci as nat, 2);
        lemma_le_bytes_len(self.tick_count as nat, 2);
    }

    proof fn lemma_wire_injective(&self, other: &Self) {
        lemma_le_uint(self.ticker as nat, 8);
        lemma_le_uint(other.ticker as nat, 8);
        lemma_le_uint(self.bid as nat, 8);
        lemma_le_uint(other.bid as nat, 8);
        lemma_le_uint(self.ask as nat, 8);
        lemma_le_uint(other.ask as nat, 8);
        lemma_le_uint(self.vbid as nat, 4);
        lemma_le_uint(other.vbid as nat, 4);
        lemma_le_uint(self.vask as nat, 4);
        lemma_le_uint(other.vask as nat, 4);
        lemma_le_uint(self.ci as nat, 2);
        lemma_le_uint(other.ci as nat, 2);
        lemma_le_uint(self.tick_count as nat, 2);
        lemma_le_uint(other.tick_count as nat, 2);
        let (a, b) = (self.wire(), other.wire());
        assert(a.subrange(0, 8) =~= le_bytes(self.ticker as nat, 8));
        assert(b.subrange(0, 8) =~= le_bytes(other.ticker as nat, 8));
        assert(a.subrange(8, 16) =~= le_bytes(self.bid as nat, 8));
        assert(b.subrange(8, 16) =~= le_bytes(other.bid as nat, 8));
        assert(a.subrange(16, 24) =~= le_bytes(self.ask as nat, 8));
        assert(b.subrange(16, 24) =~= le_bytes(other.ask as nat, 8));
        assert(a.subrange(24, 28) =~= le_bytes(self.vbid as nat, 4));
        assert(b.subrange(24, 28) =~= le_bytes(other.vbid as nat, 4));
        assert(a.subrange(28, 32) =~= le_bytes(self.vask as nat, 4));
        assert(b.subrange(28, 32) =~= le_bytes(other.vask as nat, 4));
        assert(a.subrange(32, 34) =~= le_bytes(self.ci as nat, 2));
        assert(b.subrange(32, 34) =~= le_bytes(other.ci as nat, 2));
        assert(a.subrange(34, 36) =~= le_bytes(self.tick_count as nat, 2));
        assert(b.subrange(34, 36) =~= le_bytes(other.tick_count as nat, 2));
        assert(a[36] == self.confidence && b[36] == other.confidence);
        assert(a[37] == self.accepted && b[37] == other.accepted);
        assert(a[38] == self.rejected && b[38] == other.rejected);
        assert(a[39] == self.flags && b[39] == other.flags);
    }

    fn encode(&self, out: &mut Vec<u8>) {
        let ghost before = out@;
        push_le(out, self.ticker, 8);
        push_le(out, self.bid, 8);
        push_le(out, self.ask, 8);
        push_le(out, self.vbid as u64, 4);
        push_le(out, self.vask as u64, 4);
        push_le(out, self.ci as u64, 2);
        push_le(out, self.tick_count as u64, 2);
        out.push(self.confidence);
        out.push(self.accepted);
        out.push(self.rejected);
        out.push(self.flags);
        assert(out@ =~= before + self.wire());
    }

    fn decode(bytes: &[u8], start: usize) -> (r: Self) {
        let _len = bytes.len();
        let ticker = read_le(bytes, start, 8);
        let bid = read_le(bytes, start + 8, 8);
        let ask = read_le(bytes, start + 16, 8);
        let vbid = read_le(bytes, start + 24, 4);
        let vask = read_le(bytes, start + 28, 4);
        let ci = read_le(bytes, start + 32, 2);
        let tick_count = read_le(bytes, start + 34, 2);
        proof {
            lemma_le_read(bytes@.subrange(start as int, start + 8));
            lemma_le_read(bytes@.subrange(start + 8, start + 16));
            lemma_le_read(bytes@.subrange(start + 16, start + 24));
            lemma_le_read(bytes@.subrange(start + 24, start + 28));
            lemma_le_read(bytes@.subrange(start + 28, start + 32));
            lemma_le_read(bytes@.subrange(start + 32, start + 34));
            lemma_le_read(bytes@.subrange(start + 34, start + 36));
        }
        let r = Self {
            ticker,
            bid,
            ask,
            vbid: vbid as u32,
            vask: vask as u32,
            ci: ci as u16,
            tick_count: tick_count as u16,
            confidence: bytes[start + 36],
            accepted: bytes[start + 37],
            rejected: bytes[start + 38],
            flags: bytes[start + 39],
        };
        assert(r.wire() =~= bytes@.subrange(start as int, start + 40));
        r
    }
}

} // verus!
