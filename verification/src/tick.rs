//! Tick message body (`s`, 32 bytes): a top-of-book bid/ask snapshot.
//!
//! ```text
//! Offset | Field   | Size | Type   | Description
//! -------|---------|------|--------|------------------------------------------
//! 0      | ticker  | 8    | u64 LE | Ticker identifier
//! 8      | bid     | 8    | f64 LE | Best bid price
//! 16     | ask     | 8    | f64 LE | Best ask price
//! 24     | vbid    | 4    | u32 LE | Aggregated bid volume
//! 28     | vask    | 4    | u32 LE | Aggregated ask volume
//! ```
//!
//! Prices are held as the bit patterns of their binary64 values.

use vstd::prelude::*;

use crate::body::{lemma_record_from_wire, record_from_wire, MitchBody};
use crate::bytes::{le_bytes, lemma_le_bytes_len, lemma_le_read, lemma_le_uint, push_le, read_le, vec_to_array};
use crate::common::{field_error, message_sizes, MitchError};
use crate::ieee;

verus! {

/// A tick with these fields passes validation: nonzero ticker, bid and ask
/// above zero (so neither is a NaN) and the ask at or above the bid.
pub open spec fn valid_parts(ticker: u64, bid: u64, ask: u64) -> bool {
    &&& ticker != 0
    &&& ieee::spec_lt(0, bid)
    &&& ieee::spec_lt(0, ask)
    &&& ieee::spec_le(bid, ask)
}

/// `r` reports the first rule that a tick with these fields breaks.
pub open spec fn validation_of_parts<T>(ticker: u64, bid: u64, ask: u64, r: Result<T, MitchError>) -> bool {
    &&& ticker == 0 ==> field_error(r, "ticker cannot be zero"@)
    &&& ticker != 0 && !ieee::spec_lt(0, bid) ==> field_error(r, "bid must be positive"@)
    &&& ticker != 0 && ieee::spec_lt(0, bid) && !ieee::spec_lt(0, ask) ==> field_error(r, "ask must be positive"@)
    &&& ticker != 0 && ieee::spec_lt(0, bid) && ieee::spec_lt(0, ask) && !ieee::spec_le(bid, ask)
        ==> field_error(r, "ask cannot be less than bid"@)
}

/// Tick / quote snapshot.
#[derive(Debug, Clone, Copy, PartialEq, Eq)]
pub struct Tick {
    /// Ticker identifier.
    pub ticker: u64,
    /// Best bid price: bit pattern of a binary64 value.
    pub bid: u64,
    /// Best ask price: bit pattern of a binary64 value.
    pub ask: u64,
    /// Aggregated bid volume.
    pub vbid: u32,
    /// Aggregated ask volume.
    pub vask: u32,
}

impl Tick {
    /// The conditions `validate` checks.
    pub open spec fn valid(self) -> bool {
        valid_parts(self.ticker, self.bid, self.ask)
    }

    /// Creates a tick and validates it.
    pub fn new(ticker: u64, bid: u64, ask: u64, vbid: u32, vask: u32) -> (r: Result<Self, MitchError>)
        ensures
            r is Ok <==> valid_parts(ticker, bid, ask),
            validation_of_parts(ticker, bid, ask, r),
            r is Ok ==> r == Ok::<Self, MitchError>(Tick { ticker, bid, ask, vbid, vask }),
    {
        let tick = Self { ticker, bid, ask, vbid, vask };
        tick.validate()?;
        Ok(tick)
    }

    /// Creates a tick without validation (for trusted data).
    pub fn new_unchecked(ticker: u64, bid: u64, ask: u64, vbid: u32, vask: u32) -> (r: Self)
        ensures
            r == (Tick { ticker, bid, ask, vbid, vask }),
    {
        Self { ticker, bid, ask, vbid, vask }
    }

    /// The 32 wire bytes.
    pub fn pack(&self) -> (r: [u8; 32])
        ensures
            r@ == self.wire(),
    {
        let mut v: Vec<u8> = Vec::new();
        self.encode(&mut v);
        proof {
            self.lemma_wire_len();
        }
        vec_to_array::<32>(&v)
    }

    /// Reads a tick from the start of `bytes` and validates it.
    pub fn unpack(bytes: &[u8]) -> (r: Result<Self, MitchError>)
        ensures
            bytes@.len() < 32 ==> r == Err::<Self, MitchError>(MitchError::BufferTooSmall {
                expected: 32,
                actual: bytes@.len() as usize,
            }),
            bytes@.len() >= 32 ==> ({
                let t = record_from_wire::<Tick>(bytes@);
                &&& r is Ok <==> t.valid()
                &&& validation_of_parts(t.ticker, t.bid, t.ask, r)
            }),
            r matches Ok(t) ==> t.wire() == bytes@.subrange(0, 32),
    {
        if bytes.len() < message_sizes::TICK {
            return Err(MitchError::BufferTooSmall { expected: message_sizes::TICK, actual: bytes.len() });
        }
        let tick = Self::decode(bytes, 0);
        proof {
            lemma_record_from_wire::<Tick>(bytes@, tick);
        }
        tick.validate()?;
        Ok(tick)
    }

    /// Checks the ticker and the bid and ask prices.
    pub fn validate(&self) -> (r: Result<(), MitchError>)
        ensures
            r is Ok <==> self.valid(),
            validation_of_parts(self.ticker, self.bid, self.ask, r),
    {
        if self.ticker == 0 {
            return Err(MitchError::InvalidFieldValue("ticker cannot be zero".to_string()));
        }
        if !ieee::lt(0, self.bid) {
            return Err(MitchError::InvalidFieldValue("bid must be positive".to_string()));
        }
        if !ieee::lt(0, self.ask) {
            return Err(MitchError::InvalidFieldValue("ask must be positive".to_string()));
        }
        if !ieee::le(self.bid, self.ask) {
            return Err(MitchError::InvalidFieldValue("ask cannot be less than bid".to_string()));
        }
        Ok(())
    }

    /// Total volume (`vbid + vask`).
    pub fn total_volume(&self) -> (r: u64)
        ensures
            r == self.vbid + self.vask,
    {
        self.vbid as u64 + self.vask as u64
    }

    /// Body size in bytes.
    pub fn size() -> (r: usize)
        ensures
            r == 32,
    {
        message_sizes::TICK
    }
}

impl MitchBody for Tick {
    open spec fn wire_size() -> nat {
        32
    }

    open spec fn wire(&self) -> Seq<u8> {
        le_bytes(self.ticker as nat, 8) + le_bytes(self.bid as nat, 8) + le_bytes(self.ask as nat, 8)
            + le_bytes(self.vbid as nat, 4) + le_bytes(self.vask as nat, 4)
    }

    fn body_size() -> (n: usize) {
        32
    }

    proof fn lemma_wire_len(&self) {
        lemma_le_bytes_len(self.ticker as nat, 8);
        lemma_le_bytes_len(self.bid as nat, 8);
        lemma_le_bytes_len(self.ask as nat, 8);
        lemma_le_bytes_len(self.vbid as nat, 4);
        lemma_le_bytes_len(self.vask as nat, 4);
    }

    proof fn lemma_wire_injective(&self, other: &Self) {
        lemma_le_uint(self.ticker as nat, 8);
        lemma_le_uint(other.ticker as nat, 8);
        lemma_le_uint(self.bid as nat, 8);
        lemma_le_uint(other.bid as nat, 8);
        lemma_le_uint(self.ask as nat, 8);
        lemma_le_uint(other.ask as nat, 8);
        lemma_le_uint(self.vbid as nat, 4);
        lemma_le_uint(other.vbid as nat, 4);
        lemma_le_uint(self.vask as nat, 4);
        lemma_le_uint(other.vask as nat, 4);
        let (a, b) = (self.wire(), other.wire());
        assert(a.subrange(0, 8) =~= le_bytes(self.ticker as nat, 8));
        assert(b.subrange(0, 8) =~= le_bytes(other.ticker as nat, 8));
        assert(a.subrange(8, 16) =~= le_bytes(self.bid as nat, 8));
        assert(b.subrange(8, 16) =~= le_bytes(other.bid as nat, 8));
        assert(a.subrange(16, 24) =~= le_bytes(self.ask as nat, 8));
        assert(b.subrange(16, 24) =~= le_bytes(other.ask as nat, 8));
        assert(a.subrange(24, 28) =~= le_bytes(self.vbid as nat, 4));
        assert(b.subrange(24, 28) =~= le_bytes(other.vbid as nat, 4));
        assert(a.subrange(28, 32) =~= le_bytes(self.vask as nat, 4));
        assert(b.subrange(28, 32) =~= le_bytes(other.vask as nat, 4));
    }

    fn encode(&self, out: &mut Vec<u8>) {
        let ghost before = out@;
        push_le(out, self.ticker, 8);
        push_le(out, self.bid, 8);
        push_le(out, self.ask, 8);
        push_le(out, self.vbid as u64, 4);
        push_le(out, self.vask as u64, 4);
        assert(out@ =~= before + self.wire());
    }

    fn decode(bytes: &[u8], start: usize) -> (r: Self) {
        let _len = bytes.len();
        let ticker = read_le(bytes, start, 8);
        let bid = read_le(bytes, start + 8, 8);
        let ask = read_le(bytes, start + 16, 8);
        let vbid = read_le(bytes, start + 24, 4);
        let vask = read_le(bytes, start + 28, 4);
        proof {
            lemma_le_read(bytes@.subrange(start as int, start + 8));
            lemma_le_read(bytes@.subrange(start + 8, start + 16));
            lemma_le_read(bytes@.subrange(start + 16, start + 24));
            lemma_le_read(bytes@.subrange(start + 24, start + 28));
            lemma_le_read(bytes@.subrange(start + 28, start + 32));
        }
        let r = Self { ticker, bid, ask, vbid: vbid as u32, vask: vask as u32 };
        assert(r.wire() =~= bytes@.subrange(start as int, start + 32));
        r
    }
}

} // verus!
