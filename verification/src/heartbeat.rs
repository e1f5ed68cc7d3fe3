//! Heartbeat body (16 bytes; 32 bytes framed).
//!
//! Heartbeats prove a producer is alive and let consumers spot stale feeds and
//! quantify drop rates. `ticker = 0` is a feed-wide heartbeat; a nonzero
//! ticker is a per-symbol one. `msg_count` is the number of data frames
//! emitted in that scope since the previous heartbeat (wrapping at `u32::MAX`).
//!
//! ```text
//! Offset | Field     | Size | Type    | Description
//! -------|-----------|------|---------|-------------------------------------
//! 0      | ticker    | 8    | u64 LE  | Ticker (0 = feed-wide, else per-symbol)
//! 8      | msg_count | 4    | u32 LE  | Data frames emitted since last beat
//! 12     | _pad      | 4    | [u8; 4] | Reserved padding
//! ```

use vstd::prelude::*;

use crate::body::{lemma_record_from_wire, record_from_wire, MitchBody};
use crate::bytes::{
    le_bytes, lemma_le_bytes_len, lemma_le_read, lemma_le_uint, push_bytes, push_le, read_array,
    read_le, vec_to_array,
};
use crate::common::{message_sizes, MitchError};

verus! {

/// Heartbeat body.
#[derive(Debug, Clone, Copy, PartialEq, Eq)]
pub struct Heartbeat {
    /// Ticker this heartbeat refers to; 0 for the whole feed.
    pub ticker: u64,
    /// Data frames emitted in this scope since the prior heartbeat.
    pub msg_count: u32,
    /// Reserved padding.
    pub _pad: [u8; 4],
}

impl Heartbeat {
    /// Feed-wide heartbeat (`ticker = 0`).
    pub fn feed(msg_count: u32) -> (r: Self)
        ensures
            r.ticker == 0,
            r.msg_count == msg_count,
            r._pad@ == seq![0u8, 0u8, 0u8, 0u8],
    {
        let r = Self { ticker: 0, msg_count, _pad: [0u8; 4] };
        assert(r._pad@ =~= seq![0u8, 0u8, 0u8, 0u8]);
        r
    }

    /// Per-ticker heartbeat.
    pub fn ticker(ticker: u64, msg_count: u32) -> (r: Self)
        ensures
            r.ticker == ticker,
            r.msg_count == msg_count,
            r._pad@ == seq![0u8, 0u8, 0u8, 0u8],
    {
        let r = Self { ticker, msg_count, _pad: [0u8; 4] };
        assert(r._pad@ =~= seq![0u8, 0u8, 0u8, 0u8]);
        r
    }

    /// The 16 wire bytes.
    pub fn pack(&self) -> (r: [u8; 16])
        ensures
            r@ == self.wire(),
    {
        let mut v: Vec<u8> = Vec::new();
        self.encode(&mut v);
        proof {
            self.lemma_wire_len();
        }
        vec_to_array::<16>(&v)
    }

    /// Reads a heartbeat from the start of `bytes`.
    pub fn unpack(bytes: &[u8]) -> (r: Result<Self, MitchError>)
        ensures
            bytes@.len() < 16 ==> r == Err::<Self, MitchError>(MitchError::BufferTooSmall {
                expected: 16,
                actual: bytes@.len() as usize,
            }),
            bytes@.len() >= 16 ==> r == Ok::<Self, MitchError>(record_from_wire::<Heartbeat>(bytes@)),
            r matches Ok(h) ==> h.wire() == bytes@.subrange(0, 16),
    {
        if bytes.len() < message_sizes::HEARTBEAT {
            return Err(MitchError::BufferTooSmall { expected: message_sizes::HEARTBEAT, actual: bytes.len() });
        }
        let h = Self::decode(bytes, 0);
        proof {
            lemma_record_from_wire::<Heartbeat>(bytes@, h);
        }
        Ok(h)
    }

    /// Body size in bytes.
    pub fn size() -> (r: usize)
        ensures
            r == 16,
    {
        message_sizes::HEARTBEAT
    }
}

impl MitchBody for Heartbeat {
    open spec fn wire_size() -> nat {
        16
    }

    open spec fn wire(&self) -> Seq<u8> {
        le_bytes(self.ticker as nat, 8) + le_bytes(self.msg_count as nat, 4) + self._pad@
    }

    fn body_size() -> (n: usize) {
        16
    }

    proof fn lemma_wire_len(&self) {
        lemma_le_bytes_len(self.ticker as nat, 8);
        lemma_le_bytes_len(self.msg_count as nat, 4);
    }

    proof fn lemma_wire_injective(&self, other: &Self) {
        lemma_le_uint(self.ticker as nat, 8);
        lemma_le_uint(other.ticker as nat, 8);
        lemma_le_uint(self.msg_count as nat, 4);
        lemma_le_uint(other.msg_count as nat, 4);
        let (a, b) = (self.wire(), other.wire());
        assert(a.subrange(0, 8) =~= le_bytes(self.ticker as nat, 8));
        assert(b.subrange(0, 8) =~= le_bytes(other.ticker as nat, 8));
        assert(a.subrange(8, 12) =~= le_bytes(self.msg_count as nat, 4));
        assert(b.subrange(8, 12) =~= le_bytes(other.msg_count as nat, 4));
        assert(a.subrange(12, 16) =~= self._pad@);
        assert(b.subrange(12, 16) =~= other._pad@);
        assert(self._pad =~= other._pad);
    }

    fn encode(&self, out: &mut Vec<u8>) {
        let ghost before = out@;
        push_le(out, self.ticker, 8);
        push_le(out, self.msg_count as u64, 4);
        push_bytes(out, self._pad.as_slice());
        assert(out@ =~= before + self.wire());
    }

    fn decode(bytes: &[u8], start: usize) -> (r: Self) {
        let _len = bytes.len();
        let ticker = read_le(bytes, start, 8);
        let msg_count = read_le(bytes, start + 8, 4);
        let pad = read_array::<4>(bytes, start + 12);
        proof {
            lemma_le_read(bytes@.subrange(start as int, start + 8));
            lemma_le_read(bytes@.subrange(start + 8, start + 12));
        }
        let r = Self { ticker, msg_count: msg_count as u32, _pad: pad };
        assert(r.wire() =~= bytes@.subrange(start as int, start + 16));
        r
    }
}

} // verus!
