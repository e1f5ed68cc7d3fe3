//! Bar message body (`k`, 96 bytes): an enriched OHLCV bar, time-based
//! (kline) or price-based (renko).
//!
//! Core block (64 bytes):
//!
//! | Field       | Offset | Size | Type      | Description                         |
//! |-------------|--------|------|-----------|-------------------------------------|
//! | Open TS     | 0      | 6    | `[u8; 6]` | u48 LE mts (16 us ticks since 2010) |
//! | Close TS    | 6      | 6    | `[u8; 6]` | u48 LE mts (16 us ticks since 2010) |
//! | Open        | 12     | 8    | `f64`     | Opening price                       |
//! | High        | 20     | 8    | `f64`     | Highest price                       |
//! | Low         | 28     | 8    | `f64`     | Lowest price                        |
//! | Close       | 36     | 8    | `f64`     | Closing price                       |
//! | VBid        | 44     | 4    | `u32`     | Cumulative bid volume               |
//! | VAsk        | 48     | 4    | `u32`     | Cumulative ask volume               |
//! | Tick Count  | 52     | 4    | `u32`     | Ingested messages                   |
//! | _pad        | 56     | 8    | `[u8; 8]` | Padding to 64B                      |
//!
//! Microstructure block (32 bytes):
//!
//! | Field            | Offset | Size | Type      |
//! |------------------|--------|------|-----------|
//! | Realized Var     | 64     | 4    | `f32`     |
//! | Bipower Var      | 68     | 4    | `f32`     |
//! | Drift            | 72     | 4    | `f32`     |
//! | Vol Imbalance    | 76     | 4    | `f32`     |
//! | Avg Spread bps   | 80     | 4    | `f32`     |
//! | Max Abs Return   | 84     | 4    | `f32`     |
//! | Avg CI ubp       | 88     | 2    | `u16`     |
//! | Reject Rate      | 90     | 2    | `u16`     |
//! | Kind             | 92     | 1    | `u8`      |
//! | Reserved         | 93     | 3    | `[u8; 3]` |
//!
//! Floating-point fields are held as the bit patterns of their IEEE-754
//! values (binary64 for prices, binary32 for the microstructure features).

use vstd::prelude::*;

use crate::body::{lemma_record_from_wire, record_from_wire, MitchBody};
use crate::bytes::{
    le_bytes, le_value, lemma_le_bytes_len, lemma_le_read, lemma_le_uint, push_bytes, push_le,
    read_array, read_le, vec_to_array,
};
use crate::common::{message_sizes, MitchError};
use crate::ieee;
use crate::timestamp::{self, lemma_u48_decodes, u48_modulus, EPOCH_US};

verus! {

/// Size of a serialized bar in bytes.
pub const BAR_SIZE: usize = 96;

/// Enriched bar record.
#[derive(Debug, Clone, Copy, PartialEq, Eq)]
pub struct Bar {
    /// Open time: u48 LE tick count.
    pub open_ts: [u8; 6],
    /// Close time: u48 LE tick count.
    pub close_ts: [u8; 6],
    /// Opening price (binary64 bit pattern).
    pub open: u64,
    /// Highest price (binary64 bit pattern).
    pub high: u64,
    /// Lowest price (binary64 bit pattern).
    pub low: u64,
    /// Closing price (binary64 bit pattern).
    pub close: u64,
    /// Cumulative bid volume.
    pub vbid: u32,
    /// Cumulative ask volume.
    pub vask: u32,
    /// Number of ingested messages.
    pub tick_count: u32,
    /// Padding of the core block.
    pub _pad: [u8; 8],
    /// Realized variance (binary32 bit pattern).
    pub realized_var: u32,
    /// Bipower variation (binary32 bit pattern).
    pub bipower_var: u32,
    /// Normalized drift (binary32 bit pattern).
    pub drift: u32,
    /// Signed order-flow imbalance (binary32 bit pattern).
    pub vol_imbalance: u32,
    /// Mean spread in basis points (binary32 bit pattern).
    pub avg_spread_bps: u32,
    /// Largest absolute log return (binary32 bit pattern).
    pub max_abs_return: u32,
    /// Mean sqrt-compressed confidence interval.
    pub avg_ci_ubp: u16,
    /// Rejected share of provider updates, scaled to 65535.
    pub reject_rate: u16,
    /// 0 = kline, 1 = renko, 2 = dib, 3 = tib.
    pub kind: u8,
    /// Reserved.
    pub _reserved: [u8; 3],
}

impl Bar {
    /// Open time as a tick count.
    pub open spec fn spec_open_mts(self) -> nat {
        le_value(self.open_ts@)
    }

    /// Close time as a tick count.
    pub open spec fn spec_close_mts(self) -> nat {
        le_value(self.close_ts@)
    }

    /// A kline bar with the given times (top 16 bits dropped), prices and
    /// volumes; the microstructure fields, padding and kind are zero.
    pub fn new_ohlcv(
        open_mts: u64,
        close_mts: u64,
        open: u64,
        high: u64,
        low: u64,
        close: u64,
        vbid: u32,
        vask: u32,
        tick_count: u32,
    ) -> (r: Self)
        ensures
            r.open_ts@ == le_bytes(open_mts as nat, 6),
            r.close_ts@ == le_bytes(close_mts as nat, 6),
            r.spec_open_mts() == open_mts as nat % u48_modulus(),
            r.spec_close_mts() == close_mts as nat % u48_modulus(),
            r.open == open && r.high == high && r.low == low && r.close == close,
            r.vbid == vbid && r.vask == vask && r.tick_count == tick_count,
            r._pad@ == Seq::new(8, |i: int| 0u8),
            r.realized_var == 0 && r.bipower_var == 0 && r.drift == 0 && r.vol_imbalance == 0,
            r.avg_spread_bps == 0 && r.max_abs_return == 0 && r.avg_ci_ubp == 0 && r.reject_rate == 0,
            r.kind == 0,
            r._reserved@ == seq![0u8, 0u8, 0u8],
    {
        let r = Self {
            open_ts: timestamp::encode_u48(open_mts),
            close_ts: timestamp::encode_u48(close_mts),
            open,
            high,
            low,
            close,
            vbid,
            vask,
            tick_count,
            _pad: [0u8; 8],
            realized_var: 0,
            bipower_var: 0,
            drift: 0,
            vol_imbalance: 0,
            avg_spread_bps: 0,
            max_abs_return: 0,
            avg_ci_ubp: 0,
            reject_rate: 0,
            kind: 0,
            _reserved: [0u8; 3],
        };
        assert(r._pad@ =~= Seq::new(8, |i: int| 0u8));
        assert(r._reserved@ =~= seq![0u8, 0u8, 0u8]);
        r
    }

    /// Open time as a tick count.
    pub fn open_mts(&self) -> (r: u64)
        ensures
            r as nat == self.spec_open_mts(),
            r <= timestamp::MAX_TICKS,
    {
        timestamp::decode_u48(&self.open_ts)
    }

    /// Close time as a tick count.
    pub fn close_mts(&self) -> (r: u64)
        ensures
            r as nat == self.spec_close_mts(),
            r <= timestamp::MAX_TICKS,
    {
        timestamp::decode_u48(&self.close_ts)
    }

    /// Open time as Unix-epoch milliseconds.
    pub fn open_time_ms(&self) -> (r: i64)
        ensures
            r == (self.spec_open_mts() * 16 + EPOCH_US) / 1000,
    {
        let mts = self.open_mts();
        proof {
            lemma_u48_decodes(mts);
        }
        timestamp::to_epoch_ms(mts)
    }

    /// Close time as Unix-epoch milliseconds.
    pub fn close_time_ms(&self) -> (r: i64)
        ensures
            r == (self.spec_close_mts() * 16 + EPOCH_US) / 1000,
    {
        let mts = self.close_mts();
        proof {
            lemma_u48_decodes(mts);
        }
        timestamp::to_epoch_ms(mts)
    }

    /// Sets the open time (top 16 bits dropped).
    pub fn set_open_mts(&mut self, mts: u64)
        ensures
            *final(self) == (Bar { open_ts: final(self).open_ts, ..*old(self) }),
            final(self).open_ts@ == le_bytes(mts as nat, 6),
            final(self).spec_open_mts() == mts as nat % u48_modulus(),
    {
        self.open_ts = timestamp::encode_u48(mts);
    }

    /// Sets the close time (top 16 bits dropped).
    pub fn set_close_mts(&mut self, mts: u64)
        ensures
            *final(self) == (Bar { close_ts: final(self).close_ts, ..*old(self) }),
            final(self).close_ts@ == le_bytes(mts as nat, 6),
            final(self).spec_close_mts() == mts as nat % u48_modulus(),
    {
        self.close_ts = timestamp::encode_u48(mts);
    }

    /// The 96 wire bytes.
    pub fn pack(&self) -> (r: [u8; 96])
        ensures
            r@ == self.wire(),
    {
        let mut v: Vec<u8> = Vec::new();
        self.encode(&mut v);
        proof {
            self.lemma_wire_len();
        }
        vec_to_array::<96>(&v)
    }

    /// Reads a bar from the start of `bytes`.
    pub fn unpack(bytes: &[u8]) -> (r: Result<Self, MitchError>)
        ensures
            bytes@.len() < 96 ==> r == Err::<Self, MitchError>(MitchError::BufferTooSmall {
                expected: 96,
                actual: bytes@.len() as usize,
            }),
            bytes@.len() >= 96 ==> r == Ok::<Self, MitchError>(record_from_wire::<Bar>(bytes@)),
            r matches Ok(b) ==> b.wire() == bytes@.subrange(0, 96),
    {
        if bytes.len() < message_sizes::BAR {
            return Err(MitchError::BufferTooSmall { expected: message_sizes::BAR, actual: bytes.len() });
        }
        let bar = Self::decode(bytes, 0);
        proof {
            lemma_record_from_wire::<Bar>(bytes@, bar);
        }
        Ok(bar)
    }

    /// Reads a bar from the start of `bytes`, which must hold at least
    /// 96 bytes (the checked form is [`Self::unpack`]).
    pub fn unpack_unchecked(bytes: &[u8]) -> (r: Self)
        requires
            bytes@.len() >= 96,
        ensures
            r == record_from_wire::<Bar>(bytes@),
            r.wire() == bytes@.subrange(0, 96),
    {
        let r = Self::decode(bytes, 0);
        proof {
            lemma_record_from_wire::<Bar>(bytes@, r);
        }
        r
    }

    /// Duration in milliseconds: close time minus open time.
    pub fn duration_ms(&self) -> (r: i64)
        ensures
            r == (self.spec_close_mts() * 16 + EPOCH_US) / 1000 - (self.spec_open_mts() * 16 + EPOCH_US) / 1000,
    {
        let close = self.close_time_ms();
        let open = self.open_time_ms();
        close - open
    }

    /// The close price is above the open price.
    pub fn is_bullish(&self) -> (r: bool)
        ensures
            r == ieee::spec_lt(self.open, self.close),
    {
        ieee::lt(self.open, self.close)
    }

    /// Total volume (`vbid + vask`).
    pub fn total_volume(&self) -> (r: u64)
        ensures
            r == self.vbid + self.vask,
    {
        self.vbid as u64 + self.vask as u64
    }

    /// Body size in bytes.
    pub fn size() -> (r: usize)
        ensures
            r == 96,
    {
        message_sizes::BAR
    }
}

impl MitchBody for Bar {
    open spec fn wire_size() -> nat {
        96
    }

    open spec fn wire(&self) -> Seq<u8> {
        self.open_ts@ + self.close_ts@ + le_bytes(self.open as nat, 8) + le_bytes(self.high as nat, 8) + le_bytes(self.low as nat, 8) + le_bytes(self.close as nat, 8) + le_bytes(self.vbid as nat, 4) + le_bytes(self.vask as nat, 4) + le_bytes(self.tick_count as nat, 4) + self._pad@ + le_bytes(self.realized_var as nat, 4) + le_bytes(self.bipower_var as nat, 4) + le_bytes(self.drift as nat, 4) + le_bytes(self.vol_imbalance as nat, 4) + le_bytes(self.avg_spread_bps as nat, 4) + le_bytes(self.max_abs_return as nat, 4) + le_bytes(self.avg_ci_ubp as nat, 2) + le_bytes(self.reject_rate as nat, 2) + seq![self.kind] + self._reserved@
    }

    fn body_size() -> (n: usize) {
        96
    }

    proof fn lemma_wire_len(&self) {
        lemma_le_bytes_len(self.open as nat, 8);
        lemma_le_bytes_len(self.high as nat, 8);
        lemma_le_bytes_len(self.low as nat, 8);
        lemma_le_bytes_len(self.close as nat, 8);
        lemma_le_bytes_len(self.vbid as nat, 4);
        lemma_le_bytes_len(self.vask as nat, 4);
        lemma_le_bytes_len(self.tick_count as nat, 4);
        lemma_le_bytes_len(self.realized_var as nat, 4);
        lemma_le_bytes_len(self.bipower_var as nat, 4);
        lemma_le_bytes_len(self.drift as nat, 4);
        lemma_le_bytes_len(self.vol_imbalance as nat, 4);
        lemma_le_bytes_len(self.avg_spread_bps as nat, 4);
        lemma_le_bytes_len(self.max_abs_return as nat, 4);
        lemma_le_bytes_len(self.avg_ci_ubp as nat, 2);
        lemma_le_bytes_len(self.reject_rate as nat, 2);
    }

    proof fn lemma_wire_injective(&self, other: &Self) {
        let (a, b) = (self.wire(), other.wire());
        lemma_le_uint(self.open as nat, 8);
        lemma_le_uint(other.open as nat, 8);
        lemma_le_uint(self.high as nat, 8);
        lemma_le_uint(other.high as nat, 8);
        lemma_le_uint(self.low as nat, 8);
        lemma_le_uint(other.low as nat, 8);
        lemma_le_uint(self.close as nat, 8);
        lemma_le_uint(other.close as nat, 8);
        lemma_le_uint(self.vbid as nat, 4);
        lemma_le_uint(other.vbid as nat, 4);
        lemma_le_uint(self.vask as nat, 4);
        lemma_le_uint(other.vask as nat, 4);
        lemma_le_uint(self.tick_count as nat, 4);
        lemma_le_uint(other.tick_count as nat, 4);
        lemma_le_uint(self.realized_var as nat, 4);
        lemma_le_uint(other.realized_var as nat, 4);
        lemma_le_uint(self.bipower_var as nat, 4);
        lemma_le_uint(other.bipower_var as nat, 4);
        lemma_le_uint(self.drift as nat, 4);
        lemma_le_uint(other.drift as nat, 4);
        lemma_le_uint(self.vol_imbalance as nat, 4);
        lemma_le_uint(other.vol_imbalance as nat, 4);
        lemma_le_uint(self.avg_spread_bps as nat, 4);
        lemma_le_uint(other.avg_spread_bps as nat, 4);
        lemma_le_uint(self.max_abs_return as nat, 4);
        lemma_le_uint(other.max_abs_return as nat, 4);
        lemma_le_uint(self.avg_ci_ubp as nat, 2);
        lemma_le_uint(other.avg_ci_ubp as nat, 2);
        lemma_le_uint(self.reject_rate as nat, 2);
        lemma_le_uint(other.reject_rate as nat, 2);
        assert(a.subrange(0, 6) =~= self.open_ts@);
        assert(b.subrange(0, 6) =~= other.open_ts@);
        assert(self.open_ts =~= other.open_ts);
        assert(a.subrange(6, 12) =~= self.close_ts@);
        assert(b.subrange(6, 12) =~= other.close_ts@);
        assert(self.close_ts =~= other.close_ts);
        assert(a.subrange(12, 20) =~= le_bytes(self.open as nat, 8));
        assert(b.subrange(12, 20) =~= le_bytes(other.open as nat, 8));
        assert(a.subrange(20, 28) =~= le_bytes(self.high as nat, 8));
        assert(b.subrange(20, 28) =~= le_bytes(other.high as nat, 8));
        assert(a.subrange(28, 36) =~= le_bytes(self.low as nat, 8));
        assert(b.subrange(28, 36) =~= le_bytes(other.low as nat, 8));
        assert(a.subrange(36, 44) =~= le_bytes(self.close as nat, 8));
        assert(b.subrange(36, 44) =~= le_bytes(other.close as nat, 8));
        assert(a.subrange(44, 48) =~= le_bytes(self.vbid as nat, 4));
        assert(b.subrange(44, 48) =~= le_bytes(other.vbid as nat, 4));
        assert(a.subrange(48, 52) =~= le_bytes(self.vask as nat, 4));
        assert(b.subrange(48, 52) =~= le_bytes(other.vask as nat, 4));
        assert(a.subrange(52, 56) =~= le_bytes(self.tick_count as nat, 4));
        assert(b.subrange(52, 56) =~= le_bytes(other.tick_count as nat, 4));
        assert(a.subrange(56, 64) =~= self._pad@);
        assert(b.subrange(56, 64) =~= other._pad@);
        assert(self._pad =~= other._pad);
        assert(a.subrange(64, 68) =~= le_bytes(self.realized_var as nat, 4));
        assert(b.subrange(64, 68) =~= le_bytes(other.realized_var as nat, 4));
        assert(a.subrange(68, 72) =~= le_bytes(self.bipower_var as nat, 4));
        assert(b.subrange(68, 72) =~= le_bytes(other.bipower_var as nat, 4));
        assert(a.subrange(72, 76) =~= le_bytes(self.drift as nat, 4));
        assert(b.subrange(72, 76) =~= le_bytes(other.drift as nat, 4));
        assert(a.subrange(76, 80) =~= le_bytes(self.vol_imbalance as nat, 4));
        assert(b.subrange(76, 80) =~= le_bytes(other.vol_imbalance as nat, 4));
        assert(a.subrange(80, 84) =~= le_bytes(self.avg_spread_bps as nat, 4));
        assert(b.subrange(80, 84) =~= le_bytes(other.avg_spread_bps as nat, 4));
        assert(a.subrange(84, 88) =~= le_bytes(self.max_abs_return as nat, 4));
        assert(b.subrange(84, 88) =~= le_bytes(other.max_abs_return as nat, 4));
        assert(a.subrange(88, 90) =~= le_bytes(self.avg_ci_ubp as nat, 2));
        assert(b.subrange(88, 90) =~= le_bytes(other.avg_ci_ubp as nat, 2));
        assert(a.subrange(90, 92) =~= le_bytes(self.reject_rate as nat, 2));
        assert(b.subrange(90, 92) =~= le_bytes(other.reject_rate as nat, 2));
        assert(a[92] == self.kind && b[92] == other.kind);
        assert(a.subrange(93, 96) =~= self._reserved@);
        assert(b.subrange(93, 96) =~= other._reserved@);
        assert(self._reserved =~= other._reserved);
    }

    fn encode(&self, out: &mut Vec<u8>) {
        let ghost before = out@;
        push_bytes(out, self.open_ts.as_slice());
        push_bytes(out, self.close_ts.as_slice());
        push_le(out, self.open, 8);
        push_le(out, self.high, 8);
        push_le(out, self.low, 8);
        push_le(out, self.close, 8);
        push_le(out, self.vbid as u64, 4);
        push_le(out, self.vask as u64, 4);
        push_le(out, self.tick_count as u64, 4);
        push_bytes(out, self._pad.as_slice());
        push_le(out, self.realized_var as u64, 4);
        push_le(out, self.bipower_var as u64, 4);
        push_le(out, self.drift as u64, 4);
        push_le(out, self.vol_imbalance as u64, 4);
        push_le(out, self.avg_spread_bps as u64, 4);
        push_le(out, self.max_abs_return as u64, 4);
        push_le(out, self.avg_ci_ubp as u64, 2);
        push_le(out, self.reject_rate as u64, 2);
        out.push(self.kind);
        push_bytes(out, self._reserved.as_slice());
        assert(out@ =~= before + self.wire());
    }

    fn decode(bytes: &[u8], start: usize) -> (r: Self) {
        let _len = bytes.len();
        let open_ts = read_array::<6>(bytes, start);
        let close_ts = read_array::<6>(bytes, start + 6);
        let open = read_le(bytes, start + 12, 8);
        let high = read_le(bytes, start + 20, 8);
        let low = read_le(bytes, start + 28, 8);
        let close = read_le(bytes, start + 36, 8);
        let vbid = read_le(bytes, start + 44, 4);
        let vask = read_le(bytes, start + 48, 4);
        let tick_count = read_le(bytes, start + 52, 4);
        let _pad = read_array::<8>(bytes, start + 56);
        let realized_var = read_le(bytes, start + 64, 4);
        let bipower_var = read_le(bytes, start + 68, 4);
        let drift = read_le(bytes, start + 72, 4);
        let vol_imbalance = read_le(bytes, start + 76, 4);
        let avg_spread_bps = read_le(bytes, start + 80, 4);
        let max_abs_return = read_le(bytes, start + 84, 4);
        let avg_ci_ubp = read_le(bytes, start + 88, 2);
        let reject_rate = read_le(bytes, start + 90, 2);
        let kind = bytes[start + 92];
        let _reserved = read_array::<3>(bytes, start + 93);
        proof {
            lemma_le_read(bytes@.subrange(start + 12, start + 20));
            lemma_le_read(bytes@.subrange(start + 20, start + 28));
            lemma_le_read(bytes@.subrange(start + 28, start + 36));
            lemma_le_read(bytes@.subrange(start + 36, start + 44));
            lemma_le_read(bytes@.subrange(start + 44, start + 48));
            lemma_le_read(bytes@.subrange(start + 48, start + 52));
            lemma_le_read(bytes@.subrange(start + 52, start + 56));
            lemma_le_read(bytes@.subrange(start + 64, start + 68));
            lemma_le_read(bytes@.subrange(start + 68, start + 72));
            lemma_le_read(bytes@.subrange(start + 72, start + 76));
            lemma_le_read(bytes@.subrange(start + 76, start + 80));
            lemma_le_read(bytes@.subrange(start + 80, start + 84));
            lemma_le_read(bytes@.subrange(start + 84, start + 88));
            lemma_le_read(bytes@.subrange(start + 88, start + 90));
            lemma_le_read(bytes@.subrange(start + 90, start + 92));
        }
        let r = Self { open_ts, close_ts, open, high, low, close, vbid: vbid as u32, vask: vask as u32, tick_count: tick_count as u32, _pad, realized_var: realized_var as u32, bipower_var: bipower_var as u32, drift: drift as u32, vol_imbalance: vol_imbalance as u32, avg_spread_bps: avg_spread_bps as u32, max_abs_return: max_abs_return as u32, avg_ci_ubp: avg_ci_ubp as u16, reject_rate: reject_rate as u16, kind, _reserved };
        assert(r.wire() =~= bytes@.subrange(start as int, start + 96));
        r
    }
}

} // verus!
