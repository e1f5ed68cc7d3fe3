//! OrderBook message body (`b`, 2072 bytes): a depth snapshot aggregated into
//! 128 bins per side.
//!
//! ```text
//! Offset | Field             | Type      | Size | Description
//! -------|-------------------|-----------|------|---------------------------
//! 0      | ticker            | u64       | 8    | Ticker identifier
//! 8      | mid_price         | f64       | 8    | Calculated mid price
//! 16     | bin_aggregator    | u8        | 1    | Aggregation function used
//! 17     | _pad              | [u8; 7]   | 7    | Padding for alignment
//! 24     | bids              | [Bin; 128]| 1024 | Bid levels (aggregated)
//! 1048   | asks              | [Bin; 128]| 1024 | Ask levels (aggregated)
//! ```
//!
//! The mid price is held as the bit pattern of its binary64 value.

use vstd::prelude::*;

use crate::body::{
    decoded_from, lemma_record_from_wire, lemma_wire_concat, lemma_wire_concat_of_decoded,
    law_batch_roundtrip, pack_batch, record_from_wire, slot, wire_concat, MitchBody,
};
use crate::bytes::{
    le_bytes, lemma_le_bytes_len, lemma_le_read, lemma_le_uint, push_bytes, push_le, read_array,
    read_le, vec_to_array,
};
use crate::common::{field_error, message_sizes, MitchError};
use crate::constants::BinAggregator;
use crate::ieee;

verus! {

/// Aggregated price-level bin (8 bytes: order count then volume, u32 LE).
#[derive(Debug, Clone, Copy, PartialEq, Eq)]
pub struct Bin {
    /// Number of orders at this level.
    pub order_count: u32,
    /// Aggregated volume at this level.
    pub volume: u32,
}

impl Bin {
    /// Creates a bin.
    pub fn new(order_count: u32, volume: u32) -> (r: Self)
        ensures
            r == (Bin { order_count, volume }),
    {
        Self { order_count, volume }
    }

    /// The bin holds no volume.
    pub fn is_empty(&self) -> (r: bool)
        ensures
            r == (self.volume == 0),
    {
        self.volume == 0
    }
}

impl Default for Bin {
    /// The empty bin: no orders, no volume.
    fn default() -> (r: Self)
        ensures
            r == (Bin { order_count: 0, volume: 0 }),
    {
        Bin { order_count: 0, volume: 0 }
    }
}

impl MitchBody for Bin {
    open spec fn wire_size() -> nat {
        8
    }

    open spec fn wire(&self) -> Seq<u8> {
        le_bytes(self.order_count as nat, 4) + le_bytes(self.volume as nat, 4)
    }

    fn body_size() -> (n: usize) {
        8
    }

    proof fn lemma_wire_len(&self) {
        lemma_le_bytes_len(self.order_count as nat, 4);
        lemma_le_bytes_len(self.volume as nat, 4);
    }

    proof fn lemma_wire_injective(&self, other: &Self) {
        lemma_le_uint(self.order_count as nat, 4);
        lemma_le_uint(other.order_count as nat, 4);
        lemma_le_uint(self.volume as nat, 4);
        lemma_le_uint(other.volume as nat, 4);
        let (a, b) = (self.wire(), other.wire());
        assert(a.subrange(0, 4) =~= le_bytes(self.order_count as nat, 4));
        assert(b.subrange(0, 4) =~= le_bytes(other.order_count as nat, 4));
        assert(a.subrange(4, 8) =~= le_bytes(self.volume as nat, 4));
        assert(b.subrange(4, 8) =~= le_bytes(other.volume as nat, 4));
    }

    fn encode(&self, out: &mut Vec<u8>) {
        let ghost before = out@;
        push_le(out, self.order_count as u64, 4);
        push_le(out, self.volume as u64, 4);
        assert(out@ =~= before + self.wire());
    }

    fn decode(bytes: &[u8], start: usize) -> (r: Self) {
        let _len = bytes.len();
        let order_count = read_le(bytes, start, 4);
        let volume = read_le(bytes, start + 4, 4);
        proof {
            lemma_le_read(bytes@.subrange(start as int, start + 4));
            lemma_le_read(bytes@.subrange(start + 4, start + 8));
        }
        let r = Self { order_count: order_count as u32, volume: volume as u32 };
        assert(r.wire() =~= bytes@.subrange(start as int, start + 8));
        r
    }
}

/// Total volume of a sequence of bins.
pub open spec fn sum_volumes(bins: Seq<Bin>) -> nat
    decreases bins.len(),
{
    if bins.len() == 0 {
        0
    } else {
        sum_volumes(bins.drop_last()) + bins.last().volume as nat
    }
}

/// The aggregator named by an id (ids above 3 give the default).
pub open spec fn spec_aggregator(id: u8) -> BinAggregator {
    if id == 1 {
        BinAggregator::DEFAULT_LINGEOFLAT
    } else if id == 2 {
        BinAggregator::DEFAULT_BILINGEO
    } else if id == 3 {
        BinAggregator::DEFAULT_TRILINEAR
    } else {
        BinAggregator::DEFAULT_LINGAUSSIAN
    }
}

/// Aggregator id `i` of the protocol's table (0 lingaussian, 1 lingeoflat,
/// 2 bilingeo, 3 trilinear) names row `i`; every other id gives the default,
/// lingaussian.
pub proof fn law_aggregator_table(id: u8)
    ensures
        ({
            let t = seq![
                BinAggregator::DEFAULT_LINGAUSSIAN,
                BinAggregator::DEFAULT_LINGEOFLAT,
                BinAggregator::DEFAULT_BILINGEO,
                BinAggregator::DEFAULT_TRILINEAR,
            ];
            &&& id < 4 ==> spec_aggregator(id) == t[id as int]
            &&& id >= 4 ==> spec_aggregator(id) == BinAggregator::DEFAULT_LINGAUSSIAN
        }),
{
}

/// OrderBook message.
#[derive(Debug, Clone, Copy, PartialEq, Eq)]
pub struct OrderBook {
    /// Ticker identifier.
    pub ticker: u64,
    /// Mid price (bit pattern of a binary64 value).
    pub mid_price: u64,
    /// Bin aggregator id (0-3).
    pub bin_aggregator: u8,
    /// Padding.
    pub _pad: [u8; 7],
    /// Bid bins, ascending distance below mid.
    pub bids: [Bin; 128],
    /// Ask bins, ascending distance above mid.
    pub asks: [Bin; 128],
}

/// Sum of the volumes of 128 bins.
fn total_volume_of(bins: &[Bin; 128]) -> (r: u64)
    ensures
        r as nat == sum_volumes(bins@),
{
    let mut total: u64 = 0;
    let mut i: usize = 0;
    while i < 128
        invariant
            i <= 128,
            bins@.len() == 128,
            total as nat == sum_volumes(bins@.take(i as int)),
            total <= i * 0xFFFF_FFFF,
        decreases 128 - i,
    {
        proof {
            assert(bins@.take(i + 1).drop_last() =~= bins@.take(i as int));
        }
        total = total + bins[i].volume as u64;
        i = i + 1;
    }
    proof {
        assert(bins@.take(128) =~= bins@);
    }
    total
}

/// Reads 128 bins from the bytes starting at `start`.
fn decode_bins(bytes: &[u8], start: usize) -> (r: [Bin; 128])
    requires
        start + 1024 <= bytes@.len(),
    ensures
        wire_concat(r@) == bytes@.subrange(start as int, start + 1024),
{
    let _len = bytes.len();
    let mut bins = [Bin { order_count: 0, volume: 0 }; 128];
    let ghost area = bytes@.subrange(start as int, start + 1024);
    let mut i: usize = 0;
    while i < 128
        invariant
            i <= 128,
            start + 1024 <= bytes@.len(),
            _len == bytes@.len(),
            area == bytes@.subrange(start as int, start + 1024),
            bins@.len() == 128,
            forall|j: int| 0 <= j < i ==> #[trigger] bins@[j].wire() == slot::<Bin>(area, j),
        decreases 128 - i,
    {
        let b = Bin::decode(bytes, start + 8 * i);
        proof {
            assert(slot::<Bin>(area, i as int) =~= bytes@.subrange(start + 8 * i, start + 8 * i + 8));
        }
        bins[i] = b;
        i = i + 1;
    }
    proof {
        assert(decoded_from(bins@, area));
        lemma_wire_concat_of_decoded(bins@, area);
    }
    bins
}

impl OrderBook {
    /// Creates an order book (padding zeroed).
    pub fn new(ticker: u64, mid_price: u64, bin_aggregator: u8, bids: [Bin; 128], asks: [Bin; 128]) -> (r: Self)
        ensures
            r.ticker == ticker,
            r.mid_price == mid_price,
            r.bin_aggregator == bin_aggregator,
            r._pad@ == Seq::new(7, |i: int| 0u8),
            r.bids == bids,
            r.asks == asks,
    {
        let r = Self { ticker, mid_price, bin_aggregator, _pad: [0u8; 7], bids, asks };
        assert(r._pad@ =~= Seq::new(7, |i: int| 0u8));
        r
    }

    /// The 2072 wire bytes.
    pub fn pack(&self) -> (r: [u8; 2072])
        ensures
            r@ == self.wire(),
    {
        let mut v: Vec<u8> = Vec::new();
        self.encode(&mut v);
        proof {
            self.lemma_wire_len();
        }
        vec_to_array::<2072>(&v)
    }

    /// Reads an order book from the start of `bytes`.
    pub fn unpack(bytes: &[u8]) -> (r: Result<Self, MitchError>)
        ensures
            bytes@.len() < 2072 ==> r == Err::<Self, MitchError>(MitchError::BufferTooSmall {
                expected: 2072,
                actual: bytes@.len() as usize,
            }),
            bytes@.len() >= 2072 ==> r == Ok::<Self, MitchError>(record_from_wire::<OrderBook>(bytes@)),
            r matches Ok(b) ==> b.wire() == bytes@.subrange(0, 2072),
    {
        if bytes.len() < message_sizes::ORDER_BOOK {
            return Err(MitchError::BufferTooSmall { expected: message_sizes::ORDER_BOOK, actual: bytes.len() });
        }
        let book = Self::decode(bytes, 0);
        proof {
            lemma_record_from_wire::<OrderBook>(bytes@, book);
        }
        Ok(book)
    }

    /// Reads an order book from the start of `bytes`, which must hold at least
    /// 2072 bytes (the checked form is [`Self::unpack`]).
    pub fn unpack_unchecked(bytes: &[u8]) -> (r: Self)
        requires
            bytes@.len() >= 2072,
        ensures
            r == record_from_wire::<OrderBook>(bytes@),
            r.wire() == bytes@.subrange(0, 2072),
    {
        let r = Self::decode(bytes, 0);
        proof {
            lemma_record_from_wire::<OrderBook>(bytes@, r);
        }
        r
    }

    /// Total volume over the bid bins.
    pub fn total_bid_volume(&self) -> (r: u64)
        ensures
            r as nat == sum_volumes(self.bids@),
    {
        total_volume_of(&self.bids)
    }

    /// Total volume over the ask bins.
    pub fn total_ask_volume(&self) -> (r: u64)
        ensures
            r as nat == sum_volumes(self.asks@),
    {
        total_volume_of(&self.asks)
    }

    /// The bin aggregator (unknown ids give `DEFAULT_LINGAUSSIAN`).
    pub fn aggregator_type(&self) -> (r: BinAggregator)
        ensures
            r == spec_aggregator(self.bin_aggregator),
    {
        match self.bin_aggregator {
            0 => BinAggregator::DEFAULT_LINGAUSSIAN,
            1 => BinAggregator::DEFAULT_LINGEOFLAT,
            2 => BinAggregator::DEFAULT_BILINGEO,
            3 => BinAggregator::DEFAULT_TRILINEAR,
            _ => BinAggregator::DEFAULT_LINGAUSSIAN,
        }
    }

    /// Checks that the mid price is above zero and the aggregator id at most 3.
    pub fn validate(&self) -> (r: Result<(), MitchError>)
        ensures
            r is Ok <==> (ieee::spec_lt(0, self.mid_price) && self.bin_aggregator <= 3),
            !ieee::spec_lt(0, self.mid_price) ==> field_error(r, "mid_price"@),
            ieee::spec_lt(0, self.mid_price) && self.bin_aggregator > 3 ==> field_error(r, "bin_aggregator"@),
    {
        if !ieee::lt(0, self.mid_price) {
            return Err(MitchError::InvalidFieldValue("mid_price".to_string()));
        }
        if self.bin_aggregator > 3 {
            return Err(MitchError::InvalidFieldValue("bin_aggregator".to_string()));
        }
        Ok(())
    }

    /// Body size in bytes.
    pub fn size() -> (r: usize)
        ensures
            r == 2072,
    {
        message_sizes::ORDER_BOOK
    }
}

impl MitchBody for OrderBook {
    open spec fn wire_size() -> nat {
        2072
    }

    open spec fn wire(&self) -> Seq<u8> {
        le_bytes(self.ticker as nat, 8) + le_bytes(self.mid_price as nat, 8) + seq![self.bin_aggregator]
            + self._pad@ + wire_concat(self.bids@) + wire_concat(self.asks@)
    }

    fn body_size() -> (n: usize) {
        2072
    }

    proof fn lemma_wire_len(&self) {
        lemma_le_bytes_len(self.ticker as nat, 8);
        lemma_le_bytes_len(self.mid_price as nat, 8);
        lemma_wire_concat(self.bids@);
        lemma_wire_concat(self.asks@);
    }

    proof fn lemma_wire_injective(&self, other: &Self) {
        lemma_le_uint(self.ticker as nat, 8);
        lemma_le_uint(other.ticker as nat, 8);
        lemma_le_uint(self.mid_price as nat, 8);
        lemma_le_uint(other.mid_price as nat, 8);
        lemma_wire_concat(self.bids@);
        lemma_wire_concat(self.asks@);
        lemma_wire_concat(other.bids@);
        lemma_wire_concat(other.asks@);
        let (a, b) = (self.wire(), other.wire());
        assert(a.subrange(0, 8) =~= le_bytes(self.ticker as nat, 8));
        assert(b.subrange(0, 8) =~= le_bytes(other.ticker as nat, 8));
        assert(a.subrange(8, 16) =~= le_bytes(self.mid_price as nat, 8));
        assert(b.subrange(8, 16) =~= le_bytes(other.mid_price as nat, 8));
        assert(a[16] == self.bin_aggregator && b[16] == other.bin_aggregator);
        assert(a.subrange(17, 24) =~= self._pad@);
        assert(b.subrange(17, 24) =~= other._pad@);
        assert(a.subrange(24, 1048) =~= wire_concat(self.bids@));
        assert(b.subrange(24, 1048) =~= wire_concat(other.bids@));
        assert(a.subrange(1048, 2072) =~= wire_concat(self.asks@));
        assert(b.subrange(1048, 2072) =~= wire_concat(other.asks@));
        law_batch_roundtrip(self.bids@, other.bids@);
        law_batch_roundtrip(self.asks@, other.asks@);
        assert(self._pad =~= other._pad);
        assert(self.bids =~= other.bids);
        assert(self.asks =~= other.asks);
    }

    fn encode(&self, out: &mut Vec<u8>) {
        let ghost before = out@;
        push_le(out, self.ticker, 8);
        push_le(out, self.mid_price, 8);
        out.push(self.bin_aggregator);
        push_bytes(out, self._pad.as_slice());
        let bids = pack_batch(self.bids.as_slice());
        push_bytes(out, bids.as_slice());
        let asks = pack_batch(self.asks.as_slice());
        push_bytes(out, asks.as_slice());
        assert(out@ =~= before + self.wire());
    }

    fn decode(bytes: &[u8], start: usize) -> (r: Self) {
        let _len = bytes.len();
        let ticker = read_le(bytes, start, 8);
        let mid_price = read_le(bytes, start + 8, 8);
        let bin_aggregator = bytes[start + 16];
        let pad = read_array::<7>(bytes, start + 17);
        let bids = decode_bins(bytes, start + 24);
        let asks = decode_bins(bytes, start + 1048);
        proof {
            lemma_le_read(bytes@.subrange(start as int, start + 8));
            lemma_le_read(bytes@.subrange(start + 8, start + 16));
        }
        let r = Self { ticker, mid_price, bin_aggregator, _pad: pad, bids, asks };
        assert(r.wire() =~= bytes@.subrange(start as int, start + 2072));
        r
    }
}

} // verus!
