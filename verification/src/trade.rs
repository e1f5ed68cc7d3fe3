//! Trade message body (`t`, 24 bytes): one executed transaction.
//!
//! | Field    | Offset | Size | Type     | Description                            |
//! |----------|--------|------|----------|----------------------------------------|
//! | Ticker   | 0      | 8    | `u64`    | 8-byte ticker identifier               |
//! | Price    | 8      | 8    | `f64`    | Execution price                        |
//! | Qty      | 16     | 4    | `u32`    | Executed volume/quantity               |
//! | Trade ID | 20     | 3    | `[u8;3]` | Unique trade identifier (u24 LE)       |
//! | Side     | 23     | 1    | `u8`     | 0: Buy, 1: Sell                        |
//!
//! The price is held as the bit pattern of its binary64 value, which is how
//! it travels on the wire; see [`crate::ieee`] for the comparisons on it.

use vstd::prelude::*;

use crate::body::{lemma_record_from_wire, record_from_wire, MitchBody};
use crate::bytes::{
    le_bytes, le_value, lemma_le_bytes_len, lemma_le_read, lemma_le_uint, lemma_le_value_of_bytes,
    lemma_pow256_values, push_bytes, push_le, read_array, read_le, vec_to_array,
};
use crate::common::{field_error, message_sizes, MitchError, OrderSide};
use crate::ieee;

verus! {

/// A trade with these fields passes validation: nonzero ticker, price above
/// zero (a NaN price is not above zero, so it fails), nonzero quantity
/// and nonzero trade id.
pub open spec fn valid_parts(ticker: u64, price: u64, qty: u32, trade_id: nat) -> bool {
    &&& ticker != 0
    &&& ieee::spec_lt(0, price)
    &&& qty != 0
    &&& trade_id != 0
}

/// `r` reports the first rule that a trade with these fields breaks.
pub open spec fn validation_of_parts<T>(ticker: u64, price: u64, qty: u32, trade_id: nat, r: Result<T, MitchError>) -> bool {
    &&& ticker == 0 ==> field_error(r, "ticker cannot be zero"@)
    &&& ticker != 0 && !ieee::spec_lt(0, price) ==> field_error(r, "price must be positive"@)
    &&& ticker != 0 && ieee::spec_lt(0, price) && qty == 0 ==> field_error(r, "qty must be positive"@)
    &&& ticker != 0 && ieee::spec_lt(0, price) && qty != 0 && trade_id == 0
        ==> field_error(r, "trade_id cannot be zero"@)
}

/// Trade execution data.
#[derive(Debug, Clone, Copy, PartialEq, Eq)]
pub struct Trade {
    /// Ticker identifier.
    pub ticker: u64,
    /// Execution price: bit pattern of a binary64 value.
    pub price: u64,
    /// Executed volume.
    pub qty: u32,
    /// Trade identifier as a little-endian u24.
    pub trade_id: [u8; 3],
    /// Side: 0 = buy, 1 = sell.
    pub side: u8,
}

impl Trade {
    /// The trade identifier held in the three id bytes.
    pub open spec fn spec_trade_id(self) -> nat {
        le_value(self.trade_id@)
    }

    /// The conditions `validate` checks.
    pub open spec fn valid(self) -> bool {
        valid_parts(self.ticker, self.price, self.qty, self.spec_trade_id())
    }

    /// Creates a trade; `trade_id` is stored as a little-endian u24 (its top
    /// byte is dropped) and the result is validated.
    pub fn new(ticker: u64, price: u64, qty: u32, trade_id: u32, side: OrderSide) -> (r: Result<Self, MitchError>)
        ensures
            r is Ok <==> valid_parts(ticker, price, qty, trade_id as nat % 0x100_0000),
            validation_of_parts(ticker, price, qty, trade_id as nat % 0x100_0000, r),
            r matches Ok(t) ==> (t.ticker == ticker && t.price == price && t.qty == qty
                && t.trade_id@ == le_bytes(trade_id as nat, 3) && t.side == side.spec_code()
                && t.spec_trade_id() == trade_id as nat % 0x100_0000),
    {
        let mut trade = Self { ticker, price, qty, trade_id: [0u8; 3], side: side.code() };
        trade.set_trade_id(trade_id);
        trade.validate()?;
        Ok(trade)
    }

    /// `r` is what `validate` answers for `t`: the first rule that `t` breaks.
    pub open spec fn validation_result<T>(t: Trade, r: Result<T, MitchError>) -> bool {
        validation_of_parts(t.ticker, t.price, t.qty, t.spec_trade_id(), r)
    }

    /// The trade identifier (a little-endian u24).
    pub fn get_trade_id(&self) -> (r: u32)
        ensures
            r as nat == self.spec_trade_id(),
            r < 0x100_0000,
    {
        let b = self.trade_id;
        let s = b.as_slice();
        let r = read_le(s, 0, 3);
        proof {
            assert(s@.subrange(0, 3) =~= b@);
            lemma_le_read(b@);
            lemma_pow256_values();
        }
        r as u32
    }

    /// Stores the low 24 bits of `id` as the trade identifier.
    pub fn set_trade_id(&mut self, id: u32)
        ensures
            final(self).trade_id@ == le_bytes(id as nat, 3),
            final(self).spec_trade_id() == id as nat % 0x100_0000,
            final(self).ticker == old(self).ticker,
            final(self).price == old(self).price,
            final(self).qty == old(self).qty,
            final(self).side == old(self).side,
    {
        let mut v: Vec<u8> = Vec::new();
        push_le(&mut v, id as u64, 3);
        proof {
            lemma_le_bytes_len(id as nat, 3);
            lemma_le_value_of_bytes(id as nat, 3);
            lemma_pow256_values();
        }
        self.trade_id = vec_to_array::<3>(&v);
    }

    /// The 24 wire bytes.
    pub fn pack(&self) -> (r: [u8; 24])
        ensures
            r@ == self.wire(),
    {
        let mut v: Vec<u8> = Vec::new();
        self.encode(&mut v);
        proof {
            self.lemma_wire_len();
        }
        vec_to_array::<24>(&v)
    }

    /// Reads a trade from the start of `bytes` and validates it.
    pub fn unpack(bytes: &[u8]) -> (r: Result<Self, MitchError>)
        ensures
            bytes@.len() < 24 ==> r == Err::<Self, MitchError>(MitchError::BufferTooSmall {
                expected: 24,
                actual: bytes@.len() as usize,
            }),
            bytes@.len() >= 24 ==> ({
                let t = record_from_wire::<Trade>(bytes@);
                &&& r is Ok <==> t.valid()
                &&& Self::validation_result(t, r)
            }),
            r matches Ok(t) ==> t.wire() == bytes@.subrange(0, 24),
    {
        if bytes.len() < message_sizes::TRADE {
            return Err(MitchError::BufferTooSmall { expected: message_sizes::TRADE, actual: bytes.len() });
        }
        let trade = Self::decode(bytes, 0);
        proof {
            lemma_record_from_wire::<Trade>(bytes@, trade);
        }
        trade.validate()?;
        Ok(trade)
    }

    /// Checks the ticker, price, quantity and trade id.
    pub fn validate(&self) -> (r: Result<(), MitchError>)
        ensures
            r is Ok <==> self.valid(),
            Self::validation_result(*self, r),
    {
        if self.ticker == 0 {
            return Err(MitchError::InvalidFieldValue("ticker cannot be zero".to_string()));
        }
        if !ieee::lt(0, self.price) {
            return Err(MitchError::InvalidFieldValue("price must be positive".to_string()));
        }
        if self.qty == 0 {
            return Err(MitchError::InvalidFieldValue("qty must be positive".to_string()));
        }
        if self.get_trade_id() == 0 {
            return Err(MitchError::InvalidFieldValue("trade_id cannot be zero".to_string()));
        }
        Ok(())
    }

    /// Body size in bytes.
    pub fn size() -> (r: usize)
        ensures
            r == 24,
    {
        message_sizes::TRADE
    }

    /// The side: 1 is a sell, any other value a buy.
    pub fn get_side(&self) -> (r: OrderSide)
        ensures
            r == (if self.side == 1 { OrderSide::Sell } else { OrderSide::Buy }),
    {
        if self.side == 1 {
            OrderSide::Sell
        } else {
            OrderSide::Buy
        }
    }

    /// The side byte is 0.
    pub fn is_buy(&self) -> (r: bool)
        ensures
            r == (self.side == 0),
    {
        self.side == 0
    }

    /// The side byte is 1.
    pub fn is_sell(&self) -> (r: bool)
        ensures
            r == (self.side == 1),
    {
        self.side == 1
    }
}

impl Default for Trade {
    /// The all-zero trade.
    fn default() -> (r: Self)
        ensures
            r.ticker == 0 && r.price == 0 && r.qty == 0 && r.side == 0,
            r.trade_id@ == seq![0u8, 0u8, 0u8],
    {
        let r = Self { ticker: 0, price: 0, qty: 0, trade_id: [0u8; 3], side: 0 };
        assert(r.trade_id@ =~= seq![0u8, 0u8, 0u8]);
        r
    }
}

impl MitchBody for Trade {
    open spec fn wire_size() -> nat {
        24
    }

    open spec fn wire(&self) -> Seq<u8> {
        le_bytes(self.ticker as nat, 8) + le_bytes(self.price as nat, 8) + le_bytes(self.qty as nat, 4)
            + self.trade_id@ + seq![self.side]
    }

    fn body_size() -> (n: usize) {
        24
    }

    proof fn lemma_wire_len(&self) {
        lemma_le_bytes_len(self.ticker as nat, 8);
        lemma_le_bytes_len(self.price as nat, 8);
        lemma_le_bytes_len(self.qty as nat, 4);
    }

    proof fn lemma_wire_injective(&self, other: &Self) {
        lemma_le_uint(self.ticker as nat, 8);
        lemma_le_uint(other.ticker as nat, 8);
        lemma_le_uint(self.price as nat, 8);
        lemma_le_uint(other.price as nat, 8);
        lemma_le_uint(self.qty as nat, 4);
        lemma_le_uint(other.qty as nat, 4);
        let (a, b) = (self.wire(), other.wire());
        assert(a.subrange(0, 8) =~= le_bytes(self.ticker as nat, 8));
        assert(b.subrange(0, 8) =~= le_bytes(other.ticker as nat, 8));
        assert(a.subrange(8, 16) =~= le_bytes(self.price as nat, 8));
        assert(b.subrange(8, 16) =~= le_bytes(other.price as nat, 8));
        assert(a.subrange(16, 20) =~= le_bytes(self.qty as nat, 4));
        assert(b.subrange(16, 20) =~= le_bytes(other.qty as nat, 4));
        assert(a.subrange(20, 23) =~= self.trade_id@);
        assert(b.subrange(20, 23) =~= other.trade_id@);
        assert(self.trade_id =~= other.trade_id);
        assert(a[23] == self.side && b[23] == other.side);
    }

    fn encode(&self, out: &mut Vec<u8>) {
        let ghost before = out@;
        push_le(out, self.ticker, 8);
        push_le(out, self.price, 8);
        push_le(out, self.qty as u64, 4);
        push_bytes(out, self.trade_id.as_slice());
        out.push(self.side);
        assert(out@ =~= before + self.wire());
    }

    fn decode(bytes: &[u8], start: usize) -> (r: Self) {
        let _len = bytes.len();
        let ticker = read_le(bytes, start, 8);
        let price = read_le(bytes, start + 8, 8);
        let qty = read_le(bytes, start + 16, 4);
        let trade_id = read_array::<3>(bytes, start + 20);
        let side = bytes[start + 23];
        proof {
            lemma_le_read(bytes@.subrange(start as int, start + 8));
            lemma_le_read(bytes@.subrange(start + 8, start + 16));
            lemma_le_read(bytes@.subrange(start + 16, start + 20));
        }
        let r = Self { ticker, price, qty: qty as u32, trade_id, side };
        assert(r.wire() =~= bytes@.subrange(start as int, start + 24));
        r
    }
}

} // verus!
