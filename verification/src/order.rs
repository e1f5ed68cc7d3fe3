//! Order message body (`o`, 32 bytes): an order lifecycle event.
//!
//! ```text
//! Offset | Field         | Size | Type    | Description
//! -------|---------------|------|---------|--------------------------------------
//! 0      | ticker        | 8    | u64 LE  | Ticker identifier
//! 8      | order_id      | 4    | u32 LE  | Order identifier
//! 12     | price         | 8    | f64 LE  | Order price
//! 20     | qty           | 4    | u32 LE  | Order quantity
//! 24     | type_and_side | 1    | u8      | [0]=side (1b), [7:1]=order type (7b)
//! 25     | expiry        | 6    | u48 LE  | Expiry ms (Unix epoch milliseconds; 0 = GTC)
//! 31     | _pad          | 1    | [u8; 1] | Alignment to 32B boundary
//! ```
//!
//! The price is held as the bit pattern of its binary64 value.

use vstd::prelude::*;

use crate::body::{lemma_record_from_wire, record_from_wire, MitchBody};
use crate::bytes::{
    le_bytes, le_value, lemma_le_bytes_len, lemma_le_read, lemma_le_uint, push_bytes, push_le,
    read_array, read_le, vec_to_array,
};
use crate::common::{
    combine_type_and_side, extract_order_side, extract_order_type, field_error, message_sizes,
    spec_combine_type_and_side, spec_extract_order_side, spec_extract_order_type, MitchError,
    OrderSide, OrderType,
};
use crate::ieee;
use crate::timestamp::{decode_u48, encode_u48, u48_modulus};

verus! {

/// An order with these fields passes validation: nonzero ticker and order id,
/// and, unless it is a cancel, a price above zero and a nonzero quantity.
pub open spec fn valid_parts(ticker: u64, order_id: u32, price: u64, qty: u32, order_type: OrderType) -> bool {
    &&& ticker != 0
    &&& order_id != 0
    &&& order_type != OrderType::Cancel ==> ieee::spec_lt(0, price) && qty != 0
}

/// `r` reports the first rule that an order with these fields breaks.
pub open spec fn validation_of_parts<T>(
    ticker: u64,
    order_id: u32,
    price: u64,
    qty: u32,
    order_type: OrderType,
    r: Result<T, MitchError>,
) -> bool {
    let priced = order_type != OrderType::Cancel;
    &&& ticker == 0 ==> field_error(r, "ticker cannot be zero"@)
    &&& ticker != 0 && order_id == 0 ==> field_error(r, "order_id cannot be zero"@)
    &&& ticker != 0 && order_id != 0 && priced && !ieee::spec_lt(0, price)
        ==> field_error(r, "price must be positive for this order type"@)
    &&& ticker != 0 && order_id != 0 && priced && ieee::spec_lt(0, price) && qty == 0
        ==> field_error(r, "qty must be positive for this order type"@)
}

/// Order lifecycle event.
#[derive(Debug, Clone, Copy, PartialEq, Eq)]
pub struct Order {
    /// Ticker identifier.
    pub ticker: u64,
    /// Order identifier.
    pub order_id: u32,
    /// Order price: bit pattern of a binary64 value.
    pub price: u64,
    /// Order quantity.
    pub qty: u32,
    /// Bit 0: side; bits 1-7: order type.
    pub type_and_side: u8,
    /// Expiry as a u48 little-endian count of Unix-epoch milliseconds (0 = GTC).
    pub expiry: [u8; 6],
    /// Padding.
    pub _pad: [u8; 1],
}

impl Order {
    /// The expiry in milliseconds.
    pub open spec fn spec_expiry(self) -> nat {
        le_value(self.expiry@)
    }

    /// The order type held in the combined byte.
    pub open spec fn spec_order_type(self) -> OrderType {
        spec_extract_order_type(self.type_and_side)
    }

    /// The conditions `validate` checks.
    pub open spec fn valid(self) -> bool {
        valid_parts(self.ticker, self.order_id, self.price, self.qty, self.spec_order_type())
    }

    /// Creates an order (expiry stored as u48 milliseconds, top 16 bits
    /// dropped) and validates it.
    pub fn new(
        ticker: u64,
        order_id: u32,
        price: u64,
        qty: u32,
        order_type: OrderType,
        side: OrderSide,
        expiry_ms: u64,
    ) -> (r: Result<Self, MitchError>)
        ensures
            r is Ok <==> valid_parts(ticker, order_id, price, qty, order_type),
            validation_of_parts(ticker, order_id, price, qty, order_type, r),
            r matches Ok(o) ==> (o.ticker == ticker && o.order_id == order_id && o.price == price
                && o.qty == qty && o.type_and_side == spec_combine_type_and_side(order_type, side)
                && o.spec_order_type() == order_type && spec_extract_order_side(o.type_and_side) == side
                && o.expiry@ == le_bytes(expiry_ms as nat, 6)
                && o.spec_expiry() == expiry_ms as nat % u48_modulus() && o._pad@ == seq![0u8]),
    {
        let order = Self {
            ticker,
            order_id,
            price,
            qty,
            type_and_side: combine_type_and_side(order_type, side),
            expiry: encode_u48(expiry_ms),
            _pad: [0u8; 1],
        };
        proof {
            crate::common::law_type_and_side_roundtrip(order_type, side);
            assert(order._pad@ =~= seq![0u8]);
        }
        order.validate()?;
        Ok(order)
    }

    /// The 32 wire bytes.
    pub fn pack(&self) -> (r: [u8; 32])
        ensures
            r@ == self.wire(),
    {
        let mut v: Vec<u8> = Vec::new();
        self.encode(&mut v);
        proof {
            self.lemma_wire_len();
        }
        vec_to_array::<32>(&v)
    }

    /// Reads an order from the start of `bytes` and validates it.
    pub fn unpack(bytes: &[u8]) -> (r: Result<Self, MitchError>)
        ensures
            bytes@.len() < 32 ==> r == Err::<Self, MitchError>(MitchError::BufferTooSmall {
                expected: 32,
                actual: bytes@.len() as usize,
            }),
            bytes@.len() >= 32 ==> ({
                let o = record_from_wire::<Order>(bytes@);
                &&& r is Ok <==> o.valid()
                &&& Self::validation_result(o, r)
            }),
            r matches Ok(o) ==> o.wire() == bytes@.subrange(0, 32),
    {
        if bytes.len() < message_sizes::ORDER {
            return Err(MitchError::BufferTooSmall { expected: message_sizes::ORDER, actual: bytes.len() });
        }
        let order = Self::decode(bytes, 0);
        proof {
            lemma_record_from_wire::<Order>(bytes@, order);
        }
        order.validate()?;
        Ok(order)
    }

    /// `r` is what `validate` answers for `o`.
    pub open spec fn validation_result<T>(o: Order, r: Result<T, MitchError>) -> bool {
        validation_of_parts(o.ticker, o.order_id, o.price, o.qty, o.spec_order_type(), r)
    }

    /// The order type from the combined byte.
    pub fn get_order_type(&self) -> (r: OrderType)
        ensures
            r == self.spec_order_type(),
    {
        extract_order_type(self.type_and_side)
    }

    /// The order side from the combined byte.
    pub fn get_order_side(&self) -> (r: OrderSide)
        ensures
            r == spec_extract_order_side(self.type_and_side),
    {
        extract_order_side(self.type_and_side)
    }

    /// The expiry in milliseconds.
    pub fn get_expiry(&self) -> (r: u64)
        ensures
            r as nat == self.spec_expiry(),
    {
        let bytes = self.expiry;
        decode_u48(&bytes)
    }

    /// Sets the expiry in milliseconds (top 16 bits dropped).
    pub fn set_expiry(&mut self, expiry_ms: u64)
        ensures
            final(self).expiry@ == le_bytes(expiry_ms as nat, 6),
            final(self).spec_expiry() == expiry_ms as nat % u48_modulus(),
            final(self).ticker == old(self).ticker,
            final(self).order_id == old(self).order_id,
            final(self).price == old(self).price,
            final(self).qty == old(self).qty,
            final(self).type_and_side == old(self).type_and_side,
            final(self)._pad == old(self)._pad,
    {
        self.expiry = encode_u48(expiry_ms);
    }

    /// Good-till-cancel: the expiry is 0.
    pub fn is_gtc(&self) -> (r: bool)
        ensures
            r == (self.spec_expiry() == 0),
    {
        self.get_expiry() == 0
    }

    /// The order has an expiry and `current_time_ms` is past it.
    pub fn is_expired(&self, current_time_ms: u64) -> (r: bool)
        ensures
            r == (self.spec_expiry() != 0 && current_time_ms > self.spec_expiry()),
    {
        let expiry = self.get_expiry();
        expiry != 0 && current_time_ms > expiry
    }

    /// Checks the ticker, order id and, unless a cancel, price and quantity.
    pub fn validate(&self) -> (r: Result<(), MitchError>)
        ensures
            r is Ok <==> self.valid(),
            Self::validation_result(*self, r),
    {
        if self.ticker == 0 {
            return Err(MitchError::InvalidFieldValue("ticker cannot be zero".to_string()));
        }
        if self.order_id == 0 {
            return Err(MitchError::InvalidFieldValue("order_id cannot be zero".to_string()));
        }
        match self.get_order_type() {
            OrderType::Market | OrderType::Limit | OrderType::Stop => {
                if !ieee::lt(0, self.price) {
                    return Err(
                        MitchError::InvalidFieldValue("price must be positive for this order type".to_string()),
                    );
                }
                if self.qty == 0 {
                    return Err(
                        MitchError::InvalidFieldValue("qty must be positive for this order type".to_string()),
                    );
                }
            },
            OrderType::Cancel => {},
        }
        Ok(())
    }

    /// The side is buy.
    pub fn is_buy(&self) -> (r: bool)
        ensures
            r == (spec_extract_order_side(self.type_and_side) == OrderSide::Buy),
    {
        match self.get_order_side() {
            OrderSide::Buy => true,
            OrderSide::Sell => false,
        }
    }

    /// The side is sell.
    pub fn is_sell(&self) -> (r: bool)
        ensures
            r == (spec_extract_order_side(self.type_and_side) == OrderSide::Sell),
    {
        match self.get_order_side() {
            OrderSide::Buy => false,
            OrderSide::Sell => true,
        }
    }

    /// Body size in bytes.
    pub fn size() -> (r: usize)
        ensures
            r == 32,
    {
        message_sizes::ORDER
    }
}

impl MitchBody for Order {
    open spec fn wire_size() -> nat {
        32
    }

    open spec fn wire(&self) -> Seq<u8> {
        le_bytes(self.ticker as nat, 8) + le_bytes(self.order_id as nat, 4) + le_bytes(self.price as nat, 8)
            + le_bytes(self.qty as nat, 4) + seq![self.type_and_side] + self.expiry@ + self._pad@
    }

    fn body_size() -> (n: usize) {
        32
    }

    proof fn lemma_wire_len(&self) {
        lemma_le_bytes_len(self.ticker as nat, 8);
        lemma_le_bytes_len(self.order_id as nat, 4);
        lemma_le_bytes_len(self.price as nat, 8);
        lemma_le_bytes_len(self.qty as nat, 4);
    }

    proof fn lemma_wire_injective(&self, other: &Self) {
        lemma_le_uint(self.ticker as nat, 8);
        lemma_le_uint(other.ticker as nat, 8);
        lemma_le_uint(self.order_id as nat, 4);
        lemma_le_uint(other.order_id as nat, 4);
        lemma_le_uint(self.price as nat, 8);
        lemma_le_uint(other.price as nat, 8);
        lemma_le_uint(self.qty as nat, 4);
        lemma_le_uint(other.qty as nat, 4);
        let (a, b) = (self.wire(), other.wire());
        assert(a.subrange(0, 8) =~= le_bytes(self.ticker as nat, 8));
        assert(b.subrange(0, 8) =~= le_bytes(other.ticker as nat, 8));
        assert(a.subrange(8, 12) =~= le_bytes(self.order_id as nat, 4));
        assert(b.subrange(8, 12) =~= le_bytes(other.order_id as nat, 4));
        assert(a.subrange(12, 20) =~= le_bytes(self.price as nat, 8));
        assert(b.subrange(12, 20) =~= le_bytes(other.price as nat, 8));
        assert(a.subrange(20, 24) =~= le_bytes(self.qty as nat, 4));
        assert(b.subrange(20, 24) =~= le_bytes(other.qty as nat, 4));
        assert(a[24] == self.type_and_side && b[24] == other.type_and_side);
        assert(a.subrange(25, 31) =~= self.expiry@);
        assert(b.subrange(25, 31) =~= other.expiry@);
        assert(a.subrange(31, 32) =~= self._pad@);
        assert(b.subrange(31, 32) =~= other._pad@);
        assert(self.expiry =~= other.expiry);
        assert(self._pad =~= other._pad);
    }

    fn encode(&self, out: &mut Vec<u8>) {
        let ghost before = out@;
        push_le(out, self.ticker, 8);
        push_le(out, self.order_id as u64, 4);
        push_le(out, self.price, 8);
        push_le(out, self.qty as u64, 4);
        out.push(self.type_and_side);
        push_bytes(out, self.expiry.as_slice());
        push_bytes(out, self._pad.as_slice());
        assert(out@ =~= before + self.wire());
    }

    fn decode(bytes: &[u8], start: usize) -> (r: Self) {
        let _len = bytes.len();
        let ticker = read_le(bytes, start, 8);
        let order_id = read_le(bytes, start + 8, 4);
        let price = read_le(bytes, start + 12, 8);
        let qty = read_le(bytes, start + 20, 4);
        let type_and_side = bytes[start + 24];
        let expiry = read_array::<6>(bytes, start + 25);
        let pad = read_array::<1>(bytes, start + 31);
        proof {
            lemma_le_read(bytes@.subrange(start as int, start + 8));
            lemma_le_read(bytes@.subrange(start + 8, start + 12));
            lemma_le_read(bytes@.subrange(start + 12, start + 20));
            lemma_le_read(bytes@.subrange(start + 20, start + 24));
        }
        let r = Self {
            ticker,
            order_id: order_id as u32,
            price,
            qty: qty as u32,
            type_and_side,
            expiry,
            _pad: pad,
        };
        assert(r.wire() =~= bytes@.subrange(start as int, start + 32));
        r
    }
}

} // verus!
