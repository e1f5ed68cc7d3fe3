//! Asset and ticker identifiers.
//!
//! An asset is a 4-bit asset class and a 16-bit id. A ticker id packs two
//! assets, an instrument type and a sub-type into 64 bits:
//!
//! ```text
//! Bits   | Field              | Size
//! -------|--------------------|------
//! 63-60  | Instrument Type    | 4
//! 59-56  | Base Asset Class   | 4
//! 55-40  | Base Asset ID      | 16
//! 39-36  | Quote Asset Class  | 4
//! 35-20  | Quote Asset ID     | 16
//! 19-0   | Sub-Type           | 20
//! ```

use vstd::prelude::*;

use crate::body::{pack_batch, unpack_batch, decoded_from, wire_concat, MitchBody};
use crate::bytes::{le_bytes, lemma_le_bytes_len, lemma_le_read, lemma_le_uint, push_le, read_le, vec_to_array};
use crate::common::{data_error, MitchError};
use crate::constants::{AssetClass, InstrumentType};
use crate::text::{decimal, hex_digits, push_decimal, push_hex};

verus! {

/// Packs an asset class and a class-local id into a 32-bit asset id.
pub fn pack_asset(asset_class: AssetClass, class_id: u16) -> (r: u32)
    ensures
        r == asset_class.spec_id() as nat * 0x1_0000 + class_id as nat,
{
    let c = asset_class.id() as u32;
    proof {
        assert(c < 16 ==> (c << 16u32) | (class_id as u32) == c * 0x1_0000 + class_id as u32) by (bit_vector);
    }
    (c << 16) | (class_id as u32)
}

/// Splits a 32-bit asset id into its class (bits 16-19) and class-local id
/// (bits 0-15).
pub fn unpack_asset(packed_asset: u32) -> (r: (AssetClass, u16))
    ensures
        r.0 == AssetClass::spec_from_id(((packed_asset / 0x1_0000) % 16) as u8),
        r.1 == packed_asset % 0x1_0000,
{
    proof {
        assert((packed_asset >> 16u32) & 0xF == (packed_asset / 0x1_0000) % 16) by (bit_vector);
        assert(packed_asset & 0xFFFF == packed_asset % 0x1_0000) by (bit_vector);
    }
    let class_id = ((packed_asset >> 16) & 0xF) as u8;
    let asset_id = (packed_asset & 0xFFFF) as u16;
    (AssetClass::from_id(class_id), asset_id)
}

/// Splitting a packed asset id gives back its class and class-local id.
pub proof fn law_asset_roundtrip(asset_class: AssetClass, class_id: u16)
    ensures
        ({
            let p = asset_class.spec_id() as nat * 0x1_0000 + class_id as nat;
            AssetClass::spec_from_id(((p / 0x1_0000) % 16) as u8) == asset_class && p % 0x1_0000 == class_id
        }),
{
    let p = asset_class.spec_id() as nat * 0x1_0000 + class_id as nat;
    vstd::arithmetic::div_mod::lemma_fundamental_div_mod_converse(p as int, 0x1_0000, asset_class.spec_id() as int, class_id as int);
}

/// An asset with its names.
#[derive(Debug, Clone, PartialEq)]
pub struct Asset {
    /// Global asset id (class << 16 | class id).
    pub id: u32,
    /// Asset id within its class.
    pub class_id: u16,
    /// Asset class.
    pub class: AssetClass,
    /// Human-readable name.
    pub name: String,
    /// Pipe-separated aliases.
    pub aliases: String,
}

/// A ticker with its names and assets.
#[derive(Debug, Clone, PartialEq)]
pub struct Ticker {
    /// 64-bit ticker id.
    pub id: u64,
    /// Human-readable name or symbol.
    pub name: String,
    /// Instrument type.
    pub instrument_type: InstrumentType,
    /// Base asset.
    pub base: Asset,
    /// Quote asset.
    pub quote: Asset,
    /// Sub-type (20 bits).
    pub sub_type: u32,
}

/// The 64-bit ticker id of these parts.
pub open spec fn spec_ticker_raw(it: u8, bc: u8, base_id: u16, qc: u8, quote_id: u16, sub_type: u32) -> u64 {
    ((it as u64) << 60u64) | ((bc as u64) << 56u64) | ((base_id as u64) << 40u64) | ((qc as u64) << 36u64)
        | ((quote_id as u64) << 20u64) | (sub_type as u64)
}

/// 64-bit ticker id.
#[derive(Debug, Clone, Copy, PartialEq, Eq, Structural)]
pub struct TickerId {
    /// Raw identifier.
    pub raw: u64,
}

impl TickerId {
    /// Instrument type id (bits 60-63).
    pub open spec fn spec_instrument_id(self) -> u8 {
        ((self.raw >> 60u64) & 0xF) as u8
    }

    /// Base asset class id (bits 56-59).
    pub open spec fn spec_base_class_id(self) -> u8 {
        ((self.raw >> 56u64) & 0xF) as u8
    }

    /// Base asset id (bits 40-55).
    pub open spec fn spec_base_asset_id(self) -> u16 {
        ((self.raw >> 40u64) & 0xFFFF) as u16
    }

    /// Quote asset class id (bits 36-39).
    pub open spec fn spec_quote_class_id(self) -> u8 {
        ((self.raw >> 36u64) & 0xF) as u8
    }

    /// Quote asset id (bits 20-35).
    pub open spec fn spec_quote_asset_id(self) -> u16 {
        ((self.raw >> 20u64) & 0xFFFF) as u16
    }

    /// Sub-type (bits 0-19).
    pub open spec fn spec_sub_type(self) -> u32 {
        (self.raw & 0xFFFFF) as u32
    }

    /// Builds a ticker id; the sub-type must fit in 20 bits.
    pub fn new(
        instrument_type: InstrumentType,
        base_class: AssetClass,
        base_id: u16,
        quote_class: AssetClass,
        quote_id: u16,
        sub_type: u32,
    ) -> (r: Result<Self, MitchError>)
        ensures
            sub_type > 0xFFFFF ==> data_error(r, "Sub-type must fit in 20 bits"@),
            sub_type <= 0xFFFFF ==> r == Ok::<Self, MitchError>(TickerId {
                raw: spec_ticker_raw(instrument_type.spec_id(), base_class.spec_id(), base_id,
                    quote_class.spec_id(), quote_id, sub_type),
            }),
    {
        if sub_type > 0xFFFFF {
            return Err(MitchError::InvalidData("Sub-type must fit in 20 bits".to_string()));
        }
        let it = instrument_type.id() as u64;
        let bc = base_class.id() as u64;
        let qc = quote_class.id() as u64;
        let raw = (it << 60) | (bc << 56) | ((base_id as u64) << 40) | (qc << 36) | ((quote_id as u64) << 20)
            | (sub_type as u64);
        Ok(Self { raw })
    }

    /// Wraps a raw 64-bit id.
    pub fn from_raw(raw: u64) -> (r: Self)
        ensures
            r.raw == raw,
    {
        Self { raw }
    }

    /// Instrument type.
    pub fn instrument_type(&self) -> (r: InstrumentType)
        ensures
            r == InstrumentType::spec_from_id(self.spec_instrument_id()),
    {
        InstrumentType::from_id(((self.raw >> 60) & 0x0F) as u8)
    }

    /// Base asset class.
    pub fn base_asset_class(&self) -> (r: AssetClass)
        ensures
            r == AssetClass::spec_from_id(self.spec_base_class_id()),
    {
        AssetClass::from_id(((self.raw >> 56) & 0x0F) as u8)
    }

    /// Base asset id.
    pub fn base_asset_id(&self) -> (r: u16)
        ensures
            r == self.spec_base_asset_id(),
    {
        ((self.raw >> 40) & 0xFFFF) as u16
    }

    /// Quote asset class.
    pub fn quote_asset_class(&self) -> (r: AssetClass)
        ensures
            r == AssetClass::spec_from_id(self.spec_quote_class_id()),
    {
        AssetClass::from_id(((self.raw >> 36) & 0x0F) as u8)
    }

    /// Quote asset id.
    pub fn quote_asset_id(&self) -> (r: u16)
        ensures
            r == self.spec_quote_asset_id(),
    {
        ((self.raw >> 20) & 0xFFFF) as u16
    }

    /// Sub-type.
    pub fn sub_type(&self) -> (r: u32)
        ensures
            r == self.spec_sub_type(),
    {
        (self.raw & 0xFFFFF) as u32
    }

    /// The 8 little-endian bytes of the id.
    pub fn pack(&self) -> (r: [u8; 8])
        ensures
            r@ == le_bytes(self.raw as nat, 8),
    {
        let mut v: Vec<u8> = Vec::new();
        self.encode(&mut v);
        proof {
            lemma_le_bytes_len(self.raw as nat, 8);
        }
        vec_to_array::<8>(&v)
    }

    /// Reads an id from the first 8 little-endian bytes of `bytes`.
    pub fn unpack(bytes: &[u8]) -> (r: Result<Self, MitchError>)
        ensures
            bytes@.len() < 8 ==> r == Err::<Self, MitchError>(MitchError::BufferTooSmall {
                expected: 8,
                actual: bytes@.len() as usize,
            }),
            bytes@.len() >= 8 ==> (r matches Ok(t) && t.wire() == bytes@.subrange(0, 8)),
    {
        if bytes.len() < 8 {
            return Err(MitchError::BufferTooSmall { expected: 8, actual: bytes.len() });
        }
        Ok(Self::decode(bytes, 0))
    }

    /// Base or quote asset is forex.
    pub fn is_forex(&self) -> (r: bool)
        ensures
            r == (AssetClass::spec_from_id(self.spec_base_class_id()) == AssetClass::FX
                || AssetClass::spec_from_id(self.spec_quote_class_id()) == AssetClass::FX),
    {
        matches!(self.base_asset_class(), AssetClass::FX) || matches!(self.quote_asset_class(), AssetClass::FX)
    }

    /// Base or quote asset is a crypto asset.
    pub fn is_crypto(&self) -> (r: bool)
        ensures
            r == (AssetClass::spec_from_id(self.spec_base_class_id()) == AssetClass::CR
                || AssetClass::spec_from_id(self.spec_quote_class_id()) == AssetClass::CR),
    {
        matches!(self.base_asset_class(), AssetClass::CR) || matches!(self.quote_asset_class(), AssetClass::CR)
    }

    /// The instrument is spot.
    pub fn is_spot(&self) -> (r: bool)
        ensures
            r == (InstrumentType::spec_from_id(self.spec_instrument_id()) == InstrumentType::SPOT),
    {
        matches!(self.instrument_type(), InstrumentType::SPOT)
    }
}

impl TickerId {
    /// The text form
    /// `TickerId(HHHHHHHHHHHHHHHH: TYPE base=CLASS:ID quote=CLASS:ID sub=N)`,
    /// with the raw id in 16 upper-case hexadecimal digits.
    pub fn to_string(&self) -> (r: String)
        ensures
            r@ == "TickerId("@ + hex_digits(self.raw as nat, 16) + ": "@
                + InstrumentType::spec_from_id(self.spec_instrument_id()).spec_name() + " base="@
                + AssetClass::spec_from_id(self.spec_base_class_id()).spec_name() + ":"@
                + decimal(self.spec_base_asset_id() as nat) + " quote="@
                + AssetClass::spec_from_id(self.spec_quote_class_id()).spec_name() + ":"@
                + decimal(self.spec_quote_asset_id() as nat) + " sub="@ + decimal(self.spec_sub_type() as nat)
                + ")"@,
    {
        let mut s = String::new();
        s.push_str("TickerId(");
        push_hex(&mut s, self.raw, 16);
        s.push_str(": ");
        s.push_str(self.instrument_type().name());
        s.push_str(" base=");
        s.push_str(self.base_asset_class().name());
        s.push_str(":");
        push_decimal(&mut s, self.base_asset_id() as u64);
        s.push_str(" quote=");
        s.push_str(self.quote_asset_class().name());
        s.push_str(":");
        push_decimal(&mut s, self.quote_asset_id() as u64);
        s.push_str(" sub=");
        push_decimal(&mut s, self.sub_type() as u64);
        s.push_str(")");
        s
    }
}

/// Taking a ticker id apart gives back the parts it was built from.
pub proof fn law_ticker_fields(
    instrument_type: InstrumentType,
    base_class: AssetClass,
    base_id: u16,
    quote_class: AssetClass,
    quote_id: u16,
    sub_type: u32,
)
    requires
        sub_type <= 0xFFFFF,
    ensures
        ({
            let t = TickerId {
                raw: spec_ticker_raw(instrument_type.spec_id(), base_class.spec_id(), base_id,
                    quote_class.spec_id(), quote_id, sub_type),
            };
            &&& InstrumentType::spec_from_id(t.spec_instrument_id()) == instrument_type
            &&& AssetClass::spec_from_id(t.spec_base_class_id()) == base_class
            &&& t.spec_base_asset_id() == base_id
            &&& AssetClass::spec_from_id(t.spec_quote_class_id()) == quote_class
            &&& t.spec_quote_asset_id() == quote_id
            &&& t.spec_sub_type() == sub_type
        }),
{
    let it = instrument_type.spec_id();
    let bc = base_class.spec_id();
    let qc = quote_class.spec_id();
    let raw = spec_ticker_raw(it, bc, base_id, qc, quote_id, sub_type);
    assert(it < 16 && bc < 16 && qc < 16 && sub_type <= 0xFFFFF ==> {
        let raw = ((it as u64) << 60u64) | ((bc as u64) << 56u64) | ((base_id as u64) << 40u64)
            | ((qc as u64) << 36u64) | ((quote_id as u64) << 20u64) | (sub_type as u64);
        &&& ((raw >> 60u64) & 0xF) as u8 == it
        &&& ((raw >> 56u64) & 0xF) as u8 == bc
        &&& ((raw >> 40u64) & 0xFFFF) as u16 == base_id
        &&& ((raw >> 36u64) & 0xF) as u8 == qc
        &&& ((raw >> 20u64) & 0xFFFF) as u16 == quote_id
        &&& (raw & 0xFFFFF) as u32 == sub_type
    }) by (bit_vector);
    crate::constants::law_class_ids_roundtrip(base_class, instrument_type);
    crate::constants::law_class_ids_roundtrip(quote_class, instrument_type);
}

impl MitchBody for TickerId {
    open spec fn wire_size() -> nat {
        8
    }

    open spec fn wire(&self) -> Seq<u8> {
        le_bytes(self.raw as nat, 8)
    }

    fn body_size() -> (n: usize) {
        8
    }

    proof fn lemma_wire_len(&self) {
        lemma_le_bytes_len(self.raw as nat, 8);
    }

    proof fn lemma_wire_injective(&self, other: &Self) {
        lemma_le_uint(self.raw as nat, 8);
        lemma_le_uint(other.raw as nat, 8);
    }

    fn encode(&self, out: &mut Vec<u8>) {
        push_le(out, self.raw, 8);
    }

    fn decode(bytes: &[u8], start: usize) -> (r: Self) {
        let raw = read_le(bytes, start, 8);
        proof {
            lemma_le_read(bytes@.subrange(start as int, start + 8));
        }
        Self { raw }
    }
}

impl From<u64> for TickerId {
    fn from(raw: u64) -> (r: Self) {
        Self::from_raw(raw)
    }
}

impl vstd::std_specs::convert::FromSpecImpl<u64> for TickerId {
    open spec fn obeys_from_spec() -> bool {
        true
    }

    open spec fn from_spec(raw: u64) -> Self {
        TickerId { raw }
    }
}

impl From<TickerId> for u64 {
    fn from(ticker: TickerId) -> (r: Self) {
        ticker.raw
    }
}

impl vstd::std_specs::convert::FromSpecImpl<TickerId> for u64 {
    open spec fn obeys_from_spec() -> bool {
        true
    }

    open spec fn from_spec(ticker: TickerId) -> Self {
        ticker.raw
    }
}

/// Forex ticker: base and quote are both forex assets.
pub fn forex_ticker(base_id: u16, quote_id: u16, instrument_type: InstrumentType, sub_type: u32) -> (r: Result<TickerId, MitchError>)
    ensures
        sub_type > 0xFFFFF ==> data_error(r, "Sub-type must fit in 20 bits"@),
        sub_type <= 0xFFFFF ==> r == Ok::<TickerId, MitchError>(TickerId {
            raw: spec_ticker_raw(instrument_type.spec_id(), 3, base_id, 3, quote_id, sub_type),
        }),
{
    TickerId::new(instrument_type, AssetClass::FX, base_id, AssetClass::FX, quote_id, sub_type)
}

/// Crypto ticker: base and quote are both crypto assets.
pub fn crypto_ticker(base_id: u16, quote_id: u16, instrument_type: InstrumentType, sub_type: u32) -> (r: Result<TickerId, MitchError>)
    ensures
        sub_type > 0xFFFFF ==> data_error(r, "Sub-type must fit in 20 bits"@),
        sub_type <= 0xFFFFF ==> r == Ok::<TickerId, MitchError>(TickerId {
            raw: spec_ticker_raw(instrument_type.spec_id(), 6, base_id, 6, quote_id, sub_type),
        }),
{
    TickerId::new(instrument_type, AssetClass::CR, base_id, AssetClass::CR, quote_id, sub_type)
}

/// Equity ticker: an equity quoted in a forex currency.
pub fn equity_ticker(equity_id: u16, quote_currency_id: u16, instrument_type: InstrumentType, sub_type: u32) -> (r: Result<TickerId, MitchError>)
    ensures
        sub_type > 0xFFFFF ==> data_error(r, "Sub-type must fit in 20 bits"@),
        sub_type <= 0xFFFFF ==> r == Ok::<TickerId, MitchError>(TickerId {
            raw: spec_ticker_raw(instrument_type.spec_id(), 0, equity_id, 3, quote_currency_id, sub_type),
        }),
{
    TickerId::new(instrument_type, AssetClass::EQ, equity_id, AssetClass::FX, quote_currency_id, sub_type)
}

/// Reads `count` ticker ids (8 little-endian bytes each) from `buffer`.
pub fn unpack_ticker_batch(buffer: &[u8], count: usize) -> (r: Result<Vec<TickerId>, MitchError>)
    requires
        count * 8 <= usize::MAX,
    ensures
        buffer@.len() < count * 8 ==> r == Err::<Vec<TickerId>, MitchError>(MitchError::BufferTooSmall {
            expected: (count * 8) as usize,
            actual: buffer@.len() as usize,
        }),
        buffer@.len() >= count * 8 ==> r is Ok,
        r matches Ok(v) ==> (v@.len() == count && decoded_from(v@, buffer@)),
{
    unpack_batch::<TickerId>(buffer, count)
}

/// Writes ticker ids as consecutive 8-byte little-endian words.
pub fn pack_ticker_batch(tickers: &[TickerId]) -> (r: Vec<u8>)
    ensures
        r@ == wire_concat(tickers@),
        r@.len() == tickers@.len() * 8,
{
    pack_batch(tickers)
}

} // verus!
