//! The MITCH clock: a u48 count of 16 µs ticks since 2010-01-01T00:00:00Z.
//!
//! ```text
//! encode:  ticks = (epoch_µs − EPOCH_µs) >> 4
//! decode:  epoch_µs = (ticks << 4) + EPOCH_µs
//! ```
//!
//! Pre-2010 inputs saturate to tick 0. On the wire a tick count is six
//! little-endian bytes ([`encode_u48`] / [`decode_u48`]).

use vstd::prelude::*;

use crate::bytes::{
    le_bytes, le_value, lemma_le_bytes_len, lemma_le_bytes_of_value, lemma_le_roundtrip,
    lemma_le_value_bound, lemma_le_value_of_bytes, lemma_pow256_values, push_le, read_le,
    vec_to_array,
};

verus! {

/// 2010-01-01T00:00:00Z as microseconds since the Unix epoch.
pub const EPOCH_US: u64 = 1_262_304_000_000_000;

/// 2010-01-01T00:00:00Z as milliseconds since the Unix epoch.
pub const EPOCH_MS: i64 = 1_262_304_000_000;

/// 2010-01-01T00:00:00Z as nanoseconds since the Unix epoch.
pub const EPOCH_NS: i64 = 1_262_304_000_000_000_000;

/// Tick resolution in microseconds.
pub const TICK_US: u64 = 16;

/// Tick resolution in nanoseconds.
pub const TICK_NS: u64 = 16_000;

/// Largest tick count a u48 holds.
pub const MAX_TICKS: u64 = 0xFFFF_FFFF_FFFF;

/// `2^48`: the number of distinct u48 values.
pub open spec fn u48_modulus() -> nat {
    0x1_0000_0000_0000
}

/// `2^64`.
pub open spec fn u64_modulus() -> int {
    0x1_0000_0000_0000_0000
}

// ── u48 wire encoding ────────────────────────────────────────────────────

/// Encodes a tick count as six little-endian bytes; the top 16 bits are dropped.
pub fn encode_u48(mts: u64) -> (r: [u8; 6])
    ensures
        r@ == le_bytes(mts as nat, 6),
        le_value(r@) == mts as nat % u48_modulus(),
{
    let mut v: Vec<u8> = Vec::new();
    push_le(&mut v, mts, 6);
    proof {
        lemma_le_bytes_len(mts as nat, 6);
        lemma_le_value_of_bytes(mts as nat, 6);
        lemma_pow256_values();
    }
    vec_to_array::<6>(&v)
}

/// Decodes six little-endian bytes into a tick count.
pub fn decode_u48(bytes: &[u8; 6]) -> (r: u64)
    ensures
        r as nat == le_value(bytes@),
        r <= MAX_TICKS,
{
    let s = bytes.as_slice();
    let r = read_le(s, 0, 6);
    proof {
        assert(s@.subrange(0, 6) =~= bytes@);
        lemma_le_value_bound(bytes@);
        lemma_pow256_values();
    }
    r
}

/// Decoding what was encoded gives the tick count modulo `2^48`.
pub proof fn law_u48_decode_encode(mts: u64)
    ensures
        le_value(le_bytes(mts as nat, 6)) == mts as nat % u48_modulus(),
        mts <= MAX_TICKS ==> le_value(le_bytes(mts as nat, 6)) == mts,
{
    lemma_le_value_of_bytes(mts as nat, 6);
    lemma_pow256_values();
    if mts <= MAX_TICKS {
        lemma_le_roundtrip(mts as nat, 6);
    }
}

/// Encoding what was decoded gives the six bytes back.
pub proof fn law_u48_encode_decode(bytes: [u8; 6])
    ensures
        le_bytes(le_value(bytes@), 6) == bytes@,
{
    lemma_le_bytes_of_value(bytes@);
}

// ── Conversions as numbers ───────────────────────────────────────────────

/// Tick count of a Unix-epoch microsecond time (saturating below the epoch).
pub open spec fn spec_from_epoch_us(epoch_us: int) -> int {
    if epoch_us <= EPOCH_US {
        0
    } else {
        (epoch_us - EPOCH_US) / 16
    }
}

/// Tick count of a Unix-epoch millisecond time (saturating below the epoch).
pub open spec fn spec_from_epoch_ms(epoch_ms: int) -> int {
    if epoch_ms <= EPOCH_MS {
        0
    } else {
        (epoch_ms - EPOCH_MS) * 1000 / 16
    }
}

/// Tick count of a Unix-epoch nanosecond time (saturating below the epoch).
pub open spec fn spec_from_epoch_ns(epoch_ns: int) -> int {
    if epoch_ns <= EPOCH_NS {
        0
    } else {
        (epoch_ns - EPOCH_NS) / 1000 / 16
    }
}

/// Microseconds since the Unix epoch that the decoder computes for `mts`:
/// `(mts << 4) + EPOCH_US`, where the shift drops the bits above 64.
pub open spec fn decoded_us(mts: u64) -> int {
    (mts as int * 16) % u64_modulus() + EPOCH_US
}

/// A u64 read as an i64 (two's complement).
pub open spec fn as_signed(u: int) -> int {
    if u < 0x8000_0000_0000_0000 {
        u
    } else {
        u - u64_modulus()
    }
}

/// Integer division rounding toward zero, as Rust's `/` on signed integers.
pub open spec fn div_toward_zero(a: int, d: int) -> int {
    if a >= 0 {
        a / d
    } else {
        -((-a) / d)
    }
}

/// Unix-epoch milliseconds that the decoder computes for `mts`.
pub open spec fn spec_to_epoch_ms(mts: u64) -> int {
    div_toward_zero(as_signed(decoded_us(mts)), 1000)
}

/// The decoder does not overflow when turning `mts` into microseconds.
pub open spec fn us_fits(mts: u64) -> bool {
    decoded_us(mts) <= u64::MAX
}

proof fn lemma_shl4(mts: u64)
    ensures
        (mts << 4u64) as int == (mts as int * 16) % u64_modulus(),
        mts <= 0x0FFF_FFFF_FFFF_FFFF ==> (mts << 4u64) as int == mts as int * 16,
{
    assert((mts << 4u64) == (mts * 16) as u64) by (bit_vector);
    assert(mts <= 0x0FFF_FFFF_FFFF_FFFF ==> (mts * 16) as u64 == mts * 16) by (bit_vector);
    assert(((mts * 16) as u64) as int == (mts as int * 16) % 0x1_0000_0000_0000_0000) by (bit_vector);
}

proof fn lemma_shr4(x: u64)
    ensures
        (x >> 4u64) as int == x as int / 16,
{
    assert(x >> 4u64 == x / 16) by (bit_vector);
}

proof fn lemma_as_i64(u: u64)
    ensures
        (u as i64) as int == as_signed(u as int),
{
    assert(u <= 0x7FFF_FFFF_FFFF_FFFF ==> (u as i64) as int == u as int) by (bit_vector);
    assert(u > 0x7FFF_FFFF_FFFF_FFFF ==> (u as i64) as int == u as int - 0x1_0000_0000_0000_0000)
        by (bit_vector);
}

/// Every u48 tick count decodes to microseconds without overflow.
pub proof fn lemma_u48_decodes(mts: u64)
    requires
        mts <= MAX_TICKS,
    ensures
        us_fits(mts),
        decoded_us(mts) == mts * 16 + EPOCH_US,
        spec_to_epoch_ms(mts) == (mts * 16 + EPOCH_US) / 1000,
{
    vstd::arithmetic::div_mod::lemma_small_mod((mts * 16) as nat, u64_modulus() as nat);
}

// ── Encode from various units ────────────────────────────────────────────

/// Encodes Unix-epoch microseconds as a tick count; pre-epoch inputs give 0.
pub fn from_epoch_us(epoch_us: u64) -> (r: u64)
    ensures
        r as int == spec_from_epoch_us(epoch_us as int),
{
    let d = epoch_us.saturating_sub(EPOCH_US);
    proof {
        lemma_shr4(d);
    }
    d >> 4
}

/// Encodes Unix-epoch milliseconds as a tick count; pre-epoch inputs give 0.
pub fn from_epoch_ms(epoch_ms: i64) -> (r: u64)
    requires
        epoch_ms <= EPOCH_MS || (epoch_ms - EPOCH_MS) * 1000 <= u64::MAX,
    ensures
        r as int == spec_from_epoch_ms(epoch_ms as int),
{
    if epoch_ms <= EPOCH_MS {
        return 0;
    }
    let us = (epoch_ms - EPOCH_MS) as u64 * 1000;
    proof {
        lemma_shr4(us);
    }
    us >> 4
}

/// Encodes Unix-epoch nanoseconds as a tick count; pre-epoch inputs give 0.
pub fn from_epoch_ns(epoch_ns: i64) -> (r: u64)
    ensures
        r as int == spec_from_epoch_ns(epoch_ns as int),
{
    if epoch_ns <= EPOCH_NS {
        return 0;
    }
    let us = ((epoch_ns - EPOCH_NS) / 1000) as u64;
    proof {
        lemma_shr4(us);
    }
    us >> 4
}

// ── Decode to various units ──────────────────────────────────────────────

/// Decodes a tick count to Unix-epoch microseconds.
pub fn to_epoch_us(mts: u64) -> (r: u64)
    requires
        us_fits(mts),
    ensures
        r as int == decoded_us(mts),
        mts <= 0x0FFF_FFFF_FFFF_FFFF ==> r as int == mts as int * 16 + EPOCH_US,
{
    proof {
        lemma_shl4(mts);
    }
    (mts << 4) + EPOCH_US
}

/// Decodes a tick count to Unix-epoch milliseconds (rounding toward zero).
pub fn to_epoch_ms(mts: u64) -> (r: i64)
    requires
        us_fits(mts),
    ensures
        r as int == spec_to_epoch_ms(mts),
{
    proof {
        lemma_shl4(mts);
    }
    let us = (mts << 4) + EPOCH_US;
    proof {
        lemma_as_i64(us);
    }
    (us as i64) / 1000
}

/// Decodes a tick count to Unix-epoch nanoseconds.
pub fn to_epoch_ns(mts: u64) -> (r: i64)
    requires
        us_fits(mts),
        i64::MIN <= as_signed(decoded_us(mts)) * 1000 <= i64::MAX,
    ensures
        r as int == as_signed(decoded_us(mts)) * 1000,
{
    proof {
        lemma_shl4(mts);
    }
    let us = (mts << 4) + EPOCH_US;
    proof {
        lemma_as_i64(us);
    }
    (us as i64) * 1000
}

// ── Laws ─────────────────────────────────────────────────────────────────

/// A post-epoch microsecond time comes back from its tick count rounded down
/// to the 16 µs grid.
pub proof fn law_us_roundtrip(epoch_us: u64)
    requires
        epoch_us >= EPOCH_US,
    ensures
        ({
            let t = spec_from_epoch_us(epoch_us as int) as u64;
            &&& us_fits(t)
            &&& decoded_us(t) == epoch_us - (epoch_us - EPOCH_US) % 16
            &&& epoch_us - 16 < decoded_us(t) <= epoch_us
        }),
{
    let t = spec_from_epoch_us(epoch_us as int);
    assert(t * 16 < u64_modulus());
    vstd::arithmetic::div_mod::lemma_small_mod((t * 16) as nat, u64_modulus() as nat);
    vstd::arithmetic::div_mod::lemma_fundamental_div_mod(epoch_us - EPOCH_US, 16);
}

/// A tick count below `2^60` comes back unchanged from its microsecond time.
pub proof fn law_ticks_roundtrip(mts: u64)
    requires
        mts <= 0x0FFF_FFFF_FFFF_FFFF,
        us_fits(mts),
    ensures
        spec_from_epoch_us(decoded_us(mts)) == mts,
{
    vstd::arithmetic::div_mod::lemma_small_mod((mts * 16) as nat, u64_modulus() as nat);
    vstd::arithmetic::div_mod::lemma_fundamental_div_mod_converse(mts * 16, 16, mts as int, 0);
}

/// A post-epoch millisecond time comes back from its tick count exactly or
/// one millisecond early.
pub proof fn law_ms_roundtrip(epoch_ms: i64)
    requires
        epoch_ms > EPOCH_MS,
        epoch_ms * 1000 <= i64::MAX,
    ensures
        ({
            let t = spec_from_epoch_ms(epoch_ms as int) as u64;
            &&& us_fits(t)
            &&& epoch_ms - 1 <= spec_to_epoch_ms(t) <= epoch_ms
        }),
{
    let d = (epoch_ms - EPOCH_MS) * 1000;
    let t = spec_from_epoch_ms(epoch_ms as int);
    vstd::arithmetic::div_mod::lemma_fundamental_div_mod(d, 16);
    assert(t * 16 < u64_modulus());
    vstd::arithmetic::div_mod::lemma_small_mod((t * 16) as nat, u64_modulus() as nat);
    let u = decoded_us(t as u64);
    assert(u == epoch_ms * 1000 - d % 16);
    if d % 16 == 0 {
        vstd::arithmetic::div_mod::lemma_fundamental_div_mod_converse(u, 1000, epoch_ms as int, 0);
    } else {
        vstd::arithmetic::div_mod::lemma_fundamental_div_mod_converse(
            u,
            1000,
            epoch_ms - 1,
            1000 - d % 16,
        );
    }
}

/// A post-epoch nanosecond time comes back from its tick count less than one
/// tick (16 000 ns) early.
pub proof fn law_ns_roundtrip(epoch_ns: i64)
    requires
        epoch_ns > EPOCH_NS,
    ensures
        ({
            let t = spec_from_epoch_ns(epoch_ns as int) as u64;
            &&& us_fits(t)
            &&& i64::MIN <= as_signed(decoded_us(t)) * 1000 <= i64::MAX
            &&& epoch_ns - 16000 < as_signed(decoded_us(t)) * 1000 <= epoch_ns
        }),
{
    let d = epoch_ns - EPOCH_NS;
    let q = d / 1000;
    let t = q / 16;
    vstd::arithmetic::div_mod::lemma_fundamental_div_mod(d, 1000);
    vstd::arithmetic::div_mod::lemma_fundamental_div_mod(q, 16);
    assert(t * 16 < u64_modulus());
    vstd::arithmetic::div_mod::lemma_small_mod((t * 16) as nat, u64_modulus() as nat);
}

/// Sixteen microseconds after the epoch or later move the tick count by one.
pub proof fn law_us_resolution(epoch_us: u64)
    requires
        epoch_us >= EPOCH_US,
        epoch_us + 16 <= u64::MAX,
    ensures
        spec_from_epoch_us(epoch_us + 16) == spec_from_epoch_us(epoch_us as int) + 1,
{
    vstd::arithmetic::div_mod::lemma_fundamental_div_mod(epoch_us - EPOCH_US, 16);
    vstd::arithmetic::div_mod::lemma_fundamental_div_mod_converse(
        epoch_us + 16 - EPOCH_US,
        16,
        (epoch_us - EPOCH_US) / 16 + 1,
        (epoch_us - EPOCH_US) % 16,
    );
}

/// Encoding preserves the order of times.
pub proof fn law_encode_monotone(a: int, b: int)
    requires
        a <= b,
    ensures
        spec_from_epoch_us(a) <= spec_from_epoch_us(b),
        spec_from_epoch_ms(a) <= spec_from_epoch_ms(b),
        spec_from_epoch_ns(a) <= spec_from_epoch_ns(b),
{
    if a > EPOCH_US {
        vstd::arithmetic::div_mod::lemma_div_is_ordered(a - EPOCH_US, b - EPOCH_US, 16);
    }
    if a > EPOCH_MS {
        vstd::arithmetic::div_mod::lemma_div_is_ordered((a - EPOCH_MS) * 1000, (b - EPOCH_MS) * 1000, 16);
    }
    if a > EPOCH_NS {
        vstd::arithmetic::div_mod::lemma_div_is_ordered(a - EPOCH_NS, b - EPOCH_NS, 1000);
        vstd::arithmetic::div_mod::lemma_div_is_ordered((a - EPOCH_NS) / 1000, (b - EPOCH_NS) / 1000, 16);
    }
}

} // verus!
