//! Batch serialization shared by every MITCH body type.
//!
//! All bodies (Tick, Trade, Order, Index, OrderBook, Bar, Heartbeat) are
//! fixed-size little-endian records. [`MitchBody`] states that contract:
//! each value has a wire image of `wire_size()` bytes, different values have
//! different images, and `encode` / `decode` write and read exactly those
//! images. The batch functions work over any implementer.

use vstd::prelude::*;

use crate::common::{data_error, MitchError};
use crate::text::{decimal, push_decimal};

verus! {

/// A fixed-size MITCH wire record.
pub trait MitchBody: Sized {
    /// Number of bytes of one record on the wire.
    spec fn wire_size() -> nat;

    /// The wire bytes of this record.
    spec fn wire(&self) -> Seq<u8>;

    /// Number of bytes of one record on the wire.
    fn body_size() -> (n: usize)
        ensures
            n as nat == Self::wire_size(),
            0 < n <= 0x1_0000,
    ;

    /// Every record has `wire_size()` wire bytes.
    proof fn lemma_wire_len(&self)
        ensures
            self.wire().len() == Self::wire_size(),
    ;

    /// Different records have different wire bytes.
    proof fn lemma_wire_injective(&self, other: &Self)
        requires
            self.wire() == other.wire(),
        ensures
            *self == *other,
    ;

    /// Appends the wire bytes of this record.
    fn encode(&self, out: &mut Vec<u8>)
        ensures
            final(out)@ == old(out)@ + self.wire(),
    ;

    /// Reads the record whose wire bytes start at `start`.
    fn decode(bytes: &[u8], start: usize) -> (r: Self)
        requires
            start + Self::wire_size() <= bytes@.len(),
        ensures
            r.wire() == bytes@.subrange(start as int, start + Self::wire_size()),
    ;
}

/// The record whose wire bytes start `bytes`.
pub open spec fn record_from_wire<T: MitchBody>(bytes: Seq<u8>) -> T {
    choose|t: T| t.wire() == bytes.subrange(0, T::wire_size() as int)
}

/// A record with the first wire bytes of `bytes` is the record read from them.
pub proof fn lemma_record_from_wire<T: MitchBody>(bytes: Seq<u8>, r: T)
    requires
        r.wire() == bytes.subrange(0, T::wire_size() as int),
    ensures
        record_from_wire::<T>(bytes) == r,
{
    let t = record_from_wire::<T>(bytes);
    t.lemma_wire_injective(&r);
}

/// Reading back the wire bytes of a record gives that record.
pub proof fn law_record_roundtrip<T: MitchBody>(x: T)
    ensures
        record_from_wire::<T>(x.wire()) == x,
{
    x.lemma_wire_len();
    assert(x.wire().subrange(0, T::wire_size() as int) =~= x.wire());
    lemma_record_from_wire::<T>(x.wire(), x);
}

/// The wire bytes of a sequence of records, one after another.
pub open spec fn wire_concat<T: MitchBody>(items: Seq<T>) -> Seq<u8>
    decreases items.len(),
{
    if items.len() == 0 {
        Seq::empty()
    } else {
        wire_concat(items.drop_last()) + items.last().wire()
    }
}

/// The bytes of slot `i` in a buffer of records of type `T`.
pub open spec fn slot<T: MitchBody>(bytes: Seq<u8>, i: int) -> Seq<u8> {
    bytes.subrange(i * T::wire_size(), (i + 1) * T::wire_size())
}

/// `items` are the records read from the first `items.len()` slots of `bytes`.
pub open spec fn decoded_from<T: MitchBody>(items: Seq<T>, bytes: Seq<u8>) -> bool {
    forall|i: int| 0 <= i < items.len() ==> #[trigger] items[i].wire() == slot::<T>(bytes, i)
}

proof fn lemma_slot_bound<T: MitchBody>(i: int, n: int)
    requires
        0 <= i < n,
    ensures
        (i + 1) * T::wire_size() <= n * T::wire_size(),
        0 <= i * T::wire_size(),
        i * T::wire_size() + T::wire_size() == (i + 1) * T::wire_size(),
{
    let s = T::wire_size() as int;
    assert((i + 1) * s <= n * s) by (nonlinear_arith)
        requires
            0 <= i < n,
            s >= 0,
    ;
    assert(0 <= i * s) by (nonlinear_arith)
        requires
            0 <= i,
            s >= 0,
    ;
    assert(i * s + s == (i + 1) * s) by (nonlinear_arith);
}

/// The bytes of `n` records are `n * wire_size()` long and slot `i` holds record `i`.
pub proof fn lemma_wire_concat<T: MitchBody>(items: Seq<T>)
    ensures
        wire_concat(items).len() == items.len() * T::wire_size(),
        decoded_from(items, wire_concat(items)),
    decreases items.len(),
{
    let s = T::wire_size() as int;
    if items.len() > 0 {
        let init = items.drop_last();
        lemma_wire_concat(init);
        items.last().lemma_wire_len();
        let w = wire_concat(items);
        let n = init.len() as int;
        assert(n * s + s == (n + 1) * s) by (nonlinear_arith);
        assert forall|i: int| 0 <= i < items.len() implies #[trigger] items[i].wire() == slot::<T>(w, i) by {
            lemma_slot_bound::<T>(i, n + 1);
            if i < n {
                lemma_slot_bound::<T>(i, n);
                assert(init[i] == items[i]);
                assert(slot::<T>(w, i) =~= slot::<T>(wire_concat(init), i));
            } else {
                assert(slot::<T>(w, i) =~= items.last().wire());
            }
        }
    }
}

/// Bytes whose slots hold the records of `items`, and no more bytes, are the
/// wire bytes of `items`.
pub proof fn lemma_wire_concat_of_decoded<T: MitchBody>(items: Seq<T>, bytes: Seq<u8>)
    requires
        bytes.len() == items.len() * T::wire_size(),
        decoded_from(items, bytes),
    ensures
        wire_concat(items) == bytes,
    decreases items.len(),
{
    let s = T::wire_size() as int;
    if items.len() == 0 {
        assert(bytes =~= Seq::<u8>::empty());
    } else {
        let n = items.len() - 1;
        let init = items.drop_last();
        assert(n * s + s == (n + 1) * s) by (nonlinear_arith);
        assert(0 <= n * s) by (nonlinear_arith)
            requires
                n >= 0,
                s >= 0,
        ;
        let head = bytes.subrange(0, n * s);
        assert forall|i: int| 0 <= i < init.len() implies #[trigger] init[i].wire() == slot::<T>(head, i) by {
            lemma_slot_bound::<T>(i, n);
            assert(items[i].wire() == slot::<T>(bytes, i));
            assert(slot::<T>(head, i) =~= slot::<T>(bytes, i));
        }
        lemma_wire_concat_of_decoded(init, head);
        assert(items[n].wire() == slot::<T>(bytes, n));
        assert(bytes =~= head + slot::<T>(bytes, n));
    }
}

/// Reading back the records of a batch gives the batch: two sequences of
/// records that fill the same slots are equal.
pub proof fn law_batch_roundtrip<T: MitchBody>(items: Seq<T>, decoded: Seq<T>)
    requires
        decoded.len() == items.len(),
        decoded_from(decoded, wire_concat(items)),
    ensures
        decoded == items,
{
    lemma_wire_concat(items);
    assert forall|i: int| 0 <= i < items.len() implies decoded[i] == items[i] by {
        assert(decoded[i].wire() == slot::<T>(wire_concat(items), i));
        assert(items[i].wire() == slot::<T>(wire_concat(items), i));
        decoded[i].lemma_wire_injective(&items[i]);
    }
    assert(decoded =~= items);
}

/// Packs a slice of records into one contiguous byte vector.
pub fn pack_batch<T: MitchBody>(items: &[T]) -> (r: Vec<u8>)
    ensures
        r@ == wire_concat(items@),
        r@.len() == items@.len() * T::wire_size(),
{
    let mut out: Vec<u8> = Vec::new();
    let n = items.len();
    let mut i: usize = 0;
    while i < n
        invariant
            i <= n,
            n == items@.len(),
            out@ == wire_concat(items@.take(i as int)),
        decreases n - i,
    {
        items[i].encode(&mut out);
        proof {
            assert(items@.take(i + 1).drop_last() =~= items@.take(i as int));
        }
        i = i + 1;
    }
    proof {
        assert(items@.take(n as int) =~= items@);
        lemma_wire_concat(items@);
    }
    out
}

/// Reads `count` records from the start of `bytes`.
///
/// Fails with `BufferTooSmall` when `bytes` is shorter than `count` records.
pub fn unpack_batch<T: MitchBody>(bytes: &[u8], count: usize) -> (r: Result<Vec<T>, MitchError>)
    requires
        count * T::wire_size() <= usize::MAX,
    ensures
        bytes@.len() < count * T::wire_size() ==> r == Err::<Vec<T>, MitchError>(MitchError::BufferTooSmall {
            expected: (count * T::wire_size()) as usize,
            actual: bytes@.len() as usize,
        }),
        bytes@.len() >= count * T::wire_size() ==> r is Ok,
        r matches Ok(v) ==> (v@.len() == count && decoded_from(v@, bytes@)),
{
    let size = T::body_size();
    let expected = count * size;
    if bytes.len() < expected {
        return Err(MitchError::BufferTooSmall { expected, actual: bytes.len() });
    }
    let mut out: Vec<T> = Vec::new();
    let mut i: usize = 0;
    while i < count
        invariant
            i <= count,
            size as nat == T::wire_size(),
            expected == count * size,
            bytes@.len() >= expected,
            out@.len() == i,
            decoded_from(out@, bytes@),
        decreases count - i,
    {
        proof {
            lemma_slot_bound::<T>(i as int, count as int);
        }
        let item = T::decode(bytes, i * size);
        out.push(item);
        i = i + 1;
    }
    Ok(out)
}

/// The message of the error for a buffer of `len` bytes that holds no whole
/// number of records of `size` bytes.
pub open spec fn misaligned_length_text(len: nat, size: nat) -> Seq<char> {
    "buffer length "@ + decimal(len) + " is not a multiple of body size "@ + decimal(size)
}

fn misaligned_length_message(len: usize, size: usize) -> (r: String)
    ensures
        r@ == misaligned_length_text(len as nat, size as nat),
{
    let mut s = String::new();
    s.push_str("buffer length ");
    push_decimal(&mut s, len as u64);
    s.push_str(" is not a multiple of body size ");
    push_decimal(&mut s, size as u64);
    s
}

/// Reads as many records as `bytes` holds.
///
/// Fails with `InvalidData` when the length of `bytes` is not a multiple of
/// the record size.
pub fn unpack_all<T: MitchBody>(bytes: &[u8]) -> (r: Result<Vec<T>, MitchError>)
    ensures
        bytes@.len() % T::wire_size() != 0 ==> data_error(r, misaligned_length_text(bytes@.len(), T::wire_size())),
        bytes@.len() % T::wire_size() == 0 ==> r is Ok,
        r matches Ok(v) ==> (v@.len() * T::wire_size() == bytes@.len() && decoded_from(v@, bytes@)),
{
    let size = T::body_size();
    if bytes.len() % size != 0 {
        return Err(MitchError::InvalidData(misaligned_length_message(bytes.len(), size)));
    }
    let count = bytes.len() / size;
    proof {
        vstd::arithmetic::div_mod::lemma_fundamental_div_mod(bytes@.len() as int, size as int);
        vstd::arithmetic::mul::lemma_mul_is_commutative(count as int, size as int);
        assert(count * size == bytes@.len());
    }
    unpack_batch::<T>(bytes, count)
}

} // verus!
