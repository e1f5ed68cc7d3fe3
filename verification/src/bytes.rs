//! Little-endian byte model shared by every wire codec of the protocol.
//!
//! A value `v` written on `n` bytes is `le_bytes(v, n)`: the least significant
//! byte first. Reading `n` bytes back gives `le_value`. The lemmas here relate
//! the two, and the executable helpers write and read them.

use vstd::prelude::*;

verus! {

/// `256^n`.
pub open spec fn pow256(n: nat) -> nat
    decreases n,
{
    if n == 0 {
        1
    } else {
        256 * pow256((n - 1) as nat)
    }
}

/// The `n` little-endian bytes of `v` (bits beyond `8 * n` are dropped).
pub open spec fn le_bytes(v: nat, n: nat) -> Seq<u8>
    decreases n,
{
    if n == 0 {
        Seq::empty()
    } else {
        seq![(v % 256) as u8] + le_bytes(v / 256, (n - 1) as nat)
    }
}

/// The number that the little-endian byte sequence `s` denotes.
pub open spec fn le_value(s: Seq<u8>) -> nat
    decreases s.len(),
{
    if s.len() == 0 {
        0
    } else {
        s[0] as nat + 256 * le_value(s.drop_first())
    }
}

/// The powers of 256 up to the eighth.
pub proof fn lemma_pow256_values()
    ensures
        pow256(0) == 1,
        pow256(1) == 0x100,
        pow256(2) == 0x1_0000,
        pow256(3) == 0x100_0000,
        pow256(4) == 0x1_0000_0000,
        pow256(5) == 0x100_0000_0000,
        pow256(6) == 0x1_0000_0000_0000,
        pow256(7) == 0x100_0000_0000_0000,
        pow256(8) == 0x1_0000_0000_0000_0000,
{
    reveal_with_fuel(pow256, 9);
}

/// Every power of 256 is positive.
pub proof fn lemma_pow256_positive(n: nat)
    ensures
        pow256(n) > 0,
    decreases n,
{
    if n > 0 {
        lemma_pow256_positive((n - 1) as nat);
    }
}

/// Powers of 256 grow with the exponent.
pub proof fn lemma_pow256_monotone(a: nat, b: nat)
    requires
        a <= b,
    ensures
        pow256(a) <= pow256(b),
    decreases b,
{
    if a < b {
        lemma_pow256_monotone(a, (b - 1) as nat);
        lemma_pow256_positive((b - 1) as nat);
    }
}

/// Writing on `n` bytes gives `n` bytes.
pub proof fn lemma_le_bytes_len(v: nat, n: nat)
    ensures
        #[trigger] le_bytes(v, n).len() == n,
    decreases n,
{
    if n > 0 {
        lemma_le_bytes_len(v / 256, (n - 1) as nat);
    }
}

/// `n` bytes denote a number below `256^n`.
pub proof fn lemma_le_value_bound(s: Seq<u8>)
    ensures
        le_value(s) < pow256(s.len()),
    decreases s.len(),
{
    if s.len() > 0 {
        lemma_le_value_bound(s.drop_first());
    }
}

/// Reading back `n` written bytes gives the value modulo `256^n`.
pub proof fn lemma_le_value_of_bytes(v: nat, n: nat)
    ensures
        le_value(le_bytes(v, n)) == v % pow256(n),
    decreases n,
{
    if n > 0 {
        let rest = le_bytes(v / 256, (n - 1) as nat);
        assert(le_bytes(v, n).drop_first() =~= rest);
        lemma_le_value_of_bytes(v / 256, (n - 1) as nat);
        lemma_pow256_positive((n - 1) as nat);
        vstd::arithmetic::div_mod::lemma_breakdown(v as int, 256, pow256((n - 1) as nat) as int);
    }
}

/// Writing back the value of `s` on `s.len()` bytes gives `s` again.
pub proof fn lemma_le_bytes_of_value(s: Seq<u8>)
    ensures
        le_bytes(le_value(s), s.len()) == s,
    decreases s.len(),
{
    if s.len() > 0 {
        let rest = s.drop_first();
        lemma_le_bytes_of_value(rest);
        let v = le_value(s);
        vstd::arithmetic::div_mod::lemma_fundamental_div_mod_converse(
            v as int,
            256,
            le_value(rest) as int,
            s[0] as int,
        );
        assert(le_bytes(v, s.len()) =~= s);
    }
}

/// A value below `256^n` survives the round trip through `n` bytes.
pub proof fn lemma_le_roundtrip(v: nat, n: nat)
    requires
        v < pow256(n),
    ensures
        le_value(le_bytes(v, n)) == v,
        le_bytes(v, n).len() == n,
{
    lemma_le_value_of_bytes(v, n);
    lemma_le_bytes_len(v, n);
    vstd::arithmetic::div_mod::lemma_small_mod(v, pow256(n));
}

/// The value of `n` bytes read back as an unsigned number of `n` bytes, and
/// the bytes of that number, are the bytes read.
pub proof fn lemma_le_read(s: Seq<u8>)
    requires
        s.len() <= 8,
    ensures
        le_value(s) < pow256(s.len()),
        le_bytes(le_value(s), s.len()) == s,
        s.len() == 2 ==> le_value(s) <= u16::MAX,
        s.len() == 4 ==> le_value(s) <= u32::MAX,
        s.len() <= 8 ==> le_value(s) <= u64::MAX,
{
    lemma_le_value_bound(s);
    lemma_le_bytes_of_value(s);
    lemma_pow256_values();
    lemma_pow256_monotone(s.len(), 8);
}

/// Unsigned integers round trip through their full width of bytes.
pub proof fn lemma_le_uint(v: nat, n: nat)
    requires
        n == 1 ==> v <= u8::MAX,
        n == 2 ==> v <= u16::MAX,
        n == 4 ==> v <= u32::MAX,
        n == 8 ==> v <= u64::MAX,
        n == 1 || n == 2 || n == 4 || n == 8,
    ensures
        le_value(le_bytes(v, n)) == v,
        le_bytes(v, n).len() == n,
{
    lemma_pow256_values();
    lemma_le_roundtrip(v, n);
}

/// Appends the `n` little-endian bytes of `v` to `out`.
pub fn push_le(out: &mut Vec<u8>, v: u64, n: usize)
    requires
        n <= 8,
    ensures
        final(out)@ == old(out)@ + le_bytes(v as nat, n as nat),
    decreases n,
{
    if n > 0 {
        let ghost before = out@;
        let b = (v % 256) as u8;
        out.push(b);
        push_le(out, v / 256, n - 1);
        assert(out@ =~= before + le_bytes(v as nat, n as nat));
    }
}

/// Reads the `n` little-endian bytes of `bytes` that start at `start`.
pub fn read_le(bytes: &[u8], start: usize, n: usize) -> (r: u64)
    requires
        n <= 8,
        start + n <= bytes@.len(),
    ensures
        r as nat == le_value(bytes@.subrange(start as int, start + n)),
    decreases n,
{
    if n == 0 {
        0
    } else {
        let _len = bytes.len();
        let rest = read_le(bytes, start + 1, n - 1);
        let ghost s = bytes@.subrange(start as int, start + n);
        proof {
            assert(s.drop_first() =~= bytes@.subrange(start + 1, start + n));
            lemma_le_value_bound(bytes@.subrange(start + 1, start + n));
            lemma_pow256_monotone((n - 1) as nat, 7);
            lemma_pow256_values();
        }
        bytes[start] as u64 + 256 * rest
    }
}

/// Appends the bytes of `s` to `out`.
pub fn push_bytes(out: &mut Vec<u8>, s: &[u8])
    ensures
        final(out)@ == old(out)@ + s@,
{
    let ghost before = out@;
    let n = s.len();
    let mut i: usize = 0;
    while i < n
        invariant
            i <= n,
            n == s@.len(),
            out@ == before + s@.subrange(0, i as int),
        decreases n - i,
    {
        out.push(s[i]);
        proof {
            assert(s@.subrange(0, i + 1) =~= s@.subrange(0, i as int).push(s@[i as int]));
        }
        i = i + 1;
    }
    proof {
        assert(s@.subrange(0, n as int) =~= s@);
    }
}

/// Copies `N` bytes of `bytes` starting at `start` into an array.
pub fn read_array<const N: usize>(bytes: &[u8], start: usize) -> (r: [u8; N])
    requires
        start + N <= bytes@.len(),
    ensures
        r@ == bytes@.subrange(start as int, start + N),
{
    let mut r = [0u8; N];
    let len = bytes.len();
    let mut i: usize = 0;
    while i < N
        invariant
            i <= N,
            start + N <= bytes@.len(),
            len == bytes@.len(),
            r@.len() == N,
            forall|j: int| 0 <= j < i ==> r@[j] == bytes@[start + j],
        decreases N - i,
    {
        r[i] = bytes[start + i];
        i = i + 1;
    }
    assert(r@ =~= bytes@.subrange(start as int, start + N));
    r
}

/// Copies a byte vector of length `N` into an array.
pub fn vec_to_array<const N: usize>(v: &Vec<u8>) -> (r: [u8; N])
    requires
        v@.len() == N,
    ensures
        r@ == v@,
{
    let r = read_array::<N>(v.as_slice(), 0);
    assert(v@.subrange(0, N as int) =~= v@);
    r
}

} // verus!
