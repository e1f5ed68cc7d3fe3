//! Text renderings of numbers, for the human-readable forms of ids, headers
//! and errors: decimal, and fixed-width upper-case hexadecimal.

use vstd::prelude::*;

verus! {

/// Trusted contract of std's `String::push`: the string afterwards is the
/// string before with `ch` appended at its end.
pub assume_specification[ String::push ](s: &mut String, ch: char)
    ensures
        final(s)@ == old(s)@.push(ch),
;

/// Trusted contract of std's `String::push_str`: the string afterwards is
/// the string before followed by the characters of `string`.
pub assume_specification[ String::push_str ](s: &mut String, string: &str)
    ensures
        final(s)@ == old(s)@ + string@,
;

/// The character of a digit below 16: `0`-`9`, then `A`-`F`.
pub open spec fn digit_char(d: nat) -> char {
    if d < 10 {
        (48 + d) as char
    } else {
        (55 + d) as char
    }
}

/// Decimal digits of `n`, most significant first, with no leading zeros.
pub open spec fn decimal(n: nat) -> Seq<char>
    decreases n,
{
    if n < 10 {
        seq![digit_char(n)]
    } else {
        decimal(n / 10).push(digit_char(n % 10))
    }
}

/// The low `width` hexadecimal digits of `n`, most significant first.
pub open spec fn hex_digits(n: nat, width: nat) -> Seq<char>
    decreases width,
{
    if width == 0 {
        Seq::empty()
    } else {
        hex_digits(n / 16, (width - 1) as nat).push(digit_char(n % 16))
    }
}

/// The character of digit `d`.
fn digit(d: u64) -> (c: char)
    requires
        d < 16,
    ensures
        c == digit_char(d as nat),
{
    let b = d as u8;
    if b < 10 {
        (b + 48) as char
    } else {
        (b + 55) as char
    }
}

/// Appends the decimal digits of `n`.
pub fn push_decimal(s: &mut String, n: u64)
    ensures
        final(s)@ == old(s)@ + decimal(n as nat),
    decreases n,
{
    let ghost before = s@;
    if n >= 10 {
        push_decimal(s, n / 10);
    }
    s.push(digit(n % 10));
    proof {
        if n >= 10 {
            assert(before + decimal(n as nat) =~= (before + decimal((n / 10) as nat)).push(digit_char((n % 10) as nat)));
        } else {
            assert(before + decimal(n as nat) =~= before.push(digit_char(n as nat)));
        }
    }
}

/// Appends the low `width` hexadecimal digits of `n`, upper case.
pub fn push_hex(s: &mut String, n: u64, width: u32)
    ensures
        final(s)@ == old(s)@ + hex_digits(n as nat, width as nat),
    decreases width,
{
    let ghost before = s@;
    if width > 0 {
        push_hex(s, n / 16, width - 1);
        s.push(digit(n % 16));
        proof {
            assert(before + hex_digits(n as nat, width as nat) =~= (before + hex_digits((n / 16) as nat, (width - 1) as nat)).push(
                digit_char((n % 16) as nat)));
        }
    } else {
        assert(before + hex_digits(n as nat, 0) =~= before);
    }
}

} // verus!
