//! Rendering of integers as decimal and hexadecimal text.
//!
//! The specifications are stated over sequences of characters; the executable
//! functions append to a `String` and are proved to append exactly those
//! characters.

use vstd::prelude::*;
use vstd::string::*;

verus! {

/// The sixteen lower-case hexadecimal digits, in order of value.
pub open spec fn digits() -> Seq<char> {
    seq!['0', '1', '2', '3', '4', '5', '6', '7', '8', '9', 'a', 'b', 'c', 'd', 'e', 'f']
}

/// The digit that stands for `d`, for `0 <= d < 16`.
pub open spec fn digit(d: int) -> char
    recommends
        0 <= d < 16,
{
    digits()[d]
}

/// The value of a decimal digit; `None` for any other character.
pub open spec fn decimal_digit_value(c: char) -> Option<nat> {
    if c == '0' {
        Some(0)
    } else if c == '1' {
        Some(1)
    } else if c == '2' {
        Some(2)
    } else if c == '3' {
        Some(3)
    } else if c == '4' {
        Some(4)
    } else if c == '5' {
        Some(5)
    } else if c == '6' {
        Some(6)
    } else if c == '7' {
        Some(7)
    } else if c == '8' {
        Some(8)
    } else if c == '9' {
        Some(9)
    } else {
        None
    }
}

/// Decimal notation of `n`: most significant digit first, no leading zero
/// except for zero itself.
pub open spec fn decimal(n: nat) -> Seq<char>
    decreases n,
{
    if n < 10 {
        seq![digit(n as int)]
    } else {
        decimal(n / 10).push(digit((n % 10) as int))
    }
}

/// Decimal notation of a signed integer: a minus sign before the magnitude of
/// a negative number.
pub open spec fn signed_decimal(n: int) -> Seq<char> {
    if n < 0 {
        seq!['-'] + decimal((-n) as nat)
    } else {
        decimal(n as nat)
    }
}

/// Two hexadecimal digits for one byte, high nibble first.
pub open spec fn hex_pair(b: u8) -> Seq<char> {
    seq![digit(b as int / 16), digit(b as int % 16)]
}

/// The number that a sequence of decimal digits denotes. Characters that are
/// no digits count as zero.
pub open spec fn decimal_value(s: Seq<char>) -> nat
    decreases s.len(),
{
    if s.len() == 0 {
        0
    } else {
        let last = match decimal_digit_value(s.last()) {
            Some(v) => v,
            None => 0,
        };
        decimal_value(s.drop_last()) * 10 + last
    }
}

/// True when every character of `s` is a decimal digit.
pub open spec fn all_decimal_digits(s: Seq<char>) -> bool {
    forall|i: int| 0 <= i < s.len() ==> (#[trigger] decimal_digit_value(s[i])) is Some
}

/// Decimal notation is never empty, consists of digits only, and denotes the
/// number it was made from.
pub proof fn lemma_decimal_roundtrip(n: nat)
    ensures
        decimal(n).len() >= 1,
        all_decimal_digits(decimal(n)),
        decimal_value(decimal(n)) == n,
    decreases n,
{
    if n < 10 {
        let s = decimal(n);
        assert(s.len() == 1);
        assert(s[0] == digit(n as int));
        assert(decimal_digit_value(s[0]) == Some(n));
        assert(s.drop_last().len() == 0);
        assert(decimal_value(s.drop_last()) == 0);
        assert(s.last() == s[0]);
    } else {
        lemma_decimal_roundtrip(n / 10);
        let head = decimal(n / 10);
        let d = digit((n % 10) as int);
        let s = head.push(d);
        assert(s == decimal(n));
        assert(s.drop_last() =~= head);
        assert(s.last() == d);
        assert(decimal_digit_value(d) == Some(n % 10));
        assert forall|i: int| 0 <= i < s.len() implies (#[trigger] decimal_digit_value(
            s[i],
        )) is Some by {
            if i < head.len() {
                assert(s[i] == head[i]);
            }
        }
    }
}

/// Two numbers with the same decimal notation are the same number.
pub proof fn lemma_decimal_injective(a: nat, b: nat)
    requires
        decimal(a) == decimal(b),
    ensures
        a == b,
{
    lemma_decimal_roundtrip(a);
    lemma_decimal_roundtrip(b);
}

/// Two values below sixteen with the same digit are the same value.
pub proof fn lemma_digit_injective(x: int, y: int)
    requires
        0 <= x < 16,
        0 <= y < 16,
        digit(x) == digit(y),
    ensures
        x == y,
{
}

/// Two bytes with the same pair of hexadecimal digits are the same byte.
pub proof fn lemma_hex_pair_injective(a: u8, b: u8)
    requires
        hex_pair(a) == hex_pair(b),
    ensures
        a == b,
{
    assert(hex_pair(a)[0] == hex_pair(b)[0]);
    assert(hex_pair(a)[1] == hex_pair(b)[1]);
    lemma_digit_injective(a as int / 16, b as int / 16);
    lemma_digit_injective(a as int % 16, b as int % 16);
}

/// Where two texts that each start with a run of decimal digits and a dot
/// are the same text, the runs are the same and so is what follows the dot.
pub proof fn lemma_split_at_dot(x: Seq<char>, p: Seq<char>, y: Seq<char>, q: Seq<char>)
    requires
        all_decimal_digits(x),
        all_decimal_digits(y),
        x + seq!['.'] + p == y + seq!['.'] + q,
    ensures
        x == y,
        p == q,
{
    let left = x + seq!['.'] + p;
    let right = y + seq!['.'] + q;
    if x.len() < y.len() {
        assert(left[x.len() as int] == '.');
        assert(right[x.len() as int] == y[x.len() as int]);
        assert(decimal_digit_value(y[x.len() as int]) is Some);
        assert(false);
    }
    if y.len() < x.len() {
        assert(right[y.len() as int] == '.');
        assert(left[y.len() as int] == x[y.len() as int]);
        assert(decimal_digit_value(x[y.len() as int]) is Some);
        assert(false);
    }
    assert(x =~= y) by {
        assert forall|i: int| 0 <= i < x.len() implies x[i] == y[i] by {
            assert(left[i] == x[i]);
            assert(right[i] == y[i]);
        }
    }
    assert(p =~= q) by {
        assert(left.len() == right.len());
        assert forall|i: int| 0 <= i < p.len() implies p[i] == q[i] by {
            assert(left[x.len() + 1 + i] == p[i]);
            assert(right[y.len() + 1 + i] == q[i]);
        }
    }
}

/// Appends the digit for `d` to `out`.
fn push_digit(out: &mut String, d: u8)
    requires
        d < 16,
    ensures
        final(out)@ == old(out)@.push(digit(d as int)),
{
    let table = "0123456789abcdef";
    proof {
        reveal_strlit("0123456789abcdef");
        assert(table@ =~= digits());
        assert(table.is_ascii());
    }
    let from: usize = d as usize;
    let one = table.substring_ascii(from, from + 1);
    assert(one@ =~= seq![digit(d as int)]);
    out.append(one);
    assert(out@ =~= old(out)@.push(digit(d as int)));
}

/// Appends the decimal notation of `n` to `out`.
pub fn push_decimal(out: &mut String, n: u32)
    ensures
        final(out)@ == old(out)@ + decimal(n as nat),
    decreases n,
{
    if n >= 10 {
        push_decimal(out, n / 10);
    }
    let last: u32 = n % 10;
    push_digit(out, last as u8);
    assert(out@ =~= old(out)@ + decimal(n as nat));
}

/// Appends the decimal notation of the signed integer `n` to `out`.
pub fn push_signed_decimal(out: &mut String, n: i32)
    ensures
        final(out)@ == old(out)@ + signed_decimal(n as int),
{
    if n < 0 {
        out.append("-");
        proof {
            reveal_strlit("-");
            assert("-"@ =~= seq!['-']);
        }
        let wide: i64 = n as i64;
        let magnitude: i64 = -wide;
        push_decimal(out, magnitude as u32);
        assert(out@ =~= old(out)@ + signed_decimal(n as int));
    } else {
        push_decimal(out, n as u32);
    }
}

/// Appends the two hexadecimal digits of `b` to `out`.
pub fn push_hex_pair(out: &mut String, b: u8)
    ensures
        final(out)@ == old(out)@ + hex_pair(b),
{
    push_digit(out, b / 16);
    push_digit(out, b % 16);
    assert(out@ =~= old(out)@ + hex_pair(b));
}

} // verus!
