//! Reading a 16-bit number from text, in decimal or in `0x`-prefixed
//! hexadecimal.

use vstd::prelude::*;
use crate::error::Error;

verus! {

/// The value of `c` as a digit: `0`-`9` count 0 to 9, and the letters of
/// either case count from 10 upwards. Any other character is no digit.
pub open spec fn digit_of(c: char) -> Option<nat> {
    let v = c as nat;
    if 0x30 <= v <= 0x39 {
        Some((v - 0x30) as nat)
    } else if 0x61 <= v <= 0x7a {
        Some((v - 0x61 + 10) as nat)
    } else if 0x41 <= v <= 0x5a {
        Some((v - 0x41 + 10) as nat)
    } else {
        None
    }
}

/// Whether `c` is a digit of the given radix.
pub open spec fn is_digit(c: char, radix: nat) -> bool {
    match digit_of(c) {
        Some(d) => d < radix,
        None => false,
    }
}

/// Whether every character of `s` is a digit of the given radix.
pub open spec fn all_digits(s: Seq<char>, radix: nat) -> bool {
    forall|i: int| 0 <= i < s.len() ==> is_digit(#[trigger] s[i], radix)
}

/// The number that the digits of `s` denote, most significant digit first.
/// A character that is no digit counts as zero; [`all_digits`] rules it out.
pub open spec fn digits_value(s: Seq<char>, radix: nat) -> nat
    decreases s.len(),
{
    if s.len() == 0 {
        0
    } else {
        let last = match digit_of(s.last()) {
            Some(d) => d,
            None => 0,
        };
        digits_value(s.drop_last(), radix) * radix + last
    }
}

/// `s` without its leading `+`, if it has one.
pub open spec fn unsigned_part(s: Seq<char>) -> Seq<char> {
    if s.len() > 0 && s[0] == '+' {
        s.skip(1)
    } else {
        s
    }
}

/// The 16-bit number that `s` denotes in the given radix: an optional `+`,
/// then at least one digit, nothing else, and a value of at most 65535.
pub open spec fn number_in_radix(s: Seq<char>, radix: nat) -> Option<u16> {
    let body = unsigned_part(s);
    if body.len() > 0 && all_digits(body, radix) && digits_value(body, radix) <= 0xffff {
        Some(digits_value(body, radix) as u16)
    } else {
        None
    }
}

/// Whether `s` begins with the hexadecimal marker `0x`.
pub open spec fn has_hex_prefix(s: Seq<char>) -> bool {
    s.len() >= 2 && s[0] == '0' && s[1] == 'x'
}

/// The 16-bit number that `s` denotes: hexadecimal after a `0x` prefix,
/// decimal otherwise.
pub open spec fn hex_16(s: Seq<char>) -> Option<u16> {
    if has_hex_prefix(s) {
        number_in_radix(s.skip(2), 16)
    } else {
        number_in_radix(s, 10)
    }
}

/// The value of a digit sequence never falls below that of one of its
/// prefixes.
pub proof fn lemma_prefix_value(s: Seq<char>, k: int, radix: nat)
    requires
        0 <= k <= s.len(),
        radix >= 1,
    ensures
        digits_value(s.take(k), radix) <= digits_value(s, radix),
    decreases s.len() - k,
{
    if k == s.len() {
        assert(s.take(k) =~= s);
    } else {
        lemma_prefix_value(s.drop_last(), k, radix);
        assert(s.drop_last().take(k) =~= s.take(k));
        let shorter = digits_value(s.drop_last(), radix);
        assert(shorter * radix >= shorter) by (nonlinear_arith)
            requires
                radix >= 1,
        ;
    }
}

/// Computes [`digit_of`].
fn digit(c: char) -> (d: Option<u32>)
    ensures
        match d {
            Some(v) => digit_of(c) == Some(v as nat) && v < 36,
            None => digit_of(c) is None,
        },
{
    let v: u32 = c as u32;
    if 0x30 <= v && v <= 0x39 {
        Some(v - 0x30)
    } else if 0x61 <= v && v <= 0x7a {
        Some(v - 0x61 + 10)
    } else if 0x41 <= v && v <= 0x5a {
        Some(v - 0x41 + 10)
    } else {
        None
    }
}

/// Reads a 16-bit number written in the given radix.
pub fn parse_radix_16(text: &str, radix: u32) -> (number: Option<u16>)
    requires
        2 <= radix <= 36,
    ensures
        number == number_in_radix(text@, radix as nat),
{
    let n: usize = text.unicode_len();
    if n == 0 {
        return None;
    }
    let start: usize = if text.get_char(0) == '+' { 1 } else { 0 };
    if start == n {
        return None;
    }
    let ghost body = unsigned_part(text@);
    let mut acc: u32 = 0;
    let mut i: usize = start;
    while i < n
        invariant
            start <= i <= n,
            n == text@.len(),
            2 <= radix <= 36,
            body == unsigned_part(text@),
            body == text@.skip(start as int),
            all_digits(body.take(i - start), radix as nat),
            acc == digits_value(body.take(i - start), radix as nat),
            acc <= 0xffff,
        decreases n - i,
    {
        let c = text.get_char(i);
        let ghost seen = body.take(i - start);
        let ghost more = body.take(i + 1 - start);
        assert(body[i - start] == c);
        assert(more.drop_last() =~= seen);
        assert(more.last() == c);
        match digit(c) {
            None => {
                assert(!is_digit(body[i - start], radix as nat));
                return None;
            },
            Some(d) => {
                if d >= radix {
                    assert(!is_digit(body[i - start], radix as nat));
                    return None;
                }
                assert(acc * radix + d <= 0xffff * 36 + 35) by (nonlinear_arith)
                    requires
                        acc <= 0xffff,
                        radix <= 36,
                        d <= 35,
                ;
                acc = acc * radix + d;
                assert(acc == digits_value(more, radix as nat));
                if acc > 0xffff {
                    proof {
                        lemma_prefix_value(body, i + 1 - start, radix as nat);
                    }
                    return None;
                }
                assert forall|j: int| 0 <= j < more.len() implies is_digit(
                    #[trigger] more[j],
                    radix as nat,
                ) by {
                    if j < seen.len() {
                        assert(more[j] == seen[j]);
                    }
                }
            },
        }
        i = i + 1;
    }
    assert(body.take(n - start) =~= body);
    Some(acc as u16)
}

/// Reads a vendor or product id: hexadecimal after a `0x` prefix, decimal
/// otherwise. Text that denotes no 16-bit number is refused with
/// [`Error::MalformedArguments`].
pub fn parse_hex_16(input: &str) -> (id: Result<u16, Error>)
    ensures
        id == match hex_16(input@) {
            Some(v) => Ok::<u16, Error>(v),
            None => Err(Error::MalformedArguments),
        },
{
    let n: usize = input.unicode_len();
    let parsed = if n >= 2 && input.get_char(0) == '0' && input.get_char(1) == 'x' {
        let digits = input.substring_char(2, n);
        assert(digits@ =~= input@.skip(2));
        parse_radix_16(digits, 16)
    } else {
        parse_radix_16(input, 10)
    };
    match parsed {
        Some(v) => Ok(v),
        None => Err(Error::MalformedArguments),
    }
}

} // verus!
