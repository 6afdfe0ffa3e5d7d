//! Building text: characters and the rendering of unsigned numbers.

use vstd::prelude::*;

verus! {

/// Appends one character at the end of `s`.
///
/// Trusted: calls std's `String::push`, whose documentation says it appends the
/// character to the end of the string; the contract claims just that.
#[verifier::external_body]
pub(crate) fn push_char(s: &mut String, c: char)
    ensures
        final(s)@ == old(s)@.push(c),
{
    s.push(c);
}

/// The lower-case digit for a value below sixteen.
pub open spec fn hex_digit(d: int) -> char {
    if d < 10 {
        (d + 48) as char
    } else {
        (d + 87) as char
    }
}

/// `n` written in base `base` with the digits `0`-`9`, `a`-`f`, without leading
/// zeros (a single digit where `base` is below two).
pub open spec fn numeral_text(n: nat, base: nat) -> Seq<char>
    decreases n,
{
    if base < 2 || n < base {
        seq![hex_digit(n as int)]
    } else {
        proof {
            assert(n / base < n) by (nonlinear_arith)
                requires
                    base >= 2,
                    n >= base,
            ;
        }
        numeral_text(n / base, base).push(hex_digit((n % base) as int))
    }
}

/// `n` in lower-case hexadecimal (as `{:x}` writes it).
pub open spec fn hex_text(n: nat) -> Seq<char> {
    numeral_text(n, 16)
}

/// `n` in decimal (as `{}` writes it).
pub open spec fn decimal_text(n: nat) -> Seq<char> {
    numeral_text(n, 10)
}

fn digit_char(d: u64) -> (c: char)
    requires
        d < 16,
    ensures
        c == hex_digit(d as int),
{
    let b: u8 = if d < 10 {
        d as u8 + 48
    } else {
        d as u8 + 87
    };
    b as char
}

/// Appends `n` in lower-case hexadecimal.
pub fn append_hex(out: &mut String, n: u64)
    ensures
        final(out)@ == old(out)@ + hex_text(n as nat),
    decreases n,
{
    if n >= 16 {
        append_hex(out, n / 16);
    }
    push_char(out, digit_char(n % 16));
}

/// Appends `n` in decimal.
pub fn append_decimal(out: &mut String, n: u64)
    ensures
        final(out)@ == old(out)@ + decimal_text(n as nat),
    decreases n,
{
    if n >= 10 {
        append_decimal(out, n / 10);
    }
    push_char(out, digit_char(n % 10));
}

} // verus!
