//! Decimal formatting of integers, used to build connection strings and the
//! numeric fields of token payloads.

use vstd::prelude::*;

verus! {

/// The decimal digit character for `n % 10`.
pub open spec fn dec_digit(n: nat) -> char {
    ((48 + (n % 10)) as u8) as char
}

/// The decimal representation of a natural number, most significant digit
/// first, with no leading zeros (`0` is written as "0").
pub open spec fn dec_nat(n: nat) -> Seq<char>
    decreases n,
{
    if n < 10 {
        seq![dec_digit(n)]
    } else {
        dec_nat(n / 10).push(dec_digit(n % 10))
    }
}

/// The decimal representation of an integer: a leading '-' for negatives.
pub open spec fn dec_int(n: int) -> Seq<char> {
    if n < 0 {
        seq!['-'] + dec_nat((-n) as nat)
    } else {
        dec_nat(n as nat)
    }
}

/// Relies on std's `String::push`: appends exactly the given character.
#[verifier::external_body]
pub(crate) fn push_char(s: &mut String, c: char)
    ensures
        final(s)@ == old(s)@.push(c),
{
    s.push(c);
}

/// Writes `n` in decimal.
pub fn format_u64(n: u64) -> (r: String)
    ensures
        r@ == dec_nat(n as nat),
    decreases n,
{
    let d = ((n % 10) as u8 + 48) as char;
    proof {
        assert(d == dec_digit(n as nat));
    }
    if n < 10 {
        let mut s = String::new();
        push_char(&mut s, d);
        assert(s@ =~= dec_nat(n as nat));
        s
    } else {
        let mut s = format_u64(n / 10);
        push_char(&mut s, d);
        assert(s@ =~= dec_nat(n as nat));
        s
    }
}

/// Writes `n` in decimal, with a leading '-' when negative.
pub fn format_i64(n: i64) -> (r: String)
    ensures
        r@ == dec_int(n as int),
{
    if n >= 0 {
        format_u64(n as u64)
    } else {
        let magnitude = ((-(n + 1)) as u64) + 1;
        assert(magnitude as nat == (-(n as int)) as nat);
        let mut s = String::new();
        push_char(&mut s, '-');
        let rest = format_u64(magnitude);
        let r = s.concat(rest.as_str());
        assert(r@ =~= dec_int(n as int));
        r
    }
}

/// Relies on std's `str` equality: two string slices are equal exactly when
/// their character sequences are equal.
#[verifier::external_body]
pub(crate) fn str_eq(a: &str, b: &str) -> (r: bool)
    ensures
        r == (a@ == b@),
{
    a == b
}

} // verus!

