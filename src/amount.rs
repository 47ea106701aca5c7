//! Amounts in satoshis and their decimal text in bitcoins.
use vstd::prelude::*;

verus! {

/// Satoshis in one bitcoin.
pub const SAT_PER_BTC: u64 = 100000000;

/// The character of a decimal digit.
pub open spec fn digit_char(d: nat) -> char {
    if d == 0 { '0' } else if d == 1 { '1' } else if d == 2 { '2' } else if d == 3 { '3' }
    else if d == 4 { '4' } else if d == 5 { '5' } else if d == 6 { '6' } else if d == 7 { '7' }
    else if d == 8 { '8' } else { '9' }
}

/// The decimal digits of `n`, most significant first, without leading zeros.
pub open spec fn decimal_digits(n: nat) -> Seq<char>
    decreases n,
{
    if n < 10 {
        seq![digit_char(n)]
    } else {
        decimal_digits(n / 10).push(digit_char(n % 10))
    }
}

/// The last `width` decimal digits of `n`, padded with leading zeros.
pub open spec fn padded_digits(n: nat, width: nat) -> Seq<char>
    decreases width,
{
    if width == 0 {
        seq![]
    } else {
        padded_digits(n / 10, (width - 1) as nat).push(digit_char(n % 10))
    }
}

/// The fraction `n / 10^width` as digits after the point, trailing zeros dropped.
pub open spec fn fraction_digits(n: nat, width: nat) -> Seq<char>
    decreases width,
{
    if width > 0 && n % 10 == 0 {
        fraction_digits(n / 10, (width - 1) as nat)
    } else {
        padded_digits(n, width)
    }
}

/// The shortest decimal text of `sat` satoshis in bitcoins: the whole part,
/// then, unless the amount is whole, a point and the significant fraction
/// digits (50 BTC is "50", 0.0001 BTC is "0.0001").
pub open spec fn btc_text(sat: nat) -> Seq<char> {
    let whole = decimal_digits(sat / SAT_PER_BTC as nat);
    let frac = sat % SAT_PER_BTC as nat;
    if frac == 0 {
        whole
    } else {
        whole + seq!['.'] + fraction_digits(frac, 8)
    }
}

/// The text of a signed amount: a minus sign before a negative one.
pub open spec fn signed_btc_text(sat: int) -> Seq<char> {
    if sat < 0 {
        seq!['-'] + btc_text((-sat) as nat)
    } else {
        btc_text(sat as nat)
    }
}

/// Relies on String::push: the character is appended at the end.
#[verifier::external_body]
pub(crate) fn push_char(s: &mut String, c: char)
    ensures
        final(s)@ == old(s)@.push(c),
{
    s.push(c)
}

fn digit(d: u128) -> (c: char)
    requires
        d < 10,
    ensures
        c == digit_char(d as nat),
{
    if d == 0 { '0' } else if d == 1 { '1' } else if d == 2 { '2' } else if d == 3 { '3' }
    else if d == 4 { '4' } else if d == 5 { '5' } else if d == 6 { '6' } else if d == 7 { '7' }
    else if d == 8 { '8' } else { '9' }
}

/// Appends the decimal digits of `n`.
pub fn push_decimal(s: &mut String, n: u128)
    ensures
        final(s)@ == old(s)@ + decimal_digits(n as nat),
    decreases n,
{
    if n >= 10 {
        push_decimal(s, n / 10);
    }
    push_char(s, digit(n % 10));
    assert(final(s)@ =~= old(s)@ + decimal_digits(n as nat));
}

fn push_padded(s: &mut String, n: u128, width: u32)
    ensures
        final(s)@ == old(s)@ + padded_digits(n as nat, width as nat),
    decreases width,
{
    if width > 0 {
        push_padded(s, n / 10, width - 1);
        push_char(s, digit(n % 10));
    }
    assert(final(s)@ =~= old(s)@ + padded_digits(n as nat, width as nat));
}

fn push_fraction(s: &mut String, n: u128, width: u32)
    ensures
        final(s)@ == old(s)@ + fraction_digits(n as nat, width as nat),
    decreases width,
{
    if width > 0 && n % 10 == 0 {
        push_fraction(s, n / 10, width - 1);
    } else {
        push_padded(s, n, width);
    }
}

/// The text of an unsigned amount of satoshis in bitcoins.
pub fn format_btc(sat: u128) -> (r: String)
    ensures
        r@ == btc_text(sat as nat),
{
    let mut s = String::new();
    push_decimal(&mut s, sat / (SAT_PER_BTC as u128));
    let frac = sat % (SAT_PER_BTC as u128);
    if frac != 0 {
        push_char(&mut s, '.');
        push_fraction(&mut s, frac, 8);
    }
    assert(s@ =~= btc_text(sat as nat));
    s
}

/// The text of a signed amount of satoshis in bitcoins.
pub fn format_signed_btc(sat: i128) -> (r: String)
    requires
        sat > i128::MIN,
    ensures
        r@ == signed_btc_text(sat as int),
{
    if sat < 0 {
        let mut s = String::new();
        push_char(&mut s, '-');
        let magnitude = format_btc((-sat) as u128);
        s.append(magnitude.as_str());
        assert(s@ =~= signed_btc_text(sat as int));
        s
    } else {
        format_btc(sat as u128)
    }
}

} // verus!
