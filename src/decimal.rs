//! Decimal renderings of integers, as the labels print them.
use vstd::prelude::*;
use vstd::string::*;

verus! {

/// The character of one decimal digit.
pub open spec fn digit_char(d: nat) -> char {
    if d == 0 {
        '0'
    } else if d == 1 {
        '1'
    } else if d == 2 {
        '2'
    } else if d == 3 {
        '3'
    } else if d == 4 {
        '4'
    } else if d == 5 {
        '5'
    } else if d == 6 {
        '6'
    } else if d == 7 {
        '7'
    } else if d == 8 {
        '8'
    } else {
        '9'
    }
}

/// The decimal digits of `n`, most significant first, without leading zeros.
pub open spec fn dec_digits(n: nat) -> Seq<char>
    decreases n,
{
    if n < 10 {
        seq![digit_char(n)]
    } else {
        dec_digits(n / 10).push(digit_char(n % 10))
    }
}

/// The decimal form of a signed integer: a minus sign before negative values.
pub open spec fn signed_dec(n: int) -> Seq<char> {
    if n < 0 {
        seq!['-'] + dec_digits((-n) as nat)
    } else {
        dec_digits(n as nat)
    }
}

/// The two-character string of a number below one hundred, with a leading zero.
pub open spec fn two_digits(n: nat) -> Seq<char> {
    seq![digit_char(n / 10), digit_char(n % 10)]
}

/// A literal holding the single digit `d`.
pub fn digit_str(d: u64) -> (s: &'static str)
    requires
        d < 10,
    ensures
        s@ == seq![digit_char(d as nat)],
{
    proof {
        reveal_strlit("0");
        reveal_strlit("1");
        reveal_strlit("2");
        reveal_strlit("3");
        reveal_strlit("4");
        reveal_strlit("5");
        reveal_strlit("6");
        reveal_strlit("7");
        reveal_strlit("8");
        reveal_strlit("9");
    }
    let s = match d {
        0 => "0",
        1 => "1",
        2 => "2",
        3 => "3",
        4 => "4",
        5 => "5",
        6 => "6",
        7 => "7",
        8 => "8",
        _ => "9",
    };
    assert(s@ =~= seq![digit_char(d as nat)]);
    s
}

/// Appends the decimal digits of `n` to `out`.
pub fn push_decimal(out: &mut String, n: u64)
    ensures
        final(out)@ == old(out)@ + dec_digits(n as nat),
    decreases n,
{
    if n >= 10 {
        push_decimal(out, n / 10);
    }
    out.append(digit_str(n % 10));
    proof {
        if n >= 10 {
            assert(final(out)@ =~= old(out)@ + dec_digits(n as nat));
        } else {
            assert(final(out)@ =~= old(out)@ + dec_digits(n as nat));
        }
    }
}

/// Appends the decimal form of a signed integer to `out`.
pub fn push_signed_decimal(out: &mut String, n: i64)
    ensures
        final(out)@ == old(out)@ + signed_dec(n as int),
{
    proof {
        reveal_strlit("-");
    }
    if n < 0 {
        out.append("-");
        let m: u64 = if n == i64::MIN {
            9223372036854775808u64
        } else {
            (-n) as u64
        };
        push_decimal(out, m);
        assert(final(out)@ =~= old(out)@ + signed_dec(n as int));
    } else {
        push_decimal(out, n as u64);
    }
}

/// Appends a number below one hundred as exactly two digits.
pub fn push_two_digits(out: &mut String, n: u64)
    requires
        n < 100,
    ensures
        final(out)@ == old(out)@ + two_digits(n as nat),
{
    out.append(digit_str(n / 10));
    out.append(digit_str(n % 10));
    assert(final(out)@ =~= old(out)@ + two_digits(n as nat));
}

/// The decimal form of an unsigned integer.
pub fn u64_to_dec(n: u64) -> (r: String)
    ensures
        r@ == dec_digits(n as nat),
{
    let mut s = String::new();
    push_decimal(&mut s, n);
    assert(s@ =~= dec_digits(n as nat));
    s
}

/// The decimal form of a signed integer.
pub fn i64_to_dec(n: i64) -> (r: String)
    ensures
        r@ == signed_dec(n as int),
{
    let mut s = String::new();
    push_signed_decimal(&mut s, n);
    assert(s@ =~= signed_dec(n as int));
    s
}

} // verus!
