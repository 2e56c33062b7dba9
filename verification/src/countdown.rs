//! Countdown arithmetic and rendering: the remaining time of a running
//! phase, derived by saturating subtraction so it can never go negative,
//! and its `MM:SS` text, each field zero-padded to at least two digits.

use vstd::prelude::*;

verus! {

/// The seconds still to run: `total - elapsed`, saturating at zero when
/// the elapsed time has overshot the total.
pub open spec fn spec_remaining(total: u64, elapsed: u64) -> u64 {
    if elapsed >= total {
        0u64
    } else {
        (total - elapsed) as u64
    }
}

/// Remaining phase time in seconds. Saturating: once the elapsed time
/// reaches or exceeds the total, the result is zero, never negative.
pub fn remaining_secs(total: u64, elapsed: u64) -> (r: u64)
    ensures
        r == spec_remaining(total, elapsed),
        r <= total,
{
    if elapsed >= total {
        0
    } else {
        total - elapsed
    }
}

/// The character for one decimal digit.
pub open spec fn spec_digit_char(d: int) -> char {
    if d == 0 {
        '0'
    } else if d == 1 {
        '1'
    } else if d == 2 {
        '2'
    } else if d == 3 {
        '3'
    } else if d == 4 {
        '4'
    } else if d == 5 {
        '5'
    } else if d == 6 {
        '6'
    } else if d == 7 {
        '7'
    } else if d == 8 {
        '8'
    } else {
        '9'
    }
}

/// The decimal numeral of `n`, most significant digit first, with no
/// leading zero except for `n == 0` itself.
pub open spec fn spec_decimal(n: int) -> Seq<char>
    decreases n,
{
    if n < 10 {
        seq![spec_digit_char(n)]
    } else {
        spec_decimal(n / 10) + seq![spec_digit_char(n % 10)]
    }
}

/// The decimal numeral of `n`, zero-padded on the left to at least two
/// digits.
pub open spec fn spec_two_digits(n: int) -> Seq<char> {
    if n < 10 {
        seq!['0'] + spec_decimal(n)
    } else {
        spec_decimal(n)
    }
}

/// The countdown text for `total_secs` seconds: whole minutes, a colon,
/// and the leftover seconds, each zero-padded to at least two digits.
pub open spec fn spec_mm_ss(total_secs: u64) -> Seq<char> {
    spec_two_digits(total_secs as int / 60) + seq![':'] + spec_two_digits(total_secs as int % 60)
}

/// Relies on `String::push`: appends the given character to the end of
/// the string.
#[verifier::external_body]
fn push_char(s: &mut String, c: char)
    ensures
        final(s)@ == old(s)@ + seq![c],
{
    s.push(c)
}

/// The character for one decimal digit.
fn digit_char(d: u64) -> (c: char)
    requires
        d < 10,
    ensures
        c == spec_digit_char(d as int),
{
    match d {
        0 => '0',
        1 => '1',
        2 => '2',
        3 => '3',
        4 => '4',
        5 => '5',
        6 => '6',
        7 => '7',
        8 => '8',
        _ => '9',
    }
}

/// Append the decimal numeral of `n` to `s`.
fn push_decimal(s: &mut String, n: u64)
    ensures
        final(s)@ == old(s)@ + spec_decimal(n as int),
    decreases n,
{
    if n >= 10 {
        push_decimal(s, n / 10);
    }
    let c = digit_char(n % 10);
    push_char(s, c);
    proof {
        assert(s@ =~= old(s)@ + spec_decimal(n as int));
    }
}

/// Append the decimal numeral of `n`, zero-padded to at least two digits.
fn push_two_digits(s: &mut String, n: u64)
    ensures
        final(s)@ == old(s)@ + spec_two_digits(n as int),
{
    if n < 10 {
        push_char(s, '0');
    }
    push_decimal(s, n);
    proof {
        assert(s@ =~= old(s)@ + spec_two_digits(n as int));
    }
}

/// The countdown text for `total_secs` remaining seconds, as `MM:SS`
/// (more than two minute digits once the minutes pass 99).
pub fn format_mm_ss(total_secs: u64) -> (r: String)
    ensures
        r@ == spec_mm_ss(total_secs),
{
    let mut s = String::new();
    push_two_digits(&mut s, total_secs / 60);
    push_char(&mut s, ':');
    push_two_digits(&mut s, total_secs % 60);
    proof {
        assert(s@ =~= spec_mm_ss(total_secs));
    }
    s
}

} // verus!
