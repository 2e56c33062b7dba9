//! Lenient numeric flag parsing.
//!
//! A flag value is an optional leading `+` followed by one or more decimal
//! digits, and must fit the target integer width; anything else falls back
//! to the flag's default instead of raising a command-line error.

use vstd::prelude::*;

verus! {

/// Whether `c` is a decimal digit.
pub open spec fn is_digit(c: char) -> bool {
    48 <= c as u32 <= 57
}

/// The numeric value of a digit character.
pub open spec fn digit_val(c: char) -> int {
    c as u32 - 48
}

/// Whether every character of `cs` is a decimal digit.
pub open spec fn all_digits(cs: Seq<char>) -> bool {
    forall|i: int| 0 <= i < cs.len() ==> is_digit(#[trigger] cs[i])
}

/// The value of a digit string read in base ten, most significant digit
/// first.
pub open spec fn decimal_value(cs: Seq<char>) -> int
    decreases cs.len(),
{
    if cs.len() == 0 {
        0
    } else {
        decimal_value(cs.drop_last()) * 10 + digit_val(cs.last())
    }
}

/// The digits of a flag value: everything after an optional leading `+`.
pub open spec fn spec_digits_part(cs: Seq<char>) -> Seq<char> {
    if cs.len() > 0 && cs[0] == '+' {
        cs.drop_first()
    } else {
        cs
    }
}

/// What parsing text as an unsigned 64-bit number yields: the value of
/// the digits (after an optional leading `+`) when there is at least one,
/// all characters are digits, and the value fits; nothing otherwise.
pub open spec fn spec_parse_u64(cs: Seq<char>) -> Option<u64> {
    let ds = spec_digits_part(cs);
    if ds.len() > 0 && all_digits(ds) && decimal_value(ds) <= u64::MAX {
        Some(decimal_value(ds) as u64)
    } else {
        None
    }
}

/// As [`spec_parse_u64`], for the unsigned 32-bit width.
pub open spec fn spec_parse_u32(cs: Seq<char>) -> Option<u32> {
    let ds = spec_digits_part(cs);
    if ds.len() > 0 && all_digits(ds) && decimal_value(ds) <= u32::MAX {
        Some(decimal_value(ds) as u32)
    } else {
        None
    }
}

proof fn lemma_decimal_value_nonneg(cs: Seq<char>)
    requires
        all_digits(cs),
    ensures
        decimal_value(cs) >= 0,
    decreases cs.len(),
{
    if cs.len() > 0 {
        assert(all_digits(cs.drop_last()));
        lemma_decimal_value_nonneg(cs.drop_last());
    }
}

/// Reading further digits never decreases the value.
proof fn lemma_decimal_value_prefix(cs: Seq<char>, j: int)
    requires
        all_digits(cs),
        0 <= j <= cs.len(),
    ensures
        decimal_value(cs.subrange(0, j)) <= decimal_value(cs),
    decreases cs.len() - j,
{
    if j == cs.len() {
        assert(cs.subrange(0, j) =~= cs);
    } else {
        let shorter = cs.subrange(0, j);
        let longer = cs.subrange(0, j + 1);
        assert(longer.drop_last() =~= shorter);
        assert(all_digits(shorter));
        lemma_decimal_value_nonneg(shorter);
        assert(is_digit(longer.last()));
        assert(decimal_value(shorter) <= decimal_value(longer));
        lemma_decimal_value_prefix(cs, j + 1);
    }
}

/// Parse text as an unsigned 64-bit number: an optional leading `+`, then
/// one or more decimal digits whose value fits the width.
pub fn parse_u64(s: &str) -> (r: Option<u64>)
    ensures
        r == spec_parse_u64(s@),
{
    let len = s.unicode_len();
    let mut start: usize = 0;
    if len > 0 && s.get_char(0) == '+' {
        start = 1;
    }
    let ghost ds = spec_digits_part(s@);
    proof {
        assert(ds =~= s@.subrange(start as int, s@.len() as int));
    }
    if start == len {
        return None;
    }
    let mut acc: u64 = 0;
    let mut j: usize = start;
    while j < len
        invariant
            start <= j <= len,
            len == s@.len(),
            start <= 1,
            ds == spec_digits_part(s@),
            ds == s@.subrange(start as int, s@.len() as int),
            all_digits(s@.subrange(start as int, j as int)),
            acc == decimal_value(s@.subrange(start as int, j as int)),
        decreases len - j,
    {
        let c = s.get_char(j);
        let v = c as u32;
        if v < 48 || v > 57 {
            proof {
                assert(ds[j - start] == s@[j as int]);
                assert(!is_digit(ds[j - start]));
            }
            return None;
        }
        let d = (v - 48) as u64;
        let ghost prefix = s@.subrange(start as int, j as int);
        let ghost extended = s@.subrange(start as int, j as int + 1);
        proof {
            assert(extended.drop_last() =~= prefix);
            assert(extended.last() == s@[j as int]);
            assert(decimal_value(extended) == acc * 10 + d);
            assert(all_digits(extended));
        }
        let wide = match acc.checked_mul(10) {
            Some(m) => m.checked_add(d),
            None => None,
        };
        match wide {
            Some(a) => {
                acc = a;
            },
            None => {
                proof {
                    if all_digits(ds) {
                        assert(extended =~= ds.subrange(0, j as int + 1 - start));
                        lemma_decimal_value_prefix(ds, j as int + 1 - start);
                        assert(decimal_value(ds) > u64::MAX);
                    }
                }
                return None;
            },
        }
        j = j + 1;
    }
    proof {
        assert(s@.subrange(start as int, j as int) =~= ds);
    }
    Some(acc)
}

/// Parse text as an unsigned 32-bit number, with the same shape of input
/// as [`parse_u64`].
pub fn parse_u32(s: &str) -> (r: Option<u32>)
    ensures
        r == spec_parse_u32(s@),
{
    proof {
        let ds = spec_digits_part(s@);
        if ds.len() > 0 && all_digits(ds) {
            lemma_decimal_value_nonneg(ds);
        }
    }
    match parse_u64(s) {
        None => None,
        Some(v) => {
            if v <= 0xffff_ffffu64 {
                Some(v as u32)
            } else {
                None
            }
        },
    }
}

/// The lenient flag policy for a 64-bit flag: the parsed value when the
/// text parses, the flag's default otherwise.
pub open spec fn spec_flag_u64(cs: Seq<char>, default: u64) -> u64 {
    match spec_parse_u64(cs) {
        Some(v) => v,
        None => default,
    }
}

/// The lenient flag policy for a 32-bit flag.
pub open spec fn spec_flag_u32(cs: Seq<char>, default: u32) -> u32 {
    match spec_parse_u32(cs) {
        Some(v) => v,
        None => default,
    }
}

/// Read a 64-bit flag value leniently: a malformed number silently falls
/// back to the flag's default.
pub fn flag_u64(s: &str, default: u64) -> (r: u64)
    ensures
        r == spec_flag_u64(s@, default),
{
    match parse_u64(s) {
        Some(v) => v,
        None => default,
    }
}

/// Read a 32-bit flag value leniently: a malformed number silently falls
/// back to the flag's default.
pub fn flag_u32(s: &str, default: u32) -> (r: u32)
    ensures
        r == spec_flag_u32(s@, default),
{
    match parse_u32(s) {
        Some(v) => v,
        None => default,
    }
}

} // verus!
