use vstd::prelude::*;
use vstd::string::StrSliceExecFns;

use crate::errors::ArgError;

verus! {

/// A decimal digit, `'0'` through `'9'`.
pub open spec fn is_dec_digit(c: char) -> bool {
    48 <= c as int && c as int <= 57
}

/// The numeric value of a decimal digit.
pub open spec fn digit_val(c: char) -> nat {
    (c as int - 48) as nat
}

/// A non-empty string of decimal digits.
pub open spec fn is_dec_string(s: Seq<char>) -> bool {
    s.len() > 0 && forall|i: int| 0 <= i < s.len() ==> is_dec_digit(#[trigger] s[i])
}

/// The value of a digit string read as a base-ten numeral.
pub open spec fn dec_value(s: Seq<char>) -> nat
    decreases s.len(),
{
    if s.len() == 0 {
        0
    } else {
        dec_value(s.drop_last()) * 10 + digit_val(s.last())
    }
}

/// The value of a numeral never falls when digits are appended: every
/// prefix reads as at most the whole.
proof fn lemma_dec_value_prefix_le(s: Seq<char>, i: int)
    requires
        0 <= i <= s.len(),
    ensures
        dec_value(s.subrange(0, i)) <= dec_value(s),
    decreases s.len() - i,
{
    if i == s.len() {
        assert(s.subrange(0, i) =~= s);
    } else {
        assert(s.subrange(0, i + 1).drop_last() =~= s.subrange(0, i));
        let p = dec_value(s.subrange(0, i));
        assert(p * 10 >= p) by (nonlinear_arith);
        lemma_dec_value_prefix_le(s, i + 1);
    }
}

/// One of the two accepted option spellings, short or long.
pub open spec fn is_timestamp_flag(s: Seq<char>) -> bool {
    s == "-t"@ || s == "--timestamp"@
}

/// What extraction returns for a given argument vector: the parsed value
/// of the third argument when the shape is `<program> <flag> <value>`
/// with an accepted flag and a decimal value that fits in `usize`.
pub open spec fn spec_extract_timestamp(args: Seq<Seq<char>>) -> Result<usize, ArgError> {
    if args.len() != 3 || !is_timestamp_flag(args[1]) {
        Err(ArgError::Usage)
    } else if is_dec_string(args[2]) && dec_value(args[2]) <= usize::MAX {
        Ok(dec_value(args[2]) as usize)
    } else {
        Err(ArgError::InvalidTimestamp)
    }
}

/// Character-for-character string equality.
fn str_eq(a: &str, b: &str) -> (r: bool)
    ensures
        r == (a@ == b@),
{
    let a_len = a.unicode_len();
    let b_len = b.unicode_len();
    if a_len != b_len {
        return false;
    }
    let mut i: usize = 0;
    while i < a_len
        invariant
            a_len == a@.len(),
            a_len == b@.len(),
            0 <= i <= a_len,
            forall|j: int| 0 <= j < i ==> a@[j] == b@[j],
        decreases a_len - i,
    {
        if a.get_char(i) != b.get_char(i) {
            return false;
        }
        i = i + 1;
    }
    proof {
        assert(a@ =~= b@);
    }
    true
}

/// Parse a non-empty, all-digit decimal numeral into a `usize`. Returns
/// `Ok` exactly on the strings whose value fits; everything else is an
/// invalid timestamp.
pub fn parse_timestamp(s: &str) -> (r: Result<usize, ArgError>)
    ensures
        r matches Ok(v) ==> is_dec_string(s@) && dec_value(s@) <= usize::MAX && v == dec_value(s@),
        r matches Err(e) ==> e == ArgError::InvalidTimestamp && !(is_dec_string(s@) && dec_value(
            s@,
        ) <= usize::MAX),
{
    let n = s.unicode_len();
    if n == 0 {
        return Err(ArgError::InvalidTimestamp);
    }
    let mut acc: usize = 0;
    let mut i: usize = 0;
    while i < n
        invariant
            n == s@.len(),
            n > 0,
            0 <= i <= n,
            forall|j: int| 0 <= j < i ==> is_dec_digit(#[trigger] s@[j]),
            acc == dec_value(s@.subrange(0, i as int)),
        decreases n - i,
    {
        let c = s.get_char(i);
        let code = c as u32;
        if code < 48 || code > 57 {
            return Err(ArgError::InvalidTimestamp);
        }
        let digit = code - 48;
        let wide: u128 = (acc as u128) * 10 + (digit as u128);
        proof {
            assert(s@.subrange(0, i as int + 1).drop_last() =~= s@.subrange(0, i as int));
            assert(s@.subrange(0, i as int + 1).last() == s@[i as int]);
            assert(dec_value(s@.subrange(0, i as int + 1)) == wide);
        }
        if wide > usize::MAX as u128 {
            proof {
                lemma_dec_value_prefix_le(s@, i as int + 1);
            }
            return Err(ArgError::InvalidTimestamp);
        }
        acc = wide as usize;
        i = i + 1;
    }
    proof {
        assert(s@.subrange(0, n as int) =~= s@);
    }
    Ok(acc)
}

/// Extract the target timestamp from a full argument vector (program name
/// first): accepts exactly `<program> -t <value>` or
/// `<program> --timestamp <value>`.
pub fn extract_timestamp(args: &Vec<String>) -> (r: Result<usize, ArgError>)
    ensures
        r == spec_extract_timestamp(args.deep_view()),
{
    if args.len() != 3 {
        return Err(ArgError::Usage);
    }
    proof {
        assert(args.deep_view()[1] == args@[1 as int]@);
        assert(args.deep_view()[2] == args@[2 as int]@);
    }
    let flag = args[1].as_str();
    if !(str_eq(flag, "-t") || str_eq(flag, "--timestamp")) {
        return Err(ArgError::Usage);
    }
    parse_timestamp(args[2].as_str())
}

/// The short flag `-t` and the long flag `--timestamp` are interpreted
/// identically: for any program name and any value, extraction gives the
/// same result under either spelling.
pub proof fn lemma_short_long_flags_agree(prog: Seq<char>, value: Seq<char>)
    ensures
        spec_extract_timestamp(seq![prog, "-t"@, value]) == spec_extract_timestamp(
            seq![prog, "--timestamp"@, value],
        ),
{
    let a = seq![prog, "-t"@, value];
    let b = seq![prog, "--timestamp"@, value];
    assert(a[1] == "-t"@ && a[2] == value);
    assert(b[1] == "--timestamp"@ && b[2] == value);
}

} // verus!
