//! The byte-count pretty-printer: a number of bytes rendered as a short
//! decimal value followed by a unit suffix, scaled in steps of 1024.

use vstd::prelude::*;

verus! {

/// The character for one decimal digit.
pub open spec fn digit_char(d: nat) -> char {
    if d == 0 {
        '0'
    } else if d == 1 {
        '1'
    } else if d == 2 {
        '2'
    } else if d == 3 {
        '3'
    } else if d == 4 {
        '4'
    } else if d == 5 {
        '5'
    } else if d == 6 {
        '6'
    } else if d == 7 {
        '7'
    } else if d == 8 {
        '8'
    } else {
        '9'
    }
}

/// The decimal digit characters of `n`, most significant first, with no
/// sign, padding or separators.
pub open spec fn spec_decimal(n: nat) -> Seq<char>
    decreases n,
{
    if n < 10 {
        seq![digit_char(n)]
    } else {
        spec_decimal(n / 10).push(digit_char(n % 10))
    }
}

/// What `format_number` returns for `nb` bytes: values under 1000 are shown
/// in bytes; otherwise the count is scaled down by powers of 1024 and the
/// suffix chosen by the thresholds below.
pub open spec fn spec_format_number(nb: u64) -> Seq<char> {
    if nb < 1000 {
        spec_decimal(nb as nat) + seq![' ', 'B']
    } else {
        let m = nb >> 10;
        if m < 100000 {
            spec_decimal(m as nat) + seq![' ', 'k', 'B']
        } else if m < 10000000 {
            spec_decimal((m >> 10) as nat) + seq![' ', 'M', 'B']
        } else if m < 10000000000 {
            spec_decimal((m >> 20) as nat) + seq![' ', 'G', 'B']
        } else {
            spec_decimal((m >> 30) as nat) + seq![' ', 'T', 'B']
        }
    }
}

/// Relies on the std `format!` macro with `u64`'s `Display` implementation,
/// which renders the value as its plain decimal digits; the given suffix is
/// appended unchanged.
#[verifier::external_body]
fn decimal_with_suffix(value: u64, suffix: &str) -> (r: String)
    ensures
        r@ == spec_decimal(value as nat) + suffix@,
{
    format!("{}{}", value, suffix)
}

/// Renders a byte count as a human-readable size: the raw count under
/// 1000 bytes, then binary-scaled kB, MB, GB or TB.
pub fn format_number(nb: u64) -> (r: String)
    ensures
        r@ == spec_format_number(nb),
{
    proof {
        reveal_strlit(" B");
        reveal_strlit(" kB");
        reveal_strlit(" MB");
        reveal_strlit(" GB");
        reveal_strlit(" TB");
        assert(" B"@ =~= seq![' ', 'B']);
        assert(" kB"@ =~= seq![' ', 'k', 'B']);
        assert(" MB"@ =~= seq![' ', 'M', 'B']);
        assert(" GB"@ =~= seq![' ', 'G', 'B']);
        assert(" TB"@ =~= seq![' ', 'T', 'B']);
    }
    if nb < 1000 {
        return decimal_with_suffix(nb, " B");
    }
    let m = nb >> 10;
    if m < 100000 {
        decimal_with_suffix(m, " kB")
    } else if m < 10000000 {
        decimal_with_suffix(m >> 10, " MB")
    } else if m < 10000000000 {
        decimal_with_suffix(m >> 20, " GB")
    } else {
        decimal_with_suffix(m >> 30, " TB")
    }
}

} // verus!
