//! Text as it stands in header lines: names folded to lower case, and lengths
//! written in decimal.

use vstd::prelude::*;

verus! {

/// An ASCII capital letter becomes its small letter; any other character stays.
pub open spec fn lower_ascii_char(c: char) -> char {
    if 'A' <= c && c <= 'Z' {
        ((c as u8) + 32) as char
    } else {
        c
    }
}

/// A header name with its ASCII capital letters made small. Two names denote
/// the same header exactly when they agree after this folding.
pub open spec fn lower_ascii(name: Seq<char>) -> Seq<char> {
    name.map_values(|c: char| lower_ascii_char(c))
}

/// The decimal digit for a value below ten.
pub open spec fn digit_char(d: nat) -> char
    recommends
        d < 10,
{
    ((48 + d) as u8) as char
}

/// A number written in decimal, without sign and without leading zeros.
pub open spec fn decimal_text(n: nat) -> Seq<char>
    decreases n,
{
    if n < 10 {
        seq![digit_char(n)]
    } else {
        decimal_text(n / 10).push(digit_char(n % 10))
    }
}

} // verus!
