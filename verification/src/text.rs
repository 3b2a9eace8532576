//! Numbers as text and text as numbers, as the service's URLs, queries and
//! prices need them.

use std::num::ParseIntError;
use vstd::prelude::*;

verus! {

/// The error of std's integer parsers.
#[verifier::external_type_specification]
#[verifier::external_body]
pub struct ExParseIntError(ParseIntError);

/// The character that stands for the digit `d` in decimal notation.
pub open spec fn digit_char(d: nat) -> char {
    if d == 0 {
        '0'
    } else if d == 1 {
        '1'
    } else if d == 2 {
        '2'
    } else if d == 3 {
        '3'
    } else if d == 4 {
        '4'
    } else if d == 5 {
        '5'
    } else if d == 6 {
        '6'
    } else if d == 7 {
        '7'
    } else if d == 8 {
        '8'
    } else {
        '9'
    }
}

/// `n` in decimal notation, without sign or leading zeros.
pub open spec fn decimal(n: nat) -> Seq<char>
    decreases n,
{
    if n < 10 {
        seq![digit_char(n)]
    } else {
        decimal(n / 10).push(digit_char(n % 10))
    }
}

/// `b` as `true` or `false`.
pub open spec fn truth(b: bool) -> Seq<char> {
    if b {
        "true"@
    } else {
        "false"@
    }
}

/// `s` with every occurrence of the non-empty `from` replaced by `to`;
/// occurrences are found from left to right and do not overlap.
pub open spec fn replaced(s: Seq<char>, from: Seq<char>, to: Seq<char>) -> Seq<char>
    recommends
        from.len() > 0,
    decreases s.len(),
{
    if from.len() == 0 || s.len() < from.len() {
        s
    } else if s.subrange(0, from.len() as int) == from {
        to + replaced(s.skip(from.len() as int), from, to)
    } else {
        seq![s[0]] + replaced(s.skip(1), from, to)
    }
}

/// The value of `c` as a digit: `0` to `9` count 0 to 9, and the letters
/// `a` to `z`, in either case, count 10 to 35.
pub open spec fn digit_value(c: char) -> Option<nat> {
    if '0' <= c <= '9' {
        Some((c as u32 - '0' as u32) as nat)
    } else if 'a' <= c <= 'z' {
        Some((c as u32 - 'a' as u32 + 10) as nat)
    } else if 'A' <= c <= 'Z' {
        Some((c as u32 - 'A' as u32 + 10) as nat)
    } else {
        None
    }
}

/// Whether every character of `digits` is a digit in base `radix`.
pub open spec fn all_digits(digits: Seq<char>, radix: nat) -> bool {
    forall|i: int|
        0 <= i < digits.len() ==> match digit_value(#[trigger] digits[i]) {
            Some(d) => d < radix,
            None => false,
        }
}

/// The number that `digits` denote in base `radix`, most significant digit
/// first.
pub open spec fn digits_value(digits: Seq<char>, radix: nat) -> nat
    decreases digits.len(),
{
    if digits.len() == 0 {
        0
    } else {
        digits_value(digits.drop_last(), radix) * radix + match digit_value(digits.last()) {
            Some(d) => d,
            None => 0,
        }
    }
}

/// The number that `s` denotes in base `radix`: an optional `+` and then
/// one digit or more. Anything else denotes no number.
pub open spec fn unsigned_value(s: Seq<char>, radix: nat) -> Option<nat> {
    let digits = if s.len() > 0 && s[0] == '+' {
        s.skip(1)
    } else {
        s
    };
    if digits.len() > 0 && all_digits(digits, radix) {
        Some(digits_value(digits, radix))
    } else {
        None
    }
}

/// `u128::to_string`: the number in decimal notation.
#[verifier::external_body]
pub(crate) fn u128_to_string(n: u128) -> (s: String)
    ensures
        s@ == decimal(n as nat),
{
    n.to_string()
}

/// `str::replace`: every occurrence of `from` in `s` replaced by `to`,
/// found from left to right without overlap.
#[verifier::external_body]
pub(crate) fn str_replace(s: &str, from: &str, to: &str) -> (r: String)
    requires
        from@.len() > 0,
    ensures
        r@ == replaced(s@, from@, to@),
{
    s.replace(from, to)
}

/// `u128::from_str_radix`: succeeds exactly on an optional `+` followed by
/// one or more digits of the given base whose value fits, and then
/// returns that value. The base must lie between 2 and 36.
#[verifier::external_body]
pub(crate) fn u128_from_str_radix(src: &str, radix: u32) -> (r: Result<u128, ParseIntError>)
    requires
        2 <= radix <= 36,
    ensures
        match r {
            Ok(v) => unsigned_value(src@, radix as nat) == Some(v as nat),
            Err(_) => match unsigned_value(src@, radix as nat) {
                Some(v) => v > u128::MAX,
                None => true,
            },
        },
{
    u128::from_str_radix(src, radix)
}

/// `base_url`, then `path`, then `base`, a slash and `quote`.
pub open spec fn pair_path(
    base_url: Seq<char>,
    path: Seq<char>,
    base: Seq<char>,
    quote: Seq<char>,
) -> Seq<char> {
    base_url + path + base + "/"@ + quote
}

/// Builds the address of an endpoint that is named by an asset pair.
pub fn pair_url(base_url: &str, path: &str, base: &str, quote: &str) -> (url: String)
    ensures
        url@ == pair_path(base_url@, path@, base@, quote@),
{
    let mut url = base_url.to_owned();
    url.append(path);
    url.append(base);
    url.append("/");
    url.append(quote);
    url
}

/// Builds `first` followed by `second`.
pub fn join(first: &str, second: &str) -> (joined: String)
    ensures
        joined@ == first@ + second@,
{
    let mut joined = first.to_owned();
    joined.append(second);
    joined
}

/// Spells out a truth value.
pub fn bool_to_string(b: bool) -> (s: String)
    ensures
        s@ == truth(b),
{
    if b {
        "true".to_owned()
    } else {
        "false".to_owned()
    }
}

} // verus!
