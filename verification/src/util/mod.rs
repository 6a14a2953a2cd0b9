//! Small helpers shared by the modules.

pub mod crypto;
pub mod github_headers;
pub mod rate_limited_client;

use vstd::prelude::*;
use vstd::string::*;

verus! {

/// The first wait, in seconds, before retrying a failed store transaction.
pub const MIN_DELAY_SEC: u64 = 1;

/// A failed store transaction is given up once the wait before it would
/// exceed this many seconds.
pub const MAX_DELAY_SEC: u64 = 120;

/// After an attempt failed, the wait before it having been `delay` seconds
/// (or [`MIN_DELAY_SEC`] for the first): the wait before the attempt after
/// the next, twice as long, while `delay` is at most [`MAX_DELAY_SEC`];
/// `None` to give up.
pub fn retry_after_failure(delay: u64) -> (r: Option<u64>)
    ensures
        delay <= MAX_DELAY_SEC ==> r == Some((2 * delay) as u64),
        delay > MAX_DELAY_SEC ==> r is None,
{
    if delay <= MAX_DELAY_SEC {
        Some(2 * delay)
    } else {
        None
    }
}

/// Whether two texts are equal.
pub fn str_equal(a: &str, b: &str) -> (r: bool)
    ensures
        r == (a@ == b@),
{
    let x = String::from_str(a);
    let y = String::from_str(b);
    x == y
}

/// Whether `s` begins with `prefix`.
pub open spec fn spec_starts_with(s: Seq<char>, prefix: Seq<char>) -> bool {
    prefix.len() <= s.len() && s.subrange(0, prefix.len() as int) == prefix
}

/// Calls `str::starts_with`, which is true when `prefix` is a prefix of `s`.
#[verifier::external_body]
pub(crate) fn str_starts_with(s: &str, prefix: &str) -> (r: bool)
    ensures
        r == spec_starts_with(s@, prefix@),
{
    s.starts_with(prefix)
}

/// Whether `pat` occurs in `s`.
pub open spec fn spec_contains(s: Seq<char>, pat: Seq<char>) -> bool {
    exists|i: int| 0 <= i && i + pat.len() <= s.len() && #[trigger] s.subrange(i, i + pat.len()) == pat
}

/// Calls `str::contains` with a string pattern, which is true when `pat`
/// occurs in `s`.
#[verifier::external_body]
pub(crate) fn str_contains(s: &str, pat: &str) -> (r: bool)
    ensures
        r == spec_contains(s@, pat@),
{
    s.contains(pat)
}

/// The decimal digit of `d`.
pub open spec fn digit_char(d: int) -> char {
    (d + 48) as char
}

/// The decimal text of a number, without leading zeros.
pub open spec fn decimal(n: nat) -> Seq<char>
    decreases n,
{
    if n < 10 {
        seq![digit_char(n as int)]
    } else {
        decimal(n / 10).push(digit_char((n % 10) as int))
    }
}

/// Calls `u32`'s `ToString`, which writes the number in decimal.
#[verifier::external_body]
pub(crate) fn u32_to_string(n: u32) -> (r: String)
    ensures
        r@ == decimal(n as nat),
{
    n.to_string()
}

/// The text of the URL that `input` parses as, if it is one.
pub uninterp spec fn url_parse_result(input: Seq<char>) -> Option<Seq<char>>;

/// Calls `url::Url::parse`, and gives the text of the URL it parsed.
#[verifier::external_body]
pub(crate) fn parse_url(input: &str) -> (r: Option<String>)
    ensures
        match r {
            Some(u) => url_parse_result(input@) == Some(u@),
            None => url_parse_result(input@) is None,
        },
{
    url::Url::parse(input).ok().map(|u| u.as_str().to_owned())
}

/// [`parse_url`] of an optional text.
pub fn parse_opt_url(input: &Option<String>) -> (r: Option<String>)
    ensures
        match *input {
            Some(i) => match r {
                Some(u) => url_parse_result(i@) == Some(u@),
                None => url_parse_result(i@) is None,
            },
            None => r is None,
        },
{
    match input {
        Some(i) => parse_url(i.as_str()),
        None => None,
    }
}

} // verus!
