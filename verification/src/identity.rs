//! From a claimed identity URL to the 64-bit Steam identifier that it names.

use crate::text::chars_of;
use vstd::prelude::*;

verus! {

/// The shape of a Steam identity URL, with the identifier as its first group.
pub const STEAM_ID_PATTERN: &'static str = "^https://steamcommunity.com/openid/id/([0-9]{17})$";

/// `regex`'s error for a pattern that does not compile, carried through
/// unread.
#[verifier::external_type_specification]
#[verifier::external_body]
pub struct ExPatternError(regex::Error);

/// What the group numbered `group` holds when the regular expression
/// `pattern`, compiled by `regex::Regex::new`, is matched against `text` with
/// `Regex::captures`. The outer `None` stands for a pattern that does not
/// compile; the inner one for no match, or a group that took no part in it.
pub uninterp spec fn captured(pattern: Seq<char>, group: int, text: Seq<char>) -> Option<
    Option<Seq<char>>,
>;

/// Compiles `pattern` with `regex::Regex::new`, matches it against `text` with
/// `Regex::captures` and copies out what `Captures::get` finds for `group`.
///
/// Trusted: the result depends on the three arguments alone, which is all that
/// equating it with `captured` claims.
#[verifier::external_body]
pub(crate) fn capture(pattern: &str, group: usize, text: &str) -> (out: Result<
    Option<String>,
    regex::Error,
>)
    ensures
        match out {
            Ok(found) => captured(pattern@, group as int, text@) == Some(found.deep_view()),
            Err(_) => captured(pattern@, group as int, text@) is None,
        },
{
    let compiled = regex::Regex::new(pattern)?;
    let part = compiled.captures(text).and_then(|found| found.get(group));
    Ok(part.map(|part| part.as_str().to_owned()))
}

/// Whether `c` is one of the ten ASCII digits.
pub open spec fn is_digit(c: char) -> bool {
    '0' <= c <= '9'
}

/// What the digit `c` counts for; zero for any other character.
pub open spec fn digit_value(c: char) -> nat {
    if is_digit(c) {
        (c as nat - '0' as nat) as nat
    } else {
        0
    }
}

/// The number that a string of digits writes in base ten.
pub open spec fn decimal(digits: Seq<char>) -> nat
    decreases digits.len(),
{
    if digits.len() == 0 {
        0
    } else {
        decimal(digits.drop_last()) * 10 + digit_value(digits.last())
    }
}

/// `text` without the plus sign that may lead it.
pub open spec fn unsigned_part(text: Seq<char>) -> Seq<char> {
    if text.len() > 0 && text[0] == '+' {
        text.drop_first()
    } else {
        text
    }
}

/// The unsigned 64-bit number that `text` writes: an optional plus sign, then
/// at least one digit and nothing but digits, of a value that fits.
pub open spec fn parsed_u64(text: Seq<char>) -> Option<u64> {
    let digits = unsigned_part(text);
    if digits.len() > 0 && (forall|i: int| 0 <= i < digits.len() ==> is_digit(#[trigger] digits[i]))
        && decimal(digits) <= u64::MAX {
        Some(decimal(digits) as u64)
    } else {
        None
    }
}

/// A longer string of digits writes no smaller a number.
proof fn lemma_decimal_grows(digits: Seq<char>, n: int)
    requires
        0 <= n <= digits.len(),
    ensures
        decimal(digits.take(n)) <= decimal(digits),
    decreases digits.len() - n,
{
    if n < digits.len() {
        lemma_decimal_grows(digits, n + 1);
        assert(digits.take(n + 1).drop_last() == digits.take(n));
    } else {
        assert(digits.take(n) == digits);
    }
}

/// Reads an unsigned 64-bit number written in base ten.
pub fn parse_u64(text: &str) -> (value: Option<u64>)
    ensures
        value == parsed_u64(text@),
{
    let chars = chars_of(text);
    let start: usize = if chars.len() > 0 && chars[0] == '+' {
        1
    } else {
        0
    };
    let ghost digits = unsigned_part(text@);
    assert(digits == chars@.skip(start as int));
    if start == chars.len() {
        return None;
    }
    let mut value: u64 = 0;
    let mut i: usize = start;
    while i < chars.len()
        invariant
            start <= i <= chars.len(),
            digits == unsigned_part(text@),
            digits == chars@.skip(start as int),
            forall|k: int| 0 <= k < i - start ==> is_digit(#[trigger] digits[k]),
            value == decimal(digits.take(i - start)),
        decreases chars.len() - i,
    {
        let c = chars[i];
        assert(digits[i - start] == c);
        if c < '0' || c > '9' {
            assert(!is_digit(digits[i - start]));
            return None;
        }
        let digit: u64 = (c as u32 - '0' as u32) as u64;
        proof {
            assert(digit == digit_value(c));
            assert(digits.take(i - start + 1).drop_last() == digits.take(i - start));
            assert(digits.take(i - start + 1).last() == c);
            lemma_decimal_grows(digits, i - start + 1);
        }
        value = match value.checked_mul(10) {
            Some(tens) => match tens.checked_add(digit) {
                Some(sum) => sum,
                None => return None,
            },
            None => return None,
        };
        i += 1;
    }
    assert(digits.take(i - start) == digits);
    Some(value)
}

/// The identifier that a match of the identity pattern yields.
pub open spec fn steam_id_of(capture: Option<Option<Seq<char>>>) -> Option<u64> {
    match capture {
        Some(Some(digits)) => parsed_u64(digits),
        _ => None,
    }
}

/// The Steam identifier that `claimed_id` names: what the first group of the
/// identity pattern captures in it, read as a number.
pub open spec fn claimed_steam_id(claimed_id: Seq<char>) -> Option<u64> {
    steam_id_of(captured(STEAM_ID_PATTERN@, 1, claimed_id))
}

/// Extracts the Steam identifier from a claimed identity URL.
///
/// `None` where the URL does not have the shape of a Steam identity, or where
/// what stands in the identifier's place is not a 64-bit number.
pub fn steam_id(claimed_id: &str) -> (id: Option<u64>)
    ensures
        id == claimed_steam_id(claimed_id@),
{
    match capture(STEAM_ID_PATTERN, 1, claimed_id) {
        Ok(Some(digits)) => parse_u64(digits.as_str()),
        Ok(None) => None,
        Err(_) => None,
    }
}

} // verus!
