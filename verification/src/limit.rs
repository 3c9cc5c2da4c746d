//! How many query plans the planner's cache may hold.

use vstd::prelude::*;

verus! {

/// The environment variable that sets the limit.
pub const PLAN_CACHE_LIMIT_VARIABLE: &'static str = "ROUTER_PLAN_CACHE_LIMIT";

/// The limit where the environment sets none.
pub const DEFAULT_PLAN_CACHE_LIMIT: usize = 100;

/// A decimal digit.
pub open spec fn is_digit(c: char) -> bool {
    '0' <= c && c <= '9'
}

/// One digit or more, and nothing else.
pub open spec fn is_number(text: Seq<char>) -> bool {
    text.len() > 0 && forall|i: int| 0 <= i < text.len() ==> is_digit(#[trigger] text[i])
}

/// The number that decimal digits write.
pub open spec fn number_value(digits: Seq<char>) -> nat
    decreases digits.len(),
{
    if digits.len() == 0 {
        0
    } else {
        number_value(digits.drop_last()) * 10 + (digits.last() as nat - '0' as nat) as nat
    }
}

/// `text` without the plus sign that may lead it.
pub open spec fn without_sign(text: Seq<char>) -> Seq<char> {
    if text.len() > 0 && text[0] == '+' {
        text.drop_first()
    } else {
        text
    }
}

/// The `usize` that `text` writes: an optional plus sign and then only digits, small enough for
/// the type. Any other text writes none.
pub open spec fn parsed_usize(text: Seq<char>) -> Option<usize> {
    let digits = without_sign(text);
    if is_number(digits) && number_value(digits) <= usize::MAX {
        Some(number_value(digits) as usize)
    } else {
        None
    }
}

/// The limit that the variable's value sets: the default where there is no value or none that is a
/// number.
pub open spec fn limit_for(value: Option<Seq<char>>) -> usize {
    match value {
        Some(text) => match parsed_usize(text) {
            Some(limit) => limit,
            None => DEFAULT_PLAN_CACHE_LIMIT,
        },
        None => DEFAULT_PLAN_CACHE_LIMIT,
    }
}

/// Calls `str::parse::<usize>`: an optional plus sign followed by only digits, at least one, is
/// read as a decimal number. Other text, and a number that the type cannot hold, is an error.
#[verifier::external_body]
fn parse_usize(text: &str) -> (number: Option<usize>)
    ensures
        number == parsed_usize(text@),
{
    text.parse::<usize>().ok()
}

/// The limit that the value of [`PLAN_CACHE_LIMIT_VARIABLE`] sets.
pub fn plan_cache_limit(value: Option<String>) -> (limit: usize)
    ensures
        limit == limit_for(text_of(value)),
{
    match value {
        Some(text) => match parse_usize(text.as_str()) {
            Some(limit) => limit,
            None => DEFAULT_PLAN_CACHE_LIMIT,
        },
        None => DEFAULT_PLAN_CACHE_LIMIT,
    }
}

/// The characters of a string that may be there.
pub open spec fn text_of(value: Option<String>) -> Option<Seq<char>> {
    match value {
        Some(text) => Some(text@),
        None => None,
    }
}

} // verus!
