//! The parameters of a query string, read from their texts.

use vstd::prelude::*;
use crate::text::{chars_of, equal};

verus! {

/// Why a parameter's text could not be read.
#[derive(Clone, Copy, Debug, PartialEq, Eq, Structural)]
pub enum ParameterError {
    /// The text is neither `true` nor `false`.
    NotABoolean,
    /// The text is no decimal integer that 64 bits hold.
    NotAnInteger,
}

/// Whether the character is a decimal digit.
pub open spec fn is_digit(c: char) -> bool {
    '0' <= c <= '9'
}

/// The number that a decimal digit stands for.
pub open spec fn digit_value(c: char) -> int {
    c as u32 as int - 48
}

/// The number that a row of decimal digits stands for.
pub open spec fn number_of(digits: Seq<char>) -> int
    decreases digits.len(),
{
    if digits.len() == 0 {
        0
    } else {
        number_of(digits.drop_last()) * 10 + digit_value(digits.last())
    }
}

/// Whether every character is a decimal digit.
pub open spec fn all_digits(s: Seq<char>) -> bool {
    forall|i: int| 0 <= i < s.len() ==> is_digit(#[trigger] s[i])
}

/// The integer that a text stands for: an optional sign, `+` or `-`, and
/// then at least one decimal digit and nothing else, where 64 bits hold the
/// number.
pub open spec fn parsed_integer(s: Seq<char>) -> Option<i64> {
    let signed = s.len() > 0 && (s[0] == '-' || s[0] == '+');
    let negative = s.len() > 0 && s[0] == '-';
    let digits = if signed {
        s.skip(1)
    } else {
        s
    };
    let value = if negative {
        -number_of(digits)
    } else {
        number_of(digits)
    };
    if digits.len() > 0 && all_digits(digits) && i64::MIN <= value <= i64::MAX {
        Some(value as i64)
    } else {
        None
    }
}

/// The truth value that a text stands for.
pub open spec fn parsed_boolean(s: Seq<char>) -> Option<bool> {
    if s == "true"@ {
        Some(true)
    } else if s == "false"@ {
        Some(false)
    } else {
        None
    }
}

/// A row of digits stands for a number that is not negative, and a longer
/// row for no smaller a number.
proof fn lemma_number_grows(digits: Seq<char>)
    requires
        digits.len() > 0,
        all_digits(digits),
    ensures
        number_of(digits.drop_last()) >= 0,
        number_of(digits) >= number_of(digits.drop_last()),
    decreases digits.len(),
{
    let head = digits.drop_last();
    assert(is_digit(digits[digits.len() - 1]));
    if head.len() > 0 {
        assert(all_digits(head)) by {
            assert forall|i: int| 0 <= i < head.len() implies is_digit(#[trigger] head[i]) by {
                assert(head[i] == digits[i]);
            }
        }
        lemma_number_grows(head);
    }
}

/// The integer that a text stands for.
#[verifier::loop_isolation(false)]
pub fn parse_integer(s: &str) -> (r: Option<i64>)
    ensures
        r == parsed_integer(s@),
{
    let chars = chars_of(s);
    let negative = chars.len() > 0 && chars[0] == '-';
    let signed = chars.len() > 0 && (chars[0] == '-' || chars[0] == '+');
    let start: usize = if signed {
        1
    } else {
        0
    };
    let ghost digits = chars@.skip(start as int);
    if chars.len() == start {
        return None;
    }
    let limit: u128 = 0x8000_0000_0000_0000;
    let mut magnitude: u128 = 0;
    let mut too_large = false;
    let mut i: usize = start;
    assert(digits.take(0) =~= Seq::empty());
    while i < chars.len()
        invariant
            start <= i <= chars.len(),
            digits == chars@.skip(start as int),
            limit == 0x8000_0000_0000_0000,
            all_digits(digits.take(i - start)),
            !too_large ==> magnitude == number_of(digits.take(i - start)) && magnitude <= limit,
            too_large ==> number_of(digits.take(i - start)) > limit,
        decreases chars.len() - i,
    {
        let c = chars[i];
        let ghost before = digits.take(i - start);
        let ghost now = digits.take(i - start + 1);
        proof {
            assert(now.drop_last() =~= before);
            assert(now.last() == c);
        }
        if c < '0' || c > '9' {
            assert(!all_digits(digits)) by {
                assert(digits[i - start] == c);
            }
            return None;
        }
        proof {
            assert(all_digits(now)) by {
                assert forall|k: int| 0 <= k < now.len() implies is_digit(#[trigger] now[k]) by {
                    if k < before.len() {
                        assert(now[k] == before[k]);
                    }
                }
            }
            lemma_number_grows(now);
        }
        if !too_large {
            let d: u128 = (c as u32 - 48) as u128;
            magnitude = magnitude * 10 + d;
            if magnitude > limit {
                too_large = true;
            }
        }
        i += 1;
    }
    assert(digits.take(digits.len() as int) =~= digits);
    assert(s@.skip(0) =~= s@);
    if too_large {
        None
    } else if negative {
        if magnitude == limit {
            Some(i64::MIN)
        } else {
            Some(-(magnitude as i64))
        }
    } else if magnitude == limit {
        None
    } else {
        Some(magnitude as i64)
    }
}

/// The truth value that a text stands for.
pub fn parse_boolean(s: &str) -> (r: Option<bool>)
    ensures
        r == parsed_boolean(s@),
{
    if equal(s, "true") {
        Some(true)
    } else if equal(s, "false") {
        Some(false)
    } else {
        None
    }
}

/// Reads a flag from the text of a parameter: a parameter that is no text
/// is an unset flag, and a text that is no truth value is an error.
pub fn from_str_to_bool(text: Option<&str>) -> (r: Result<bool, ParameterError>)
    ensures
        r == match text {
            None => Ok::<bool, ParameterError>(false),
            Some(s) => match parsed_boolean(s@) {
                Some(flag) => Ok(flag),
                None => Err(ParameterError::NotABoolean),
            },
        },
{
    match text {
        None => Ok(false),
        Some(s) => match parse_boolean(s) {
            Some(flag) => Ok(flag),
            None => Err(ParameterError::NotABoolean),
        },
    }
}

/// Reads a number from the text of a parameter: a parameter that is no text
/// is the number one, and a text that is no number is an error.
pub fn from_str_to_i64(text: Option<&str>) -> (r: Result<i64, ParameterError>)
    ensures
        r == match text {
            None => Ok::<i64, ParameterError>(1),
            Some(s) => match parsed_integer(s@) {
                Some(n) => Ok(n),
                None => Err(ParameterError::NotAnInteger),
            },
        },
{
    match text {
        None => Ok(1),
        Some(s) => match parse_integer(s) {
            Some(n) => Ok(n),
            None => Err(ParameterError::NotAnInteger),
        },
    }
}

/// The parameters of a request for posts.
#[derive(Clone, Copy, Debug, PartialEq, Eq, Structural)]
pub struct RequestPostsQueryParams {
    pub featured: bool,
    pub current_page: i64,
}

impl Default for RequestPostsQueryParams {
    fn default() -> (params: RequestPostsQueryParams)
        ensures
            params == (RequestPostsQueryParams { featured: false, current_page: 0 }),
    {
        RequestPostsQueryParams { featured: false, current_page: 0 }
    }
}

} // verus!
