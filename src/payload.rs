use vstd::prelude::*;
use vstd::utf8::{decode_utf8, valid_utf8};

use crate::config::CHARACTERISTIC_UUID;

verus! {

/// Unicode's White_Space property: the characters that `str::trim` removes.
pub open spec fn is_white_space(c: char) -> bool {
    let u = c as u32;
    ||| 0x9 <= u <= 0xd
    ||| u == 0x20
    ||| u == 0x85
    ||| u == 0xa0
    ||| u == 0x1680
    ||| 0x2000 <= u <= 0x200a
    ||| u == 0x2028
    ||| u == 0x2029
    ||| u == 0x202f
    ||| u == 0x205f
    ||| u == 0x3000
}

/// `s` without its leading white space.
pub open spec fn trim_start(s: Seq<char>) -> Seq<char>
    decreases s.len(),
{
    if s.len() > 0 && is_white_space(s[0]) {
        trim_start(s.drop_first())
    } else {
        s
    }
}

/// `s` without its trailing white space.
pub open spec fn trim_end(s: Seq<char>) -> Seq<char>
    decreases s.len(),
{
    if s.len() > 0 && is_white_space(s.last()) {
        trim_end(s.drop_last())
    } else {
        s
    }
}

/// `s` without leading or trailing white space.
pub open spec fn trimmed(s: Seq<char>) -> Seq<char> {
    trim_end(trim_start(s))
}

pub open spec fn is_digit(c: char) -> bool {
    0x30 <= (c as u32) <= 0x39
}

/// One or more decimal digits.
pub open spec fn all_digits(s: Seq<char>) -> bool {
    s.len() > 0 && forall|i: int| 0 <= i < s.len() ==> is_digit(#[trigger] s[i])
}

/// The value of a run of decimal digits, most significant first.
pub open spec fn digits_value(s: Seq<char>) -> int
    decreases s.len(),
{
    if s.len() == 0 {
        0
    } else {
        10 * digits_value(s.drop_last()) + (s.last() as u32 - 0x30)
    }
}

/// The integer a text denotes in base ten: an optional `+` or `-`, then one or more digits.
pub open spec fn decimal_of(s: Seq<char>) -> Option<int> {
    if s.len() > 0 && (s[0] == '-' || s[0] == '+') {
        if all_digits(s.drop_first()) {
            if s[0] == '-' {
                Some(-digits_value(s.drop_first()))
            } else {
                Some(digits_value(s.drop_first()))
            }
        } else {
            None
        }
    } else if all_digits(s) {
        Some(digits_value(s))
    } else {
        None
    }
}

/// The `i32` a text denotes; `None` when it is not a decimal integer or does not fit.
pub open spec fn parse_i32(s: Seq<char>) -> Option<i32> {
    match decimal_of(s) {
        Some(v) => if i32::MIN <= v <= i32::MAX {
            Some(v as i32)
        } else {
            None
        },
        None => None,
    }
}

/// The command code a notification payload carries: its UTF-8 text, trimmed, read as an `i32`.
pub open spec fn payload_code(p: Seq<u8>) -> Option<i32> {
    if valid_utf8(p) {
        parse_i32(trimmed(decode_utf8(p)))
    } else {
        None
    }
}

/// The command code of a notification from `source`: only the command characteristic counts.
pub open spec fn notification_code(source: u128, p: Seq<u8>) -> Option<i32> {
    if source == CHARACTERISTIC_UUID {
        payload_code(p)
    } else {
        None
    }
}

/// Relies on std::str::from_utf8: it succeeds exactly on valid UTF-8 and then
/// holds the characters that the bytes encode.
#[verifier::external_body]
fn utf8_text(bytes: &[u8]) -> (r: Option<&str>)
    ensures
        r is Some <==> valid_utf8(bytes@),
        r matches Some(s) ==> s@ == decode_utf8(bytes@),
{
    std::str::from_utf8(bytes).ok()
}

/// Relies on str::trim: it drops the leading and trailing characters that have
/// Unicode's White_Space property.
#[verifier::external_body]
fn trim_text(s: &str) -> (r: &str)
    ensures
        r@ == trimmed(s@),
{
    s.trim()
}

/// Relies on i32's FromStr: an optional sign, then one or more decimal digits,
/// whose value fits in an i32; anything else is an error.
#[verifier::external_body]
fn parse_decimal_i32(s: &str) -> (r: Option<i32>)
    ensures
        r == parse_i32(s@),
{
    s.parse::<i32>().ok()
}

/// Reads a command code from text, ignoring surrounding white space.
pub fn parse_code(text: &str) -> (r: Option<i32>)
    ensures
        r == parse_i32(trimmed(text@)),
{
    parse_decimal_i32(trim_text(text))
}

/// Reads the command code a notification payload carries.
pub fn decode_payload(payload: &[u8]) -> (r: Option<i32>)
    ensures
        r == payload_code(payload@),
        !valid_utf8(payload@) ==> r is None,
{
    match utf8_text(payload) {
        Some(text) => parse_code(text),
        None => None,
    }
}

/// The command code of a notification, or `None` when it comes from another
/// characteristic or its payload is malformed.
pub fn notification_code_of(source: u128, payload: &[u8]) -> (r: Option<i32>)
    ensures
        r == notification_code(source, payload@),
        source != CHARACTERISTIC_UUID ==> r is None,
{
    if source == CHARACTERISTIC_UUID {
        decode_payload(payload)
    } else {
        None
    }
}

} // verus!
