//! Small decisions of the command line: the number of tries, and the operator's answer.

use vstd::prelude::*;
use vstd::string::*;

verus! {

/// The smallest number of tries.
pub const MIN_TRIES: u8 = 1;

/// The largest number of tries.
pub const MAX_TRIES: u8 = 5;

/// Whether `c` is an ASCII digit.
pub open spec fn is_digit(c: char) -> bool {
    '0' <= c && c <= '9'
}

/// The digits of an unsigned number as `u8::from_str` reads it: an optional `+`
/// followed by one or more ASCII digits.
pub open spec fn number_digits(s: Seq<char>) -> Option<Seq<char>> {
    let d = if s.len() > 0 && s[0] == '+' {
        s.skip(1)
    } else {
        s
    };
    if d.len() > 0 && forall|i: int| 0 <= i < d.len() ==> is_digit(#[trigger] d[i]) {
        Some(d)
    } else {
        None
    }
}

/// The value of a string of ASCII digits.
pub open spec fn digits_value(d: Seq<char>) -> nat
    decreases d.len(),
{
    if d.len() == 0 {
        0
    } else {
        digits_value(d.drop_last()) * 10 + ((d.last() as u32) - 48) as nat
    }
}

/// Relies on `clap_num::number_range` for `u8`: the text parsed by `u8::from_str` (an
/// optional `+`, then digits) when its value lies in `min..=max`, an error otherwise.
#[verifier::external_body]
fn number_in_range(s: &str, min: u8, max: u8) -> (r: Result<u8, String>)
    requires
        min <= max,
    ensures
        r is Ok <==> (number_digits(s@) matches Some(d) && min <= digits_value(d) <= max),
        r matches Ok(v) ==> number_digits(s@) matches Some(d) && v as nat == digits_value(d),
{
    clap_num::number_range(s, min, max)
}

/// The number of tries given on the command line, which must lie between one and five.
pub fn allowed_num_tries(s: &str) -> (r: Result<u8, String>)
    ensures
        r is Ok <==> (number_digits(s@) matches Some(d) && MIN_TRIES <= digits_value(d)
            <= MAX_TRIES),
        r matches Ok(v) ==> number_digits(s@) matches Some(d) && v as nat == digits_value(d),
{
    number_in_range(s, MIN_TRIES, MAX_TRIES)
}

/// Whether the operator's reply is a yes: it starts with `y` or `Y`.
pub fn is_affirmative(reply: &str) -> (r: bool)
    ensures
        r == (reply@.len() > 0 && (reply@[0] == 'y' || reply@[0] == 'Y')),
{
    if reply.unicode_len() == 0 {
        false
    } else {
        let c = reply.get_char(0);
        c == 'y' || c == 'Y'
    }
}

/// The text of an error to report.
pub fn error_message(message: &str) -> (r: String)
    ensures
        r@ == message@,
{
    message.to_string()
}

} // verus!
