//! Character classification used by the identity primitives.
//!
//! The Unicode classes themselves live behind names for what the std
//! queries return; on the ASCII range the contracts pin the answer down.

use vstd::prelude::*;

verus! {

pub uninterp spec fn unicode_whitespace(c: char) -> bool;

pub uninterp spec fn unicode_alphanumeric(c: char) -> bool;

/// The ASCII letters and digits.
pub open spec fn ascii_alphanumeric(c: char) -> bool {
    (48 <= c as u32 && c as u32 <= 57) || (65 <= c as u32 && c as u32 <= 90) || (97 <= c as u32
        && c as u32 <= 122)
}

/// The markup-hostile characters a subscriber name may not contain.
pub open spec fn forbidden_name_char(c: char) -> bool {
    c == '/' || c == '(' || c == ')' || c == '"' || c == '<' || c == '>' || c == '\\' || c == '{'
        || c == '}'
}

/// Relies on char::is_whitespace: the White_Space property of the
/// character alone. On ASCII that property holds exactly of space, tab,
/// line feed, vertical tab, form feed and carriage return, and never of a
/// letter or digit.
#[verifier::external_body]
pub fn is_whitespace_char(c: char) -> (r: bool)
    ensures
        r == unicode_whitespace(c),
        c == ' ' || c == '\t' || c == '\n' || c == '\r' ==> r,
        c as u32 == 11 || c as u32 == 12 ==> r,
        ascii_alphanumeric(c) ==> !r,
{
    c.is_whitespace()
}

/// Relies on char::is_alphanumeric: Alphabetic or a decimal, letter or
/// other number, a property of the character alone. On ASCII it holds
/// exactly of the letters and digits; no whitespace character has it.
#[verifier::external_body]
pub fn is_alphanumeric_char(c: char) -> (r: bool)
    ensures
        r == unicode_alphanumeric(c),
        ascii_alphanumeric(c) ==> r,
        ((c as u32) < 128 && !ascii_alphanumeric(c)) ==> !r,
{
    c.is_alphanumeric()
}

} // verus!
