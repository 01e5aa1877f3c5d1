//! Editing a [`SecureString`] from verified code.
//!
//! `secure-types` keeps the text in locked, zeroized memory; the functions
//! here are the few of its operations the components need, with what each does
//! to the characters the string holds.

use secure_types::SecureString;
use vstd::prelude::*;

verus! {

/// A securely allocated UTF-8 string of `secure-types`.
#[verifier::external_type_specification]
#[verifier::external_body]
pub struct ExSecureString(secure_types::SecureString);

/// The characters a secure string holds.
pub uninterp spec fn secure_chars(s: SecureString) -> Seq<char>;

/// `SecureString::push_str`: appends the characters of `text`.
///
/// The string grows its locked buffer as needed; if the operating system
/// refuses the larger secure allocation, `secure-types` panics. That outcome
/// depends on the machine and is not stated here.
#[verifier::external_body]
pub(crate) fn push_text(s: &mut SecureString, text: &str)
    ensures
        secure_chars(*final(s)) == secure_chars(*old(s)) + text@,
{
    s.push_str(text)
}

/// `SecureString::char_len`: the number of characters held.
#[verifier::external_body]
pub(crate) fn char_count(s: &SecureString) -> (n: usize)
    ensures
        n == secure_chars(*s).len(),
{
    s.char_len()
}

/// The characters left after deleting the character range `start..end`:
/// ends past the text are clamped to its length, and an empty or reversed
/// range deletes nothing.
pub open spec fn without_char_range(text: Seq<char>, start: int, end: int) -> Seq<char> {
    if start < end {
        let s = if start < text.len() { start } else { text.len() as int };
        let e = if end < text.len() { end } else { text.len() as int };
        text.take(s) + text.skip(e)
    } else {
        text
    }
}

/// `SecureString::delete_text_char_range`: removes the characters in
/// `start..end`, clamped to the text, in place.
#[verifier::external_body]
pub(crate) fn delete_char_range(s: &mut SecureString, start: usize, end: usize)
    ensures
        secure_chars(*final(s)) == without_char_range(secure_chars(*old(s)), start as int, end as int),
{
    s.delete_text_char_range(start..end)
}

/// `SecureString::from(String)`: a secure string holding the characters of
/// `text`; the plain `String` is zeroized. If the operating system refuses
/// the secure allocation, `secure-types` panics, which is not stated here.
#[verifier::external_body]
pub(crate) fn secure_from_string(text: String) -> (s: SecureString)
    ensures
        secure_chars(s) == text@,
{
    SecureString::from(text)
}

} // verus!
