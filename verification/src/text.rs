//! The few calls into the standard library's Unicode handling that the engine
//! depends on, each with the contract the rest of the crate relies on.

use vstd::prelude::*;

verus! {

/// Whether `c` is a letter, that is, whether it has the Unicode `Alphabetic`
/// property as `char::is_alphabetic` decides it.
pub uninterp spec fn alphabetic(c: char) -> bool;

/// The text `str::trim` leaves of `s`: `s` without its leading and trailing
/// white space.
pub uninterp spec fn trimmed(s: Seq<char>) -> Seq<char>;

/// Calls `char::is_alphabetic`.
///
/// Trusted: the answer depends on the character alone and is the property
/// named [`alphabetic`]. Nothing is claimed about which characters have it.
#[verifier::external_body]
pub(crate) fn is_alphabetic(c: char) -> (b: bool)
    ensures
        b == alphabetic(c),
{
    c.is_alphabetic()
}

/// Calls `str::trim`.
///
/// Trusted: the characters of the returned slice depend on the characters of
/// `s` alone and are the text named [`trimmed`]. Nothing is claimed about
/// which characters count as white space.
#[verifier::external_body]
pub(crate) fn trim(s: &str) -> (t: &str)
    ensures
        t@ == trimmed(s@),
{
    s.trim()
}

/// Calls `String::push`.
///
/// Trusted: afterwards the string holds its former characters followed by `c`.
#[verifier::external_body]
pub(crate) fn push_char(s: &mut String, c: char)
    ensures
        final(s)@ == old(s)@.push(c),
{
    s.push(c)
}

} // verus!
