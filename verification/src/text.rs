//! Text primitives of the standard library that the rules of this crate are
//! stated over, each behind a contract of its own.

use vstd::prelude::*;

verus! {

/// `needle` stands in `hay` at position `at`.
pub open spec fn occurs_at(hay: Seq<char>, needle: Seq<char>, at: int) -> bool {
    &&& 0 <= at
    &&& at + needle.len() <= hay.len()
    &&& hay.subrange(at, at + needle.len()) == needle
}

/// `needle` is a contiguous part of `hay`: compared character by character,
/// so case matters and no character of `needle` has a special meaning.
pub open spec fn contains_text(hay: Seq<char>, needle: Seq<char>) -> bool {
    exists|at: int| occurs_at(hay, needle, at)
}

/// What `str::trim` makes of `text`: the text without its leading and
/// trailing whitespace, as Unicode defines whitespace.
pub uninterp spec fn trimmed(text: Seq<char>) -> Seq<char>;

/// What `str::to_lowercase` makes of `text`: its lowercase form, as Unicode
/// defines it.
pub uninterp spec fn lowercased(text: Seq<char>) -> Seq<char>;

/// `str::contains` with a string pattern. Trusted: the result is `true`
/// exactly when `needle` is a contiguous part of `hay`.
#[verifier::external_body]
pub(crate) fn contains(hay: &str, needle: &str) -> (found: bool)
    ensures
        found == contains_text(hay@, needle@),
{
    hay.contains(needle)
}

/// `str::trim`. Trusted: the result is what `trimmed` names; nothing more is
/// claimed of it.
#[verifier::external_body]
pub(crate) fn trim(text: &str) -> (out: &str)
    ensures
        out@ == trimmed(text@),
{
    text.trim()
}

/// `str::to_lowercase`. Trusted: the result is what `lowercased` names;
/// nothing more is claimed of it.
#[verifier::external_body]
pub(crate) fn to_lowercase(text: &str) -> (out: String)
    ensures
        out@ == lowercased(text@),
{
    text.to_lowercase()
}

} // verus!
