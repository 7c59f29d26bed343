//! Percent-encoding of free-text address components.
//!
//! The encoding itself is done by the `urlencoding` crate; its exact
//! output is named by [`url_encoded`], and the facts stated about it are
//! the ones the crate documents: every byte of the UTF-8 text except
//! ASCII alphanumerics and `-`, `.`, `_`, `~` is replaced by `%` and two
//! upper-case hex digits, so the result is drawn from a closed character
//! set, an empty text stays empty, and the result depends on the text
//! alone.

use vstd::prelude::*;

verus! {

/// The percent-encoding of a text, as the `urlencoding` crate computes it.
pub uninterp spec fn url_encoded(s: Seq<char>) -> Seq<char>;

/// The characters a percent-encoded component is drawn from: ASCII
/// alphanumerics, the four unreserved marks, and `%` itself.
pub open spec fn is_component_char(c: char) -> bool {
    ('0' <= c && c <= '9') || ('A' <= c && c <= 'Z') || ('a' <= c && c <= 'z') || c == '-' || c
        == '.' || c == '_' || c == '~' || c == '%'
}

/// Whether every character of a component lies in the encoded set; in
/// particular such a text contains no `&`, `=`, `?`, `#` or space.
pub open spec fn all_component_chars(s: Seq<char>) -> bool {
    forall|i: int| 0 <= i < s.len() ==> is_component_char(#[trigger] s[i])
}

/// Relies on urlencoding::encode: percent-encodes every byte of the
/// UTF-8 text except ASCII alphanumerics and `-`, `.`, `_`, `~`, writing
/// `%` and two upper-case hex digits for each encoded byte; a function
/// of the text alone.
#[verifier::external_body]
pub fn encode_component(s: &str) -> (r: String)
    ensures
        r@ == url_encoded(s@),
        s@.len() == 0 ==> r@.len() == 0,
        all_component_chars(r@),
{
    urlencoding::encode(s).into_owned()
}

} // verus!
