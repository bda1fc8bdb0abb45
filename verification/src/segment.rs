//! Grapheme segmentation, relied on for tab expansion and for dropping the
//! change-marker column of a hunk line without splitting a cluster.

use unicode_segmentation::UnicodeSegmentation;
use vstd::prelude::*;

verus! {

/// What `unicode_segmentation` splits the given text into: its grapheme
/// clusters, in order.
pub uninterp spec fn graphemes_of(s: Seq<char>) -> Seq<Seq<char>>;

/// Relies on `UnicodeSegmentation::graphemes` (extended clusters): the
/// clusters partition the string, so their concatenation is the string
/// itself.
#[verifier::external_body]
pub fn split_graphemes(s: &str) -> (r: Vec<String>)
    ensures
        r.deep_view() == graphemes_of(s@),
        r.deep_view().flatten() == s@,
{
    s.graphemes(true).map(|g| g.to_string()).collect()
}

} // verus!
