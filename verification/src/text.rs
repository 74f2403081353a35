use vstd::prelude::*;
use unicode_segmentation::UnicodeSegmentation;

verus! {

/// The extended grapheme clusters of a string, in order, each given as its
/// characters. What a grapheme cluster is takes the whole of Unicode Standard
/// Annex #29 to state, so the segmentation is only named here: the library's
/// contracts speak of it through this name, and never pin down its value.
pub uninterp spec fn graphemes_of(s: Seq<char>) -> Seq<Seq<char>>;

/// Relies on unicode_segmentation's `UnicodeSegmentation::graphemes` (with
/// extended grapheme clusters selected), whose result is a function of the
/// characters alone.
#[verifier::external_body]
pub(crate) fn split_graphemes(s: &str) -> (r: Vec<String>)
    ensures
        r@.map_values(|g: String| g@) == graphemes_of(s@),
{
    s.graphemes(true).map(String::from).collect()
}

} // verus!
