//! Typographic characters and grapheme segmentation.
use unicode_segmentation::UnicodeSegmentation;
use vstd::prelude::*;

verus! {

/// Opening typographic double quotation mark.
pub const LEFT_QUOTE: &'static str = "\u{201C}";

/// Closing typographic double quotation mark.
pub const RIGHT_QUOTE: &'static str = "\u{201D}";

/// Dash placed between the bounds of a range.
pub const EMDASH: &'static str = "\u{2014}";

/// The first extended grapheme cluster of a string, as segmented by
/// `unicode_segmentation`.
pub uninterp spec fn first_grapheme_of(s: Seq<char>) -> Seq<char>;

/// Relies on `UnicodeSegmentation::graphemes` (extended clusters): the
/// iterator yields nothing for an empty string, and otherwise starts with the
/// string's first grapheme cluster.
#[verifier::external_body]
pub(crate) fn first_grapheme(s: &str) -> (r: Option<String>)
    ensures
        r is None <==> s@.len() == 0,
        r matches Some(g) ==> g@ == first_grapheme_of(s@),
{
    UnicodeSegmentation::graphemes(s, true).next().map(String::from)
}

} // verus!
