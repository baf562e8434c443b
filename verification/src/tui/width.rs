//! How wide text is on the screen.

use vstd::prelude::*;
use vstd::string::*;

verus! {

/// Number of terminal columns that the characters `s` take in one line.
pub uninterp spec fn display_columns(s: Seq<char>) -> nat;

/// Width of `value` in terminal columns: `ratatui::text::Line::width` of the
/// line made of `value`. The width is a function of the text alone, and that
/// of an empty text is zero.
#[verifier::external_body]
pub(crate) fn line_width(value: &str) -> (r: usize)
    ensures
        r == display_columns(value@),
        value@.len() == 0 ==> r == 0,
{
    ratatui::text::Line::from(value).width()
}

/// Width of `value` in terminal columns.
pub fn display_width(value: &str) -> (r: usize)
    ensures
        r == display_columns(value@),
        value@.len() == 0 ==> r == 0,
{
    line_width(value)
}

} // verus!
