//! Display widths of text in a terminal, as the unicode-width crate gives them.

use vstd::prelude::*;

verus! {

/// The columns that a character takes, or `None` for a control character.
pub uninterp spec fn char_width(c: char) -> Option<usize>;

/// The columns that a string takes.
pub uninterp spec fn str_width(s: Seq<char>) -> usize;

/// Relies on `unicode_width::UnicodeWidthChar::width` (0.2): a character's
/// columns, a function of the character alone; the ASCII control characters and
/// those from U+007F to U+009F have none, the printable ASCII characters one.
#[verifier::external_body]
pub(crate) fn char_display_width(c: char) -> (r: Option<usize>)
    ensures
        r == char_width(c),
        (c as u32) < 0x20 ==> r is None,
        0x20 <= (c as u32) < 0x7F ==> r == Some(1usize),
        0x7F <= (c as u32) < 0xA0 ==> r is None,
{
    unicode_width::UnicodeWidthChar::width(c)
}

/// Relies on `unicode_width::UnicodeWidthStr::width` (0.2): a string's columns,
/// a function of its characters alone; the empty string takes none.
#[verifier::external_body]
pub(crate) fn display_width(s: &str) -> (r: usize)
    ensures
        r == str_width(s@),
        s@.len() == 0 ==> r == 0,
{
    unicode_width::UnicodeWidthStr::width(s)
}

} // verus!
