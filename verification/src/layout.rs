//! Column layout: how wide a cell is and how much filler brings it there.

use vstd::prelude::*;

verus! {

/// Characters that the bold code span around a row label adds to it.
pub const FIRST_COL_EXTRA_WIDTH: usize = 6;

/// Characters that the widest annotation adds to a measured cell: the code
/// span around the time, the space, the parentheses, the symbol with its
/// space, and the bold markers around the ratio.
pub const USED_EXTRA_WIDTH: usize = 11;

/// This formatter outputs GitHub Flavored Markdown.
pub struct GFMFormatter;

/// The filler that completes a cell: `max_width + 1 - written` copies of `ch`.
pub open spec fn padding(ch: char, max_width: int, written: int) -> Seq<char> {
    Seq::new((max_width + 1 - written) as nat, |i: int| ch)
}

/// `String::push` of std. Trusted: it appends the character to the end of
/// the string and changes nothing else.
pub assume_specification[ String::push ](buffer: &mut String, ch: char)
    ensures
        final(buffer)@ == old(buffer)@.push(ch),
;

impl GFMFormatter {
    /// Pads the rest of a column of `max_width` characters of which `written`
    /// are taken, and one more, so that a cell that is exactly full still
    /// ends in a separating character.
    pub fn pad(buffer: &mut String, ch: char, max_width: usize, written: usize)
        requires
            written <= max_width + 1,
        ensures
            final(buffer)@ == old(buffer)@ + padding(ch, max_width as int, written as int),
    {
        if written > max_width {
            assert(padding(ch, max_width as int, written as int) =~= Seq::<char>::empty());
            assert(buffer@ + Seq::<char>::empty() =~= buffer@);
            return;
        }
        let remaining: usize = max_width - written;
        let mut done: usize = 0;
        buffer.push(ch);
        while done < remaining
            invariant
                done <= remaining,
                buffer@ == old(buffer)@ + Seq::new((done + 1) as nat, |i: int| ch),
            decreases remaining - done,
        {
            buffer.push(ch);
            done = done + 1;
        }
    }
}

} // verus!
