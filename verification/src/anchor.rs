//! Link anchors for the table of contents.

use flexstr::{FlexStr, IntoFlex, ToCase};
use vstd::prelude::*;
use vstd::std_specs::iter::IteratorSpec;
use vstd::string::*;

use crate::layout::GFMFormatter;

verus! {

/// `text` with every space replaced by a hyphen.
pub open spec fn hyphenated(text: Seq<char>) -> Seq<char> {
    text.map_values(|ch: char| if ch == ' ' { '-' } else { ch })
}

/// Replaces every space of `text` with a hyphen.
pub fn hyphenate(text: &str) -> (out: String)
    ensures
        out@ == hyphenated(text@),
{
    broadcast use vstd::string::group_string_axioms;
    let mut out = String::new();
    let chars = text.chars();
    for ch in it: chars
        invariant
            it.seq() == text@,
            out@ == hyphenated(text@.take(it.index() as int)),
    {
        assert(text@.take(it.index() + 1) =~= text@.take(it.index() as int).push(ch));
        if ch == ' ' {
            out.push('-');
        } else {
            out.push(ch);
        }
    }
    assert(text@.take(text@.len() as int) =~= text@);
    out
}

/// What `to_lower` of flexstr's `ToCase` makes of `text`: the lowercase
/// mappings of its characters, one after the other.
pub uninterp spec fn lowercased(text: Seq<char>) -> Seq<char>;

/// The anchor that a heading with this text is reached by: spaces become
/// hyphens, then every character is lowercased. Nothing else is normalized.
pub open spec fn anchor(text: Seq<char>) -> Seq<char> {
    lowercased(hyphenated(text))
}

/// One line of the table of contents: a list item that shows `entry` and
/// links to `anchor`, indented by four spaces for a sub-entry.
pub open spec fn toc_link(entry: Seq<char>, anchor: Seq<char>, indent: bool) -> Seq<char> {
    (if indent { "    "@ } else { Seq::<char>::empty() }) + "- ["@ + entry + "](#"@ + anchor + ")\n"@
}

/// The line of the table of contents for the heading `entry`.
pub open spec fn toc_entry(entry: Seq<char>, indent: bool) -> Seq<char> {
    toc_link(entry, anchor(entry), indent)
}

/// Hyphenation keeps the length of a text and every character but the
/// spaces, leaves no space behind, and changes nothing when done again.
pub proof fn lemma_hyphenated(text: Seq<char>)
    ensures
        hyphenated(text).len() == text.len(),
        forall|i: int| 0 <= i < text.len() ==> #[trigger] hyphenated(text)[i] != ' ',
        forall|i: int|
            0 <= i < text.len() && text[i] != ' ' ==> #[trigger] hyphenated(text)[i] == text[i],
        forall|i: int| 0 <= i < text.len() && text[i] == ' ' ==> #[trigger] hyphenated(text)[i] == '-',
        hyphenated(hyphenated(text)) == hyphenated(text),
{
    assert(hyphenated(hyphenated(text)) =~= hyphenated(text));
}

/// The anchor depends on the text alone: equal texts have equal anchors.
pub proof fn lemma_anchor_is_pure(text: Seq<char>, other: Seq<char>)
    requires
        text == other,
    ensures
        anchor(text) == anchor(other),
{
}

/// The anchor of a text without spaces is the lowercased text.
pub proof fn lemma_anchor_without_spaces(text: Seq<char>)
    requires
        forall|i: int| 0 <= i < text.len() ==> text[i] != ' ',
    ensures
        anchor(text) == lowercased(text),
{
    assert(hyphenated(text) =~= text);
}

/// `to_lower` of flexstr's `ToCase`, called on a `FlexStr` made of `text`.
/// Trusted: the result is a function of the characters of `text` alone,
/// named `lowercased`; what it is on a given text is not stated.
#[verifier::external_body]
fn to_lower(text: String) -> (out: String)
    ensures
        out@ == lowercased(text@),
{
    let flex: FlexStr = text.into_flex();
    flex.to_lower().to_string()
}

impl GFMFormatter {
    /// Derives the anchor of a heading from its text.
    pub fn encode_link(s: &str) -> (link: String)
        ensures
            link@ == anchor(s@),
    {
        to_lower(hyphenate(s))
    }

    /// Appends the table of contents line that shows `entry` and links to
    /// `anchor`.
    pub fn write_toc_link(buffer: &mut String, entry: &str, anchor: &str, indent: bool)
        ensures
            final(buffer)@ == old(buffer)@ + toc_link(entry@, anchor@, indent),
    {
        if indent {
            buffer.append("    ");
        }
        buffer.append("- [");
        buffer.append(entry);
        buffer.append("](#");
        buffer.append(anchor);
        buffer.append(")\n");
    }

    /// Appends the table of contents line for the heading `entry`.
    pub fn write_toc_entry(buffer: &mut String, entry: &str, indent: bool)
        ensures
            final(buffer)@ == old(buffer)@ + toc_entry(entry@, indent),
    {
        let link = Self::encode_link(entry);
        Self::write_toc_link(buffer, entry, link.as_str(), indent);
    }
}

} // verus!
