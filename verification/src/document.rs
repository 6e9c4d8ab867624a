//! The frame of the document: title, table of contents, commentary
//! sections, and the closing lines.

use indexmap::IndexMap;
use vstd::prelude::*;
use vstd::string::*;

use crate::anchor::toc_entry;
use crate::layout::GFMFormatter;
use crate::sections::{entries, pairs, titles, titles_of};
use crate::text::{concat, lemma_concat_take};

verus! {

/// Where the attribution line points.
pub const CT_URL: &'static str = "https://github.com/nu11ptr/criterion-table";

/// The table of contents lines for the headings `names`, in order.
pub open spec fn toc_entries(names: Seq<Seq<char>>, indent: bool) -> Seq<char> {
    concat(names.map_values(|name: Seq<char>| toc_entry(name, indent)))
}

/// A commentary section: its heading, a blank line, its body, a line end.
pub open spec fn section(title: Seq<char>, body: Seq<char>) -> Seq<char> {
    "## "@ + title + "\n\n"@ + body + "\n"@
}

/// The commentary sections `sections`, in order.
pub open spec fn sections_text(sections: Seq<(Seq<char>, Seq<char>)>) -> Seq<char> {
    concat(sections.map_values(|entry: (Seq<char>, Seq<char>)| section(entry.0, entry.1)))
}

/// The names that a slice of tables lists.
pub open spec fn names_of(tables: Seq<&str>) -> Seq<Seq<char>> {
    tables.map_values(|name: &str| name@)
}

/// The table of contents: the commentary sections, then the benchmark
/// results, with the tables as their sub-entries.
pub open spec fn table_of_contents(titles: Seq<Seq<char>>, tables: Seq<Seq<char>>) -> Seq<char> {
    "## Table of Contents\n\n"@ + toc_entries(titles, false) + toc_entry(
        "Benchmark Results"@,
        false,
    ) + toc_entries(tables, true) + "\n"@
}

/// All that precedes the tables of a document.
pub open spec fn document_start(
    sections: Seq<(Seq<char>, Seq<char>)>,
    tables: Seq<Seq<char>>,
) -> Seq<char> {
    "# Benchmarks\n\n"@ + table_of_contents(titles_of(sections), tables) + sections_text(sections)
        + "## Benchmark Results\n\n"@
}

/// The closing separator and the attribution line.
pub open spec fn document_end() -> Seq<char> {
    "---\n"@ + "Made with [criterion-table]("@ + CT_URL@ + ")\n"@
}

impl GFMFormatter {
    /// Opens the document: the title, the table of contents, the commentary
    /// sections in the order of the map, and the heading of the results.
    pub fn start(
        &mut self,
        buffer: &mut String,
        top_comments: &IndexMap<String, String>,
        tables: &[&str],
    )
        ensures
            final(buffer)@ == old(buffer)@ + document_start(
                entries(*top_comments),
                names_of(tables@),
            ),
    {
        let ghost sections = entries(*top_comments);
        let ghost names = names_of(tables@);
        let ghost title_lines = titles_of(sections).map_values(
            |name: Seq<char>| toc_entry(name, false),
        );
        let ghost table_lines = names.map_values(|name: Seq<char>| toc_entry(name, true));
        let ghost section_texts = sections.map_values(
            |entry: (Seq<char>, Seq<char>)| section(entry.0, entry.1),
        );

        buffer.append("# Benchmarks\n\n");
        buffer.append("## Table of Contents\n\n");
        let ghost head = buffer@;

        // Write each ToC entry in comments
        let titles = titles(top_comments);
        let mut i: usize = 0;
        while i < titles.len()
            invariant
                i <= titles.len(),
                titles@.len() == sections.len(),
                title_lines.len() == sections.len(),
                forall|k: int|
                    0 <= k < titles@.len() ==> toc_entry((#[trigger] titles@[k])@, false)
                        == title_lines[k],
                buffer@ == head + concat(title_lines.take(i as int)),
            decreases titles.len() - i,
        {
            Self::write_toc_entry(buffer, titles[i].as_str(), false);
            proof {
                lemma_concat_take(title_lines, i as int);
            }
            i = i + 1;
        }
        assert(title_lines.take(title_lines.len() as int) =~= title_lines);

        Self::write_toc_entry(buffer, "Benchmark Results", false);
        let ghost contents = buffer@;

        // Write each Benchmark ToC entry
        let mut j: usize = 0;
        while j < tables.len()
            invariant
                j <= tables.len(),
                table_lines.len() == tables@.len(),
                forall|k: int|
                    0 <= k < tables@.len() ==> toc_entry((#[trigger] tables@[k])@, true)
                        == table_lines[k],
                buffer@ == contents + concat(table_lines.take(j as int)),
            decreases tables.len() - j,
        {
            Self::write_toc_entry(buffer, tables[j], true);
            proof {
                lemma_concat_take(table_lines, j as int);
            }
            j = j + 1;
        }
        assert(table_lines.take(table_lines.len() as int) =~= table_lines);

        buffer.append("\n");
        let ghost front = buffer@;

        // Write out all the comment sections and comments
        let pairs = pairs(top_comments);
        let mut k: usize = 0;
        while k < pairs.len()
            invariant
                k <= pairs.len(),
                pairs@.len() == sections.len(),
                section_texts.len() == sections.len(),
                forall|n: int|
                    0 <= n < pairs@.len() ==> section(
                        (#[trigger] pairs@[n]).0@,
                        pairs@[n].1@,
                    ) == section_texts[n],
                buffer@ == front + concat(section_texts.take(k as int)),
            decreases pairs.len() - k,
        {
            let (header, comment) = pairs[k];
            buffer.append("## ");
            buffer.append(header.as_str());
            buffer.append("\n\n");
            buffer.append(comment.as_str());
            buffer.append("\n");
            proof {
                lemma_concat_take(section_texts, k as int);
            }
            k = k + 1;
        }
        assert(section_texts.take(section_texts.len() as int) =~= section_texts);

        buffer.append("## Benchmark Results\n\n");
    }

    /// Closes the document with a separator and the attribution line.
    pub fn end(&mut self, buffer: &mut String)
        ensures
            final(buffer)@ == old(buffer)@ + document_end(),
    {
        buffer.append("---\n");
        buffer.append("Made with [criterion-table](");
        buffer.append(CT_URL);
        buffer.append(")\n");
    }
}

} // verus!
