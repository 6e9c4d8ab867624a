//! Tables: the title, the header and delimiter rows, and the data rows cell
//! by cell.

use vstd::prelude::*;
use vstd::string::*;

use crate::comparison::{Comparison, Rating};
use crate::layout::{padding, GFMFormatter, FIRST_COL_EXTRA_WIDTH, USED_EXTRA_WIDTH};
use crate::text::{concat, lemma_concat_take};

verus! {

/// A column of a table: its name, and the width in characters of the widest
/// value that its cells show, not counting what the markup adds.
pub struct ColumnInfo {
    pub name: String,
    pub max_width: usize,
}

/// A column as the contracts see it.
pub struct Column {
    pub name: Seq<char>,
    pub max_width: nat,
}

impl View for ColumnInfo {
    type V = Column;

    open spec fn view(&self) -> Column {
        Column { name: self.name@, max_width: self.max_width as nat }
    }
}

/// The columns that a slice of columns holds.
pub open spec fn columns_of(columns: Seq<ColumnInfo>) -> Seq<Column> {
    columns.map_values(|column: ColumnInfo| column@)
}

/// The title of a table, a blank line, and its comment, if it has one, on a
/// line of its own.
pub open spec fn table_title(name: Seq<char>, comment: Option<Seq<char>>) -> Seq<char> {
    "### "@ + name + "\n\n"@ + match comment {
        Some(text) => text + "\n"@,
        None => Seq::empty(),
    }
}

/// The header cell of the label column: blank, as wide as a row label.
pub open spec fn label_header(max_width: nat) -> Seq<char> {
    "| "@ + padding(' ', max_width + FIRST_COL_EXTRA_WIDTH, 0)
}

/// The delimiter cell of the label column.
pub open spec fn label_delimiter(max_width: nat) -> Seq<char> {
    "|:"@ + padding('-', max_width + FIRST_COL_EXTRA_WIDTH, 0)
}

/// The header cell of a data column: its name in a code span.
pub open spec fn column_header(column: Column) -> Seq<char> {
    "| `"@ + column.name + "`"@ + padding(
        ' ',
        column.max_width + USED_EXTRA_WIDTH,
        (column.name.len() + 2) as int,
    )
}

/// The delimiter cell of a data column: left-justified.
pub open spec fn column_delimiter(column: Column) -> Seq<char> {
    "|:"@ + padding('-', column.max_width + USED_EXTRA_WIDTH, 0)
}

/// The header row: the label column, then the data columns in order.
pub open spec fn header_row(columns: Seq<Column>) -> Seq<char> {
    label_header(columns[0].max_width) + concat(
        columns.skip(1).map_values(|column: Column| column_header(column)),
    ) + " |\n"@
}

/// The delimiter row: the label column, then the data columns in order.
pub open spec fn delimiter_row(columns: Seq<Column>) -> Seq<char> {
    label_delimiter(columns[0].max_width) + concat(
        columns.skip(1).map_values(|column: Column| column_delimiter(column)),
    ) + " |\n"@
}

/// All that precedes the data rows of a table.
pub open spec fn table_start(
    name: Seq<char>,
    comment: Option<Seq<char>>,
    columns: Seq<Column>,
) -> Seq<char> {
    table_title(name, comment) + header_row(columns) + delimiter_row(columns)
}

/// The blank line that follows the rows of a table.
pub open spec fn table_end() -> Seq<char> {
    "\n"@
}

/// Whether the name of a data column fits its header cell.
pub open spec fn header_fits(column: Column) -> bool {
    column.name.len() + 2 <= column.max_width + USED_EXTRA_WIDTH + 1
}

/// Whether a table can be opened with these columns: there is a label
/// column, every column with its markup has a width that can be counted,
/// and every data column has room for its name.
pub open spec fn columns_fit(columns: Seq<Column>) -> bool {
    &&& columns.len() >= 1
    &&& columns[0].max_width + FIRST_COL_EXTRA_WIDTH <= usize::MAX
    &&& forall|i: int|
        1 <= i < columns.len() ==> {
            &&& (#[trigger] columns[i]).max_width + USED_EXTRA_WIDTH <= usize::MAX
            &&& columns[i].name.len() + 2 <= usize::MAX
            &&& header_fits(columns[i])
        }
}

/// The label cell of a row: the label in a bold code span, or, for a row
/// without a label, nothing but the opening marker.
pub open spec fn row_start(name: Seq<char>, max_width: nat) -> Seq<char> {
    if name.len() > 0 {
        "| **`"@ + name + "`**"@ + padding(
            ' ',
            max_width + FIRST_COL_EXTRA_WIDTH,
            name.len() + FIRST_COL_EXTRA_WIDTH,
        )
    } else {
        "| "@ + padding(' ', max_width + FIRST_COL_EXTRA_WIDTH, 0)
    }
}

/// The end of a row: the closing marker and a line end.
pub open spec fn row_end() -> Seq<char> {
    " |\n"@
}

/// What a measured cell shows: the time in a code span, then the ratio in
/// parentheses, with the symbol and the emphasis of its rating.
pub open spec fn used_text(time: Seq<char>, speedup: Seq<char>, rating: Rating) -> Seq<char> {
    "`"@ + time + match rating {
        Rating::Rocket => "` (🚀 **"@ + speedup + "**)"@,
        Rating::Check => "` (✅ **"@ + speedup + "**)"@,
        Rating::Cross => "` (❌ *"@ + speedup + "*)"@,
        Rating::Even => "` ("@ + speedup + ")"@,
    }
}

/// The characters that the markup of a rating adds to a time and a ratio:
/// all of the overhead with a symbol in bold, two less in italics, six
/// less without symbol and emphasis.
pub open spec fn markup_width(rating: Rating) -> nat {
    match rating {
        Rating::Rocket => USED_EXTRA_WIDTH as nat,
        Rating::Check => USED_EXTRA_WIDTH as nat,
        Rating::Cross => (USED_EXTRA_WIDTH - 2) as nat,
        Rating::Even => (USED_EXTRA_WIDTH - 6) as nat,
    }
}

/// A measured cell.
pub open spec fn used_cell(
    time: Seq<char>,
    speedup: Seq<char>,
    rating: Rating,
    max_width: nat,
) -> Seq<char> {
    "| "@ + used_text(time, speedup, rating) + padding(
        ' ',
        max_width + USED_EXTRA_WIDTH,
        used_text(time, speedup, rating).len() as int,
    )
}

/// What a cell without a measurement shows.
pub open spec fn unused_text() -> Seq<char> {
    "`N/A`"@
}

/// A cell without a measurement.
pub open spec fn unused_cell(max_width: nat) -> Seq<char> {
    "| "@ + unused_text() + padding(' ', max_width + USED_EXTRA_WIDTH, unused_text().len() as int)
}

impl GFMFormatter {
    /// Appends the title of a table and its comment.
    fn write_title(buffer: &mut String, name: &str, comment: Option<&str>)
        ensures
            final(buffer)@ == old(buffer)@ + table_title(
                name@,
                match comment {
                    Some(text) => Some(text@),
                    None => None,
                },
            ),
    {
        buffer.append("### ");
        buffer.append(name);
        buffer.append("\n\n");

        if let Some(comments) = comment {
            buffer.append(comments);
            buffer.append("\n");
        }
    }

    /// Appends the header row.
    fn write_header_row(buffer: &mut String, columns: &[ColumnInfo])
        requires
            columns_fit(columns_of(columns@)),
        ensures
            final(buffer)@ == old(buffer)@ + header_row(columns_of(columns@)),
    {
        let ghost shown = columns_of(columns@);
        let ghost headers = shown.skip(1).map_values(|column: Column| column_header(column));

        buffer.append("| ");
        let first_col_max_width = columns[0].max_width + FIRST_COL_EXTRA_WIDTH;
        Self::pad(buffer, ' ', first_col_max_width, 0);
        let ghost front = buffer@;

        let mut i: usize = 1;
        while i < columns.len()
            invariant
                1 <= i <= columns.len(),
                shown == columns_of(columns@),
                columns_fit(shown),
                headers == shown.skip(1).map_values(|column: Column| column_header(column)),
                buffer@ == front + concat(headers.take(i - 1)),
            decreases columns.len() - i,
        {
            let column = &columns[i];
            assert(shown[i as int] == column@);
            assert(headers[i - 1] == column_header(shown.skip(1)[i - 1]));
            let max_width = column.max_width + USED_EXTRA_WIDTH;

            buffer.append("| `");
            buffer.append(column.name.as_str());
            buffer.append("`");
            Self::pad(buffer, ' ', max_width, column.name.as_str().unicode_len() + 2);
            proof {
                lemma_concat_take(headers, i - 1);
            }
            i = i + 1;
        }
        assert(headers.take(headers.len() as int) =~= headers);

        buffer.append(" |\n");
    }

    /// Appends the delimiter row. Right now, everything is left justified.
    fn write_delimiter_row(buffer: &mut String, columns: &[ColumnInfo])
        requires
            columns_fit(columns_of(columns@)),
        ensures
            final(buffer)@ == old(buffer)@ + delimiter_row(columns_of(columns@)),
    {
        let ghost shown = columns_of(columns@);
        let ghost delimiters = shown.skip(1).map_values(
            |column: Column| column_delimiter(column),
        );

        buffer.append("|:");
        let first_col_max_width = columns[0].max_width + FIRST_COL_EXTRA_WIDTH;
        Self::pad(buffer, '-', first_col_max_width, 0);
        let ghost front = buffer@;

        let mut i: usize = 1;
        while i < columns.len()
            invariant
                1 <= i <= columns.len(),
                shown == columns_of(columns@),
                columns_fit(shown),
                delimiters == shown.skip(1).map_values(|column: Column| column_delimiter(column)),
                buffer@ == front + concat(delimiters.take(i - 1)),
            decreases columns.len() - i,
        {
            assert(shown[i as int] == columns@[i as int]@);
            assert(delimiters[i - 1] == column_delimiter(shown.skip(1)[i - 1]));
            let max_width = columns[i].max_width + USED_EXTRA_WIDTH;

            buffer.append("|:");
            Self::pad(buffer, '-', max_width, 0);
            proof {
                lemma_concat_take(delimiters, i - 1);
            }
            i = i + 1;
        }
        assert(delimiters.take(delimiters.len() as int) =~= delimiters);

        buffer.append(" |\n");
    }

    /// Opens a table: its title and comment, the header row and the
    /// delimiter row. The first column is the label column.
    pub fn start_table(
        &mut self,
        buffer: &mut String,
        name: &str,
        comment: Option<&str>,
        columns: &[ColumnInfo],
    )
        requires
            columns_fit(columns_of(columns@)),
        ensures
            final(buffer)@ == old(buffer)@ + table_start(
                name@,
                match comment {
                    Some(text) => Some(text@),
                    None => None,
                },
                columns_of(columns@),
            ),
    {
        Self::write_title(buffer, name, comment);
        Self::write_header_row(buffer, columns);
        Self::write_delimiter_row(buffer, columns);
    }

    /// Closes a table with a blank line.
    pub fn end_table(&mut self, buffer: &mut String)
        ensures
            final(buffer)@ == old(buffer)@ + table_end(),
    {
        buffer.append("\n");
    }

    /// Opens a row with its label cell, padded to the label column of
    /// `max_width` characters.
    pub fn start_row(&mut self, buffer: &mut String, name: &str, max_width: usize)
        requires
            max_width + FIRST_COL_EXTRA_WIDTH <= usize::MAX,
            name@.len() + FIRST_COL_EXTRA_WIDTH <= usize::MAX,
            name@.len() <= max_width + 1,
        ensures
            final(buffer)@ == old(buffer)@ + row_start(name@, max_width as nat),
    {
        // Regular row name
        let written = if !name.is_empty() {
            buffer.append("| **`");
            buffer.append(name);
            buffer.append("`**");
            name.unicode_len() + FIRST_COL_EXTRA_WIDTH
            // Empty row name
        } else {
            buffer.append("| ");
            0
        };

        Self::pad(buffer, ' ', max_width + FIRST_COL_EXTRA_WIDTH, written);
    }

    /// Closes a row.
    pub fn end_row(&mut self, buffer: &mut String)
        ensures
            final(buffer)@ == old(buffer)@ + row_end(),
    {
        buffer.append(" |\n");
    }

    /// Appends a measured cell: the formatted time `time`, and the ratio,
    /// shown as `speedup` and annotated as `compare` rates it, padded to a
    /// column of `max_width` characters.
    pub fn used_column(
        &mut self,
        buffer: &mut String,
        time: &str,
        speedup: &str,
        compare: Comparison,
        max_width: usize,
    )
        requires
            max_width + USED_EXTRA_WIDTH <= usize::MAX,
            used_text(time@, speedup@, compare.rating()).len() <= max_width + USED_EXTRA_WIDTH + 1,
        ensures
            final(buffer)@ == old(buffer)@ + used_cell(
                time@,
                speedup@,
                compare.rating(),
                max_width as nat,
            ),
    {
        let mut data = String::new();
        data.append("`");
        data.append(time);
        match compare.rate() {
            // Positive = bold
            Rating::Rocket => {
                data.append("` (🚀 **");
                data.append(speedup);
                data.append("**)");
            },
            Rating::Check => {
                data.append("` (✅ **");
                data.append(speedup);
                data.append("**)");
            },
            // Negative = italics
            Rating::Cross => {
                data.append("` (❌ *");
                data.append(speedup);
                data.append("*)");
            },
            // Even = no special formatting
            Rating::Even => {
                data.append("` (");
                data.append(speedup);
                data.append(")");
            },
        }
        assert(data@ =~= used_text(time@, speedup@, compare.rating()));

        buffer.append("| ");
        buffer.append(data.as_str());

        let max_width = max_width + USED_EXTRA_WIDTH;
        Self::pad(buffer, ' ', max_width, data.as_str().unicode_len());
    }

    /// Appends a cell without a measurement, padded to a column of
    /// `max_width` characters.
    pub fn unused_column(&mut self, buffer: &mut String, max_width: usize)
        requires
            max_width + USED_EXTRA_WIDTH <= usize::MAX,
        ensures
            final(buffer)@ == old(buffer)@ + unused_cell(max_width as nat),
    {
        buffer.append("| ");
        let data = "`N/A`";
        buffer.append(data);
        proof {
            reveal_strlit("`N/A`");
        }

        Self::pad(buffer, ' ', max_width + USED_EXTRA_WIDTH, data.unicode_len());
    }
}

} // verus!
