//! The alignment of a table: every cell of a column is as wide as every
//! other, whatever it shows.

use vstd::prelude::*;

use crate::comparison::Rating;
use crate::dataset::{cell_fits, row_fits, CellView, RowView};
use crate::layout::{padding, FIRST_COL_EXTRA_WIDTH, USED_EXTRA_WIDTH};
use crate::render::{cell_text, cell_texts, row_text};
use crate::table::{
    column_delimiter, column_header, delimiter_row, header_fits, header_row, label_delimiter,
    label_header, markup_width, row_start, unused_cell, unused_text, used_cell, used_text, Column,
};
use crate::text::concat;

verus! {

/// The width of every cell of a label column for labels of `max_width`
/// characters, from its opening marker to the next.
pub open spec fn label_cell_width(max_width: nat) -> nat {
    max_width + FIRST_COL_EXTRA_WIDTH as nat + 3
}

/// The width of every cell of a data column for values of `max_width`
/// characters, from its opening marker to the next.
pub open spec fn data_cell_width(max_width: nat) -> nat {
    max_width + USED_EXTRA_WIDTH as nat + 3
}

/// Padding brings what is written to one more than the width.
pub proof fn lemma_padding_len(ch: char, max_width: int, written: int)
    requires
        0 <= written <= max_width + 1,
    ensures
        padding(ch, max_width, written).len() == max_width + 1 - written,
{
}

/// The two overheads are the lengths of the markup that they stand for: a
/// bold code span, and a code span, a space, parentheses, a symbol with
/// its space, and bold markers.
pub proof fn lemma_extra_widths()
    ensures
        FIRST_COL_EXTRA_WIDTH == "**``**"@.len(),
        USED_EXTRA_WIDTH == "`` (X ****)"@.len(),
{
    reveal_strlit("**``**");
    reveal_strlit("`` (X ****)");
}

/// What a measured cell shows is the time, the ratio, and the markup of
/// the rating, which is never more than the overhead allows for.
pub proof fn lemma_used_text_len(time: Seq<char>, speedup: Seq<char>, rating: Rating)
    ensures
        used_text(time, speedup, rating).len() == time.len() + speedup.len() + markup_width(
            rating,
        ),
        markup_width(rating) <= USED_EXTRA_WIDTH,
{
    reveal_strlit("`");
    reveal_strlit("` (🚀 **");
    reveal_strlit("` (✅ **");
    reveal_strlit("` (❌ *");
    reveal_strlit("` (");
    reveal_strlit("**)");
    reveal_strlit("*)");
    reveal_strlit(")");
}

/// A time and a ratio that together are no wider than the column fit its
/// cells under every rating.
pub proof fn lemma_used_text_fits(
    time: Seq<char>,
    speedup: Seq<char>,
    rating: Rating,
    max_width: nat,
)
    requires
        time.len() + speedup.len() <= max_width + 1,
    ensures
        used_text(time, speedup, rating).len() <= max_width + USED_EXTRA_WIDTH + 1,
{
    lemma_used_text_len(time, speedup, rating);
}

/// The cells of a label column are equally wide: the blank header cell, the
/// delimiter cell, and the label cell of every row whose label fits, with
/// or without a label.
pub proof fn lemma_label_column_aligned(name: Seq<char>, max_width: nat)
    requires
        name.len() <= max_width + 1,
    ensures
        label_header(max_width).len() == label_cell_width(max_width),
        label_delimiter(max_width).len() == label_cell_width(max_width),
        row_start(name, max_width).len() == label_cell_width(max_width),
{
    reveal_strlit("| ");
    reveal_strlit("|:");
    reveal_strlit("| **`");
    reveal_strlit("`**");
}

/// The cells of a data column are equally wide: the header cell, the
/// delimiter cell, every measured cell whose text fits, whatever its
/// rating, and every cell without a measurement.
pub proof fn lemma_data_column_aligned(
    column: Column,
    time: Seq<char>,
    speedup: Seq<char>,
    rating: Rating,
)
    requires
        header_fits(column),
        used_text(time, speedup, rating).len() <= column.max_width + USED_EXTRA_WIDTH + 1,
    ensures
        column_header(column).len() == data_cell_width(column.max_width),
        column_delimiter(column).len() == data_cell_width(column.max_width),
        used_cell(time, speedup, rating, column.max_width).len() == data_cell_width(
            column.max_width,
        ),
        unused_cell(column.max_width).len() == data_cell_width(column.max_width),
{
    reveal_strlit("| ");
    reveal_strlit("|:");
    reveal_strlit("| `");
    reveal_strlit("`");
    reveal_strlit("`N/A`");
}

/// A cell without a measurement shows the placeholder and nothing else:
/// five characters, then spaces up to the width of the column.
pub proof fn lemma_unused_cell(max_width: nat)
    ensures
        unused_text().len() == 5,
        unused_text().len() <= max_width + USED_EXTRA_WIDTH + 1,
        unused_cell(max_width) == "| "@ + "`N/A`"@ + Seq::new(
            (max_width + USED_EXTRA_WIDTH - 4) as nat,
            |i: int| ' ',
        ),
{
    reveal_strlit("`N/A`");
}

/// The width of the cells of the data columns `data`, one after the other.
pub open spec fn span(data: Seq<Column>) -> nat
    decreases data.len(),
{
    if data.len() == 0 {
        0
    } else {
        span(data.drop_last()) + data_cell_width(data.last().max_width)
    }
}

/// Where the cell of the column at `k` begins in every line of a table
/// with these columns: the label column at 0, each data column after the
/// cells of the columns before it.
pub open spec fn boundary(columns: Seq<Column>, k: int) -> int {
    if k <= 0 {
        0
    } else {
        (label_cell_width(columns[0].max_width) + span(columns.subrange(1, k))) as int
    }
}

/// The width of every line of a table with these columns, up to its line
/// end: the cells, a space, and the closing marker.
pub open spec fn line_width(columns: Seq<Column>) -> int {
    boundary(columns, columns.len() as int) + 2
}

/// Whether `line` is a line of a table with these columns: it is as wide
/// as the columns make it, a marker opens the cell of every column at the
/// boundary of that column, and a marker and a line end close it.
pub open spec fn aligned(line: Seq<char>, columns: Seq<Column>) -> bool {
    &&& line.len() == line_width(columns) + 1
    &&& forall|k: int| 0 <= k < columns.len() ==> line[#[trigger] boundary(columns, k)] == '|'
    &&& line[line_width(columns) - 1] == '|'
    &&& line[line_width(columns)] == '\n'
}

/// Cells that are as wide as their columns and begin with a marker make a
/// text as wide as the columns together, with a marker where each column
/// begins.
proof fn lemma_cells_aligned(cells: Seq<Seq<char>>, data: Seq<Column>)
    requires
        cells.len() == data.len(),
        forall|i: int|
            0 <= i < cells.len() ==> (#[trigger] cells[i]).len() == data_cell_width(
                data[i].max_width,
            ) && cells[i][0] == '|',
    ensures
        concat(cells).len() == span(data),
        forall|k: int| 0 <= k < data.len() ==> span(#[trigger] data.take(k)) < span(data),
        forall|k: int| 0 <= k < data.len() ==> concat(cells)[span(#[trigger] data.take(k)) as int] == '|',
    decreases data.len(),
{
    if data.len() > 0 {
        let front = cells.drop_last();
        let before = data.drop_last();
        lemma_cells_aligned(front, before);
        assert(concat(cells) == concat(front) + cells.last());
        assert forall|k: int| 0 <= k < data.len() implies span(#[trigger] data.take(k)) < span(
            data,
        ) && concat(cells)[span(data.take(k)) as int] == '|' by {
            if k < data.len() - 1 {
                assert(data.take(k) =~= before.take(k));
            } else {
                assert(data.take(k) =~= before);
                assert(cells.last() == cells[cells.len() - 1]);
            }
        }
    }
}

/// A line made of a label cell, the cells of the data columns and the end
/// of a row is a line of the table.
proof fn lemma_line_aligned(label: Seq<char>, cells: Seq<Seq<char>>, columns: Seq<Column>)
    requires
        columns.len() >= 1,
        cells.len() + 1 == columns.len(),
        label.len() == label_cell_width(columns[0].max_width),
        label[0] == '|',
        forall|i: int|
            0 <= i < cells.len() ==> (#[trigger] cells[i]).len() == data_cell_width(
                columns[i + 1].max_width,
            ) && cells[i][0] == '|',
    ensures
        aligned(label + concat(cells) + " |\n"@, columns),
{
    reveal_strlit(" |\n");
    let data = columns.skip(1);
    let line = label + concat(cells) + " |\n"@;
    lemma_cells_aligned(cells, data);
    assert(columns.subrange(1, columns.len() as int) =~= data);
    assert forall|k: int| 0 <= k < columns.len() implies line[#[trigger] boundary(columns, k)]
        == '|' by {
        if k > 0 {
            assert(columns.subrange(1, k) =~= data.take(k - 1));
        }
    }
}

/// A measured cell that fits, and a cell without a measurement, is as wide
/// as its column and begins with the marker.
pub proof fn lemma_cell_aligned(cell: CellView, max_width: nat)
    requires
        cell_fits(cell, max_width),
    ensures
        cell_text(cell, max_width).len() == data_cell_width(max_width),
        cell_text(cell, max_width)[0] == '|',
{
    reveal_strlit("| ");
    reveal_strlit("`N/A`");
}

/// The header row of a table is a line of the table: its markers stand at
/// the boundaries of the columns.
pub proof fn lemma_header_row_aligned(columns: Seq<Column>)
    requires
        columns.len() >= 1,
        forall|i: int| 1 <= i < columns.len() ==> header_fits(#[trigger] columns[i]),
    ensures
        aligned(header_row(columns), columns),
{
    reveal_strlit("| ");
    reveal_strlit("| `");
    reveal_strlit("`");
    let cells = columns.skip(1).map_values(|column: Column| column_header(column));
    assert forall|i: int| 0 <= i < cells.len() implies (#[trigger] cells[i]).len()
        == data_cell_width(columns[i + 1].max_width) && cells[i][0] == '|' by {
        assert(cells[i] == column_header(columns[i + 1]));
        assert(header_fits(columns[i + 1]));
    }
    lemma_line_aligned(label_header(columns[0].max_width), cells, columns);
}

/// The delimiter row of a table is a line of the table.
pub proof fn lemma_delimiter_row_aligned(columns: Seq<Column>)
    requires
        columns.len() >= 1,
    ensures
        aligned(delimiter_row(columns), columns),
{
    reveal_strlit("|:");
    let cells = columns.skip(1).map_values(|column: Column| column_delimiter(column));
    assert forall|i: int| 0 <= i < cells.len() implies (#[trigger] cells[i]).len()
        == data_cell_width(columns[i + 1].max_width) && cells[i][0] == '|' by {
        assert(cells[i] == column_delimiter(columns[i + 1]));
    }
    lemma_line_aligned(label_delimiter(columns[0].max_width), cells, columns);
}

/// Every row that fits the columns of a table is a line of the table,
/// whatever its label and its cells show: the markers of all rows, of the
/// header row and of the delimiter row stand at the same places.
pub proof fn lemma_row_aligned(row: RowView, columns: Seq<Column>)
    requires
        columns.len() >= 1,
        row_fits(row, columns),
    ensures
        aligned(row_text(row, columns), columns),
{
    reveal_strlit("| ");
    reveal_strlit("| **`");
    reveal_strlit("`**");
    reveal_strlit(" |\n");
    let cells = cell_texts(row.cells, columns);
    assert forall|i: int| 0 <= i < cells.len() implies (#[trigger] cells[i]).len()
        == data_cell_width(columns[i + 1].max_width) && cells[i][0] == '|' by {
        assert(cell_fits(row.cells[i], columns[i + 1].max_width));
        lemma_cell_aligned(row.cells[i], columns[i + 1].max_width);
    }
    lemma_line_aligned(row_start(row.name, columns[0].max_width), cells, columns);
}

} // verus!
