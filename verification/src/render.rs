//! The document as a whole: one pass over the sections and the tables, each
//! table row by row, each row cell by cell.

use indexmap::IndexMap;
use vstd::prelude::*;
use vstd::string::*;

use crate::dataset::{cell_fits, row_fits, table_fits, Cell, CellView, Row, RowView, Table, TableView};
use crate::document::{document_end, document_start};
use crate::layout::GFMFormatter;
use crate::sections::entries;
use crate::table::{
    columns_fit, columns_of, row_end, row_start, table_end, table_start, unused_cell, used_cell,
    Column, ColumnInfo,
};
use crate::text::{concat, lemma_concat_take};

verus! {

/// A cell, padded to a column of `max_width` characters.
pub open spec fn cell_text(cell: CellView, max_width: nat) -> Seq<char> {
    match cell {
        CellView::Used { time, speedup, compare } => used_cell(
            time,
            speedup,
            compare.rating(),
            max_width,
        ),
        CellView::Unused => unused_cell(max_width),
    }
}

/// The cells of a row, each padded to its column: the cell at `i` belongs
/// to the column at `i + 1`, after the label column.
pub open spec fn cell_texts(cells: Seq<CellView>, columns: Seq<Column>) -> Seq<Seq<char>> {
    Seq::new(cells.len(), |i: int| cell_text(cells[i], columns[i + 1].max_width))
}

/// A row: the label cell, the cells in order, and the end of the row.
pub open spec fn row_text(row: RowView, columns: Seq<Column>) -> Seq<char> {
    row_start(row.name, columns[0].max_width) + concat(cell_texts(row.cells, columns)) + row_end()
}

/// The rows of a table, each on its line.
pub open spec fn row_texts(rows: Seq<RowView>, columns: Seq<Column>) -> Seq<Seq<char>> {
    rows.map_values(|row: RowView| row_text(row, columns))
}

/// A table: what opens it, its rows in order, and the blank line that
/// closes it.
pub open spec fn table_text(table: TableView) -> Seq<char> {
    table_start(table.name, table.comment, table.columns) + concat(
        row_texts(table.rows, table.columns),
    ) + table_end()
}

/// The views of a slice of tables.
pub open spec fn tables_of(tables: Seq<Table>) -> Seq<TableView> {
    tables.map_values(|table: Table| table@)
}

/// The names of tables, in order.
pub open spec fn table_names(tables: Seq<TableView>) -> Seq<Seq<char>> {
    tables.map_values(|table: TableView| table.name)
}

/// A document: the title, the table of contents and the commentary, then
/// the tables in order, then the closing lines.
pub open spec fn document_text(
    sections: Seq<(Seq<char>, Seq<char>)>,
    tables: Seq<TableView>,
) -> Seq<char> {
    document_start(sections, table_names(tables)) + concat(
        tables.map_values(|table: TableView| table_text(table)),
    ) + document_end()
}

impl GFMFormatter {
    /// Appends a row of a table with these columns.
    pub fn write_row(&mut self, buffer: &mut String, row: &Row, columns: &[ColumnInfo])
        requires
            columns_fit(columns_of(columns@)),
            row_fits(row@, columns_of(columns@)),
        ensures
            final(buffer)@ == old(buffer)@ + row_text(row@, columns_of(columns@)),
    {
        let ghost shown = columns_of(columns@);
        let ghost cells = cell_texts(row@.cells, shown);
        assert(shown[0] == columns@[0]@);

        self.start_row(buffer, row.name.as_str(), columns[0].max_width);
        let ghost front = buffer@;

        let mut i: usize = 0;
        while i < row.cells.len()
            invariant
                i <= row.cells.len(),
                row.cells.len() + 1 == columns.len(),
                shown == columns_of(columns@),
                columns_fit(shown),
                row_fits(row@, shown),
                cells == cell_texts(row@.cells, shown),
                buffer@ == front + concat(cells.take(i as int)),
            decreases row.cells.len() - i,
        {
            let max_width = columns[i + 1].max_width;
            assert(shown[i + 1] == columns@[i + 1]@);
            assert(row@.cells[i as int] == row.cells@[i as int]@);
            assert(cell_fits(row@.cells[i as int], shown[i + 1].max_width));
            match &row.cells[i] {
                Cell::Used { time, speedup, compare } => {
                    self.used_column(buffer, time.as_str(), speedup.as_str(), *compare, max_width);
                },
                Cell::Unused => {
                    self.unused_column(buffer, max_width);
                },
            }
            proof {
                lemma_concat_take(cells, i as int);
            }
            i = i + 1;
        }
        assert(cells.take(cells.len() as int) =~= cells);

        self.end_row(buffer);
    }

    /// Appends a table: what opens it, its rows, and the blank line after
    /// them.
    pub fn write_table(&mut self, buffer: &mut String, table: &Table)
        requires
            table_fits(table@),
        ensures
            final(buffer)@ == old(buffer)@ + table_text(table@),
    {
        let ghost shown = table@;
        let ghost rows = row_texts(shown.rows, shown.columns);
        let comment = match &table.comment {
            Some(text) => Some(text.as_str()),
            None => None,
        };
        self.start_table(buffer, table.name.as_str(), comment, table.columns.as_slice());
        let ghost front = buffer@;

        let mut i: usize = 0;
        while i < table.rows.len()
            invariant
                i <= table.rows.len(),
                shown == table@,
                table_fits(shown),
                rows == row_texts(shown.rows, shown.columns),
                buffer@ == front + concat(rows.take(i as int)),
            decreases table.rows.len() - i,
        {
            assert(shown.rows[i as int] == table.rows@[i as int]@);
            self.write_row(buffer, &table.rows[i], table.columns.as_slice());
            proof {
                lemma_concat_take(rows, i as int);
            }
            i = i + 1;
        }
        assert(rows.take(rows.len() as int) =~= rows);

        self.end_table(buffer);
    }

    /// Appends a whole document: the opening with the table of contents and
    /// the commentary sections, every table in order, and the closing
    /// lines.
    pub fn write_document(
        &mut self,
        buffer: &mut String,
        top_comments: &IndexMap<String, String>,
        tables: &[Table],
    )
        requires
            forall|i: int| 0 <= i < tables@.len() ==> table_fits((#[trigger] tables@[i])@),
        ensures
            final(buffer)@ == old(buffer)@ + document_text(
                entries(*top_comments),
                tables_of(tables@),
            ),
    {
        let ghost shown = tables_of(tables@);
        let ghost texts = shown.map_values(|table: TableView| table_text(table));

        let mut names: Vec<&str> = Vec::new();
        let mut n: usize = 0;
        while n < tables.len()
            invariant
                n <= tables.len(),
                shown == tables_of(tables@),
                names@.len() == n,
                forall|k: int| 0 <= k < n ==> (#[trigger] names@[k])@ == shown[k].name,
            decreases tables.len() - n,
        {
            assert(shown[n as int] == tables@[n as int]@);
            names.push(tables[n].name.as_str());
            n = n + 1;
        }
        assert(crate::document::names_of(names@) =~= table_names(shown));

        self.start(buffer, top_comments, names.as_slice());
        let ghost front = buffer@;

        let mut i: usize = 0;
        while i < tables.len()
            invariant
                i <= tables.len(),
                shown == tables_of(tables@),
                texts == shown.map_values(|table: TableView| table_text(table)),
                forall|k: int| 0 <= k < tables@.len() ==> table_fits((#[trigger] tables@[k])@),
                buffer@ == front + concat(texts.take(i as int)),
            decreases tables.len() - i,
        {
            assert(shown[i as int] == tables@[i as int]@);
            self.write_table(buffer, &tables[i]);
            proof {
                lemma_concat_take(texts, i as int);
            }
            i = i + 1;
        }
        assert(texts.take(texts.len() as int) =~= texts);

        self.end(buffer);
    }
}

} // verus!
