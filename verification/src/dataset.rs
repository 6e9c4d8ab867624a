//! The data that a document shows: tables of rows of cells, and whether
//! their contents fit the widths that their columns declare.

use vstd::prelude::*;
use vstd::string::*;

use crate::alignment::lemma_used_text_len;
use crate::comparison::{Comparison, Rating};
use crate::layout::{FIRST_COL_EXTRA_WIDTH, USED_EXTRA_WIDTH};
use crate::table::{columns_fit, columns_of, header_fits, used_text, Column, ColumnInfo};

verus! {

/// A cell of a data column.
pub enum Cell {
    /// A measurement: the formatted time, and the ratio to the baseline as
    /// it is shown and as it is rated.
    Used { time: String, speedup: String, compare: Comparison },
    /// No measurement applies.
    Unused,
}

/// A row: its label, which may be empty, and one cell for each data column.
pub struct Row {
    pub name: String,
    pub cells: Vec<Cell>,
}

/// A table: its name, a comment, the label column followed by the data
/// columns, and the rows.
pub struct Table {
    pub name: String,
    pub comment: Option<String>,
    pub columns: Vec<ColumnInfo>,
    pub rows: Vec<Row>,
}

/// A cell as the contracts see it.
pub enum CellView {
    Used { time: Seq<char>, speedup: Seq<char>, compare: Comparison },
    Unused,
}

/// A row as the contracts see it.
pub struct RowView {
    pub name: Seq<char>,
    pub cells: Seq<CellView>,
}

/// A table as the contracts see it.
pub struct TableView {
    pub name: Seq<char>,
    pub comment: Option<Seq<char>>,
    pub columns: Seq<Column>,
    pub rows: Seq<RowView>,
}

impl View for Cell {
    type V = CellView;

    open spec fn view(&self) -> CellView {
        match *self {
            Cell::Used { time, speedup, compare } => CellView::Used {
                time: time@,
                speedup: speedup@,
                compare,
            },
            Cell::Unused => CellView::Unused,
        }
    }
}

impl View for Row {
    type V = RowView;

    open spec fn view(&self) -> RowView {
        RowView { name: self.name@, cells: self.cells@.map_values(|cell: Cell| cell@) }
    }
}

impl View for Table {
    type V = TableView;

    open spec fn view(&self) -> TableView {
        TableView {
            name: self.name@,
            comment: match self.comment {
                Some(text) => Some(text@),
                None => None,
            },
            columns: columns_of(self.columns@),
            rows: self.rows@.map_values(|row: Row| row@),
        }
    }
}

/// Whether what a cell shows fits a column of `max_width` characters.
pub open spec fn cell_fits(cell: CellView, max_width: nat) -> bool {
    match cell {
        CellView::Used { time, speedup, compare } => used_text(time, speedup, compare.rating()).len()
            <= max_width + USED_EXTRA_WIDTH + 1,
        CellView::Unused => true,
    }
}

/// Whether a row fits these columns: it has one cell for each data column,
/// its label fits the label column and can be counted with its markup, and
/// each cell fits its column.
pub open spec fn row_fits(row: RowView, columns: Seq<Column>) -> bool {
    &&& row.cells.len() + 1 == columns.len()
    &&& row.name.len() <= columns[0].max_width + 1
    &&& row.name.len() + FIRST_COL_EXTRA_WIDTH <= usize::MAX
    &&& forall|i: int|
        0 <= i < row.cells.len() ==> cell_fits(#[trigger] row.cells[i], columns[i + 1].max_width)
}

/// Whether a table can be written: its columns can open a table, and every
/// row fits them.
pub open spec fn table_fits(table: TableView) -> bool {
    &&& columns_fit(table.columns)
    &&& forall|i: int| 0 <= i < table.rows.len() ==> row_fits(#[trigger] table.rows[i], table.columns)
}

impl Cell {
    /// Decides whether what this cell shows fits a column of `max_width`
    /// characters.
    pub fn fits(&self, max_width: usize) -> (ok: bool)
        ensures
            ok == cell_fits(self@, max_width as nat),
    {
        match self {
            Cell::Used { time, speedup, compare } => {
                let rating = compare.rate();
                let markup: usize = match rating {
                    Rating::Rocket => USED_EXTRA_WIDTH,
                    Rating::Check => USED_EXTRA_WIDTH,
                    Rating::Cross => USED_EXTRA_WIDTH - 2,
                    Rating::Even => USED_EXTRA_WIDTH - 6,
                };
                proof {
                    lemma_used_text_len(time@, speedup@, rating);
                }
                let time_width = time.as_str().unicode_len() as u128;
                let speedup_width = speedup.as_str().unicode_len() as u128;
                time_width + speedup_width + markup as u128 <= max_width as u128
                    + USED_EXTRA_WIDTH as u128 + 1
            },
            Cell::Unused => true,
        }
    }
}

/// Decides whether a table can be opened with these columns.
pub fn check_columns(columns: &[ColumnInfo]) -> (ok: bool)
    ensures
        ok == columns_fit(columns_of(columns@)),
{
    let ghost shown = columns_of(columns@);
    if columns.len() == 0 {
        return false;
    }
    if columns[0].max_width > usize::MAX - FIRST_COL_EXTRA_WIDTH {
        return false;
    }
    let mut i: usize = 1;
    while i < columns.len()
        invariant
            1 <= i <= columns.len(),
            shown == columns_of(columns@),
            forall|k: int|
                1 <= k < i ==> {
                    &&& (#[trigger] shown[k]).max_width + USED_EXTRA_WIDTH <= usize::MAX
                    &&& shown[k].name.len() + 2 <= usize::MAX
                    &&& header_fits(shown[k])
                },
        decreases columns.len() - i,
    {
        let column = &columns[i];
        assert(shown[i as int] == column@);
        if column.max_width > usize::MAX - USED_EXTRA_WIDTH {
            return false;
        }
        let width = column.name.as_str().unicode_len();
        if width > usize::MAX - 2 {
            return false;
        }
        if width + 1 > column.max_width + USED_EXTRA_WIDTH {
            return false;
        }
        i = i + 1;
    }
    true
}

impl Row {
    /// Decides whether this row fits these columns.
    pub fn fits(&self, columns: &[ColumnInfo]) -> (ok: bool)
        requires
            columns@.len() >= 1,
        ensures
            ok == row_fits(self@, columns_of(columns@)),
    {
        let ghost shown = columns_of(columns@);
        let ghost row = self@;
        if self.cells.len() != columns.len() - 1 {
            return false;
        }
        let width = self.name.as_str().unicode_len();
        assert(shown[0] == columns@[0]@);
        if width as u128 > columns[0].max_width as u128 + 1 {
            return false;
        }
        if width > usize::MAX - FIRST_COL_EXTRA_WIDTH {
            return false;
        }
        let mut i: usize = 0;
        while i < self.cells.len()
            invariant
                i <= self.cells.len(),
                self.cells.len() + 1 == columns.len(),
                shown == columns_of(columns@),
                row == self@,
                forall|k: int|
                    0 <= k < i ==> cell_fits(#[trigger] row.cells[k], shown[k + 1].max_width),
            decreases self.cells.len() - i,
        {
            assert(row.cells[i as int] == self.cells@[i as int]@);
            assert(shown[i + 1] == columns@[i + 1]@);
            if !self.cells[i].fits(columns[i + 1].max_width) {
                return false;
            }
            i = i + 1;
        }
        true
    }
}

impl Table {
    /// Decides whether this table can be written.
    pub fn fits(&self) -> (ok: bool)
        ensures
            ok == table_fits(self@),
    {
        let ghost table = self@;
        if !check_columns(self.columns.as_slice()) {
            return false;
        }
        let mut i: usize = 0;
        while i < self.rows.len()
            invariant
                i <= self.rows.len(),
                table == self@,
                columns_fit(table.columns),
                forall|k: int| 0 <= k < i ==> row_fits(#[trigger] table.rows[k], table.columns),
            decreases self.rows.len() - i,
        {
            assert(table.rows[i as int] == self.rows@[i as int]@);
            if !self.rows[i].fits(self.columns.as_slice()) {
                return false;
            }
            i = i + 1;
        }
        true
    }
}

} // verus!
