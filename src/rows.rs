use crate::csv_data::CsvData;
use crate::model::{record_view, records_view, window};
use ratatui::widgets::Row;
use vstd::prelude::*;

verus! {

#[verifier::external_type_specification]
#[verifier::external_body]
pub struct ExRow<'a>(Row<'a>);

/// What a display row holds: for each of its cells, in order, the lines of
/// the cell's text.
pub uninterp spec fn row_cells(r: Row) -> Seq<Seq<Seq<char>>>;

/// The lines of text that a display cell makes of one field (ratatui's
/// `Text::raw`: the field split into lines, and one empty line for an empty
/// field).
pub uninterp spec fn cell_lines(field: Seq<char>) -> Seq<Seq<char>>;

/// The cells of the display row of a record: one per field, in field order.
pub open spec fn row_cells_of(fields: Seq<Seq<char>>) -> Seq<Seq<Seq<char>>> {
    fields.map_values(|f: Seq<char>| cell_lines(f))
}

/// Relies on `ratatui::widgets::Row::new` and `Cell`'s conversion from `&str`
/// (through `Text::raw`): one display cell per field, in field order, each
/// holding the lines of that field's text.
#[verifier::external_body]
fn row_of<'a>(fields: &'a Vec<String>) -> (r: Row<'a>)
    ensures
        row_cells(r) == record_view(*fields).map_values(|f: Seq<char>| cell_lines(f)),
{
    Row::new(fields.iter().map(String::as_str))
}

/// One display row per record of `recs`, in order.
fn rows_of<'a>(recs: &'a [Vec<String>]) -> (r: Vec<Row<'a>>)
    ensures
        r@.len() == recs@.len(),
        forall|k: int|
            0 <= k < recs@.len() ==> row_cells(#[trigger] r@[k]) == row_cells_of(
                record_view(recs@[k]),
            ),
{
    let mut out: Vec<Row<'a>> = Vec::new();
    let mut k: usize = 0;
    while k < recs.len()
        invariant
            k <= recs@.len(),
            out@.len() == k,
            forall|q: int|
                0 <= q < k ==> row_cells(#[trigger] out@[q]) == row_cells_of(
                    record_view(recs@[q]),
                ),
        decreases recs@.len() - k,
    {
        out.push(row_of(&recs[k]));
        k = k + 1;
    }
    out
}

impl CsvData {
    /// Every record as a display row, in order.
    pub fn rows(&self) -> (r: Vec<Row<'_>>)
        ensures
            r@.len() == self@.records.len(),
            forall|j: int|
                0 <= j < r@.len() ==> row_cells(#[trigger] r@[j]) == row_cells_of(
                    self@.records[j],
                ),
    {
        let recs = self.records();
        let r = rows_of(recs);
        assert forall|j: int| 0 <= j < r@.len() implies row_cells(#[trigger] r@[j]) == row_cells_of(
            self@.records[j],
        ) by {
            assert(records_view(recs@)[j] == record_view(recs@[j]));
        }
        r
    }

    /// The records of `record_window(first, count)` as display rows.
    pub fn row_window(&self, first: usize, count: usize) -> (r: Vec<Row<'_>>)
        ensures
            r@.len() == window(self@.records, first as int, count as int).len(),
            forall|j: int|
                0 <= j < r@.len() ==> row_cells(#[trigger] r@[j]) == row_cells_of(
                    window(self@.records, first as int, count as int)[j],
                ),
    {
        let recs = self.record_window(first, count);
        let r = rows_of(recs);
        assert forall|j: int| 0 <= j < r@.len() implies row_cells(#[trigger] r@[j]) == row_cells_of(
            window(self@.records, first as int, count as int)[j],
        ) by {
            assert(records_view(recs@)[j] == record_view(recs@[j]));
        }
        r
    }
}

} // verus!
