use crate::csv_data::built;
use crate::model::{column_max, column_widths, field_len, table_of, window, window_start};
use crate::reading::parsed_csv;
use vstd::prelude::*;

verus! {

/// Every input that reads as delimited text builds a table, and the table
/// holds exactly as many records as the input has.
pub proof fn law_build_counts_records(bytes: Seq<u8>, recs: Seq<Seq<Seq<char>>>)
    requires
        parsed_csv(bytes) == Some(recs),
    ensures
        built(bytes) is Some,
        built(bytes)->0.records.len() == recs.len(),
{
}

/// A window from `first` of `count` records holds
/// `min(count, max(0, len - first))` records.
pub proof fn law_window_len(recs: Seq<Seq<Seq<char>>>, first: usize, count: usize)
    ensures
        window(recs, first as int, count as int).len() == (if first >= recs.len() {
            0
        } else if count < recs.len() - first {
            count as int
        } else {
            recs.len() - first
        }),
{
}

/// The fields that a table yields are those of the input, in the same order:
/// all of them, and in a window the records from its start on.
pub proof fn law_round_trip(
    bytes: Seq<u8>,
    recs: Seq<Seq<Seq<char>>>,
    first: usize,
    count: usize,
)
    requires
        parsed_csv(bytes) == Some(recs),
    ensures
        built(bytes) == Some(table_of(recs)),
        built(bytes)->0.records == recs,
        forall|k: int|
            0 <= k < window(recs, first as int, count as int).len() ==> #[trigger] window(
                recs,
                first as int,
                count as int,
            )[k] == recs[window_start(recs.len() as int, first as int) + k],
{
}

proof fn lemma_column_max_bounds(recs: Seq<Seq<Seq<char>>>, col: int)
    ensures
        forall|k: int| 0 <= k < recs.len() ==> field_len(#[trigger] recs[k], col) <= column_max(recs, col),
        column_max(recs, col) == 0 || exists|k: int|
            0 <= k < recs.len() && 0 <= col < recs[k].len() && #[trigger] recs[k][col].len()
                == column_max(recs, col),
    decreases recs.len(),
{
    if recs.len() > 0 {
        let rest = recs.drop_last();
        lemma_column_max_bounds(rest, col);
        assert forall|k: int| 0 <= k < recs.len() implies field_len(#[trigger] recs[k], col)
            <= column_max(recs, col) by {
            if k < rest.len() {
                assert(recs[k] == rest[k]);
            }
        }
        if column_max(recs, col) != 0 {
            if column_max(recs, col) == column_max(rest, col) {
                let k = choose|k: int|
                    0 <= k < rest.len() && 0 <= col < rest[k].len() && #[trigger] rest[k][col].len()
                        == column_max(rest, col);
                assert(recs[k] == rest[k]);
            } else {
                assert(recs[recs.len() - 1] == recs.last());
            }
        }
    }
}

/// Within range, the tracked width of a column is the largest length of that
/// field over all records: no record's field is longer, and some record's
/// field is exactly that long.
pub proof fn law_column_width_is_max(recs: Seq<Seq<Seq<char>>>, i: int)
    requires
        0 <= i < column_widths(recs).len(),
    ensures
        forall|k: int|
            0 <= k < recs.len() ==> field_len(#[trigger] recs[k], i) <= column_widths(recs)[i],
        exists|k: int|
            0 <= k < recs.len() && i < recs[k].len() && #[trigger] recs[k][i].len()
                == column_widths(recs)[i],
{
    lemma_column_max_bounds(recs, i);
    if column_max(recs, i) == 0 {
        assert(0 <= i < recs[0].len());
        assert(field_len(recs[0], i) <= 0);
    }
}

} // verus!
