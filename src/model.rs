use vstd::prelude::*;

verus! {

/// A record as the logic sees it: its fields, each a sequence of characters.
pub open spec fn record_view(r: Vec<String>) -> Seq<Seq<char>> {
    r@.map_values(|s: String| s@)
}

/// A sequence of records as the logic sees it.
pub open spec fn records_view(rs: Seq<Vec<String>>) -> Seq<Seq<Seq<char>>> {
    rs.map_values(|r: Vec<String>| record_view(r))
}

/// The length of field `col` of a record, or 0 where the record has no such field.
pub open spec fn field_len(r: Seq<Seq<char>>, col: int) -> int {
    if 0 <= col < r.len() {
        r[col].len() as int
    } else {
        0
    }
}

/// The largest length of field `col` over all records (0 when there are none).
pub open spec fn column_max(recs: Seq<Seq<Seq<char>>>, col: int) -> int
    decreases recs.len(),
{
    if recs.len() == 0 {
        0
    } else {
        let rest = column_max(recs.drop_last(), col);
        let here = field_len(recs.last(), col);
        if here > rest {
            here
        } else {
            rest
        }
    }
}

/// The tracked column widths: one per field of the first record, each the
/// largest length of that field over all records. Fields that a later record
/// has beyond the first record's count are not tracked.
pub open spec fn column_widths(recs: Seq<Seq<Seq<char>>>) -> Seq<int> {
    if recs.len() == 0 {
        Seq::empty()
    } else {
        Seq::new(recs[0].len(), |col: int| column_max(recs, col))
    }
}

/// The abstract value of a table: its records and its tracked column widths.
pub struct TableModel {
    pub records: Seq<Seq<Seq<char>>>,
    pub column_lengths: Seq<int>,
}

/// The table built from a sequence of records.
pub open spec fn table_of(recs: Seq<Seq<Seq<char>>>) -> TableModel {
    TableModel { records: recs, column_lengths: column_widths(recs) }
}

/// The start of the window of `count` records from `first`, clamped to `len`.
pub open spec fn window_start(len: int, first: int) -> int {
    if first < len {
        first
    } else {
        len
    }
}

/// The end of the window of `count` records from `first`, clamped to `len`.
pub open spec fn window_end(len: int, first: int, count: int) -> int {
    if first + count < len {
        first + count
    } else {
        len
    }
}

/// The records from index `first` on, at most `count` of them.
pub open spec fn window<A>(s: Seq<A>, first: int, count: int) -> Seq<A> {
    s.subrange(window_start(s.len() as int, first), window_end(s.len() as int, first, count))
}

} // verus!
