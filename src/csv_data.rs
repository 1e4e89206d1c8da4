use crate::model::{
    column_max, column_widths, field_len, record_view, records_view, table_of, window, TableModel,
};
use crate::reading::{parsed_csv, read_csv_records};
use vstd::prelude::*;
use vstd::slice::slice_subrange;

verus! {

/// The input could not be read as delimited text; holds what the reader reported.
#[derive(Debug)]
pub struct ParseError {
    pub cause: csv::Error,
}

/// The table that `bytes` builds, or `None` where they cannot be read.
pub open spec fn built(bytes: Seq<u8>) -> Option<TableModel> {
    match parsed_csv(bytes) {
        Some(recs) => Some(table_of(recs)),
        None => None,
    }
}

/// A table of records held in memory, with the widest field of each column.
pub struct CsvData {
    records: Vec<Vec<String>>,
    column_lengths: Vec<usize>,
}

impl View for CsvData {
    type V = TableModel;

    closed spec fn view(&self) -> TableModel {
        TableModel {
            records: records_view(self.records@),
            column_lengths: self.column_lengths@.map_values(|w: usize| w as int),
        }
    }
}

proof fn lemma_column_max_nonneg(recs: Seq<Seq<Seq<char>>>, col: int)
    ensures
        column_max(recs, col) >= 0,
    decreases recs.len(),
{
    if recs.len() > 0 {
        lemma_column_max_nonneg(recs.drop_last(), col);
    }
}

impl CsvData {
    /// The widths always match the records.
    #[verifier::type_invariant]
    spec fn widths_match(&self) -> bool {
        self@.column_lengths == column_widths(self@.records)
    }

    /// Reads every record of `bytes` (comma-separated, the first row being a
    /// header) and builds the table from them. Fails, and keeps nothing, at the
    /// first record that cannot be read.
    pub fn from_bytes(bytes: &[u8]) -> (r: Result<CsvData, ParseError>)
        ensures
            match r {
                Ok(d) => {
                    &&& built(bytes@) == Some(d@)
                    &&& forall|k: int|
                        0 <= k < d@.records.len() ==> (#[trigger] d@.records[k]).len()
                            == d@.column_lengths.len()
                },
                Err(_) => built(bytes@) is None,
            },
    {
        match read_csv_records(bytes) {
            Ok(records) => {
                let d = CsvData::from_records(records);
                assert(forall|k: int|
                    0 <= k < d@.records.len() ==> (#[trigger] d@.records[k]).len() == records_view(
                        records@,
                    )[0].len());
                Ok(d)
            },
            Err(cause) => Err(ParseError { cause }),
        }
    }

    /// Builds a table from records in order, tracking for each field of the
    /// first record the widest value of that field over all records.
    pub fn from_records(records: Vec<Vec<String>>) -> (d: CsvData)
        ensures
            d@ == table_of(records_view(records@)),
    {
        let ghost rv = records_view(records@);
        let n: usize = if records.len() == 0 {
            0
        } else {
            records[0].len()
        };
        let mut column_lengths: Vec<usize> = Vec::new();
        let mut c: usize = 0;
        while c < n
            invariant
                c <= n,
                column_lengths@.len() == c,
                forall|k: int| 0 <= k < c ==> column_lengths@[k] == 0,
            decreases n - c,
        {
            column_lengths.push(0);
            c = c + 1;
        }
        let mut j: usize = 0;
        while j < records.len()
            invariant
                j <= records@.len(),
                rv == records_view(records@),
                n == (if records@.len() == 0 { 0 } else { records@[0]@.len() }),
                column_lengths@.len() == n,
                forall|k: int|
                    0 <= k < n ==> column_lengths@[k] as int == #[trigger] column_max(
                        rv.take(j as int),
                        k,
                    ),
            decreases records@.len() - j,
        {
            let rec = &records[j];
            let ghost prev = rv.take(j as int);
            let ghost next = rv.take(j as int + 1);
            assert(next.drop_last() =~= prev);
            assert(next.last() == rv[j as int]);
            let m: usize = if rec.len() < n {
                rec.len()
            } else {
                n
            };
            let mut idx: usize = 0;
            while idx < m
                invariant
                    idx <= m,
                    m <= n,
                    m <= rec@.len(),
                    rec == records@[j as int],
                    rv == records_view(records@),
                    j < records@.len(),
                    prev.len() == j,
                    next.len() == j + 1,
                    next.drop_last() == prev,
                    next.last() == rv[j as int],
                    column_lengths@.len() == n,
                    forall|k: int|
                        0 <= k < idx ==> column_lengths@[k] as int == #[trigger] column_max(
                            next,
                            k,
                        ),
                    forall|k: int|
                        idx <= k < n ==> column_lengths@[k] as int == #[trigger] column_max(
                            prev,
                            k,
                        ),
                decreases m - idx,
            {
                let w: usize = rec[idx].as_str().unicode_len();
                assert(rv[j as int] == record_view(*rec));
                assert(rv[j as int][idx as int] == rec@[idx as int]@);
                assert(field_len(next.last(), idx as int) == w);
                assert(column_lengths@[idx as int] as int == column_max(prev, idx as int));
                assert(column_max(next, idx as int) == if w > column_max(prev, idx as int) {
                    w as int
                } else {
                    column_max(prev, idx as int)
                });
                if w > column_lengths[idx] {
                    column_lengths.set(idx, w);
                }
                idx = idx + 1;
            }
            proof {
                assert forall|k: int| m <= k < n implies #[trigger] column_max(next, k)
                    == column_max(prev, k) by {
                    lemma_column_max_nonneg(prev, k);
                    assert(field_len(next.last(), k) == 0);
                }
            }
            j = j + 1;
        }
        proof {
            assert(rv.take(records@.len() as int) =~= rv);
            assert(column_lengths@.map_values(|w: usize| w as int) =~= column_widths(rv));
        }
        CsvData { records, column_lengths }
    }

    /// All records, in the order in which they were read.
    pub fn records(&self) -> (r: &[Vec<String>])
        ensures
            records_view(r@) == self@.records,
    {
        self.records.as_slice()
    }

    /// The records from index `first` on, at most `count` of them; fewer where
    /// the table ends sooner, none where `first` is past its end.
    pub fn record_window(&self, first: usize, count: usize) -> (r: &[Vec<String>])
        ensures
            records_view(r@) == window(self@.records, first as int, count as int),
    {
        let len = self.records.len();
        let lo: usize = if first < len {
            first
        } else {
            len
        };
        let hi: usize = if count < len - lo {
            lo + count
        } else {
            len
        };
        let r = slice_subrange(self.records.as_slice(), lo, hi);
        assert(records_view(r@) =~= window(self@.records, first as int, count as int));
        r
    }

    /// The number of records.
    pub fn len(&self) -> (n: usize)
        ensures
            n == self@.records.len(),
    {
        self.records.len()
    }

    /// Whether the table holds no record.
    pub fn is_empty(&self) -> (b: bool)
        ensures
            b == (self@.records.len() == 0),
    {
        self.records.len() == 0
    }

    /// The tracked width of column `col_idx`, or `None` past the last tracked column.
    pub fn column_length(&self, col_idx: usize) -> (r: Option<&usize>)
        ensures
            match r {
                Some(w) => col_idx < self@.column_lengths.len() && *w as int
                    == self@.column_lengths[col_idx as int] && *w as int == column_max(
                    self@.records,
                    col_idx as int,
                ),
                None => col_idx >= self@.column_lengths.len(),
            },
    {
        proof {
            use_type_invariant(self);
        }
        if col_idx < self.column_lengths.len() {
            assert(self@.column_lengths.len() == self.column_lengths@.len());
            assert(self@.records.len() > 0);
            Some(&self.column_lengths[col_idx])
        } else {
            None
        }
    }

    /// The tracked widths of all columns, in column order.
    pub fn column_lengths(&self) -> (r: &[usize])
        ensures
            r@.map_values(|w: usize| w as int) == self@.column_lengths,
            self@.column_lengths == column_widths(self@.records),
    {
        proof {
            use_type_invariant(self);
        }
        self.column_lengths.as_slice()
    }
}

} // verus!
