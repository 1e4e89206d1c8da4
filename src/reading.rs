use crate::model::records_view;
use vstd::prelude::*;

verus! {

#[verifier::external_type_specification]
#[verifier::external_body]
pub struct ExCsvError(csv::Error);

/// What the `csv` crate reads from `bytes` with a reader's default settings:
/// comma-separated, first row taken as the header row and left out, every
/// row required to have as many fields as the first. `Some` holds the records
/// after the header, each as its fields; `None` means that reading failed at
/// some row (bad UTF-8, a row of another length).
pub uninterp spec fn parsed_csv(bytes: Seq<u8>) -> Option<Seq<Seq<Seq<char>>>>;

/// Relies on `csv::Reader::from_reader` and `Reader::records`: reads every
/// record of `bytes` in order, and stops at the first record that fails.
/// Each `StringRecord` is turned into the `String`s of its fields. With the
/// reader's default settings a read succeeds only where every record has as
/// many fields as the first row.
#[verifier::external_body]
pub(crate) fn read_csv_records(bytes: &[u8]) -> (r: Result<Vec<Vec<String>>, csv::Error>)
    ensures
        match r {
            Ok(recs) => {
                &&& parsed_csv(bytes@) == Some(records_view(recs@))
                &&& forall|i: int, j: int|
                    0 <= i < recs@.len() && 0 <= j < recs@.len() ==> #[trigger] recs@[i]@.len()
                        == #[trigger] recs@[j]@.len()
            },
            Err(_) => parsed_csv(bytes@) is None,
        },
{
    csv::Reader::from_reader(bytes)
        .records()
        .map(|rec| rec.map(|fields| fields.iter().map(String::from).collect()))
        .collect()
}

} // verus!
