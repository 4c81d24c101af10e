//! Tables of separated values, read with the `csv` crate.
use vstd::prelude::*;
use vstd::string::*;
use crate::text::strings_view;

verus! {

/// For a text, a separator and the two reader settings "the first record is
/// a header" and "records may differ in length": the fields of the header
/// record and, for each further record in turn, its fields, or `None` for a
/// record that the reader reports as broken. `None` as a whole where the
/// reader cannot give the header.
pub uninterp spec fn csv_table(
    text: Seq<char>,
    delimiter: u8,
    has_headers: bool,
    flexible: bool,
) -> Option<(Seq<Seq<char>>, Seq<Option<Seq<Seq<char>>>>)>;

/// What a record of a table stands for: its fields, or `None` where the
/// reader reported the record as broken.
pub open spec fn record_view(record: Result<Vec<String>, csv::Error>) -> Option<Seq<Seq<char>>> {
    match record {
        Ok(fields) => Some(strings_view(fields@)),
        Err(_) => None,
    }
}

/// The views of the records of a table, in order.
pub open spec fn records_view(records: Seq<Result<Vec<String>, csv::Error>>) -> Seq<
    Option<Seq<Seq<char>>>,
> {
    records.map_values(|r: Result<Vec<String>, csv::Error>| record_view(r))
}

/// `csv::ReaderBuilder` with the given settings, then `Reader::headers` and
/// `Reader::records` on the bytes of `text`: the header and the records are
/// what [`csv_table`] names, a failure to read the header is handed on.
#[verifier::external_body]
pub(crate) fn read_csv(text: &str, delimiter: u8, has_headers: bool, flexible: bool) -> (r: Result<
    (Vec<String>, Vec<Result<Vec<String>, csv::Error>>),
    csv::Error,
>)
    ensures
        match r {
            Ok(table) => csv_table(text@, delimiter, has_headers, flexible) == Some(
                (strings_view(table.0@), records_view(table.1@)),
            ),
            Err(_) => csv_table(text@, delimiter, has_headers, flexible) is None,
        },
{
    let mut reader = csv::ReaderBuilder::new()
        .delimiter(delimiter)
        .has_headers(has_headers)
        .flexible(flexible)
        .from_reader(text.as_bytes());
    let headers = reader.headers()?.iter().map(|s| s.to_string()).collect();
    let records = reader
        .records()
        .map(|r| r.map(|record| record.iter().map(|s| s.to_string()).collect()))
        .collect();
    Ok((headers, records))
}

} // verus!
