//! Comma-separated text, read and written by the `csv` crate.
//!
//! The library does not repeat what the crate knows of quotes, escapes and
//! line ends. It gives the crate's answers names and states its own contracts
//! over those names: [`csv_records`] for what the crate reads out of a text,
//! [`csv_closed`] for what it answers when a list of records has been written.

use vstd::prelude::*;
use vstd::utf8::{decode_utf8, valid_utf8};

verus! {

/// The error type of the `csv` crate. Nothing is known of what one holds.
#[verifier::external_type_specification]
#[verifier::external_body]
pub struct ExCsvError(::csv::Error);

/// The records that the `csv` crate reads out of `text`, in order and with the
/// header line as the first: the cells of each record that it could read, and
/// its error for each that it could not.
pub uninterp spec fn csv_records(text: Seq<char>) -> Seq<Result<Seq<Seq<char>>, ::csv::Error>>;

/// The text with which the `csv` crate describes one of its errors.
pub uninterp spec fn csv_error_text(error: ::csv::Error) -> Seq<char>;

/// What the `csv` crate answers when a writer that has taken `records` is
/// closed: the bytes that it wrote for them, or its error.
pub uninterp spec fn csv_closed(records: Seq<Seq<Seq<char>>>) -> Result<Seq<u8>, ::csv::Error>;

/// The bytes that the `csv` crate writes for `records`; none where it does
/// not close the writer.
pub open spec fn csv_document(records: Seq<Seq<Seq<char>>>) -> Seq<u8> {
    match csv_closed(records) {
        Ok(bytes) => bytes,
        Err(_) => Seq::empty(),
    }
}

/// The answer of a closed writer: its bytes as mathematical values, or the
/// error.
pub open spec fn closed_view(closed: Result<Vec<u8>, ::csv::Error>) -> Result<
    Seq<u8>,
    ::csv::Error,
> {
    match closed {
        Ok(bytes) => Ok(bytes@),
        Err(error) => Err(error),
    }
}

/// The records that a writer has taken so far.
pub uninterp spec fn written(writer: CsvWriter) -> Seq<Seq<Seq<char>>>;

/// The cells of a record as texts.
pub open spec fn cells_view(cells: Seq<String>) -> Seq<Seq<char>> {
    cells.map_values(|cell: String| cell@)
}

/// A record as it was read: its cells as texts, or the error.
pub open spec fn record_view(record: Result<Vec<String>, ::csv::Error>) -> Result<
    Seq<Seq<char>>,
    ::csv::Error,
> {
    match record {
        Ok(cells) => Ok(cells_view(cells@)),
        Err(error) => Err(error),
    }
}

/// The records of a text as they were read.
pub open spec fn records_view(records: Seq<Result<Vec<String>, ::csv::Error>>) -> Seq<
    Result<Seq<Seq<char>>, ::csv::Error>,
> {
    records.map_values(|record: Result<Vec<String>, ::csv::Error>| record_view(record))
}

/// Reads all records of `text`, the header line as the first.
///
/// Builds a reader with `csv::ReaderBuilder` that takes the first line for a
/// record like the others, walks `Reader::records` to the end and copies the
/// cells of each record. What the crate reads depends on the text alone; the
/// contract gives it its name.
#[verifier::external_body]
pub(crate) fn read_records(text: &str) -> (records: Vec<Result<Vec<String>, ::csv::Error>>)
    ensures
        records_view(records@) == csv_records(text@),
{
    let mut reader = ::csv::ReaderBuilder::new().has_headers(false).from_reader(text.as_bytes());
    reader.records().map(|r| r.map(|record| record.iter().map(String::from).collect())).collect()
}

/// The text of an error of the `csv` crate.
///
/// Calls the error's `Display` implementation through `to_string`. The text
/// depends on the error alone; the contract gives it its name.
#[verifier::external_body]
pub(crate) fn csv_error_message(error: &::csv::Error) -> (message: String)
    ensures
        message@ == csv_error_text(*error),
{
    error.to_string()
}

/// A `csv::Writer` that collects what it writes in memory.
#[verifier::external_body]
pub struct CsvWriter {
    inner: ::csv::Writer<Vec<u8>>,
}

/// A writer that has taken no record yet.
///
/// Calls `csv::Writer::from_writer` on an empty vector.
#[verifier::external_body]
pub(crate) fn new_writer() -> (writer: CsvWriter)
    ensures
        written(writer) == Seq::<Seq<Seq<char>>>::empty(),
{
    CsvWriter { inner: ::csv::Writer::from_writer(Vec::new()) }
}

/// Hands `cells` to the writer as its next record.
///
/// Calls `csv::Writer::write_record`. A writer into memory refuses a record
/// only for having another number of cells than the first record it took; the
/// writer is given up with the refusal. Else the record is appended to what
/// the writer has taken.
#[verifier::external_body]
pub(crate) fn write_record(writer: CsvWriter, cells: &Vec<String>) -> (result: Result<
    CsvWriter,
    ::csv::Error,
>)
    ensures
        result is Ok <==> (written(writer).len() == 0 || written(writer)[0].len()
            == cells@.len()),
        result matches Ok(next) ==> written(next) == written(writer).push(cells_view(cells@)),
{
    let mut writer = writer;
    match writer.inner.write_record(cells.iter()) {
        Ok(()) => Ok(writer),
        Err(error) => Err(error),
    }
}

/// Closes the writer and returns the bytes that it wrote.
///
/// Calls `csv::Writer::into_inner`. What that answers depends on the records
/// that the writer has taken alone; the contract gives the answer its name
/// and promises neither the bytes nor the error.
#[verifier::external_body]
pub(crate) fn finish_writer(writer: CsvWriter) -> (result: Result<Vec<u8>, ::csv::Error>)
    ensures
        closed_view(result) == csv_closed(written(writer)),
{
    writer.inner.into_inner().map_err(|e| ::csv::Error::from(e.into_error()))
}

/// The text that `bytes` encode in UTF-8, if they encode one.
///
/// Calls `String::from_utf8`, which succeeds exactly on valid UTF-8.
#[verifier::external_body]
pub(crate) fn text_of_bytes(bytes: Vec<u8>) -> (text: Option<String>)
    ensures
        text is Some <==> valid_utf8(bytes@),
        text matches Some(t) ==> t@ == decode_utf8(bytes@),
{
    String::from_utf8(bytes).ok()
}

} // verus!
