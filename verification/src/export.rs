//! CSV export: a result set rendered as a CSV attachment.
//!
//! The library decides what the document holds: the header, one record per
//! row in result order, and the text of each field. Quoting and escaping are
//! the `csv` crate's: the writer stands behind three small wrappers whose
//! contracts are assumed, not proved.

use vstd::prelude::*;
use vstd::string::*;
use crate::handlers::{AppError, STATUS_OK};
use crate::models::{AppConfig, AppConfigView};
use crate::text::{bool_text, bool_to_string, i32_to_string, signed_decimal_text};

verus! {

/// A `csv::Writer` in its default configuration that writes into memory.
/// Values are made by `csv_writer_new` and handed on by `csv_write_record`
/// only, so each holds whole records and nothing else.
#[verifier::external_body]
pub struct CsvWriter {
    inner: csv::Writer<Vec<u8>>,
}

/// The records that have been written to a writer, oldest first, each record
/// the text of its fields.
pub uninterp spec fn csv_written(writer: CsvWriter) -> Seq<Seq<Seq<char>>>;

/// Whether `csv::Writer::write_record` succeeds when a default writer that
/// holds the records `written` is given the record `fields`.
pub uninterp spec fn csv_accepts(written: Seq<Seq<Seq<char>>>, fields: Seq<Seq<char>>) -> bool;

/// What `csv::Writer::into_inner` gives for a default writer that holds the
/// given records: the bytes of their CSV document, or nothing where the
/// writer fails to flush.
pub uninterp spec fn csv_document(records: Seq<Seq<Seq<char>>>) -> Option<Seq<u8>>;

/// `csv::Writer::from_writer` on an empty byte vector: a writer in the
/// default configuration to which nothing has been written.
#[verifier::external_body]
fn csv_writer_new() -> (writer: CsvWriter)
    ensures
        csv_written(writer) == Seq::<Seq<Seq<char>>>::empty(),
{
    CsvWriter { inner: csv::Writer::from_writer(Vec::new()) }
}

/// `csv::Writer::write_record`. Whether it succeeds depends on nothing but
/// the records written before and the record given. Where it succeeds, the
/// writer comes back with the record added after those written before. It
/// fails where the record has another number of fields than the first one
/// written; after a failure the writer, which may hold part of a record, is
/// dropped.
#[verifier::external_body]
fn csv_write_record(writer: CsvWriter, fields: &Vec<String>) -> (outcome: Result<
    CsvWriter,
    csv::Error,
>)
    ensures
        outcome is Ok <==> csv_accepts(csv_written(writer), fields.deep_view()),
        outcome matches Ok(after) ==> csv_written(after) == csv_written(writer).push(
            fields.deep_view(),
        ),
        csv_written(writer).len() > 0 && csv_written(writer)[0].len() != fields.len()
            ==> outcome is Err,
{
    let mut writer = writer;
    match writer.inner.write_record(fields) {
        Ok(()) => Ok(writer),
        Err(e) => Err(e),
    }
}

/// `csv::Writer::into_inner`: flushes and gives back the bytes. Outcome and
/// bytes depend on nothing but the records written. A failure to flush comes
/// back as the `csv::Error` of its I/O error.
#[verifier::external_body]
fn csv_into_inner(writer: CsvWriter) -> (outcome: Result<Vec<u8>, csv::Error>)
    ensures
        match outcome {
            Ok(bytes) => csv_document(csv_written(writer)) == Some(bytes@),
            Err(_) => csv_document(csv_written(writer)) is None,
        },
{
    match writer.inner.into_inner() {
        Ok(bytes) => Ok(bytes),
        Err(e) => Err(csv::Error::from(e.into_error())),
    }
}

/// Whether a default writer takes each of the records in turn.
pub open spec fn csv_accepts_all(records: Seq<Seq<Seq<char>>>) -> bool {
    forall|i: int|
        0 <= i < records.len() ==> #[trigger] csv_accepts(records.take(i), records[i])
}

/// The outcome of encoding the records with a default writer: the bytes of
/// their document where the writer takes every record and flushes, and
/// nothing otherwise.
pub open spec fn csv_encoding(records: Seq<Seq<Seq<char>>>) -> Option<Seq<u8>> {
    if csv_accepts_all(records) {
        csv_document(records)
    } else {
        None
    }
}

/// Every record has as many fields as the first.
pub open spec fn same_width(records: Seq<Seq<Seq<char>>>) -> bool {
    forall|i: int| 0 <= i < records.len() ==> (#[trigger] records[i]).len() == records[0].len()
}

/// The text of the `billable` column: the boolean's word, or `NULL` where
/// the value is unknown.
pub open spec fn billable_text(billable: Option<bool>) -> Seq<char> {
    match billable {
        Some(b) => bool_text(b),
        None => "NULL"@,
    }
}

/// The header record.
pub open spec fn csv_header_text() -> Seq<Seq<char>> {
    seq!["ID"@, "Contract"@, "URL"@, "UUID"@, "Name"@, "Billable"@, "Ignore Files"@]
}

/// The record of one row: its fields in header order.
pub open spec fn csv_record_text(config: AppConfigView) -> Seq<Seq<char>> {
    seq![
        signed_decimal_text(config.id),
        config.contract,
        config.url,
        config.uuid,
        config.name,
        billable_text(config.billable),
        bool_text(config.ignore_files),
    ]
}

/// The records of an export: the header, then one record per row in result
/// order.
pub open spec fn csv_rows_text(data: Seq<AppConfigView>) -> Seq<Seq<Seq<char>>> {
    seq![csv_header_text()] + data.map_values(|config: AppConfigView| csv_record_text(config))
}

/// The header record.
pub fn csv_header() -> (fields: Vec<String>)
    ensures
        fields.deep_view() == csv_header_text(),
{
    let mut fields: Vec<String> = Vec::new();
    fields.push(String::from_str("ID"));
    fields.push(String::from_str("Contract"));
    fields.push(String::from_str("URL"));
    fields.push(String::from_str("UUID"));
    fields.push(String::from_str("Name"));
    fields.push(String::from_str("Billable"));
    fields.push(String::from_str("Ignore Files"));
    assert(fields.deep_view() =~= csv_header_text());
    fields
}

/// The record of one row.
pub fn csv_record(config: &AppConfig) -> (fields: Vec<String>)
    ensures
        fields.deep_view() == csv_record_text(config@),
{
    let billable = match config.billable {
        Some(b) => bool_to_string(b),
        None => String::from_str("NULL"),
    };
    let mut fields: Vec<String> = Vec::new();
    fields.push(i32_to_string(config.id));
    fields.push(config.contract.clone());
    fields.push(config.url.clone());
    fields.push(config.uuid.clone());
    fields.push(config.name.clone());
    fields.push(billable);
    fields.push(bool_to_string(config.ignore_files));
    assert(fields.deep_view() =~= csv_record_text(config@));
    fields
}

/// The records of an export: the header, then one record per row in result
/// order.
pub fn csv_rows(data: &Vec<AppConfig>) -> (rows: Vec<Vec<String>>)
    ensures
        rows.deep_view() == csv_rows_text(data.deep_view()),
{
    let mut rows: Vec<Vec<String>> = Vec::new();
    rows.push(csv_header());
    let mut i: usize = 0;
    assert(rows.deep_view() =~= csv_rows_text(data.deep_view().take(0)));
    while i < data.len()
        invariant
            i <= data.len(),
            rows.deep_view() == csv_rows_text(data.deep_view().take(i as int)),
        decreases data.len() - i,
    {
        let ghost before = rows.deep_view();
        let record = csv_record(&data[i]);
        rows.push(record);
        assert(rows.deep_view() =~= before.push(csv_record_text(data[i as int]@)));
        assert(rows.deep_view() =~= csv_rows_text(data.deep_view().take(i + 1)));
        i += 1;
    }
    assert(data.deep_view().take(i as int) =~= data.deep_view());
    rows
}

/// Encodes the records as one CSV document, written in the order given.
///
/// The outcome is the writer's: encoding succeeds exactly where the writer
/// takes every record in turn and then flushes, and the bytes are then the
/// document of exactly these records. Records that differ in their number of
/// fields never encode.
pub fn encode_csv(rows: &Vec<Vec<String>>) -> (outcome: Result<Vec<u8>, csv::Error>)
    ensures
        match outcome {
            Ok(bytes) => csv_encoding(rows.deep_view()) == Some(bytes@),
            Err(_) => csv_encoding(rows.deep_view()) is None,
        },
        outcome is Ok ==> same_width(rows.deep_view()),
{
    let ghost all = rows.deep_view();
    let mut writer = csv_writer_new();
    let mut i: usize = 0;
    assert(all.take(0) =~= Seq::<Seq<Seq<char>>>::empty());
    while i < rows.len()
        invariant
            i <= rows.len(),
            all == rows.deep_view(),
            csv_written(writer) == all.take(i as int),
            forall|j: int| 0 <= j < i ==> #[trigger] csv_accepts(all.take(j), all[j]),
            forall|j: int| 0 <= j < i ==> (#[trigger] all[j]).len() == all[0].len(),
        decreases rows.len() - i,
    {
        assert(all[i as int] == rows[i as int].deep_view());
        assert(i > 0 ==> all.take(i as int)[0] == all[0]);
        match csv_write_record(writer, &rows[i]) {
            Ok(after) => {
                writer = after;
            },
            Err(e) => {
                assert(!csv_accepts(all.take(i as int), all[i as int]));
                return Err(e);
            },
        }
        assert(all.take(i as int).push(all[i as int]) =~= all.take(i + 1));
        i += 1;
    }
    assert(all.take(i as int) =~= all);
    csv_into_inner(writer)
}

/// A CSV document sent as an attachment.
#[derive(Debug, Clone, PartialEq, Eq)]
pub struct CsvReply {
    pub status: u16,
    pub content_type: String,
    pub content_disposition: String,
    pub body: Vec<u8>,
}

/// The reply to an export, from the outcome of encoding: the document as an
/// attachment named `app_configs.csv`, or the encoding failure.
pub fn export_reply(encoded: Result<Vec<u8>, csv::Error>) -> (outcome: Result<CsvReply, AppError>)
    ensures
        match encoded {
            Ok(bytes) => outcome matches Ok(reply) && reply.status == STATUS_OK
                && reply.content_type@ == "text/csv"@ && reply.content_disposition@
                == "attachment; filename=app_configs.csv"@ && reply.body == bytes,
            Err(e) => outcome == Err::<CsvReply, AppError>(AppError::Csv(e)),
        },
{
    match encoded {
        Ok(bytes) => Ok(
            CsvReply {
                status: STATUS_OK,
                content_type: String::from_str("text/csv"),
                content_disposition: String::from_str("attachment; filename=app_configs.csv"),
                body: bytes,
            },
        ),
        Err(e) => Err(AppError::Csv(e)),
    }
}

/// Renders a result set as a CSV attachment: the header and one record per
/// row, in result order. An unknown `billable` is written as `NULL`. The
/// export fails, with the writer's error, exactly where encoding does.
pub fn export_csv(data: &Vec<AppConfig>) -> (outcome: Result<CsvReply, AppError>)
    ensures
        match outcome {
            Ok(reply) => reply.status == STATUS_OK && reply.content_type@ == "text/csv"@
                && reply.content_disposition@ == "attachment; filename=app_configs.csv"@
                && csv_encoding(csv_rows_text(data.deep_view())) == Some(reply.body@),
            Err(e) => e is Csv && csv_encoding(csv_rows_text(data.deep_view())) is None,
        },
{
    let rows = csv_rows(data);
    export_reply(encode_csv(&rows))
}

} // verus!
