//! From the records of a table to the typed entries of an import.
//!
//! The first record of a table is its header. Every later record is one entry,
//! whose fields are the cells under the column titles that the kind of entry
//! knows. Columns with other titles are passed over. A title may stand in the
//! header once.

use vstd::prelude::*;
use vstd::string::*;

use super::ImportTable;
use crate::number::{grams_of, i32_of, parse_grams, parse_i32};
use crate::service::intake::{NewIntake, NewIntakeTarget, NewIntakeTargetView, NewIntakeView};
use crate::service::weight::{
    NewWeightTarget, NewWeightTargetView, NewWeightTracker, NewWeightTrackerView,
};
use crate::tabular::{
    cells_view, csv_error_message, csv_error_text, csv_records, read_records, record_view,
    records_view,
};

verus! {

/// One candidate record of an import.
#[derive(Debug)]
pub enum ImportEntry {
    Intake(NewIntake),
    WeightTracker(NewWeightTracker),
    IntakeTarget(NewIntakeTarget),
    WeightTarget(NewWeightTarget),
}

/// What an [`ImportEntry`] holds, as mathematical values.
pub enum ImportEntryView {
    Intake(NewIntakeView),
    WeightTracker(NewWeightTrackerView),
    IntakeTarget(NewIntakeTargetView),
    WeightTarget(NewWeightTargetView),
}

impl View for ImportEntry {
    type V = ImportEntryView;

    open spec fn view(&self) -> ImportEntryView {
        match self {
            ImportEntry::Intake(e) => ImportEntryView::Intake(e@),
            ImportEntry::WeightTracker(e) => ImportEntryView::WeightTracker(e@),
            ImportEntry::IntakeTarget(e) => ImportEntryView::IntakeTarget(e@),
            ImportEntry::WeightTarget(e) => ImportEntryView::WeightTarget(e@),
        }
    }
}

/// The views of a list of entries, in order.
pub open spec fn entry_views(entries: Seq<ImportEntry>) -> Seq<ImportEntryView> {
    entries.map_values(|e: ImportEntry| e@)
}

/// A table that could not be read: the row that is at fault, counted from one
/// with the header as the first row, and what is wrong with it.
#[derive(Debug)]
pub struct ParseFailure {
    pub row: usize,
    pub detail: String,
}

// ============================================================================
// CELLS
// ============================================================================

/// How many columns of `header` are titled `name`.
pub open spec fn column_count(header: Seq<Seq<char>>, name: Seq<char>) -> nat
    decreases header.len(),
{
    if header.len() == 0 {
        0
    } else {
        column_count(header.drop_last(), name) + if header.last() == name {
            1nat
        } else {
            0nat
        }
    }
}

/// The place of the last column of `header` that is titled `name`, or `-1`.
pub open spec fn column_index(header: Seq<Seq<char>>, name: Seq<char>) -> int
    decreases header.len(),
{
    if header.len() == 0 {
        -1
    } else if header.last() == name {
        header.len() - 1
    } else {
        column_index(header.drop_last(), name)
    }
}

/// What a record holds under a column title.
pub enum Cell {
    /// No column has the title.
    Missing,
    /// More than one column has the title.
    Repeated,
    /// The cell under the one column with the title.
    Found(Seq<char>),
}

/// What the record `cells` holds under the title `name` of `header`.
pub open spec fn cell(header: Seq<Seq<char>>, cells: Seq<Seq<char>>, name: Seq<char>) -> Cell {
    if column_count(header, name) == 0 {
        Cell::Missing
    } else if column_count(header, name) > 1 {
        Cell::Repeated
    } else {
        Cell::Found(cells[column_index(header, name)])
    }
}

/// What is wrong with a record that lacks a field.
pub open spec fn missing_field(name: Seq<char>) -> Seq<char> {
    "missing field `"@ + name + "`"@
}

/// What is wrong with a header that names a field twice.
pub open spec fn duplicate_field(name: Seq<char>) -> Seq<char> {
    "duplicate field `"@ + name + "`"@
}

/// What is wrong with a cell that should hold a number and does not.
pub open spec fn invalid_number(name: Seq<char>, text: Seq<char>) -> Seq<char> {
    "field `"@ + name + "`: invalid number `"@ + text + "`"@
}

/// The text of a field that a record must have.
pub open spec fn text_cell(header: Seq<Seq<char>>, cells: Seq<Seq<char>>, name: Seq<char>) -> Result<
    Seq<char>,
    Seq<char>,
> {
    match cell(header, cells, name) {
        Cell::Missing => Err(missing_field(name)),
        Cell::Repeated => Err(duplicate_field(name)),
        Cell::Found(text) => Ok(text),
    }
}

/// The text of a field that a record may leave out or leave empty.
pub open spec fn optional_cell(header: Seq<Seq<char>>, cells: Seq<Seq<char>>, name: Seq<char>) -> Result<
    Option<Seq<char>>,
    Seq<char>,
> {
    match cell(header, cells, name) {
        Cell::Missing => Ok(None),
        Cell::Repeated => Err(duplicate_field(name)),
        Cell::Found(text) => if text.len() == 0 {
            Ok(None)
        } else {
            Ok(Some(text))
        },
    }
}

/// The whole number of a field that a record must have.
pub open spec fn number_cell(header: Seq<Seq<char>>, cells: Seq<Seq<char>>, name: Seq<char>) -> Result<
    i32,
    Seq<char>,
> {
    match text_cell(header, cells, name) {
        Err(detail) => Err(detail),
        Ok(text) => match i32_of(text) {
            Some(n) => Ok(n),
            None => Err(invalid_number(name, text)),
        },
    }
}

/// The weight in grams of a field that a record must have.
pub open spec fn weight_cell(header: Seq<Seq<char>>, cells: Seq<Seq<char>>, name: Seq<char>) -> Result<
    i64,
    Seq<char>,
> {
    match text_cell(header, cells, name) {
        Err(detail) => Err(detail),
        Ok(text) => match grams_of(text) {
            Some(n) => Ok(n),
            None => Err(invalid_number(name, text)),
        },
    }
}

/// Where a title stands in a header.
enum Lookup {
    Missing,
    Repeated,
    Found(usize),
}

fn find_column(header: &Vec<String>, name: &str) -> (found: Lookup)
    ensures
        match found {
            Lookup::Missing => column_count(cells_view(header@), name@) == 0,
            Lookup::Repeated => column_count(cells_view(header@), name@) > 1,
            Lookup::Found(at) => column_count(cells_view(header@), name@) == 1 && at
                == column_index(cells_view(header@), name@) && at < header.len(),
        },
{
    let title = String::from_str(name);
    let ghost titles = cells_view(header@);
    let mut count: usize = 0;
    let mut at: usize = 0;
    let mut i: usize = 0;
    while i < header.len()
        invariant
            i <= header.len(),
            titles == cells_view(header@),
            title@ == name@,
            count <= i,
            count as nat == column_count(titles.take(i as int), name@),
            count > 0 ==> at == column_index(titles.take(i as int), name@) && at < i,
        decreases header.len() - i,
    {
        let ghost before = titles.take(i as int);
        let ghost after = titles.take(i + 1);
        assert(after.drop_last() =~= before);
        assert(after.last() == titles[i as int]);
        assert(titles[i as int] == header@[i as int]@);
        if header[i].eq(&title) {
            count = count + 1;
            at = i;
        }
        i = i + 1;
    }
    assert(titles.take(header.len() as int) =~= titles);
    if count == 0 {
        Lookup::Missing
    } else if count > 1 {
        Lookup::Repeated
    } else {
        Lookup::Found(at)
    }
}

fn missing_field_text(name: &str) -> (detail: String)
    ensures
        detail@ == missing_field(name@),
{
    let mut detail = String::from_str("missing field `");
    detail.append(name);
    detail.append("`");
    detail
}

fn duplicate_field_text(name: &str) -> (detail: String)
    ensures
        detail@ == duplicate_field(name@),
{
    let mut detail = String::from_str("duplicate field `");
    detail.append(name);
    detail.append("`");
    detail
}

fn invalid_number_text(name: &str, text: &str) -> (detail: String)
    ensures
        detail@ == invalid_number(name@, text@),
{
    let mut detail = String::from_str("field `");
    detail.append(name);
    detail.append("`: invalid number `");
    detail.append(text);
    detail.append("`");
    detail
}

fn read_text(header: &Vec<String>, cells: &Vec<String>, name: &str) -> (result: Result<String, String>)
    requires
        cells.len() == header.len(),
    ensures
        match result {
            Ok(text) => text_cell(cells_view(header@), cells_view(cells@), name@) == Ok::<
                Seq<char>,
                Seq<char>,
            >(text@),
            Err(detail) => text_cell(cells_view(header@), cells_view(cells@), name@) == Err::<
                Seq<char>,
                Seq<char>,
            >(detail@),
        },
{
    match find_column(header, name) {
        Lookup::Missing => Err(missing_field_text(name)),
        Lookup::Repeated => Err(duplicate_field_text(name)),
        Lookup::Found(at) => {
            assert(cells_view(cells@)[at as int] == cells@[at as int]@);
            Ok(cells[at].clone())
        },
    }
}

fn read_optional(header: &Vec<String>, cells: &Vec<String>, name: &str) -> (result: Result<
    Option<String>,
    String,
>)
    requires
        cells.len() == header.len(),
    ensures
        match result {
            Ok(Some(text)) => optional_cell(cells_view(header@), cells_view(cells@), name@) == Ok::<
                Option<Seq<char>>,
                Seq<char>,
            >(Some(text@)),
            Ok(None) => optional_cell(cells_view(header@), cells_view(cells@), name@) == Ok::<
                Option<Seq<char>>,
                Seq<char>,
            >(None),
            Err(detail) => optional_cell(cells_view(header@), cells_view(cells@), name@) == Err::<
                Option<Seq<char>>,
                Seq<char>,
            >(detail@),
        },
{
    match find_column(header, name) {
        Lookup::Missing => Ok(None),
        Lookup::Repeated => Err(duplicate_field_text(name)),
        Lookup::Found(at) => {
            assert(cells_view(cells@)[at as int] == cells@[at as int]@);
            if cells[at].as_str().unicode_len() == 0 {
                Ok(None)
            } else {
                Ok(Some(cells[at].clone()))
            }
        },
    }
}

fn read_number(header: &Vec<String>, cells: &Vec<String>, name: &str) -> (result: Result<i32, String>)
    requires
        cells.len() == header.len(),
    ensures
        match result {
            Ok(n) => number_cell(cells_view(header@), cells_view(cells@), name@) == Ok::<
                i32,
                Seq<char>,
            >(n),
            Err(detail) => number_cell(cells_view(header@), cells_view(cells@), name@) == Err::<
                i32,
                Seq<char>,
            >(detail@),
        },
{
    match read_text(header, cells, name) {
        Err(detail) => Err(detail),
        Ok(text) => match parse_i32(text.as_str()) {
            Some(n) => Ok(n),
            None => Err(invalid_number_text(name, text.as_str())),
        },
    }
}

fn read_weight(header: &Vec<String>, cells: &Vec<String>, name: &str) -> (result: Result<i64, String>)
    requires
        cells.len() == header.len(),
    ensures
        match result {
            Ok(n) => weight_cell(cells_view(header@), cells_view(cells@), name@) == Ok::<
                i64,
                Seq<char>,
            >(n),
            Err(detail) => weight_cell(cells_view(header@), cells_view(cells@), name@) == Err::<
                i64,
                Seq<char>,
            >(detail@),
        },
{
    match read_text(header, cells, name) {
        Err(detail) => Err(detail),
        Ok(text) => match parse_grams(text.as_str()) {
            Some(n) => Ok(n),
            None => Err(invalid_number_text(name, text.as_str())),
        },
    }
}

// ============================================================================
// ENTRIES
// ============================================================================

/// The intake entry that a record spells under a header.
pub open spec fn decode_intake(header: Seq<Seq<char>>, cells: Seq<Seq<char>>) -> Result<
    ImportEntryView,
    Seq<char>,
> {
    match text_cell(header, cells, "added"@) {
        Err(detail) => Err(detail),
        Ok(added) => match number_cell(header, cells, "amount"@) {
            Err(detail) => Err(detail),
            Ok(amount) => match text_cell(header, cells, "category"@) {
                Err(detail) => Err(detail),
                Ok(category) => match optional_cell(header, cells, "description"@) {
                    Err(detail) => Err(detail),
                    Ok(description) => Ok(
                        ImportEntryView::Intake(
                            NewIntakeView { added, amount, category, description },
                        ),
                    ),
                },
            },
        },
    }
}

/// The weight entry that a record spells under a header.
pub open spec fn decode_weight_tracker(header: Seq<Seq<char>>, cells: Seq<Seq<char>>) -> Result<
    ImportEntryView,
    Seq<char>,
> {
    match text_cell(header, cells, "added"@) {
        Err(detail) => Err(detail),
        Ok(added) => match weight_cell(header, cells, "amount"@) {
            Err(detail) => Err(detail),
            Ok(amount) => match optional_cell(header, cells, "time"@) {
                Err(detail) => Err(detail),
                Ok(time) => Ok(
                    ImportEntryView::WeightTracker(NewWeightTrackerView { added, amount, time }),
                ),
            },
        },
    }
}

/// The intake target that a record spells under a header.
pub open spec fn decode_intake_target(header: Seq<Seq<char>>, cells: Seq<Seq<char>>) -> Result<
    ImportEntryView,
    Seq<char>,
> {
    match text_cell(header, cells, "added"@) {
        Err(detail) => Err(detail),
        Ok(added) => match text_cell(header, cells, "endDate"@) {
            Err(detail) => Err(detail),
            Ok(end_date) => match number_cell(header, cells, "maximumCalories"@) {
                Err(detail) => Err(detail),
                Ok(maximum_calories) => match text_cell(header, cells, "startDate"@) {
                    Err(detail) => Err(detail),
                    Ok(start_date) => match number_cell(header, cells, "targetCalories"@) {
                        Err(detail) => Err(detail),
                        Ok(target_calories) => Ok(
                            ImportEntryView::IntakeTarget(
                                NewIntakeTargetView {
                                    added,
                                    end_date,
                                    maximum_calories,
                                    start_date,
                                    target_calories,
                                },
                            ),
                        ),
                    },
                },
            },
        },
    }
}

/// The weight target that a record spells under a header.
pub open spec fn decode_weight_target(header: Seq<Seq<char>>, cells: Seq<Seq<char>>) -> Result<
    ImportEntryView,
    Seq<char>,
> {
    match text_cell(header, cells, "added"@) {
        Err(detail) => Err(detail),
        Ok(added) => match text_cell(header, cells, "endDate"@) {
            Err(detail) => Err(detail),
            Ok(end_date) => match weight_cell(header, cells, "initialWeight"@) {
                Err(detail) => Err(detail),
                Ok(initial_weight) => match text_cell(header, cells, "startDate"@) {
                    Err(detail) => Err(detail),
                    Ok(start_date) => match weight_cell(header, cells, "targetWeight"@) {
                        Err(detail) => Err(detail),
                        Ok(target_weight) => Ok(
                            ImportEntryView::WeightTarget(
                                NewWeightTargetView {
                                    added,
                                    end_date,
                                    initial_weight,
                                    start_date,
                                    target_weight,
                                },
                            ),
                        ),
                    },
                },
            },
        },
    }
}

/// What is wrong with a record that has another number of cells than the header.
pub open spec fn ragged_record() -> Seq<char> {
    "record does not match the header"@
}

/// The entry of the kind `table` that a record spells under a header, or
/// what is wrong with the record.
pub open spec fn decode_entry(
    table: ImportTable,
    header: Seq<Seq<char>>,
    cells: Seq<Seq<char>>,
) -> Result<ImportEntryView, Seq<char>> {
    if cells.len() != header.len() {
        Err(ragged_record())
    } else {
        match table {
            ImportTable::Intake => decode_intake(header, cells),
            ImportTable::WeightTracker => decode_weight_tracker(header, cells),
            ImportTable::IntakeTarget => decode_intake_target(header, cells),
            ImportTable::WeightTarget => decode_weight_target(header, cells),
        }
    }
}

/// Whether a decoded entry is the one that the model names.
pub open spec fn decoded(result: Result<ImportEntry, String>, model: Result<
    ImportEntryView,
    Seq<char>,
>) -> bool {
    match result {
        Ok(entry) => model == Ok::<ImportEntryView, Seq<char>>(entry@),
        Err(detail) => model == Err::<ImportEntryView, Seq<char>>(detail@),
    }
}

fn read_intake(header: &Vec<String>, cells: &Vec<String>) -> (result: Result<ImportEntry, String>)
    requires
        cells.len() == header.len(),
    ensures
        decoded(result, decode_intake(cells_view(header@), cells_view(cells@))),
{
    let added = match read_text(header, cells, "added") {
        Err(detail) => {
            return Err(detail);
        },
        Ok(text) => text,
    };
    let amount = match read_number(header, cells, "amount") {
        Err(detail) => {
            return Err(detail);
        },
        Ok(n) => n,
    };
    let category = match read_text(header, cells, "category") {
        Err(detail) => {
            return Err(detail);
        },
        Ok(text) => text,
    };
    let description = match read_optional(header, cells, "description") {
        Err(detail) => {
            return Err(detail);
        },
        Ok(text) => text,
    };
    Ok(ImportEntry::Intake(NewIntake { added, amount, category, description }))
}

fn read_weight_tracker(header: &Vec<String>, cells: &Vec<String>) -> (result: Result<
    ImportEntry,
    String,
>)
    requires
        cells.len() == header.len(),
    ensures
        decoded(result, decode_weight_tracker(cells_view(header@), cells_view(cells@))),
{
    let added = match read_text(header, cells, "added") {
        Err(detail) => {
            return Err(detail);
        },
        Ok(text) => text,
    };
    let amount = match read_weight(header, cells, "amount") {
        Err(detail) => {
            return Err(detail);
        },
        Ok(n) => n,
    };
    let time = match read_optional(header, cells, "time") {
        Err(detail) => {
            return Err(detail);
        },
        Ok(text) => text,
    };
    Ok(ImportEntry::WeightTracker(NewWeightTracker { added, amount, time }))
}

fn read_intake_target(header: &Vec<String>, cells: &Vec<String>) -> (result: Result<
    ImportEntry,
    String,
>)
    requires
        cells.len() == header.len(),
    ensures
        decoded(result, decode_intake_target(cells_view(header@), cells_view(cells@))),
{
    let added = match read_text(header, cells, "added") {
        Err(detail) => {
            return Err(detail);
        },
        Ok(text) => text,
    };
    let end_date = match read_text(header, cells, "endDate") {
        Err(detail) => {
            return Err(detail);
        },
        Ok(text) => text,
    };
    let maximum_calories = match read_number(header, cells, "maximumCalories") {
        Err(detail) => {
            return Err(detail);
        },
        Ok(n) => n,
    };
    let start_date = match read_text(header, cells, "startDate") {
        Err(detail) => {
            return Err(detail);
        },
        Ok(text) => text,
    };
    let target_calories = match read_number(header, cells, "targetCalories") {
        Err(detail) => {
            return Err(detail);
        },
        Ok(n) => n,
    };
    Ok(
        ImportEntry::IntakeTarget(
            NewIntakeTarget { added, end_date, maximum_calories, start_date, target_calories },
        ),
    )
}

fn read_weight_target(header: &Vec<String>, cells: &Vec<String>) -> (result: Result<
    ImportEntry,
    String,
>)
    requires
        cells.len() == header.len(),
    ensures
        decoded(result, decode_weight_target(cells_view(header@), cells_view(cells@))),
{
    let added = match read_text(header, cells, "added") {
        Err(detail) => {
            return Err(detail);
        },
        Ok(text) => text,
    };
    let end_date = match read_text(header, cells, "endDate") {
        Err(detail) => {
            return Err(detail);
        },
        Ok(text) => text,
    };
    let initial_weight = match read_weight(header, cells, "initialWeight") {
        Err(detail) => {
            return Err(detail);
        },
        Ok(n) => n,
    };
    let start_date = match read_text(header, cells, "startDate") {
        Err(detail) => {
            return Err(detail);
        },
        Ok(text) => text,
    };
    let target_weight = match read_weight(header, cells, "targetWeight") {
        Err(detail) => {
            return Err(detail);
        },
        Ok(n) => n,
    };
    Ok(
        ImportEntry::WeightTarget(
            NewWeightTarget { added, end_date, initial_weight, start_date, target_weight },
        ),
    )
}

/// Reads the entry of the kind `table` out of the record `cells` of a table
/// with the header `header`.
pub fn read_entry(table: ImportTable, header: &Vec<String>, cells: &Vec<String>) -> (result: Result<
    ImportEntry,
    String,
>)
    ensures
        decoded(result, decode_entry(table, cells_view(header@), cells_view(cells@))),
{
    if cells.len() != header.len() {
        return Err(String::from_str("record does not match the header"));
    }
    match table {
        ImportTable::Intake => read_intake(header, cells),
        ImportTable::WeightTracker => read_weight_tracker(header, cells),
        ImportTable::IntakeTarget => read_intake_target(header, cells),
        ImportTable::WeightTarget => read_weight_target(header, cells),
    }
}

// ============================================================================
// TABLES
// ============================================================================

/// The entry of the kind `table` that a record of a table spells under a
/// header, or what is wrong with the record: for a record that could not be
/// read, that is the text of the error.
#[verifier::opaque]
pub open spec fn decode_record(
    table: ImportTable,
    header: Seq<Seq<char>>,
    record: Result<Seq<Seq<char>>, ::csv::Error>,
) -> Result<ImportEntryView, Seq<char>> {
    match record {
        Err(error) => Err(csv_error_text(error)),
        Ok(cells) => decode_entry(table, header, cells),
    }
}

/// Reads the entry of the kind `table` out of a record of a table with the
/// header `header`.
pub fn read_record(
    table: ImportTable,
    header: &Vec<String>,
    record: &Result<Vec<String>, ::csv::Error>,
) -> (result: Result<ImportEntry, String>)
    ensures
        decoded(result, decode_record(table, cells_view(header@), record_view(*record))),
{
    reveal(decode_record);
    match record {
        Err(error) => Err(csv_error_message(error)),
        Ok(cells) => read_entry(table, header, cells),
    }
}

/// The entries that the data rows `rows` spell under `header`, or the first
/// row that spells none, with what is wrong with it. Rows count from one and
/// the header is the first, so the data row at place `k` is row `k + 2`.
pub open spec fn decode_rows(
    table: ImportTable,
    header: Seq<Seq<char>>,
    rows: Seq<Result<Seq<Seq<char>>, ::csv::Error>>,
) -> Result<Seq<ImportEntryView>, (nat, Seq<char>)>
    decreases rows.len(),
{
    if rows.len() == 0 {
        Ok(Seq::empty())
    } else {
        match decode_rows(table, header, rows.drop_last()) {
            Err(failure) => Err(failure),
            Ok(entries) => match decode_record(table, header, rows.last()) {
                Err(detail) => Err((rows.len() + 1, detail)),
                Ok(entry) => Ok(entries.push(entry)),
            },
        }
    }
}

/// The entries that the records of a table spell, the first record being the
/// header. A table without any record has no entries.
pub open spec fn decode_table(
    table: ImportTable,
    records: Seq<Result<Seq<Seq<char>>, ::csv::Error>>,
) -> Result<Seq<ImportEntryView>, (nat, Seq<char>)> {
    if records.len() == 0 {
        Ok(Seq::empty())
    } else {
        match records[0] {
            Err(error) => Err((1, csv_error_text(error))),
            Ok(header) => decode_rows(table, header, records.skip(1)),
        }
    }
}

/// Whether the outcome of reading a table is the one that the model names.
pub open spec fn parsed(
    result: Result<Vec<ImportEntry>, ParseFailure>,
    model: Result<Seq<ImportEntryView>, (nat, Seq<char>)>,
) -> bool {
    match result {
        Ok(entries) => model == Ok::<Seq<ImportEntryView>, (nat, Seq<char>)>(
            entry_views(entries@),
        ),
        Err(failure) => model == Err::<Seq<ImportEntryView>, (nat, Seq<char>)>(
            (failure.row as nat, failure.detail@),
        ),
    }
}

/// Reads the entries of the kind `table` out of the records of a table.
pub fn read_table(table: ImportTable, records: &Vec<Result<Vec<String>, ::csv::Error>>) -> (result:
    Result<Vec<ImportEntry>, ParseFailure>)
    ensures
        parsed(result, decode_table(table, records_view(records@))),
{
    let ghost model = records_view(records@);
    if records.len() == 0 {
        let entries: Vec<ImportEntry> = Vec::new();
        assert(entry_views(entries@) =~= Seq::<ImportEntryView>::empty());
        return Ok(entries);
    }
    assert(model[0] == record_view(records@[0]));
    let header = match &records[0] {
        Err(error) => {
            return Err(ParseFailure { row: 1, detail: csv_error_message(error) });
        },
        Ok(header) => header,
    };
    let ghost titles = cells_view(header@);
    let ghost rows = model.skip(1);
    let mut entries: Vec<ImportEntry> = Vec::new();
    let mut i: usize = 1;
    assert(rows.take(0) =~= Seq::<Result<Seq<Seq<char>>, ::csv::Error>>::empty());
    assert(entry_views(entries@) =~= Seq::<ImportEntryView>::empty());
    while i < records.len()
        invariant
            1 <= i <= records.len(),
            model == records_view(records@),
            rows == model.skip(1),
            titles == cells_view(header@),
            model[0] == Ok::<Seq<Seq<char>>, ::csv::Error>(titles),
            decode_rows(table, titles, rows.take(i - 1)) == Ok::<
                Seq<ImportEntryView>,
                (nat, Seq<char>),
            >(entry_views(entries@)),
        decreases records.len() - i,
    {
        let ghost before = rows.take(i - 1);
        let ghost upto = rows.take(i as int);
        assert(upto.drop_last() =~= before);
        assert(upto.last() == model[i as int]);
        assert(model[i as int] == record_view(records@[i as int]));
        match read_record(table, header, &records[i]) {
            Err(detail) => {
                let failure = ParseFailure { row: i + 1, detail };
                proof {
                    lemma_decode_rows_fails(table, titles, rows, i as int);
                }
                return Err(failure);
            },
            Ok(entry) => {
                let ghost old_views = entry_views(entries@);
                entries.push(entry);
                assert(entry_views(entries@) =~= old_views.push(entry@));
            },
        }
        i = i + 1;
    }
    assert(rows.take(records.len() - 1) =~= rows);
    Ok(entries)
}

/// A table fails at the first of its rows that fails.
pub proof fn lemma_decode_rows_fails(
    table: ImportTable,
    header: Seq<Seq<char>>,
    rows: Seq<Result<Seq<Seq<char>>, ::csv::Error>>,
    k: int,
)
    requires
        0 < k <= rows.len(),
        decode_rows(table, header, rows.take(k)) is Err,
    ensures
        decode_rows(table, header, rows) == decode_rows(table, header, rows.take(k)),
    decreases rows.len(),
{
    if k == rows.len() {
        assert(rows.take(k) =~= rows);
    } else {
        assert(rows.drop_last().take(k) =~= rows.take(k));
        lemma_decode_rows_fails(table, header, rows.drop_last(), k);
    }
}

/// Reads the entries of the kind `table` out of comma-separated text whose
/// first line is the header.
pub fn parse_csv(text: &str, table: ImportTable) -> (result: Result<Vec<ImportEntry>, ParseFailure>)
    ensures
        parsed(result, decode_table(table, csv_records(text@))),
{
    let records = read_records(text);
    read_table(table, &records)
}

} // verus!
