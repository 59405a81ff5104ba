//! The tabular export: one table per kind of record, bundled in an archive.
//!
//! The store and the progress sink are out of reach of this library, so the
//! export is written as a machine. [`CsvExport::step`] takes the outcome of
//! the command that the previous step handed out, and answers with the
//! progress events to deliver and the next command. The caller performs the
//! command and comes back with its outcome, until the command is
//! [`CsvCommand::Finish`].
//!
//! The rows of the store are written as they are: nothing is validated on the
//! way out.

use vstd::prelude::*;
use vstd::string::*;
use vstd::utf8::{decode_utf8, decode_utf8_encode_utf8, encode_utf8, valid_utf8};

use super::{
    event, format_bytes, format_bytes_text, mark_of, marks_of, new_outbox, progress_views,
    rounded_half_even, send_progress, ExportCancellation, ExportProgress, ExportProgressView,
    ExportResult, ExportResultView, ExportStage,
};
use crate::archive::{
    archive_of, entries, finish_answer, finish_archive, new_archive, start_answer, start_file,
    write_answer, write_file, zip_error_message, zip_error_text, Archive,
};
use crate::clock::local_stamp;
use crate::percent::Percent;
use crate::service::intake::{FoodCategory, Intake, IntakeTarget};
use crate::service::weight::{WeightTarget, WeightTracker};
use crate::tabular::{
    cells_view, closed_view, csv_closed, csv_document, csv_error_message, csv_error_text,
    finish_writer, new_writer, text_of_bytes, write_record, written,
};
use crate::text::{decimal, digit_char, digit_text, push_decimal, push_signed_decimal, signed_decimal};
use crate::timeline::{
    closed, closing_count, continues, lemma_append_closing, lemma_append_open,
    lemma_closed_has_one, orderly, reaches, Mark,
};

verus! {

// ============================================================================
// THE TABLES
// ============================================================================

/// A weight in kilograms with one decimal, rounded to the nearest tenth, a tie
/// going to the even neighbour.
pub open spec fn weight_text(grams: int) -> Seq<char> {
    let magnitude = if grams < 0 {
        (-grams) as nat
    } else {
        grams as nat
    };
    let tenths = rounded_half_even(magnitude, 100);
    let number = decimal(tenths / 10) + seq!['.'] + seq![digit_char(tenths % 10)];
    if grams < 0 {
        seq!['-'] + number
    } else {
        number
    }
}

/// An optional text as a cell: empty where there is none.
pub open spec fn optional_text(text: Option<String>) -> Seq<char> {
    match text {
        Some(t) => t@,
        None => Seq::empty(),
    }
}

/// The header of the table of intake entries.
pub open spec fn intake_header() -> Seq<Seq<char>> {
    seq!["Date"@, "Amount (kcal)"@, "Category"@, "Description"@]
}

/// The cells of an intake entry.
pub open spec fn intake_cells(entry: Intake) -> Seq<Seq<char>> {
    seq![
        entry.added@,
        signed_decimal(entry.amount as int),
        entry.category@,
        optional_text(entry.description),
    ]
}

/// The header of the table of weight entries.
pub open spec fn weight_tracker_header() -> Seq<Seq<char>> {
    seq!["Date"@, "Weight (kg)"@]
}

/// The cells of a weight entry.
pub open spec fn weight_tracker_cells(entry: WeightTracker) -> Seq<Seq<char>> {
    seq![entry.added@, weight_text(entry.amount as int)]
}

/// The header of the table of intake targets.
pub open spec fn intake_target_header() -> Seq<Seq<char>> {
    seq!["Created"@, "Start Date"@, "End Date"@, "Target Calories"@, "Maximum Calories"@]
}

/// The cells of an intake target.
pub open spec fn intake_target_cells(target: IntakeTarget) -> Seq<Seq<char>> {
    seq![
        target.added@,
        target.start_date@,
        target.end_date@,
        signed_decimal(target.target_calories as int),
        signed_decimal(target.maximum_calories as int),
    ]
}

/// The header of the table of weight targets.
pub open spec fn weight_target_header() -> Seq<Seq<char>> {
    seq!["Created"@, "Start Date"@, "End Date"@, "Initial Weight (kg)"@, "Target Weight (kg)"@]
}

/// The cells of a weight target.
pub open spec fn weight_target_cells(target: WeightTarget) -> Seq<Seq<char>> {
    seq![
        target.added@,
        target.start_date@,
        target.end_date@,
        weight_text(target.initial_weight as int),
        weight_text(target.target_weight as int),
    ]
}

/// The header of the table of food categories.
pub open spec fn food_category_header() -> Seq<Seq<char>> {
    seq!["Code"@, "Name"@]
}

/// The cells of a food category.
pub open spec fn food_category_cells(category: FoodCategory) -> Seq<Seq<char>> {
    seq![category.shortvalue@, category.longvalue@]
}

/// The records of a table: its header, then its rows in order.
pub open spec fn table(header: Seq<Seq<char>>, rows: Seq<Seq<Seq<char>>>) -> Seq<Seq<Seq<char>>> {
    seq![header] + rows
}

/// The rows of a list of intake entries.
pub open spec fn intake_rows(entries: Seq<Intake>) -> Seq<Seq<Seq<char>>> {
    entries.map_values(|e: Intake| intake_cells(e))
}

/// The rows of a list of weight entries.
pub open spec fn weight_tracker_rows(entries: Seq<WeightTracker>) -> Seq<Seq<Seq<char>>> {
    entries.map_values(|e: WeightTracker| weight_tracker_cells(e))
}

/// The rows of a list of intake targets.
pub open spec fn intake_target_rows(targets: Seq<IntakeTarget>) -> Seq<Seq<Seq<char>>> {
    targets.map_values(|t: IntakeTarget| intake_target_cells(t))
}

/// The rows of a list of weight targets.
pub open spec fn weight_target_rows(targets: Seq<WeightTarget>) -> Seq<Seq<Seq<char>>> {
    targets.map_values(|t: WeightTarget| weight_target_cells(t))
}

/// The rows of a list of food categories.
pub open spec fn food_category_rows(categories: Seq<FoodCategory>) -> Seq<Seq<Seq<char>>> {
    categories.map_values(|c: FoodCategory| food_category_cells(c))
}

/// What becomes of the answer of a closed writer: the text that its bytes
/// spell, where it closed and the bytes are valid UTF-8, and else the message
/// of the failure.
pub open spec fn closed_outcome(closed: Result<Seq<u8>, ::csv::Error>) -> Result<
    Seq<char>,
    Seq<char>,
> {
    match closed {
        Err(error) => Err("Failed to finalize CSV: "@ + csv_error_text(error)),
        Ok(bytes) => if valid_utf8(bytes) {
            Ok(decode_utf8(bytes))
        } else {
            Err("Invalid UTF-8 in CSV"@)
        },
    }
}

/// What the writing of the table `records` as comma-separated text comes to:
/// the text, exactly when the writer closes and its bytes are valid UTF-8.
pub open spec fn table_outcome(records: Seq<Seq<Seq<char>>>) -> Result<Seq<char>, Seq<char>> {
    closed_outcome(csv_closed(records))
}

/// A text or a message as mathematical values.
pub open spec fn outcome_view(result: Result<String, String>) -> Result<Seq<char>, Seq<char>> {
    match result {
        Ok(text) => Ok(text@),
        Err(message) => Err(message@),
    }
}

/// Whether `text` is the comma-separated text of `records`: what the bytes
/// written for them spell.
pub open spec fn is_table_text(text: Seq<char>, records: Seq<Seq<Seq<char>>>) -> bool {
    table_outcome(records) == Ok::<Seq<char>, Seq<char>>(text)
}

/// The rows of a table as texts.
pub open spec fn rows_view(rows: Seq<Vec<String>>) -> Seq<Seq<Seq<char>>> {
    rows.map_values(|row: Vec<String>| cells_view(row@))
}

/// A weight in kilograms with one decimal.
pub fn format_weight(grams: i64) -> (text: String)
    ensures
        text@ == weight_text(grams as int),
{
    let magnitude: u128 = if grams < 0 {
        (-(grams as i128)) as u128
    } else {
        grams as u128
    };
    let whole = magnitude / 100;
    let rest = magnitude % 100;
    let tenths: u128 = if 2 * rest > 100 || (2 * rest == 100 && whole % 2 == 1) {
        whole + 1
    } else {
        whole
    };
    let mut text = String::new();
    proof {
        reveal_strlit("-");
        reveal_strlit(".");
    }
    if grams < 0 {
        text.append("-");
    }
    push_decimal(&mut text, tenths / 10);
    text.append(".");
    text.append(digit_text((tenths % 10) as u8));
    assert(text@ =~= weight_text(grams as int));
    text
}

fn signed_text(n: i32) -> (text: String)
    ensures
        text@ == signed_decimal(n as int),
{
    let mut text = String::new();
    push_signed_decimal(&mut text, n as i128);
    assert(text@ =~= signed_decimal(n as int));
    text
}

/// The text of a table, from the answer of the writer that was closed over
/// it: the text that the bytes spell, or the message of the failure.
pub fn table_text(closed: Result<Vec<u8>, ::csv::Error>) -> (result: Result<String, String>)
    ensures
        outcome_view(result) == closed_outcome(closed_view(closed)),
{
    match closed {
        Ok(bytes) => match text_of_bytes(bytes) {
            Some(text) => Ok(text),
            None => Err(String::from_str("Invalid UTF-8 in CSV")),
        },
        Err(error) => {
            let mut message = String::from_str("Failed to finalize CSV: ");
            message.append(csv_error_message(&error).as_str());
            Err(message)
        },
    }
}

/// Writes a table as comma-separated text.
///
/// The writer takes every record, since all have the width of the header. The
/// closing of the writer decides what comes of it: [`table_outcome`] is the
/// text where the writer closes over valid UTF-8, and else the message of the
/// failure.
pub fn write_table(header: &Vec<String>, rows: &Vec<Vec<String>>) -> (result: Result<String, String>)
    requires
        forall|i: int| 0 <= i < rows.len() ==> (#[trigger] rows[i]).len() == header.len(),
    ensures
        outcome_view(result) == table_outcome(table(cells_view(header@), rows_view(rows@))),
{
    let ghost records = table(cells_view(header@), rows_view(rows@));
    let mut writer = match write_record(new_writer(), header) {
        Ok(writer) => writer,
        Err(error) => {
            let mut message = String::from_str("Failed to write CSV header: ");
            message.append(csv_error_message(&error).as_str());
            return Err(message);
        },
    };
    assert(written(writer) =~= records.take(1));
    let mut i: usize = 0;
    while i < rows.len()
        invariant
            i <= rows.len(),
            records == table(cells_view(header@), rows_view(rows@)),
            forall|k: int| 0 <= k < rows.len() ==> (#[trigger] rows[k]).len() == header.len(),
            written(writer) == records.take(i + 1),
        decreases rows.len() - i,
    {
        assert(records[0].len() == header.len());
        assert(records[i + 1] == cells_view(rows@[i as int]@));
        assert(records.take(i + 2) =~= records.take(i + 1).push(records[i + 1]));
        writer = match write_record(writer, &rows[i]) {
            Ok(writer) => writer,
            Err(error) => {
                let mut message = String::from_str("Failed to write CSV record: ");
                message.append(csv_error_message(&error).as_str());
                return Err(message);
            },
        };
        i = i + 1;
    }
    assert(records.take(rows.len() + 1) =~= records);
    table_text(finish_writer(writer))
}

fn title(text: &str) -> (cell: String)
    ensures
        cell@ == text@,
{
    String::from_str(text)
}

fn optional_cell(text: &Option<String>) -> (cell: String)
    ensures
        cell@ == optional_text(*text),
{
    match text {
        Some(t) => t.clone(),
        None => String::new(),
    }
}

/// The table of intake entries as comma-separated text.
pub fn create_intake_csv(intakes: &Vec<Intake>) -> (result: Result<String, String>)
    ensures
        outcome_view(result) == table_outcome(table(intake_header(), intake_rows(intakes@))),
{
    let mut header: Vec<String> = Vec::new();
    header.push(title("Date"));
    header.push(title("Amount (kcal)"));
    header.push(title("Category"));
    header.push(title("Description"));
    assert(cells_view(header@) =~= intake_header());
    let mut rows: Vec<Vec<String>> = Vec::new();
    let mut i: usize = 0;
    while i < intakes.len()
        invariant
            i <= intakes.len(),
            header.len() == 4,
            rows.len() == i,
            forall|k: int| 0 <= k < rows.len() ==> (#[trigger] rows[k]).len() == 4,
            rows_view(rows@) =~= intake_rows(intakes@.take(i as int)),
        decreases intakes.len() - i,
    {
        let entry = &intakes[i];
        let mut cells: Vec<String> = Vec::new();
        cells.push(entry.added.clone());
        cells.push(signed_text(entry.amount));
        cells.push(entry.category.clone());
        cells.push(optional_cell(&entry.description));
        assert(cells_view(cells@) =~= intake_cells(*entry));
        let ghost before = rows_view(rows@);
        rows.push(cells);
        assert(rows_view(rows@) =~= before.push(intake_cells(*entry)));
        assert(intakes@.take(i + 1) =~= intakes@.take(i as int).push(*entry));
        i = i + 1;
    }
    assert(intakes@.take(intakes.len() as int) =~= intakes@);
    write_table(&header, &rows)
}

/// The table of weight entries as comma-separated text.
pub fn create_weight_tracker_csv(entries: &Vec<WeightTracker>) -> (result: Result<String, String>)
    ensures
        outcome_view(result) == table_outcome(table(weight_tracker_header(), weight_tracker_rows(entries@))),
{
    let mut header: Vec<String> = Vec::new();
    header.push(title("Date"));
    header.push(title("Weight (kg)"));
    assert(cells_view(header@) =~= weight_tracker_header());
    let mut rows: Vec<Vec<String>> = Vec::new();
    let mut i: usize = 0;
    while i < entries.len()
        invariant
            i <= entries.len(),
            header.len() == 2,
            rows.len() == i,
            forall|k: int| 0 <= k < rows.len() ==> (#[trigger] rows[k]).len() == 2,
            rows_view(rows@) =~= weight_tracker_rows(entries@.take(i as int)),
        decreases entries.len() - i,
    {
        let entry = &entries[i];
        let mut cells: Vec<String> = Vec::new();
        cells.push(entry.added.clone());
        cells.push(format_weight(entry.amount));
        assert(cells_view(cells@) =~= weight_tracker_cells(*entry));
        let ghost before = rows_view(rows@);
        rows.push(cells);
        assert(rows_view(rows@) =~= before.push(weight_tracker_cells(*entry)));
        assert(entries@.take(i + 1) =~= entries@.take(i as int).push(*entry));
        i = i + 1;
    }
    assert(entries@.take(entries.len() as int) =~= entries@);
    write_table(&header, &rows)
}

/// The table of intake targets as comma-separated text.
pub fn create_intake_target_csv(targets: &Vec<IntakeTarget>) -> (result: Result<String, String>)
    ensures
        outcome_view(result) == table_outcome(table(intake_target_header(), intake_target_rows(targets@))),
{
    let mut header: Vec<String> = Vec::new();
    header.push(title("Created"));
    header.push(title("Start Date"));
    header.push(title("End Date"));
    header.push(title("Target Calories"));
    header.push(title("Maximum Calories"));
    assert(cells_view(header@) =~= intake_target_header());
    let mut rows: Vec<Vec<String>> = Vec::new();
    let mut i: usize = 0;
    while i < targets.len()
        invariant
            i <= targets.len(),
            header.len() == 5,
            rows.len() == i,
            forall|k: int| 0 <= k < rows.len() ==> (#[trigger] rows[k]).len() == 5,
            rows_view(rows@) =~= intake_target_rows(targets@.take(i as int)),
        decreases targets.len() - i,
    {
        let target = &targets[i];
        let mut cells: Vec<String> = Vec::new();
        cells.push(target.added.clone());
        cells.push(target.start_date.clone());
        cells.push(target.end_date.clone());
        cells.push(signed_text(target.target_calories));
        cells.push(signed_text(target.maximum_calories));
        assert(cells_view(cells@) =~= intake_target_cells(*target));
        let ghost before = rows_view(rows@);
        rows.push(cells);
        assert(rows_view(rows@) =~= before.push(intake_target_cells(*target)));
        assert(targets@.take(i + 1) =~= targets@.take(i as int).push(*target));
        i = i + 1;
    }
    assert(targets@.take(targets.len() as int) =~= targets@);
    write_table(&header, &rows)
}

/// The table of weight targets as comma-separated text.
pub fn create_weight_target_csv(targets: &Vec<WeightTarget>) -> (result: Result<String, String>)
    ensures
        outcome_view(result) == table_outcome(table(weight_target_header(), weight_target_rows(targets@))),
{
    let mut header: Vec<String> = Vec::new();
    header.push(title("Created"));
    header.push(title("Start Date"));
    header.push(title("End Date"));
    header.push(title("Initial Weight (kg)"));
    header.push(title("Target Weight (kg)"));
    assert(cells_view(header@) =~= weight_target_header());
    let mut rows: Vec<Vec<String>> = Vec::new();
    let mut i: usize = 0;
    while i < targets.len()
        invariant
            i <= targets.len(),
            header.len() == 5,
            rows.len() == i,
            forall|k: int| 0 <= k < rows.len() ==> (#[trigger] rows[k]).len() == 5,
            rows_view(rows@) =~= weight_target_rows(targets@.take(i as int)),
        decreases targets.len() - i,
    {
        let target = &targets[i];
        let mut cells: Vec<String> = Vec::new();
        cells.push(target.added.clone());
        cells.push(target.start_date.clone());
        cells.push(target.end_date.clone());
        cells.push(format_weight(target.initial_weight));
        cells.push(format_weight(target.target_weight));
        assert(cells_view(cells@) =~= weight_target_cells(*target));
        let ghost before = rows_view(rows@);
        rows.push(cells);
        assert(rows_view(rows@) =~= before.push(weight_target_cells(*target)));
        assert(targets@.take(i + 1) =~= targets@.take(i as int).push(*target));
        i = i + 1;
    }
    assert(targets@.take(targets.len() as int) =~= targets@);
    write_table(&header, &rows)
}

/// The table of food categories as comma-separated text.
pub fn create_food_category_csv(categories: &Vec<FoodCategory>) -> (result: Result<String, String>)
    ensures
        outcome_view(result) == table_outcome(table(food_category_header(), food_category_rows(categories@))),
{
    let mut header: Vec<String> = Vec::new();
    header.push(title("Code"));
    header.push(title("Name"));
    assert(cells_view(header@) =~= food_category_header());
    let mut rows: Vec<Vec<String>> = Vec::new();
    let mut i: usize = 0;
    while i < categories.len()
        invariant
            i <= categories.len(),
            header.len() == 2,
            rows.len() == i,
            forall|k: int| 0 <= k < rows.len() ==> (#[trigger] rows[k]).len() == 2,
            rows_view(rows@) =~= food_category_rows(categories@.take(i as int)),
        decreases categories.len() - i,
    {
        let category = &categories[i];
        let mut cells: Vec<String> = Vec::new();
        cells.push(category.shortvalue.clone());
        cells.push(category.longvalue.clone());
        assert(cells_view(cells@) =~= food_category_cells(*category));
        let ghost before = rows_view(rows@);
        rows.push(cells);
        assert(rows_view(rows@) =~= before.push(food_category_cells(*category)));
        assert(categories@.take(i + 1) =~= categories@.take(i as int).push(*category));
        i = i + 1;
    }
    assert(categories@.take(categories.len() as int) =~= categories@);
    write_table(&header, &rows)
}

// ============================================================================
// THE SESSION
// ============================================================================

/// The kinds of records that an export writes, in the order of their files.
#[derive(Clone, Copy, Debug, PartialEq, Eq, Structural)]
pub enum ExportKind {
    CalorieEntries,
    WeightHistory,
    CalorieTargets,
    WeightTargets,
    FoodCategories,
}

/// Where a tabular export stands: which outcome its next step expects.
#[derive(Clone, Copy, Debug, PartialEq, Eq, Structural)]
pub enum CsvPhase {
    /// Nothing has happened yet.
    Start,
    /// Waiting for the store handle.
    Connecting,
    /// Waiting for the number of records of a kind.
    Counting,
    /// Waiting for the records of a kind.
    Loading,
    /// The archive is about to be closed.
    Sealing,
    /// The export has handed out its result.
    Finished,
}

/// The outcome of a command.
pub enum CsvReply {
    /// The command succeeded and has nothing to tell.
    Done,
    /// The number of records of the kind asked for.
    Count(usize),
    /// The intake entries of the store.
    Intakes(Vec<Intake>),
    /// The weight entries of the store.
    WeightEntries(Vec<WeightTracker>),
    /// The intake targets of the store.
    IntakeTargets(Vec<IntakeTarget>),
    /// The weight targets of the store.
    WeightTargets(Vec<WeightTarget>),
    /// The food categories of the store.
    FoodCategories(Vec<FoodCategory>),
    /// The command failed, with the reason.
    Failed(String),
}

/// What a [`CsvReply`] holds, as mathematical values: the records of a kind
/// stand as the records of their table. What a table does not show of a
/// record, its `id` and the `time` of a weight entry, is left out.
pub enum CsvReplyView {
    Done,
    Count(usize),
    Rows(ExportKind, Seq<Seq<Seq<char>>>),
    Failed(Seq<char>),
}

impl View for CsvReply {
    type V = CsvReplyView;

    open spec fn view(&self) -> CsvReplyView {
        match self {
            CsvReply::Done => CsvReplyView::Done,
            CsvReply::Count(n) => CsvReplyView::Count(*n),
            CsvReply::Intakes(rows) => CsvReplyView::Rows(
                ExportKind::CalorieEntries,
                table(intake_header(), intake_rows(rows@)),
            ),
            CsvReply::WeightEntries(rows) => CsvReplyView::Rows(
                ExportKind::WeightHistory,
                table(weight_tracker_header(), weight_tracker_rows(rows@)),
            ),
            CsvReply::IntakeTargets(rows) => CsvReplyView::Rows(
                ExportKind::CalorieTargets,
                table(intake_target_header(), intake_target_rows(rows@)),
            ),
            CsvReply::WeightTargets(rows) => CsvReplyView::Rows(
                ExportKind::WeightTargets,
                table(weight_target_header(), weight_target_rows(rows@)),
            ),
            CsvReply::FoodCategories(rows) => CsvReplyView::Rows(
                ExportKind::FoodCategories,
                table(food_category_header(), food_category_rows(rows@)),
            ),
            CsvReply::Failed(reason) => CsvReplyView::Failed(reason@),
        }
    }
}

/// What the caller has to do before the next step.
pub enum CsvCommand {
    /// Obtain a handle on the store.
    Connect,
    /// Count the records of this kind.
    CountRows(ExportKind),
    /// Load all records of this kind.
    LoadRows(ExportKind),
    /// Nothing but to deliver the events and to come back.
    Continue,
    /// Return this result: the export is over.
    Finish(Result<ExportResult, String>),
}

/// What a [`CsvCommand`] holds, as mathematical values.
pub enum CsvCommandView {
    Connect,
    CountRows(ExportKind),
    LoadRows(ExportKind),
    Continue,
    Finish(Result<ExportResultView, Seq<char>>),
}

impl View for CsvCommand {
    type V = CsvCommandView;

    open spec fn view(&self) -> CsvCommandView {
        match self {
            CsvCommand::Connect => CsvCommandView::Connect,
            CsvCommand::CountRows(kind) => CsvCommandView::CountRows(*kind),
            CsvCommand::LoadRows(kind) => CsvCommandView::LoadRows(*kind),
            CsvCommand::Continue => CsvCommandView::Continue,
            CsvCommand::Finish(Ok(result)) => CsvCommandView::Finish(Ok(result@)),
            CsvCommand::Finish(Err(message)) => CsvCommandView::Finish(Err(message@)),
        }
    }
}

/// What one step hands to the caller: the events to deliver, in order, and the
/// command to perform.
pub struct CsvTurn {
    pub progress: Vec<ExportProgress>,
    pub command: CsvCommand,
}

/// What a [`CsvTurn`] holds, as mathematical values.
pub struct CsvTurnView {
    pub progress: Seq<ExportProgressView>,
    pub command: CsvCommandView,
}

impl View for CsvTurn {
    type V = CsvTurnView;

    open spec fn view(&self) -> CsvTurnView {
        CsvTurnView { progress: progress_views(self.progress@), command: self.command@ }
    }
}

/// A tabular export in progress.
pub struct CsvExport {
    phase: CsvPhase,
    kind: ExportKind,
    total_records: usize,
    processed: usize,
    archive: Archive,
}

/// What a [`CsvExport`] holds, as mathematical values.
pub struct CsvExportView {
    pub phase: CsvPhase,
    /// The kind whose records are counted or loaded.
    pub kind: ExportKind,
    /// How many records the store reported in all. Advisory only.
    pub total_records: usize,
    /// How many records have been written.
    pub processed: usize,
    /// The files of the archive so far: the name and the content of each.
    pub files: Seq<(Seq<char>, Seq<u8>)>,
}

impl View for CsvExport {
    type V = CsvExportView;

    closed spec fn view(&self) -> CsvExportView {
        CsvExportView {
            phase: self.phase,
            kind: self.kind,
            total_records: self.total_records,
            processed: self.processed,
            files: entries(self.archive),
        }
    }
}

// ============================================================================
// THE MODEL
// ============================================================================

/// A tabular export before its first step.
pub open spec fn csv_export_start() -> CsvExportView {
    CsvExportView {
        phase: CsvPhase::Start,
        kind: ExportKind::CalorieEntries,
        total_records: 0,
        processed: 0,
        files: Seq::empty(),
    }
}

/// The place of a kind in the order of the files.
pub open spec fn kind_index(kind: ExportKind) -> nat {
    match kind {
        ExportKind::CalorieEntries => 0,
        ExportKind::WeightHistory => 1,
        ExportKind::CalorieTargets => 2,
        ExportKind::WeightTargets => 3,
        ExportKind::FoodCategories => 4,
    }
}

/// The kind that follows a kind, the last being followed by itself.
pub open spec fn kind_after(kind: ExportKind) -> ExportKind {
    match kind {
        ExportKind::CalorieEntries => ExportKind::WeightHistory,
        ExportKind::WeightHistory => ExportKind::CalorieTargets,
        ExportKind::CalorieTargets => ExportKind::WeightTargets,
        ExportKind::WeightTargets => ExportKind::FoodCategories,
        ExportKind::FoodCategories => ExportKind::FoodCategories,
    }
}

/// The name of the file of a kind.
pub open spec fn file_name(kind: ExportKind) -> Seq<char> {
    match kind {
        ExportKind::CalorieEntries => "calorie_entries.csv"@,
        ExportKind::WeightHistory => "weight_history.csv"@,
        ExportKind::CalorieTargets => "calorie_targets.csv"@,
        ExportKind::WeightTargets => "weight_targets.csv"@,
        ExportKind::FoodCategories => "food_categories.csv"@,
    }
}

/// The message that announces a kind.
pub open spec fn announcement(kind: ExportKind) -> Seq<char> {
    match kind {
        ExportKind::CalorieEntries => "Exporting calorie entries..."@,
        ExportKind::WeightHistory => "Exporting weight history..."@,
        ExportKind::CalorieTargets => "Exporting calorie targets..."@,
        ExportKind::WeightTargets => "Exporting weight targets..."@,
        ExportKind::FoodCategories => "Exporting food categories..."@,
    }
}

/// How the message starts when the records of a kind could not be loaded.
pub open spec fn load_failure(kind: ExportKind) -> Seq<char> {
    match kind {
        ExportKind::CalorieEntries => "Failed to load intake: "@,
        ExportKind::WeightHistory => "Failed to load weight tracker: "@,
        ExportKind::CalorieTargets => "Failed to load intake targets: "@,
        ExportKind::WeightTargets => "Failed to load weight targets: "@,
        ExportKind::FoodCategories => "Failed to load food categories: "@,
    }
}

/// The percentage at which a kind is announced, in hundredths: the kinds
/// share the span from 15 to 90 percent evenly.
pub open spec fn announced_at(kind: ExportKind) -> nat {
    1500 + 1500 * kind_index(kind)
}

/// What a failed command said, or that the outcome was of the wrong kind.
pub open spec fn reply_detail(reply: CsvReplyView) -> Seq<char> {
    match reply {
        CsvReplyView::Failed(reason) => reason,
        _ => "unexpected reply"@,
    }
}

/// The sum of two counts, or the largest count where the sum is beyond it.
pub open spec fn capped_sum(a: usize, b: nat) -> usize {
    if a + b > usize::MAX {
        usize::MAX
    } else {
        (a + b) as usize
    }
}

/// The message that tells how many records were found.
pub open spec fn found_message(total: nat) -> Seq<char> {
    "Found "@ + decimal(total) + " records to export"@
}

/// The message of a completed export.
pub open spec fn complete_message(size: nat, total: nat) -> Seq<char> {
    "Export complete ("@ + format_bytes_text(size) + ", "@ + decimal(total) + " records)"@
}

/// The file name suggested for a tabular export made on the day `stamp`.
pub open spec fn csv_file_name(stamp: Seq<char>) -> Seq<char> {
    "librefit_export_"@ + stamp + ".zip"@
}

/// No events.
pub open spec fn nothing() -> Seq<ExportProgressView> {
    Seq::empty()
}

/// The step that moves to `phase`, reports `progress` and hands out `command`.
pub open spec fn go(
    s: CsvExportView,
    phase: CsvPhase,
    progress: Seq<ExportProgressView>,
    command: CsvCommandView,
) -> (CsvExportView, CsvTurnView) {
    (CsvExportView { phase, ..s }, CsvTurnView { progress, command })
}

/// The step that ends the export without a result: the archive is given up,
/// and the failure is reported after the events `before`.
pub open spec fn interrupt(s: CsvExportView, before: Seq<ExportProgressView>, message: Seq<char>) -> (
    CsvExportView,
    CsvTurnView,
) {
    go(
        CsvExportView { files: Seq::empty(), ..s },
        CsvPhase::Finished,
        before.push(event(ExportStage::Error, 0, message, None, None)),
        CsvCommandView::Finish(Err(message)),
    )
}

/// The step after the attempt to connect.
pub open spec fn connected(s: CsvExportView, reply: CsvReplyView) -> (CsvExportView, CsvTurnView) {
    match reply {
        CsvReplyView::Done => go(
            CsvExportView { kind: ExportKind::CalorieEntries, total_records: 0, ..s },
            CsvPhase::Counting,
            nothing().push(
                event(ExportStage::Initializing, 500, "Connected to database"@, None, None),
            ).push(event(ExportStage::AnalyzingDatabase, 500, "Counting records..."@, None, None)),
            CsvCommandView::CountRows(ExportKind::CalorieEntries),
        ),
        _ => interrupt(s, nothing(), "Failed to get database connection: "@ + reply_detail(reply)),
    }
}

/// The step after the records of a kind were counted. A count that failed
/// counts as nothing. Food categories are not counted: after the weight
/// targets the archive is opened and the first kind is asked for.
pub open spec fn counted(s: CsvExportView, reply: CsvReplyView) -> (CsvExportView, CsvTurnView) {
    let total = capped_sum(
        s.total_records,
        match reply {
            CsvReplyView::Count(n) => n as nat,
            _ => 0,
        },
    );
    if kind_index(s.kind) < 3 {
        go(
            CsvExportView { kind: kind_after(s.kind), total_records: total, ..s },
            CsvPhase::Counting,
            nothing(),
            CsvCommandView::CountRows(kind_after(s.kind)),
        )
    } else {
        go(
            CsvExportView {
                kind: ExportKind::CalorieEntries,
                total_records: total,
                processed: 0,
                files: Seq::empty(),
                ..s
            },
            CsvPhase::Loading,
            nothing().push(
                event(
                    ExportStage::AnalyzingDatabase,
                    1000,
                    found_message(total as nat),
                    None,
                    None,
                ),
            ).push(
                event(ExportStage::CreatingBackup, 1000, "Creating CSV files..."@, None, None),
            ).push(
                event(
                    ExportStage::CreatingBackup,
                    1500,
                    announcement(ExportKind::CalorieEntries),
                    Some(0),
                    Some(total),
                ),
            ),
            CsvCommandView::LoadRows(ExportKind::CalorieEntries),
        )
    }
}

/// The message of a file that the archive did not start.
pub open spec fn create_failure(name: Seq<char>, detail: Seq<char>) -> Seq<char> {
    "Failed to create "@ + name + ": "@ + detail
}

/// The message of a file that the archive did not take the content of.
pub open spec fn write_failure(name: Seq<char>, detail: Seq<char>) -> Seq<char> {
    "Failed to write "@ + name + ": "@ + detail
}

/// What the writing of a file into the archive comes to: the files of the
/// archive with the file `name` of the content `bytes` as the last, exactly
/// when the archive takes the start of the file and then its bytes; and else
/// the message of the call that it refused.
pub open spec fn file_outcome(files: Seq<(Seq<char>, Seq<u8>)>, name: Seq<char>, bytes: Seq<u8>) -> Result<
    Seq<(Seq<char>, Seq<u8>)>,
    Seq<char>,
> {
    match start_answer(files, name) {
        Err(error) => Err(create_failure(name, zip_error_text(error))),
        Ok(_) => match write_answer(files.push((name, Seq::empty())), bytes) {
            Err(error) => Err(write_failure(name, zip_error_text(error))),
            Ok(_) => Ok(files.push((name, bytes))),
        },
    }
}

/// The message of an archive that did not close.
pub open spec fn seal_failure(detail: Seq<char>) -> Seq<char> {
    "Failed to finalize ZIP: "@ + detail
}

/// What the filing of the table `records` of the kind that is being loaded
/// comes to: the files of the archive with the table as the last, or the
/// message of the failure. The table is filed exactly when the writer closes
/// over valid UTF-8 and the archive takes the file.
pub open spec fn filing_outcome(s: CsvExportView, records: Seq<Seq<Seq<char>>>) -> Result<
    Seq<(Seq<char>, Seq<u8>)>,
    Seq<char>,
> {
    match table_outcome(records) {
        Err(message) => Err(message),
        Ok(_) => file_outcome(s.files, file_name(s.kind), csv_document(records)),
    }
}

/// The step after the records of a kind were loaded. Their table is written
/// into the archive under the name of the kind; then the next kind is asked
/// for, or, after the last, the closing of the archive is announced. A
/// failure of the writing ends the export with its message.
pub open spec fn loaded(s: CsvExportView, reply: CsvReplyView) -> (CsvExportView, CsvTurnView) {
    match reply {
        CsvReplyView::Rows(kind, records) => if kind != s.kind {
            interrupt(s, nothing(), load_failure(s.kind) + "unexpected reply"@)
        } else {
            match filing_outcome(s, records) {
                Err(message) => interrupt(s, nothing(), message),
                Ok(files) => {
                    if kind == ExportKind::FoodCategories {
                        go(
                            CsvExportView { files, ..s },
                            CsvPhase::Sealing,
                            nothing().push(
                                event(
                                    ExportStage::Finalizing,
                                    9000,
                                    "Finalizing archive..."@,
                                    Some(s.processed),
                                    Some(s.total_records),
                                ),
                            ),
                            CsvCommandView::Continue,
                        )
                    } else {
                        let processed = capped_sum(s.processed, (records.len() - 1) as nat);
                        go(
                            CsvExportView { files, processed, kind: kind_after(kind), ..s },
                            CsvPhase::Loading,
                            nothing().push(
                                event(
                                    ExportStage::CreatingBackup,
                                    announced_at(kind_after(kind)),
                                    announcement(kind_after(kind)),
                                    Some(processed),
                                    Some(s.total_records),
                                ),
                            ),
                            CsvCommandView::LoadRows(kind_after(kind)),
                        )
                    }
                },
            }
        },
        _ => interrupt(s, nothing(), load_failure(s.kind) + reply_detail(reply)),
    }
}

/// The step that closes the archive: where the archive closes, the export
/// completes with its bytes, and else it ends with the message of the
/// failure.
pub open spec fn sealed(s: CsvExportView, bytes: Seq<u8>, stamp: Seq<char>) -> (
    CsvExportView,
    CsvTurnView,
) {
    match finish_answer(s.files) {
        Err(error) => interrupt(s, nothing(), seal_failure(zip_error_text(error))),
        Ok(_) => go(
            CsvExportView { files: Seq::empty(), ..s },
            CsvPhase::Finished,
            nothing().push(
                event(
                    ExportStage::Complete,
                    10_000,
                    complete_message(bytes.len(), s.total_records as nat),
                    Some(bytes.len() as usize),
                    Some(bytes.len() as usize),
                ),
            ),
            CsvCommandView::Finish(
                Ok(ExportResultView { bytes, file_path: csv_file_name(stamp) }),
            ),
        ),
    }
}

/// One step of a tabular export: from the state `s` and the outcome `reply`
/// of the last command to the next state and what the caller is handed.
///
/// Whether a table is filed and whether the archive closes is told by the
/// names of what the `csv` and the `zip` crate answer. Two things are not
/// decided by the state and the outcome: the bytes of the closed archive
/// (`bytes`), of which a step only knows that they are an archive of the
/// files, and the day on which the export completes (`stamp`).
pub open spec fn csv_export_step(
    s: CsvExportView,
    reply: CsvReplyView,
    bytes: Seq<u8>,
    stamp: Seq<char>,
) -> (CsvExportView, CsvTurnView) {
    match s.phase {
        CsvPhase::Start => go(
            s,
            CsvPhase::Connecting,
            nothing().push(
                event(ExportStage::Initializing, 0, "Starting CSV export..."@, None, None),
            ),
            CsvCommandView::Connect,
        ),
        CsvPhase::Connecting => connected(s, reply),
        CsvPhase::Counting => counted(s, reply),
        CsvPhase::Loading => loaded(s, reply),
        CsvPhase::Sealing => sealed(s, bytes, stamp),
        CsvPhase::Finished => go(
            s,
            CsvPhase::Finished,
            nothing(),
            CsvCommandView::Finish(Err("Export already finished"@)),
        ),
    }
}

// ============================================================================
// THE ENGINE
// ============================================================================

fn next_kind(kind: ExportKind) -> (next: ExportKind)
    ensures
        next == kind_after(kind),
{
    match kind {
        ExportKind::CalorieEntries => ExportKind::WeightHistory,
        ExportKind::WeightHistory => ExportKind::CalorieTargets,
        ExportKind::CalorieTargets => ExportKind::WeightTargets,
        ExportKind::WeightTargets => ExportKind::FoodCategories,
        ExportKind::FoodCategories => ExportKind::FoodCategories,
    }
}

fn file_name_of(kind: ExportKind) -> (name: &'static str)
    ensures
        name@ == file_name(kind),
        name@.len() <= 255,
{
    proof {
        reveal_strlit("calorie_entries.csv");
        reveal_strlit("weight_history.csv");
        reveal_strlit("calorie_targets.csv");
        reveal_strlit("weight_targets.csv");
        reveal_strlit("food_categories.csv");
    }
    match kind {
        ExportKind::CalorieEntries => "calorie_entries.csv",
        ExportKind::WeightHistory => "weight_history.csv",
        ExportKind::CalorieTargets => "calorie_targets.csv",
        ExportKind::WeightTargets => "weight_targets.csv",
        ExportKind::FoodCategories => "food_categories.csv",
    }
}

fn announcement_of(kind: ExportKind) -> (message: &'static str)
    ensures
        message@ == announcement(kind),
{
    match kind {
        ExportKind::CalorieEntries => "Exporting calorie entries...",
        ExportKind::WeightHistory => "Exporting weight history...",
        ExportKind::CalorieTargets => "Exporting calorie targets...",
        ExportKind::WeightTargets => "Exporting weight targets...",
        ExportKind::FoodCategories => "Exporting food categories...",
    }
}

fn load_failure_of(kind: ExportKind) -> (message: &'static str)
    ensures
        message@ == load_failure(kind),
{
    match kind {
        ExportKind::CalorieEntries => "Failed to load intake: ",
        ExportKind::WeightHistory => "Failed to load weight tracker: ",
        ExportKind::CalorieTargets => "Failed to load intake targets: ",
        ExportKind::WeightTargets => "Failed to load weight targets: ",
        ExportKind::FoodCategories => "Failed to load food categories: ",
    }
}

fn announced_percent(kind: ExportKind) -> (percent: Percent)
    ensures
        percent.hundredths == announced_at(kind),
{
    match kind {
        ExportKind::CalorieEntries => Percent::whole(15),
        ExportKind::WeightHistory => Percent::whole(30),
        ExportKind::CalorieTargets => Percent::whole(45),
        ExportKind::WeightTargets => Percent::whole(60),
        ExportKind::FoodCategories => Percent::whole(75),
    }
}

fn add_capped(a: usize, b: usize) -> (sum: usize)
    ensures
        sum == capped_sum(a, b as nat),
{
    if b > usize::MAX - a {
        usize::MAX
    } else {
        a + b
    }
}

fn failure_message(prefix: &str, reply: &CsvReply) -> (message: String)
    ensures
        message@ == prefix@ + reply_detail(reply@),
{
    let mut message = String::from_str(prefix);
    match reply {
        CsvReply::Failed(reason) => message.append(reason.as_str()),
        _ => message.append("unexpected reply"),
    }
    message
}

/// What becomes of an answer of the archive about the file `name`: the
/// archive as it is handed back, or the message that starts with `prefix` and
/// ends with the text of the error.
fn archive_answer(answer: Result<Archive, ::zip::result::ZipError>, prefix: &str, name: &str) -> (result:
    Result<Archive, String>)
    ensures
        match answer {
            Ok(archive) => result matches Ok(same) && same == archive,
            Err(error) => result matches Err(message) && message@ == prefix@ + name@ + ": "@
                + zip_error_text(error),
        },
{
    match answer {
        Ok(archive) => Ok(archive),
        Err(error) => {
            let mut message = String::from_str(prefix);
            message.append(name);
            message.append(": ");
            message.append(zip_error_message(&error).as_str());
            Err(message)
        },
    }
}

/// Writes `text` into `archive` as the file `name`: [`file_outcome`] tells
/// what comes of it.
fn store_file(archive: Archive, name: &str, text: &str) -> (result: Result<Archive, String>)
    requires
        name@.len() <= 255,
    ensures
        match result {
            Ok(next) => file_outcome(entries(archive), name@, text.spec_bytes()) == Ok::<
                Seq<(Seq<char>, Seq<u8>)>,
                Seq<char>,
            >(entries(next)),
            Err(message) => file_outcome(entries(archive), name@, text.spec_bytes()) == Err::<
                Seq<(Seq<char>, Seq<u8>)>,
                Seq<char>,
            >(message@),
        },
{
    let ghost before = entries(archive);
    let started = match archive_answer(start_file(archive, name), "Failed to create ", name) {
        Ok(started) => started,
        Err(message) => {
            return Err(message);
        },
    };
    match archive_answer(write_file(started, text.as_bytes()), "Failed to write ", name) {
        Ok(next) => {
            assert(entries(started).drop_last() =~= before);
            assert(Seq::<u8>::empty() + text.spec_bytes() =~= text.spec_bytes());
            Ok(next)
        },
        Err(message) => Err(message),
    }
}

impl CsvExport {
    /// A tabular export before its first step.
    pub fn new() -> (export: CsvExport)
        ensures
            export@ == csv_export_start(),
    {
        CsvExport {
            phase: CsvPhase::Start,
            kind: ExportKind::CalorieEntries,
            total_records: 0,
            processed: 0,
            archive: new_archive(),
        }
    }

    /// Where the export stands.
    pub fn phase(&self) -> (phase: CsvPhase)
        ensures
            phase == self@.phase,
    {
        self.phase
    }

    /// Whether the export has handed out its result.
    pub fn is_finished(&self) -> (finished: bool)
        ensures
            finished == (self@.phase == CsvPhase::Finished),
    {
        match self.phase {
            CsvPhase::Finished => true,
            _ => false,
        }
    }

    fn go(&mut self, phase: CsvPhase, progress: Vec<ExportProgress>, command: CsvCommand) -> (turn:
        CsvTurn)
        ensures
            (final(self)@, turn@) == go(old(self)@, phase, progress_views(progress@), command@),
    {
        self.phase = phase;
        CsvTurn { progress, command }
    }

    fn interrupt(&mut self, before: Vec<ExportProgress>, message: String) -> (turn: CsvTurn)
        ensures
            (final(self)@, turn@) == interrupt(old(self)@, progress_views(before@), message@),
    {
        let mut progress = before;
        send_progress(
            &mut progress,
            ExportStage::Error,
            Percent::whole(0),
            message.as_str(),
            None,
            None,
        );
        self.archive = new_archive();
        self.go(CsvPhase::Finished, progress, CsvCommand::Finish(Err(message)))
    }

    fn connected(&mut self, reply: CsvReply) -> (turn: CsvTurn)
        ensures
            (final(self)@, turn@) == connected(old(self)@, reply@),
    {
        match reply {
            CsvReply::Done => {
                let mut progress = new_outbox();
                send_progress(
                    &mut progress,
                    ExportStage::Initializing,
                    Percent::whole(5),
                    "Connected to database",
                    None,
                    None,
                );
                send_progress(
                    &mut progress,
                    ExportStage::AnalyzingDatabase,
                    Percent::whole(5),
                    "Counting records...",
                    None,
                    None,
                );
                self.kind = ExportKind::CalorieEntries;
                self.total_records = 0;
                self.go(
                    CsvPhase::Counting,
                    progress,
                    CsvCommand::CountRows(ExportKind::CalorieEntries),
                )
            },
            _ => {
                let message = failure_message("Failed to get database connection: ", &reply);
                self.interrupt(new_outbox(), message)
            },
        }
    }

    fn counted(&mut self, reply: CsvReply) -> (turn: CsvTurn)
        ensures
            (final(self)@, turn@) == counted(old(self)@, reply@),
    {
        let count = match reply {
            CsvReply::Count(n) => n,
            _ => 0,
        };
        let total = add_capped(self.total_records, count);
        self.total_records = total;
        let counting_on = match self.kind {
            ExportKind::CalorieEntries | ExportKind::WeightHistory | ExportKind::CalorieTargets => true,
            _ => false,
        };
        if counting_on {
            let kind = next_kind(self.kind);
            self.kind = kind;
            return self.go(CsvPhase::Counting, new_outbox(), CsvCommand::CountRows(kind));
        }
        let mut message = String::from_str("Found ");
        push_decimal(&mut message, total as u128);
        message.append(" records to export");
        let mut progress = new_outbox();
        send_progress(
            &mut progress,
            ExportStage::AnalyzingDatabase,
            Percent::whole(10),
            message.as_str(),
            None,
            None,
        );
        send_progress(
            &mut progress,
            ExportStage::CreatingBackup,
            Percent::whole(10),
            "Creating CSV files...",
            None,
            None,
        );
        send_progress(
            &mut progress,
            ExportStage::CreatingBackup,
            announced_percent(ExportKind::CalorieEntries),
            announcement_of(ExportKind::CalorieEntries),
            Some(0),
            Some(total),
        );
        self.kind = ExportKind::CalorieEntries;
        self.processed = 0;
        self.archive = new_archive();
        self.go(CsvPhase::Loading, progress, CsvCommand::LoadRows(ExportKind::CalorieEntries))
    }

    /// Takes the archive out of the session and leaves an empty one in its
    /// place.
    fn take_archive(&mut self) -> (archive: Archive)
        ensures
            entries(archive) == old(self)@.files,
            final(self)@ == (CsvExportView { files: Seq::empty(), ..old(self)@ }),
    {
        let mut archive = new_archive();
        std::mem::swap(&mut self.archive, &mut archive);
        archive
    }

    /// Files the table of the kind that is being loaded, which `written` is
    /// the writing of, in the archive and moves on: to the next kind, or to
    /// the closing of the archive.
    fn filed(&mut self, written: Result<String, String>, rows: usize, Ghost(records): Ghost<
        Seq<Seq<Seq<char>>>,
    >) -> (turn: CsvTurn)
        requires
            old(self)@.phase == CsvPhase::Loading,
            outcome_view(written) == table_outcome(records),
            rows == records.len() - 1,
        ensures
            (final(self)@, turn@) == loaded(
                old(self)@,
                CsvReplyView::Rows(old(self)@.kind, records),
            ),
    {
        let ghost before = self@;
        let kind = self.kind;
        let text = match written {
            Ok(text) => text,
            Err(message) => {
                return self.interrupt(new_outbox(), message);
            },
        };
        proof {
            decode_utf8_encode_utf8(csv_document(records));
            assert(encode_utf8(text@) == csv_document(records));
        }
        let archive = self.take_archive();
        let archive = match store_file(archive, file_name_of(kind), text.as_str()) {
            Ok(archive) => archive,
            Err(message) => {
                let turn = self.interrupt(new_outbox(), message);
                assert(self@ == interrupt(before, nothing(), message@).0);
                return turn;
            },
        };
        self.archive = archive;
        match kind {
            ExportKind::FoodCategories => {
                let mut progress = new_outbox();
                send_progress(
                    &mut progress,
                    ExportStage::Finalizing,
                    Percent::whole(90),
                    "Finalizing archive...",
                    Some(self.processed),
                    Some(self.total_records),
                );
                self.go(CsvPhase::Sealing, progress, CsvCommand::Continue)
            },
            _ => {
                let processed = add_capped(self.processed, rows);
                let next = next_kind(kind);
                self.processed = processed;
                self.kind = next;
                let mut progress = new_outbox();
                send_progress(
                    &mut progress,
                    ExportStage::CreatingBackup,
                    announced_percent(next),
                    announcement_of(next),
                    Some(processed),
                    Some(self.total_records),
                );
                self.go(CsvPhase::Loading, progress, CsvCommand::LoadRows(next))
            },
        }
    }

    fn refused(&mut self, reply: &CsvReply) -> (turn: CsvTurn)
        requires
            old(self)@.phase == CsvPhase::Loading,
            match reply@ {
                CsvReplyView::Rows(kind, _) => kind != old(self)@.kind,
                _ => true,
            },
        ensures
            (final(self)@, turn@) == loaded(old(self)@, reply@),
    {
        let message = match reply {
            CsvReply::Done | CsvReply::Count(_) | CsvReply::Failed(_) => failure_message(
                load_failure_of(self.kind),
                reply,
            ),
            _ => {
                let mut message = String::from_str(load_failure_of(self.kind));
                message.append("unexpected reply");
                message
            },
        };
        self.interrupt(new_outbox(), message)
    }

    fn loaded(&mut self, reply: CsvReply) -> (turn: CsvTurn)
        requires
            old(self)@.phase == CsvPhase::Loading,
        ensures
            (final(self)@, turn@) == loaded(old(self)@, reply@),
    {
        match (self.kind, &reply) {
            (ExportKind::CalorieEntries, CsvReply::Intakes(rows)) => {
                assert(intake_rows(rows@).len() == rows.len());
                self.filed(
                    create_intake_csv(rows),
                    rows.len(),
                    Ghost(table(intake_header(), intake_rows(rows@))),
                )
            },
            (ExportKind::WeightHistory, CsvReply::WeightEntries(rows)) => {
                assert(weight_tracker_rows(rows@).len() == rows.len());
                self.filed(
                    create_weight_tracker_csv(rows),
                    rows.len(),
                    Ghost(table(weight_tracker_header(), weight_tracker_rows(rows@))),
                )
            },
            (ExportKind::CalorieTargets, CsvReply::IntakeTargets(rows)) => {
                assert(intake_target_rows(rows@).len() == rows.len());
                self.filed(
                    create_intake_target_csv(rows),
                    rows.len(),
                    Ghost(table(intake_target_header(), intake_target_rows(rows@))),
                )
            },
            (ExportKind::WeightTargets, CsvReply::WeightTargets(rows)) => {
                assert(weight_target_rows(rows@).len() == rows.len());
                self.filed(
                    create_weight_target_csv(rows),
                    rows.len(),
                    Ghost(table(weight_target_header(), weight_target_rows(rows@))),
                )
            },
            (ExportKind::FoodCategories, CsvReply::FoodCategories(rows)) => {
                assert(food_category_rows(rows@).len() == rows.len());
                self.filed(
                    create_food_category_csv(rows),
                    rows.len(),
                    Ghost(table(food_category_header(), food_category_rows(rows@))),
                )
            },
            _ => self.refused(&reply),
        }
    }

    fn sealed(&mut self, stamp: &str) -> (turn: CsvTurn)
        requires
            old(self)@.phase == CsvPhase::Sealing,
        ensures
            exists|bytes: Seq<u8>|
                (final(self)@, turn@) == #[trigger] sealed(old(self)@, bytes, stamp@),
            turn.command matches CsvCommand::Finish(Ok(result)) ==> archive_of(
                result.bytes@,
                old(self)@.files,
            ),
    {
        let ghost before = self@;
        let archive = self.take_archive();
        let bytes = match finish_archive(archive) {
            Ok(bytes) => bytes,
            Err(error) => {
                let mut message = String::from_str("Failed to finalize ZIP: ");
                message.append(zip_error_message(&error).as_str());
                let turn = self.interrupt(new_outbox(), message);
                assert((self@, turn@) == sealed(before, Seq::<u8>::empty(), stamp@));
                return turn;
            },
        };
        let size = bytes.len();
        let mut message = String::from_str("Export complete (");
        message.append(format_bytes(size).as_str());
        message.append(", ");
        push_decimal(&mut message, self.total_records as u128);
        message.append(" records)");
        let mut progress = new_outbox();
        send_progress(
            &mut progress,
            ExportStage::Complete,
            Percent::whole(100),
            message.as_str(),
            Some(size),
            Some(size),
        );
        let mut file_path = String::from_str("librefit_export_");
        file_path.append(stamp);
        file_path.append(".zip");
        let ghost content = bytes@;
        let turn = self.go(
            CsvPhase::Finished,
            progress,
            CsvCommand::Finish(Ok(ExportResult { bytes, file_path })),
        );
        assert((self@, turn@) == sealed(before, content, stamp@));
        turn
    }

    /// One step of the export, with the day given by the caller.
    ///
    /// The step is the one that [`csv_export_step`] describes, for the bytes
    /// that the archive was closed to. The bytes of a result are an archive of
    /// the files that the export has written.
    pub fn advance(&mut self, reply: CsvReply, stamp: &str) -> (turn: CsvTurn)
        ensures
            exists|bytes: Seq<u8>|
                (final(self)@, turn@) == #[trigger] csv_export_step(
                    old(self)@,
                    reply@,
                    bytes,
                    stamp@,
                ),
            turn.command matches CsvCommand::Finish(Ok(result)) ==> archive_of(
                result.bytes@,
                old(self)@.files,
            ),
    {
        let ghost before = self@;
        let ghost view = reply@;
        let ghost empty = Seq::<u8>::empty();
        match self.phase {
            CsvPhase::Start => {
                let mut progress = new_outbox();
                send_progress(
                    &mut progress,
                    ExportStage::Initializing,
                    Percent::whole(0),
                    "Starting CSV export...",
                    None,
                    None,
                );
                let turn = self.go(CsvPhase::Connecting, progress, CsvCommand::Connect);
                assert((self@, turn@) == csv_export_step(before, view, empty, stamp@));
                turn
            },
            CsvPhase::Connecting => {
                let turn = self.connected(reply);
                assert((self@, turn@) == csv_export_step(before, view, empty, stamp@));
                turn
            },
            CsvPhase::Counting => {
                let turn = self.counted(reply);
                assert((self@, turn@) == csv_export_step(before, view, empty, stamp@));
                turn
            },
            CsvPhase::Loading => {
                let turn = self.loaded(reply);
                assert((self@, turn@) == csv_export_step(before, view, empty, stamp@));
                turn
            },
            CsvPhase::Sealing => {
                let turn = self.sealed(stamp);
                let ghost bytes = choose|bytes: Seq<u8>|
                    (self@, turn@) == #[trigger] sealed(before, bytes, stamp@);
                assert((self@, turn@) == csv_export_step(before, view, bytes, stamp@));
                turn
            },
            CsvPhase::Finished => {
                let turn = self.go(
                    CsvPhase::Finished,
                    new_outbox(),
                    CsvCommand::Finish(Err(String::from_str("Export already finished"))),
                );
                assert((self@, turn@) == csv_export_step(before, view, empty, stamp@));
                turn
            },
        }
    }

    /// One step of the export.
    ///
    /// Reads the clock where the export is about to complete, advances, and
    /// resets the token once the export is over. A tabular export has no
    /// checkpoints: it never polls the token.
    pub fn step(&mut self, cancellation: &ExportCancellation, reply: CsvReply) -> (turn: CsvTurn)
        ensures
            exists|bytes: Seq<u8>, stamp: Seq<char>|
                (final(self)@, turn@) == #[trigger] csv_export_step(
                    old(self)@,
                    reply@,
                    bytes,
                    stamp,
                ),
            turn.command matches CsvCommand::Finish(Ok(result)) ==> archive_of(
                result.bytes@,
                old(self)@.files,
            ),
    {
        let stamp = match self.phase {
            CsvPhase::Sealing => local_stamp("%Y-%m-%d"),
            _ => String::new(),
        };
        let turn = self.advance(reply, stamp.as_str());
        if self.is_finished() {
            cancellation.reset();
        }
        turn
    }
}

/// Export database as CSV files in a ZIP archive: the session, before its
/// first step.
pub fn export_csv() -> (export: CsvExport)
    ensures
        export@ == csv_export_start(),
{
    CsvExport::new()
}

// ============================================================================
// WHAT HOLDS OF EVERY RUN
// ============================================================================

/// The stage that an export in state `s` has reached, as a rank.
pub open spec fn level_rank(s: CsvExportView) -> nat {
    match s.phase {
        CsvPhase::Start => 0,
        CsvPhase::Connecting => 0,
        CsvPhase::Counting => 1,
        CsvPhase::Loading => 2,
        CsvPhase::Sealing => 4,
        CsvPhase::Finished => 5,
    }
}

/// The percentage that an export in state `s` has reached, in hundredths.
pub open spec fn level_percent(s: CsvExportView) -> nat {
    match s.phase {
        CsvPhase::Start => 0,
        CsvPhase::Connecting => 0,
        CsvPhase::Counting => 500,
        CsvPhase::Loading => announced_at(s.kind),
        CsvPhase::Sealing => 9000,
        CsvPhase::Finished => 10_000,
    }
}

/// One round of a run: what the caller came back with, the bytes that the
/// archive is closed to where the step closes it, and the day.
pub struct CsvInput {
    pub reply: CsvReplyView,
    pub bytes: Seq<u8>,
    pub stamp: Seq<char>,
}

/// A run so far: the state of the engine, everything reported, the command
/// handed out last, and the tables that were written into the archive.
pub struct CsvRun {
    pub state: CsvExportView,
    pub events: Seq<ExportProgressView>,
    pub command: CsvCommandView,
    /// The records of the tables written, in the order of the writing.
    pub tables: Seq<Seq<Seq<Seq<char>>>>,
}

/// Whether a step writes a table into the archive.
pub open spec fn writes_table(s: CsvExportView, input: CsvInput) -> bool {
    s.phase == CsvPhase::Loading && (match input.reply {
        CsvReplyView::Rows(kind, records) => kind == s.kind && filing_outcome(s, records) is Ok,
        _ => false,
    })
}

/// The run of a tabular export after the rounds `inputs`.
pub open spec fn csv_run(inputs: Seq<CsvInput>) -> CsvRun
    decreases inputs.len(),
{
    if inputs.len() == 0 {
        CsvRun {
            state: csv_export_start(),
            events: nothing(),
            command: CsvCommandView::Continue,
            tables: Seq::empty(),
        }
    } else {
        let before = csv_run(inputs.drop_last());
        let last = inputs.last();
        let (state, turn) = csv_export_step(
            before.state,
            last.reply,
                        last.bytes,
            last.stamp,
        );
        CsvRun {
            state,
            events: before.events + turn.progress,
            command: turn.command,
            tables: if state.phase == CsvPhase::Loading && before.state.phase
                != CsvPhase::Loading {
                Seq::empty()
            } else if writes_table(before.state, last) {
                before.tables.push(last.reply->Rows_1)
            } else {
                before.tables
            },
        }
    }
}

/// What one step reports fits the state that it starts from and the state that
/// it leads to: the events continue from the level of the first, stay within
/// the level of the second, and close the run exactly when the export
/// finishes. A finished export reports nothing more. The step finishes with a
/// result exactly when its last event is `Complete`, and with an error only
/// after an `Error` event.
pub proof fn lemma_csv_step_fits(
    s: CsvExportView,
    reply: CsvReplyView,
    bytes: Seq<u8>,
    stamp: Seq<char>,
)
    ensures
        ({
            let (next, turn) = csv_export_step(s, reply, bytes, stamp);
            let marks = marks_of(turn.progress);
            let open = s.phase != CsvPhase::Finished;
            let open_after = next.phase != CsvPhase::Finished;
            &&& open ==> continues(marks, level_rank(s), level_percent(s))
            &&& open && open_after ==> {
                &&& level_rank(s) <= level_rank(next)
                &&& level_percent(s) <= level_percent(next)
                &&& forall|i: int|
                    0 <= i < marks.len() ==> !(#[trigger] marks[i]).closing && marks[i].rank
                        <= level_rank(next) && marks[i].percent <= level_percent(next)
            }
            &&& open && !open_after ==> marks.len() > 0 && marks.last().closing
            &&& !open ==> marks.len() == 0 && !open_after
            &&& (turn.command is Finish) <==> !open_after
            &&& turn.command matches CsvCommandView::Finish(Ok(_)) ==> marks.len() > 0
                && turn.progress.last().stage == ExportStage::Complete
                && turn.progress.last().percent == 10_000 && s.phase == CsvPhase::Sealing
            &&& (open && turn.command matches CsvCommandView::Finish(Err(_))) ==> marks.len() > 0
                && marks.last().interrupted
        }),
{
    let (next, turn) = csv_export_step(s, reply, bytes, stamp);
    let marks = marks_of(turn.progress);
    assert(marks.len() == turn.progress.len());
    assert forall|i: int| 0 <= i < marks.len() implies #[trigger] marks[i] == mark_of(
        turn.progress[i],
    ) by {}
}

/// Progress is orderly in every run, whatever the store answers and whatever
/// becomes of the writing: the stages only move forward, the percentage never
/// falls except where a failure is reported, and nothing follows the event
/// that closes the run. Until the export finishes, no closing event has been
/// reported; once it has, the last event reported is a closing one.
pub proof fn lemma_csv_run_orderly(inputs: Seq<CsvInput>)
    ensures
        orderly(marks_of(csv_run(inputs).events)),
        csv_run(inputs).state.phase != CsvPhase::Finished ==> reaches(
            marks_of(csv_run(inputs).events),
            level_rank(csv_run(inputs).state),
            level_percent(csv_run(inputs).state),
        ),
        csv_run(inputs).state.phase == CsvPhase::Finished ==> closed(
            marks_of(csv_run(inputs).events),
        ),
    decreases inputs.len(),
{
    if inputs.len() == 0 {
        assert(marks_of(csv_run(inputs).events) =~= Seq::<Mark>::empty());
    } else {
        lemma_csv_run_orderly(inputs.drop_last());
        let before = csv_run(inputs.drop_last());
        let s = before.state;
        let last = inputs.last();
        let (next, turn) = csv_export_step(s, last.reply, last.bytes, last.stamp);
        lemma_csv_step_fits(s, last.reply, last.bytes, last.stamp);
        let history = marks_of(before.events);
        let marks = marks_of(turn.progress);
        assert(marks_of(csv_run(inputs).events) =~= history + marks);
        if s.phase != CsvPhase::Finished {
            if next.phase != CsvPhase::Finished {
                lemma_append_open(
                    history,
                    marks,
                    level_rank(s),
                    level_percent(s),
                    level_rank(next),
                    level_percent(next),
                );
            } else {
                lemma_append_closing(history, marks, level_rank(s), level_percent(s));
            }
        } else {
            assert(history + marks =~= history);
        }
    }
}

/// Every export that has finished reported exactly one closing event, as its
/// last event.
pub proof fn lemma_csv_run_closes_once(inputs: Seq<CsvInput>)
    requires
        csv_run(inputs).state.phase == CsvPhase::Finished,
    ensures
        closing_count(marks_of(csv_run(inputs).events)) == 1,
        csv_run(inputs).events.len() > 0,
        csv_run(inputs).events.last().stage.is_terminal(),
{
    lemma_csv_run_orderly(inputs);
    let events = csv_run(inputs).events;
    lemma_closed_has_one(marks_of(events));
    assert(marks_of(events).last() == mark_of(events.last()));
}

/// The step that finishes an export with a result reports `Complete` at a
/// hundred percent last, and
/// the step that finishes it with an error reports `Error` last.
pub proof fn lemma_csv_result_matches_close(inputs: Seq<CsvInput>)
    requires
        inputs.len() > 0,
        csv_run(inputs.drop_last()).state.phase != CsvPhase::Finished,
        csv_run(inputs).command is Finish,
    ensures
        csv_run(inputs).events.len() > 0,
        csv_run(inputs).command matches CsvCommandView::Finish(Ok(_)) ==> csv_run(
            inputs,
        ).events.last().stage == ExportStage::Complete && csv_run(inputs).events.last().percent
            == 10_000,
        csv_run(inputs).command matches CsvCommandView::Finish(Err(_)) ==> csv_run(
            inputs,
        ).events.last().stage == ExportStage::Error,
{
    let before = csv_run(inputs.drop_last());
    let last = inputs.last();
    lemma_csv_step_fits(before.state, last.reply, last.bytes, last.stamp);
    let turn = csv_export_step(before.state, last.reply, last.bytes, last.stamp).1;
    assert(marks_of(turn.progress).last() == mark_of(turn.progress.last()));
    assert(csv_run(inputs).events.last() == turn.progress.last());
}

/// The kind at a place in the order of the files.
pub open spec fn kind_at(index: int) -> ExportKind {
    if index <= 0 {
        ExportKind::CalorieEntries
    } else if index == 1 {
        ExportKind::WeightHistory
    } else if index == 2 {
        ExportKind::CalorieTargets
    } else if index == 3 {
        ExportKind::WeightTargets
    } else {
        ExportKind::FoodCategories
    }
}

/// The files that an archive holds once the tables `tables` have been
/// written into it: each under the name of its kind, as the document of its
/// records.
pub open spec fn files_of(tables: Seq<Seq<Seq<Seq<char>>>>) -> Seq<(Seq<char>, Seq<u8>)> {
    Seq::new(tables.len(), |i: int| (file_name(kind_at(i)), csv_document(tables[i])))
}

/// One file per kind. Whatever the store answers: while the export loads, the
/// archive holds the tables of the kinds that came before the one that is
/// being loaded, in order, each under the name of its kind as the document of
/// the records that the store delivered. The archive is closed only when it
/// holds the tables of all five kinds, and a result is given only for the
/// archive that was closed.
pub proof fn lemma_csv_one_file_per_kind(inputs: Seq<CsvInput>)
    ensures
        csv_run(inputs).state.phase == CsvPhase::Loading ==> csv_run(inputs).tables.len()
            == kind_index(csv_run(inputs).state.kind) && csv_run(inputs).state.files == files_of(
            csv_run(inputs).tables,
        ),
        csv_run(inputs).state.phase == CsvPhase::Sealing ==> csv_run(inputs).tables.len() == 5
            && csv_run(inputs).state.files == files_of(csv_run(inputs).tables),
        (inputs.len() > 0 && (csv_run(inputs).command matches CsvCommandView::Finish(Ok(_))))
            ==> csv_run(inputs.drop_last()).state.phase == CsvPhase::Sealing && csv_run(
            inputs.drop_last(),
        ).tables.len() == 5,
    decreases inputs.len(),
{
    if inputs.len() > 0 {
        lemma_csv_one_file_per_kind(inputs.drop_last());
        let before = csv_run(inputs.drop_last());
        let after = csv_run(inputs);
        let last = inputs.last();
        if after.state.phase == CsvPhase::Loading || after.state.phase == CsvPhase::Sealing {
            assert(after.state.files =~= files_of(after.tables));
        }
    }
}

} // verus!
