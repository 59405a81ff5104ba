//! The tabular importer: all rows of a table or none.
//!
//! The store and the progress sink are out of reach of this library, so the
//! import is written as a machine. [`ImportSession::step`] takes the outcome of
//! the command that the previous step handed out, and answers with the
//! progress events to deliver and the next command. The caller performs the
//! command and comes back with its outcome, until the command is
//! [`ImportCommand::Finish`].
//!
//! Nothing is written before every row has been read and has passed
//! validation. The rows are then inserted inside one transaction, which is
//! committed after the last row and rolled back on a cancellation or a failed
//! insert.

use vstd::prelude::*;
use vstd::string::*;

use super::rows::{decode_table, entry_views, parse_csv, ImportEntry, ImportEntryView};
use super::{
    event, mark_of, marks_of, new_outbox, progress_views, send_progress, ImportCancellation,
    ImportProgress, ImportProgressView, ImportResult, ImportStage, ImportTable,
};
use crate::clock::today;
use crate::percent::{lemma_scaled_monotone, scaled, Percent};
use crate::service::intake::{intake_faults, intake_target_faults};
use crate::service::validation::{
    FieldErrors, FieldErrorsView, ValidationErrorView, ValidationErrors,
};
use crate::service::weight::{weight_target_faults, weight_tracker_faults};
use crate::tabular::csv_records;
use crate::text::{decimal, push_decimal};
use crate::timeline::{
    closed, closing_count, continues, lemma_append_closing, lemma_append_open,
    lemma_closed_has_one, orderly, reaches, Mark,
};

verus! {

// ============================================================================
// WHAT IS WRONG WITH A ROW
// ============================================================================

/// The messages of the broken rules that have one, in order.
pub open spec fn messages_of(errors: Seq<ValidationErrorView>) -> Seq<Seq<char>>
    decreases errors.len(),
{
    if errors.len() == 0 {
        Seq::empty()
    } else {
        match errors.last().message {
            Some(message) => messages_of(errors.drop_last()).push(message),
            None => messages_of(errors.drop_last()),
        }
    }
}

/// The texts `parts` in a row, with `separator` between two neighbours.
pub open spec fn joined(parts: Seq<Seq<char>>, separator: Seq<char>) -> Seq<char>
    decreases parts.len(),
{
    if parts.len() == 0 {
        Seq::empty()
    } else if parts.len() == 1 {
        parts[0]
    } else {
        joined(parts.drop_last(), separator) + separator + parts.last()
    }
}

/// What is said of one field: the messages of its broken rules, or, where
/// none of them has a message, that the field is invalid.
pub open spec fn field_text(field: FieldErrorsView) -> Seq<char> {
    if messages_of(field.errors).len() == 0 {
        field.field + " is invalid"@
    } else {
        joined(messages_of(field.errors), ", "@)
    }
}

/// What is said of each field, in order.
pub open spec fn field_texts(fields: Seq<FieldErrorsView>) -> Seq<Seq<char>> {
    fields.map_values(|field: FieldErrorsView| field_text(field))
}

/// The reasons for which a record is refused, in one line.
pub open spec fn validation_text(fields: Seq<FieldErrorsView>) -> Seq<char> {
    joined(field_texts(fields), "; "@)
}

fn format_field_errors(field: &FieldErrors) -> (text: String)
    ensures
        text@ == field_text(field@),
{
    let ghost errors = field@.errors;
    let mut text = String::new();
    let mut count: usize = 0;
    let mut i: usize = 0;
    assert(errors.take(0) =~= Seq::<ValidationErrorView>::empty());
    while i < field.errors.len()
        invariant
            i <= field.errors.len(),
            errors == field@.errors,
            errors.len() == field.errors.len(),
            count <= i,
            count == messages_of(errors.take(i as int)).len(),
            text@ == joined(messages_of(errors.take(i as int)), ", "@),
        decreases field.errors.len() - i,
    {
        let ghost before = errors.take(i as int);
        let ghost after = errors.take(i + 1);
        assert(after.drop_last() =~= before);
        assert(after.last() == field.errors@[i as int]@);
        match &field.errors[i].message {
            Some(message) => {
                let ghost parts = messages_of(after);
                assert(parts.drop_last() =~= messages_of(before));
                if count > 0 {
                    text.append(", ");
                }
                text.append(message.as_str());
                count = count + 1;
                assert(text@ =~= joined(parts, ", "@));
            },
            None => {},
        }
        i = i + 1;
    }
    assert(errors.take(field.errors.len() as int) =~= errors);
    if count == 0 {
        let mut text = field.field.clone();
        text.append(" is invalid");
        text
    } else {
        text
    }
}

/// Formats the reasons for which a record is refused: what is said of each
/// field, separated by semicolons.
pub fn format_validation_error(errors: &ValidationErrors) -> (text: String)
    ensures
        text@ == validation_text(errors@),
{
    let ghost fields = errors@;
    let ghost parts = field_texts(fields);
    let mut text = String::new();
    let mut i: usize = 0;
    assert(parts.take(0) =~= Seq::<Seq<char>>::empty());
    while i < errors.fields.len()
        invariant
            i <= errors.fields.len(),
            fields == errors@,
            parts == field_texts(fields),
            parts.len() == errors.fields.len(),
            text@ == joined(parts.take(i as int), "; "@),
        decreases errors.fields.len() - i,
    {
        let ghost before = parts.take(i as int);
        let ghost after = parts.take(i + 1);
        assert(after.drop_last() =~= before);
        assert(after.last() == field_text(errors.fields@[i as int]@));
        if i > 0 {
            text.append("; ");
        }
        text.append(format_field_errors(&errors.fields[i]).as_str());
        assert(text@ =~= joined(after, "; "@));
        i = i + 1;
    }
    assert(parts.take(errors.fields.len() as int) =~= parts);
    text
}

/// The rules that an entry breaks on the day `today`.
pub open spec fn entry_faults(entry: ImportEntryView, today: i32) -> Seq<FieldErrorsView> {
    match entry {
        ImportEntryView::Intake(e) => intake_faults(e),
        ImportEntryView::WeightTracker(e) => weight_tracker_faults(e),
        ImportEntryView::IntakeTarget(e) => intake_target_faults(e, today),
        ImportEntryView::WeightTarget(e) => weight_target_faults(e, today),
    }
}

/// Checks an entry against the rules of its kind on the day `today`: valid
/// exactly when it breaks none, and else the broken rules are reported.
pub fn validate_entry(entry: &ImportEntry, today: i32) -> (result: Result<(), ValidationErrors>)
    ensures
        result is Ok <==> entry_faults(entry@, today).len() == 0,
        result matches Err(errors) ==> errors@ == entry_faults(entry@, today),
{
    match entry {
        ImportEntry::Intake(e) => e.validate(),
        ImportEntry::WeightTracker(e) => e.validate(),
        ImportEntry::IntakeTarget(e) => e.validate(today),
        ImportEntry::WeightTarget(e) => e.validate(today),
    }
}

// ============================================================================
// THE SESSION
// ============================================================================

/// Where an import stands: which outcome its next step expects.
#[derive(Clone, Copy, Debug, PartialEq, Eq, Structural)]
pub enum ImportPhase {
    /// Nothing has happened yet.
    Start,
    /// The table is about to be read.
    Parsing,
    /// The entries are validated one by one.
    Validating,
    /// Waiting for the store to open the transaction.
    Opening,
    /// Waiting for the store to insert an entry.
    Inserting,
    /// Waiting for the store to commit the transaction.
    Committing,
    /// Waiting for the store to roll the transaction back.
    RollingBack,
    /// The import has handed out its result.
    Finished,
}

/// The outcome of a command.
pub enum StoreReply {
    /// The command succeeded.
    Done,
    /// The command failed, with the reason.
    Failed(String),
}

/// What a [`StoreReply`] holds, as mathematical values.
pub enum StoreReplyView {
    Done,
    Failed(Seq<char>),
}

impl View for StoreReply {
    type V = StoreReplyView;

    open spec fn view(&self) -> StoreReplyView {
        match self {
            StoreReply::Done => StoreReplyView::Done,
            StoreReply::Failed(reason) => StoreReplyView::Failed(reason@),
        }
    }
}

/// What the caller has to do before the next step.
pub enum ImportCommand {
    /// Nothing but to deliver the events and to come back.
    Continue,
    /// Open a transaction on the store.
    Begin,
    /// Insert the entry at this place of [`ImportSession::entries`] inside the
    /// transaction.
    Insert(usize),
    /// Commit the transaction.
    Commit,
    /// Roll the transaction back.
    Rollback,
    /// Return this result: the import is over.
    Finish(Result<ImportResult, String>),
}

/// What an [`ImportCommand`] holds, as mathematical values.
pub enum ImportCommandView {
    Continue,
    Begin,
    Insert(usize),
    Commit,
    Rollback,
    Finish(Result<ImportResult, Seq<char>>),
}

impl View for ImportCommand {
    type V = ImportCommandView;

    open spec fn view(&self) -> ImportCommandView {
        match self {
            ImportCommand::Continue => ImportCommandView::Continue,
            ImportCommand::Begin => ImportCommandView::Begin,
            ImportCommand::Insert(at) => ImportCommandView::Insert(*at),
            ImportCommand::Commit => ImportCommandView::Commit,
            ImportCommand::Rollback => ImportCommandView::Rollback,
            ImportCommand::Finish(Ok(result)) => ImportCommandView::Finish(Ok(*result)),
            ImportCommand::Finish(Err(message)) => ImportCommandView::Finish(Err(message@)),
        }
    }
}

/// What one step hands to the caller: the events to deliver, in order, and the
/// command to perform.
pub struct ImportTurn {
    pub progress: Vec<ImportProgress>,
    pub command: ImportCommand,
}

/// What an [`ImportTurn`] holds, as mathematical values.
pub struct ImportTurnView {
    pub progress: Seq<ImportProgressView>,
    pub command: ImportCommandView,
}

impl View for ImportTurn {
    type V = ImportTurnView;

    open spec fn view(&self) -> ImportTurnView {
        ImportTurnView { progress: progress_views(self.progress@), command: self.command@ }
    }
}

/// An import in progress.
pub struct ImportSession {
    phase: ImportPhase,
    table: ImportTable,
    text: String,
    today: i32,
    entries: Vec<ImportEntry>,
    cursor: usize,
    cancelled: bool,
    failure: String,
}

/// What an [`ImportSession`] holds, as mathematical values.
pub struct ImportSessionView {
    pub phase: ImportPhase,
    /// The kind of entries that the table holds.
    pub table: ImportTable,
    /// The table as text.
    pub text: Seq<char>,
    /// The number of the day on which the import runs.
    pub today: i32,
    /// The entries read from the table.
    pub entries: Seq<ImportEntryView>,
    /// How many entries have been validated, then how many have been handed
    /// to the store.
    pub cursor: usize,
    /// Whether the transaction is rolled back for a cancellation.
    pub cancelled: bool,
    /// The message of the interruption for which the transaction is rolled back.
    pub failure: Seq<char>,
}

impl View for ImportSession {
    type V = ImportSessionView;

    closed spec fn view(&self) -> ImportSessionView {
        ImportSessionView {
            phase: self.phase,
            table: self.table,
            text: self.text@,
            today: self.today,
            entries: entry_views(self.entries@),
            cursor: self.cursor,
            cancelled: self.cancelled,
            failure: self.failure@,
        }
    }
}

// ============================================================================
// THE MODEL
// ============================================================================

/// An import of the table `text` of the kind `table` on the day `today`,
/// before its first step.
pub open spec fn import_start(text: Seq<char>, table: ImportTable, today: i32) -> ImportSessionView {
    ImportSessionView {
        phase: ImportPhase::Start,
        table,
        text,
        today,
        entries: Seq::empty(),
        cursor: 0,
        cancelled: false,
        failure: Seq::empty(),
    }
}

/// The message of a cancelled import.
pub open spec fn cancelled_message() -> Seq<char> {
    "Import cancelled by user"@
}

/// The message of an import that was cancelled inside the transaction.
pub open spec fn rolled_back_message() -> Seq<char> {
    "Import cancelled by user - all changes rolled back"@
}

/// The message of an import that the store refused.
pub open spec fn database_message(reason: Seq<char>) -> Seq<char> {
    "Database error during import: "@ + reason + " - all changes rolled back"@
}

/// The message of a row that could not be read.
pub open spec fn parse_message(row: nat, detail: Seq<char>) -> Seq<char> {
    "Row "@ + decimal(row) + ": Failed to parse CSV - "@ + detail
}

/// The message of a row that broke a rule.
pub open spec fn validation_message(row: nat, reasons: Seq<char>) -> Seq<char> {
    "Row "@ + decimal(row) + ": Validation failed - "@ + reasons
}

/// The message that tells how many entries were found.
pub open spec fn found_message(total: nat) -> Seq<char> {
    "Found "@ + decimal(total) + " entries to import"@
}

/// The message of the validation or the insertion of one row.
pub open spec fn row_message(verb: Seq<char>, row: nat, total: nat) -> Seq<char> {
    verb + decimal(row) + "/"@ + decimal(total)
}

/// The message of a completed import.
pub open spec fn imported_message(total: nat) -> Seq<char> {
    "Successfully imported all "@ + decimal(total) + " rows"@
}

/// No events.
pub open spec fn nothing() -> Seq<ImportProgressView> {
    Seq::empty()
}

/// The step that moves to `phase`, reports `progress` and hands out `command`.
pub open spec fn go(
    s: ImportSessionView,
    phase: ImportPhase,
    progress: Seq<ImportProgressView>,
    command: ImportCommandView,
) -> (ImportSessionView, ImportTurnView) {
    (ImportSessionView { phase, ..s }, ImportTurnView { progress, command })
}

/// The step that ends the import without a result: it reports `stage` with
/// `message` after the events `before` and finishes with `message`.
pub open spec fn interrupt(
    s: ImportSessionView,
    before: Seq<ImportProgressView>,
    stage: ImportStage,
    message: Seq<char>,
) -> (ImportSessionView, ImportTurnView) {
    go(
        s,
        ImportPhase::Finished,
        before.push(event(stage, 0, message, None, None, 0, 0)),
        ImportCommandView::Finish(Err(message)),
    )
}

/// The step that has the transaction rolled back, to finish with `message`
/// afterwards.
pub open spec fn roll_back(s: ImportSessionView, cancelled: bool, message: Seq<char>) -> (
    ImportSessionView,
    ImportTurnView,
) {
    go(
        ImportSessionView { cancelled, failure: message, ..s },
        ImportPhase::RollingBack,
        nothing(),
        ImportCommandView::Rollback,
    )
}

/// The first step: the import announces itself.
pub open spec fn started(s: ImportSessionView) -> (ImportSessionView, ImportTurnView) {
    go(
        s,
        ImportPhase::Parsing,
        nothing().push(
            event(ImportStage::Initializing, 0, "Initializing import..."@, None, None, 0, 0),
        ).push(
            event(ImportStage::ValidatingFile, 500, "Validating file format..."@, None, None, 0, 0),
        ).push(event(ImportStage::ParsingData, 1000, "Parsing CSV data..."@, None, None, 0, 0)),
        ImportCommandView::Continue,
    )
}

/// The step that reads the table: the first row that cannot be read ends the
/// import, with its number in the message.
pub open spec fn table_read(s: ImportSessionView) -> (ImportSessionView, ImportTurnView) {
    match decode_table(s.table, csv_records(s.text)) {
        Err((row, detail)) => interrupt(
            s,
            nothing(),
            ImportStage::Error,
            parse_message(row, detail),
        ),
        Ok(entries) => go(
            ImportSessionView { entries, cursor: 0, ..s },
            ImportPhase::Validating,
            nothing().push(
                event(
                    ImportStage::ValidatingEntries,
                    1500,
                    found_message(entries.len()),
                    Some(entries.len() as usize),
                    Some(0),
                    0,
                    0,
                ),
            ),
            ImportCommandView::Continue,
        ),
    }
}

/// The event that precedes the transaction.
pub open spec fn transaction_event(total: nat) -> ImportProgressView {
    event(
        ImportStage::InsertingData,
        5000,
        "Starting transaction..."@,
        Some(total as usize),
        Some(total as usize),
        0,
        0,
    )
}

/// A step of the validation. Once every entry has passed, the transaction is
/// asked for. Before that the token is polled, and then the next entry is
/// announced and checked: the first entry that breaks a rule ends the import,
/// with the number of its row in the message.
pub open spec fn entry_validated(s: ImportSessionView, cancelled: bool) -> (
    ImportSessionView,
    ImportTurnView,
) {
    let total = s.entries.len();
    if s.cursor >= total {
        go(
            ImportSessionView { cursor: 0, ..s },
            ImportPhase::Opening,
            nothing().push(transaction_event(total)),
            ImportCommandView::Begin,
        )
    } else if cancelled {
        interrupt(s, nothing(), ImportStage::Cancelled, cancelled_message())
    } else {
        let announced = nothing().push(
            event(
                ImportStage::ValidatingEntries,
                scaled(15, 30, s.cursor as nat, total),
                row_message("Validating row "@, (s.cursor + 1) as nat, total),
                Some(total as usize),
                Some((s.cursor + 1) as usize),
                0,
                0,
            ),
        );
        let faults = entry_faults(s.entries[s.cursor as int], s.today);
        if faults.len() > 0 {
            interrupt(
                s,
                announced,
                ImportStage::Error,
                validation_message((s.cursor + 2) as nat, validation_text(faults)),
            )
        } else {
            go(
                ImportSessionView { cursor: (s.cursor + 1) as usize, ..s },
                ImportPhase::Validating,
                announced,
                ImportCommandView::Continue,
            )
        }
    }
}

/// The checkpoint before an insert. Once every entry has been handed to the
/// store, the commit is asked for. Before that the token is polled: on a
/// cancellation the transaction is rolled back, else the next entry is
/// announced and handed to the store.
pub open spec fn insert_next(s: ImportSessionView, cancelled: bool) -> (
    ImportSessionView,
    ImportTurnView,
) {
    let total = s.entries.len();
    if s.cursor >= total {
        go(s, ImportPhase::Committing, nothing(), ImportCommandView::Commit)
    } else if cancelled {
        roll_back(s, true, rolled_back_message())
    } else {
        go(
            ImportSessionView { cursor: (s.cursor + 1) as usize, ..s },
            ImportPhase::Inserting,
            nothing().push(
                event(
                    ImportStage::InsertingData,
                    scaled(50, 45, s.cursor as nat, total),
                    row_message("Importing row "@, (s.cursor + 1) as nat, total),
                    Some(total as usize),
                    Some((s.cursor + 1) as usize),
                    0,
                    0,
                ),
            ),
            ImportCommandView::Insert(s.cursor),
        )
    }
}

/// The step after the store was asked for a transaction.
pub open spec fn transaction_opened(s: ImportSessionView, cancelled: bool, reply: StoreReplyView) -> (
    ImportSessionView,
    ImportTurnView,
) {
    match reply {
        StoreReplyView::Done => insert_next(s, cancelled),
        StoreReplyView::Failed(reason) => interrupt(
            s,
            nothing(),
            ImportStage::Error,
            database_message(reason),
        ),
    }
}

/// The step after the store was handed an entry.
pub open spec fn entry_inserted(s: ImportSessionView, cancelled: bool, reply: StoreReplyView) -> (
    ImportSessionView,
    ImportTurnView,
) {
    match reply {
        StoreReplyView::Done => insert_next(s, cancelled),
        StoreReplyView::Failed(reason) => roll_back(s, false, database_message(reason)),
    }
}

/// The step after the store was asked to commit.
pub open spec fn committed(s: ImportSessionView, reply: StoreReplyView) -> (
    ImportSessionView,
    ImportTurnView,
) {
    let total = s.entries.len();
    match reply {
        StoreReplyView::Done => go(
            s,
            ImportPhase::Finished,
            nothing().push(
                event(
                    ImportStage::Complete,
                    10_000,
                    imported_message(total),
                    Some(total as usize),
                    Some(total as usize),
                    total as usize,
                    0,
                ),
            ),
            ImportCommandView::Finish(
                Ok(ImportResult { imported_count: total as usize, table: s.table }),
            ),
        ),
        StoreReplyView::Failed(reason) => interrupt(
            s,
            nothing(),
            ImportStage::Error,
            database_message(reason),
        ),
    }
}

/// The step after the store was asked to roll back: the import ends with the
/// message of the interruption, as cancelled or as failed.
pub open spec fn rolled_back(s: ImportSessionView) -> (ImportSessionView, ImportTurnView) {
    go(
        s,
        ImportPhase::Finished,
        nothing().push(
            event(
                if s.cancelled {
                    ImportStage::Cancelled
                } else {
                    ImportStage::Error
                },
                0,
                if s.cancelled {
                    cancelled_message()
                } else {
                    s.failure
                },
                None,
                None,
                0,
                0,
            ),
        ),
        ImportCommandView::Finish(Err(s.failure)),
    )
}

/// Whether the next step polls the cancellation token: before the validation
/// of every entry and before every insert.
pub open spec fn at_checkpoint(s: ImportSessionView) -> bool {
    (s.phase == ImportPhase::Validating || s.phase == ImportPhase::Opening || s.phase
        == ImportPhase::Inserting) && s.cursor < s.entries.len()
}

/// One step of an import: from the state `s`, the answer `cancelled` of the
/// cancellation token and the outcome `reply` of the last command to the next
/// state and what the caller is handed. The token counts only at a checkpoint.
pub open spec fn import_step(s: ImportSessionView, cancelled: bool, reply: StoreReplyView) -> (
    ImportSessionView,
    ImportTurnView,
) {
    match s.phase {
        ImportPhase::Start => started(s),
        ImportPhase::Parsing => table_read(s),
        ImportPhase::Validating => entry_validated(s, cancelled),
        ImportPhase::Opening => transaction_opened(s, cancelled, reply),
        ImportPhase::Inserting => entry_inserted(s, cancelled, reply),
        ImportPhase::Committing => committed(s, reply),
        ImportPhase::RollingBack => rolled_back(s),
        ImportPhase::Finished => go(
            s,
            ImportPhase::Finished,
            nothing(),
            ImportCommandView::Finish(Err("Import already finished"@)),
        ),
    }
}

// ============================================================================
// THE ENGINE
// ============================================================================

fn database_message_text(reason: &str) -> (message: String)
    ensures
        message@ == database_message(reason@),
{
    let mut message = String::from_str("Database error during import: ");
    message.append(reason);
    message.append(" - all changes rolled back");
    message
}

fn row_message_text(verb: &str, row: usize, total: usize) -> (message: String)
    ensures
        message@ == row_message(verb@, row as nat, total as nat),
{
    let mut message = String::from_str(verb);
    push_decimal(&mut message, row as u128);
    message.append("/");
    push_decimal(&mut message, total as u128);
    message
}

impl ImportSession {
    /// An import of the table `csv_data` of the kind `target_table` on the day
    /// `today`, before its first step.
    pub fn new(csv_data: &str, target_table: ImportTable, today: i32) -> (session: ImportSession)
        ensures
            session@ == import_start(csv_data@, target_table, today),
    {
        let session = ImportSession {
            phase: ImportPhase::Start,
            table: target_table,
            text: String::from_str(csv_data),
            today,
            entries: Vec::new(),
            cursor: 0,
            cancelled: false,
            failure: String::new(),
        };
        assert(session@.entries =~= Seq::<ImportEntryView>::empty());
        session
    }

    /// Where the import stands.
    pub fn phase(&self) -> (phase: ImportPhase)
        ensures
            phase == self@.phase,
    {
        self.phase
    }

    /// Whether the import has handed out its result.
    pub fn is_finished(&self) -> (finished: bool)
        ensures
            finished == (self@.phase == ImportPhase::Finished),
    {
        match self.phase {
            ImportPhase::Finished => true,
            _ => false,
        }
    }

    /// The entries read from the table. [`ImportCommand::Insert`] names the
    /// one to insert by its place in this list.
    pub fn entries(&self) -> (entries: &Vec<ImportEntry>)
        ensures
            entry_views(entries@) == self@.entries,
    {
        &self.entries
    }

    /// Whether the next step polls the cancellation token.
    pub fn polls(&self) -> (polls: bool)
        ensures
            polls == at_checkpoint(self@),
    {
        let waiting = match self.phase {
            ImportPhase::Validating | ImportPhase::Opening | ImportPhase::Inserting => true,
            _ => false,
        };
        waiting && self.cursor < self.entries.len()
    }

    fn go(&mut self, phase: ImportPhase, progress: Vec<ImportProgress>, command: ImportCommand) -> (turn:
        ImportTurn)
        ensures
            (final(self)@, turn@) == go(old(self)@, phase, progress_views(progress@), command@),
    {
        self.phase = phase;
        ImportTurn { progress, command }
    }

    fn interrupt(&mut self, before: Vec<ImportProgress>, stage: ImportStage, message: String) -> (turn:
        ImportTurn)
        ensures
            (final(self)@, turn@) == interrupt(
                old(self)@,
                progress_views(before@),
                stage,
                message@,
            ),
    {
        let mut progress = before;
        send_progress(&mut progress, stage, Percent::whole(0), message.as_str(), None, None, 0, 0);
        self.go(ImportPhase::Finished, progress, ImportCommand::Finish(Err(message)))
    }

    fn roll_back(&mut self, cancelled: bool, message: String) -> (turn: ImportTurn)
        ensures
            (final(self)@, turn@) == roll_back(old(self)@, cancelled, message@),
    {
        self.cancelled = cancelled;
        self.failure = message;
        self.go(ImportPhase::RollingBack, new_outbox(), ImportCommand::Rollback)
    }

    fn started(&mut self) -> (turn: ImportTurn)
        ensures
            (final(self)@, turn@) == started(old(self)@),
    {
        let mut progress = new_outbox();
        send_progress(
            &mut progress,
            ImportStage::Initializing,
            Percent::whole(0),
            "Initializing import...",
            None,
            None,
            0,
            0,
        );
        send_progress(
            &mut progress,
            ImportStage::ValidatingFile,
            Percent::whole(5),
            "Validating file format...",
            None,
            None,
            0,
            0,
        );
        send_progress(
            &mut progress,
            ImportStage::ParsingData,
            Percent::whole(10),
            "Parsing CSV data...",
            None,
            None,
            0,
            0,
        );
        self.go(ImportPhase::Parsing, progress, ImportCommand::Continue)
    }

    fn table_read(&mut self) -> (turn: ImportTurn)
        ensures
            (final(self)@, turn@) == table_read(old(self)@),
    {
        match parse_csv(self.text.as_str(), self.table) {
            Err(failure) => {
                let mut message = String::from_str("Row ");
                push_decimal(&mut message, failure.row as u128);
                message.append(": Failed to parse CSV - ");
                message.append(failure.detail.as_str());
                self.interrupt(new_outbox(), ImportStage::Error, message)
            },
            Ok(entries) => {
                let total = entries.len();
                self.entries = entries;
                self.cursor = 0;
                let mut message = String::from_str("Found ");
                push_decimal(&mut message, total as u128);
                message.append(" entries to import");
                let mut progress = new_outbox();
                send_progress(
                    &mut progress,
                    ImportStage::ValidatingEntries,
                    Percent::whole(15),
                    message.as_str(),
                    Some(total),
                    Some(0),
                    0,
                    0,
                );
                self.go(ImportPhase::Validating, progress, ImportCommand::Continue)
            },
        }
    }

    fn entry_validated(&mut self, cancelled: bool) -> (turn: ImportTurn)
        ensures
            (final(self)@, turn@) == entry_validated(old(self)@, cancelled),
    {
        let total = self.entries.len();
        assert(total == self@.entries.len());
        if self.cursor >= total {
            self.cursor = 0;
            let mut progress = new_outbox();
            send_progress(
                &mut progress,
                ImportStage::InsertingData,
                Percent::whole(50),
                "Starting transaction...",
                Some(total),
                Some(total),
                0,
                0,
            );
            return self.go(ImportPhase::Opening, progress, ImportCommand::Begin);
        }
        if cancelled {
            return self.interrupt(
                new_outbox(),
                ImportStage::Cancelled,
                String::from_str("Import cancelled by user"),
            );
        }
        let row = self.cursor + 1;
        let mut progress = new_outbox();
        send_progress(
            &mut progress,
            ImportStage::ValidatingEntries,
            Percent::scaled(15, 30, self.cursor, total),
            row_message_text("Validating row ", row, total).as_str(),
            Some(total),
            Some(row),
            0,
            0,
        );
        assert(self@.entries[self.cursor as int] == self.entries@[self.cursor as int]@);
        match validate_entry(&self.entries[self.cursor], self.today) {
            Err(errors) => {
                let mut message = String::from_str("Row ");
                push_decimal(&mut message, row as u128 + 1);
                message.append(": Validation failed - ");
                message.append(format_validation_error(&errors).as_str());
                self.interrupt(progress, ImportStage::Error, message)
            },
            Ok(()) => {
                self.cursor = row;
                self.go(ImportPhase::Validating, progress, ImportCommand::Continue)
            },
        }
    }

    fn insert_next(&mut self, cancelled: bool) -> (turn: ImportTurn)
        ensures
            (final(self)@, turn@) == insert_next(old(self)@, cancelled),
    {
        let total = self.entries.len();
        assert(total == self@.entries.len());
        if self.cursor >= total {
            return self.go(ImportPhase::Committing, new_outbox(), ImportCommand::Commit);
        }
        if cancelled {
            return self.roll_back(
                true,
                String::from_str("Import cancelled by user - all changes rolled back"),
            );
        }
        let at = self.cursor;
        let row = at + 1;
        let mut progress = new_outbox();
        send_progress(
            &mut progress,
            ImportStage::InsertingData,
            Percent::scaled(50, 45, at, total),
            row_message_text("Importing row ", row, total).as_str(),
            Some(total),
            Some(row),
            0,
            0,
        );
        self.cursor = row;
        self.go(ImportPhase::Inserting, progress, ImportCommand::Insert(at))
    }

    fn committed(&mut self, reply: StoreReply) -> (turn: ImportTurn)
        ensures
            (final(self)@, turn@) == committed(old(self)@, reply@),
    {
        let total = self.entries.len();
        assert(total == self@.entries.len());
        match reply {
            StoreReply::Done => {
                let mut message = String::from_str("Successfully imported all ");
                push_decimal(&mut message, total as u128);
                message.append(" rows");
                let mut progress = new_outbox();
                send_progress(
                    &mut progress,
                    ImportStage::Complete,
                    Percent::whole(100),
                    message.as_str(),
                    Some(total),
                    Some(total),
                    total,
                    0,
                );
                let table = self.table;
                self.go(
                    ImportPhase::Finished,
                    progress,
                    ImportCommand::Finish(Ok(ImportResult { imported_count: total, table })),
                )
            },
            StoreReply::Failed(reason) => {
                let message = database_message_text(reason.as_str());
                self.interrupt(new_outbox(), ImportStage::Error, message)
            },
        }
    }

    fn rolled_back(&mut self) -> (turn: ImportTurn)
        ensures
            (final(self)@, turn@) == rolled_back(old(self)@),
    {
        let message = self.failure.clone();
        let mut progress = new_outbox();
        if self.cancelled {
            send_progress(
                &mut progress,
                ImportStage::Cancelled,
                Percent::whole(0),
                "Import cancelled by user",
                None,
                None,
                0,
                0,
            );
        } else {
            send_progress(
                &mut progress,
                ImportStage::Error,
                Percent::whole(0),
                message.as_str(),
                None,
                None,
                0,
                0,
            );
        }
        self.go(ImportPhase::Finished, progress, ImportCommand::Finish(Err(message)))
    }

    /// One step of the import, with the answer of the cancellation token
    /// given by the caller.
    pub fn advance(&mut self, cancelled: bool, reply: StoreReply) -> (turn: ImportTurn)
        ensures
            (final(self)@, turn@) == import_step(old(self)@, cancelled, reply@),
    {
        match self.phase {
            ImportPhase::Start => self.started(),
            ImportPhase::Parsing => self.table_read(),
            ImportPhase::Validating => self.entry_validated(cancelled),
            ImportPhase::Opening => match reply {
                StoreReply::Done => self.insert_next(cancelled),
                StoreReply::Failed(reason) => {
                    let message = database_message_text(reason.as_str());
                    self.interrupt(new_outbox(), ImportStage::Error, message)
                },
            },
            ImportPhase::Inserting => match reply {
                StoreReply::Done => self.insert_next(cancelled),
                StoreReply::Failed(reason) => {
                    let message = database_message_text(reason.as_str());
                    self.roll_back(false, message)
                },
            },
            ImportPhase::Committing => self.committed(reply),
            ImportPhase::RollingBack => self.rolled_back(),
            ImportPhase::Finished => self.go(
                ImportPhase::Finished,
                new_outbox(),
                ImportCommand::Finish(Err(String::from_str("Import already finished"))),
            ),
        }
    }

    /// One step of the import.
    ///
    /// Polls `cancellation` where the import stands at a checkpoint, advances,
    /// and resets the token once the import is over, so that the cancellation
    /// of this import cannot reach the next. What the token answers is not
    /// known beforehand: the step is the one that [`import_step`] describes
    /// for some answer.
    pub fn step(&mut self, cancellation: &ImportCancellation, reply: StoreReply) -> (turn: ImportTurn)
        ensures
            exists|cancelled: bool|
                (final(self)@, turn@) == #[trigger] import_step(old(self)@, cancelled, reply@),
    {
        let cancelled = if self.polls() {
            cancellation.is_cancelled()
        } else {
            false
        };
        let turn = self.advance(cancelled, reply);
        if self.is_finished() {
            cancellation.reset();
        }
        turn
    }
}

/// Import CSV data into the specified table with progress tracking: the
/// session that imports the table `csv_data` today.
pub fn import_csv(csv_data: &str, target_table: ImportTable) -> (session: ImportSession)
    ensures
        exists|day: i32| session@ == #[trigger] import_start(csv_data@, target_table, day),
{
    ImportSession::new(csv_data, target_table, today())
}

// ============================================================================
// WHAT HOLDS OF EVERY RUN
// ============================================================================

/// The stage that an import in state `s` has reached, as a rank.
pub open spec fn level_rank(s: ImportSessionView) -> nat {
    match s.phase {
        ImportPhase::Start => 0,
        ImportPhase::Parsing => 2,
        ImportPhase::Validating => 3,
        ImportPhase::Opening => 4,
        ImportPhase::Inserting => 4,
        ImportPhase::Committing => 4,
        ImportPhase::RollingBack => 4,
        ImportPhase::Finished => 5,
    }
}

/// The percentage that an import in state `s` has reached, in hundredths.
pub open spec fn level_percent(s: ImportSessionView) -> nat {
    match s.phase {
        ImportPhase::Start => 0,
        ImportPhase::Parsing => 1000,
        ImportPhase::Validating => scaled(15, 30, s.cursor as nat, s.entries.len()),
        ImportPhase::Opening => 5000,
        ImportPhase::Inserting => scaled(50, 45, s.cursor as nat, s.entries.len()),
        ImportPhase::Committing => 9500,
        ImportPhase::RollingBack => 9500,
        ImportPhase::Finished => 10_000,
    }
}

/// One round of a run: what the token answered and what the caller came back
/// with.
pub struct ImportInput {
    pub cancelled: bool,
    pub reply: StoreReplyView,
}

/// A run so far: the state of the engine, everything reported, the command
/// handed out last, and what the store has been asked to do.
pub struct ImportRun {
    pub state: ImportSessionView,
    pub events: Seq<ImportProgressView>,
    pub command: ImportCommandView,
    /// Whether a transaction has been asked for.
    pub began: bool,
    /// The places of the entries that the store has been handed, in order.
    pub inserts: Seq<usize>,
    /// Whether the commit has been asked for.
    pub commit_asked: bool,
    /// Whether the rollback has been asked for.
    pub rollback_asked: bool,
}

/// The run of the import of `text` as a table of the kind `table` on the day
/// `today` after the rounds `inputs`.
pub open spec fn import_run(
    text: Seq<char>,
    table: ImportTable,
    today: i32,
    inputs: Seq<ImportInput>,
) -> ImportRun
    decreases inputs.len(),
{
    if inputs.len() == 0 {
        ImportRun {
            state: import_start(text, table, today),
            events: nothing(),
            command: ImportCommandView::Continue,
            began: false,
            inserts: Seq::empty(),
            commit_asked: false,
            rollback_asked: false,
        }
    } else {
        let before = import_run(text, table, today, inputs.drop_last());
        let (state, turn) = import_step(before.state, inputs.last().cancelled, inputs.last().reply);
        ImportRun {
            state,
            events: before.events + turn.progress,
            command: turn.command,
            began: before.began || turn.command is Begin,
            inserts: match turn.command {
                ImportCommandView::Insert(at) => before.inserts.push(at),
                _ => before.inserts,
            },
            commit_asked: before.commit_asked || turn.command is Commit,
            rollback_asked: before.rollback_asked || turn.command is Rollback,
        }
    }
}

/// What one step reports fits the state that it starts from and the state that
/// it leads to: the events continue from the level of the first, stay within
/// the level of the second, and close the run exactly when the import
/// finishes. A finished import reports nothing more. The step finishes with a
/// result exactly when its last event is `Complete`, and with an error only
/// after a `Cancelled` or `Error` event.
pub proof fn lemma_import_step_fits(s: ImportSessionView, cancelled: bool, reply: StoreReplyView)
    requires
        s.entries.len() <= usize::MAX,
        table_fits(s.text, s.table),
    ensures
        import_step(s, cancelled, reply).0.entries.len() <= usize::MAX,
        import_step(s, cancelled, reply).0.text == s.text,
        import_step(s, cancelled, reply).0.table == s.table,
        ({
            let (next, turn) = import_step(s, cancelled, reply);
            let marks = marks_of(turn.progress);
            let open = s.phase != ImportPhase::Finished;
            let open_after = next.phase != ImportPhase::Finished;
            &&& open ==> continues(marks, level_rank(s), level_percent(s))
            &&& open && open_after ==> {
                &&& level_rank(s) <= level_rank(next)
                &&& level_percent(s) <= level_percent(next)
                &&& forall|i: int|
                    0 <= i < marks.len() ==> !(#[trigger] marks[i]).closing && marks[i].rank
                        <= level_rank(next) && marks[i].percent <= level_percent(next)
            }
            &&& open && !open_after ==> marks.len() > 0 && marks.last().closing
            &&& !open ==> marks.len() == 0 && !open_after
            &&& (turn.command is Finish) <==> !open_after
            &&& turn.command matches ImportCommandView::Finish(Ok(_)) ==> marks.len() > 0
                && turn.progress.last().stage == ImportStage::Complete
                && turn.progress.last().percent == 10_000
            &&& (open && turn.command matches ImportCommandView::Finish(Err(_))) ==> marks.len()
                > 0 && marks.last().interrupted
        }),
{
    let (next, turn) = import_step(s, cancelled, reply);
    let marks = marks_of(turn.progress);
    let total = s.entries.len();
    lemma_scaled_monotone(15, 30, s.cursor as nat, s.cursor as nat, total);
    lemma_scaled_monotone(50, 45, s.cursor as nat, s.cursor as nat, total);
    if s.cursor <= next.cursor {
        lemma_scaled_monotone(15, 30, s.cursor as nat, next.cursor as nat, total);
        lemma_scaled_monotone(50, 45, s.cursor as nat, next.cursor as nat, total);
    }
    lemma_scaled_monotone(15, 30, next.cursor as nat, next.cursor as nat, total);
    lemma_scaled_monotone(50, 45, next.cursor as nat, next.cursor as nat, total);
    lemma_scaled_monotone(15, 30, 0, 0, next.entries.len());
    assert(marks.len() == turn.progress.len());
    assert forall|i: int| 0 <= i < marks.len() implies #[trigger] marks[i] == mark_of(
        turn.progress[i],
    ) by {}
}

/// Progress is orderly in every run, whatever the store and the token answer:
/// the stages only move forward, the percentage never falls except where a
/// cancellation or a failure is reported, and nothing follows the event that
/// closes the run. Until the import finishes, no closing event has been
/// reported; once it has, the last event reported is a closing one.
pub proof fn lemma_import_run_orderly(
    text: Seq<char>,
    table: ImportTable,
    today: i32,
    inputs: Seq<ImportInput>,
)
    requires
        table_fits(text, table),
    ensures
        import_run(text, table, today, inputs).state.entries.len() <= usize::MAX,
        import_run(text, table, today, inputs).state.text == text,
        import_run(text, table, today, inputs).state.table == table,
        orderly(marks_of(import_run(text, table, today, inputs).events)),
        import_run(text, table, today, inputs).state.phase != ImportPhase::Finished ==> reaches(
            marks_of(import_run(text, table, today, inputs).events),
            level_rank(import_run(text, table, today, inputs).state),
            level_percent(import_run(text, table, today, inputs).state),
        ),
        import_run(text, table, today, inputs).state.phase == ImportPhase::Finished ==> closed(
            marks_of(import_run(text, table, today, inputs).events),
        ),
    decreases inputs.len(),
{
    if inputs.len() == 0 {
        assert(marks_of(import_run(text, table, today, inputs).events) =~= Seq::<Mark>::empty());
    } else {
        lemma_import_run_orderly(text, table, today, inputs.drop_last());
        let before = import_run(text, table, today, inputs.drop_last());
        let s = before.state;
        let last = inputs.last();
        let (next, turn) = import_step(s, last.cancelled, last.reply);
        lemma_import_step_fits(s, last.cancelled, last.reply);
        let history = marks_of(before.events);
        let marks = marks_of(turn.progress);
        assert(marks_of(import_run(text, table, today, inputs).events) =~= history + marks);
        if s.phase != ImportPhase::Finished {
            if next.phase != ImportPhase::Finished {
                lemma_append_open(
                    history,
                    marks,
                    level_rank(s),
                    level_percent(s),
                    level_rank(next),
                    level_percent(next),
                );
            } else {
                lemma_append_closing(history, marks, level_rank(s), level_percent(s));
            }
        } else {
            assert(history + marks =~= history);
        }
    }
}

/// Every import that has finished reported exactly one closing event, as its
/// last event.
pub proof fn lemma_import_run_closes_once(
    text: Seq<char>,
    table: ImportTable,
    today: i32,
    inputs: Seq<ImportInput>,
)
    requires
        table_fits(text, table),
        import_run(text, table, today, inputs).state.phase == ImportPhase::Finished,
    ensures
        closing_count(marks_of(import_run(text, table, today, inputs).events)) == 1,
        import_run(text, table, today, inputs).events.len() > 0,
        import_run(text, table, today, inputs).events.last().stage.is_terminal(),
{
    lemma_import_run_orderly(text, table, today, inputs);
    let events = import_run(text, table, today, inputs).events;
    lemma_closed_has_one(marks_of(events));
    assert(marks_of(events).last() == mark_of(events.last()));
}

/// The step that finishes an import with a result reports `Complete` at a
/// hundred percent last, and
/// the step that finishes it with an error reports `Cancelled` or `Error` last.
pub proof fn lemma_import_result_matches_close(
    text: Seq<char>,
    table: ImportTable,
    today: i32,
    inputs: Seq<ImportInput>,
)
    requires
        table_fits(text, table),
        inputs.len() > 0,
        import_run(text, table, today, inputs.drop_last()).state.phase != ImportPhase::Finished,
        import_run(text, table, today, inputs).command is Finish,
    ensures
        import_run(text, table, today, inputs).events.len() > 0,
        import_run(text, table, today, inputs).command matches ImportCommandView::Finish(Ok(_))
            ==> import_run(text, table, today, inputs).events.last().stage == ImportStage::Complete
            && import_run(text, table, today, inputs).events.last().percent == 10_000,
        import_run(text, table, today, inputs).command matches ImportCommandView::Finish(Err(_))
            ==> import_run(text, table, today, inputs).events.last().stage != ImportStage::Complete,
{
    let before = import_run(text, table, today, inputs.drop_last());
    let last = inputs.last();
    lemma_import_run_orderly(text, table, today, inputs.drop_last());
    lemma_import_step_fits(before.state, last.cancelled, last.reply);
    let turn = import_step(before.state, last.cancelled, last.reply).1;
    assert(marks_of(turn.progress).last() == mark_of(turn.progress.last()));
    assert(import_run(text, table, today, inputs).events.last() == turn.progress.last());
}

/// Whether the entries of the table fit the memory that holds them. This is
/// so of every table that an engine has read.
pub open spec fn table_fits(text: Seq<char>, table: ImportTable) -> bool {
    decode_table(table, csv_records(text)) matches Ok(entries) ==> entries.len() <= usize::MAX
}

/// Whether every row of the table can be read and keeps the rules on the day
/// `today`.
pub open spec fn table_is_valid(text: Seq<char>, table: ImportTable, today: i32) -> bool {
    decode_table(table, csv_records(text)) matches Ok(entries) && forall|i: int|
        0 <= i < entries.len() ==> entry_faults(#[trigger] entries[i], today).len() == 0
}

/// The places `0`, `1`, ... up to `count`, in order.
pub open spec fn places(count: nat) -> Seq<usize> {
    Seq::new(count, |i: int| i as usize)
}

/// What the store has been asked to do fits where the import stands.
pub open spec fn import_consistent(
    text: Seq<char>,
    table: ImportTable,
    today: i32,
    r: ImportRun,
) -> bool {
    let s = r.state;
    let total = s.entries.len();
    let read = decode_table(table, csv_records(text)) == Ok::<
        Seq<ImportEntryView>,
        (nat, Seq<char>),
    >(s.entries);
    &&& s.table == table && s.text == text && s.today == today
    &&& r.began ==> table_is_valid(text, table, today) && read
    &&& !r.began ==> r.inserts.len() == 0 && !r.commit_asked && !r.rollback_asked
    &&& r.inserts.len() <= total || !r.began
    &&& r.inserts == places(r.inserts.len())
    &&& !(r.commit_asked && r.rollback_asked)
    &&& r.commit_asked ==> r.inserts.len() == total
    &&& match s.phase {
        ImportPhase::Start => !r.began,
        ImportPhase::Parsing => !r.began,
        ImportPhase::Validating => !r.began && read && s.cursor <= total && forall|i: int|
            0 <= i < s.cursor ==> entry_faults(#[trigger] s.entries[i], today).len() == 0,
        ImportPhase::Opening => r.began && r.inserts.len() == 0 && s.cursor == 0
            && !r.commit_asked && !r.rollback_asked,
        ImportPhase::Inserting => r.began && r.inserts.len() == s.cursor && !r.commit_asked
            && !r.rollback_asked,
        ImportPhase::Committing => r.commit_asked,
        ImportPhase::RollingBack => r.rollback_asked,
        ImportPhase::Finished => r.commit_asked || r.rollback_asked || r.inserts.len() == 0,
    }
    &&& r.command matches ImportCommandView::Finish(Ok(result)) ==> r.commit_asked
        && result.imported_count == total && result.table == table
}

/// All or nothing. Whatever the store and the token answer:
///
/// - the store is asked for a transaction only once every row of the table
///   has been read and has passed validation, and it is handed nothing
///   outside a transaction;
/// - the entries are handed to the store in the order of their rows, each
///   once;
/// - the commit is asked for only after all of them, and never together with
///   the rollback;
/// - an import that has finished has asked for the commit or for the
///   rollback, or has handed nothing to the store;
/// - the result counts every row of the table, and is given only after the
///   commit.
pub proof fn lemma_import_all_or_nothing(
    text: Seq<char>,
    table: ImportTable,
    today: i32,
    inputs: Seq<ImportInput>,
)
    requires
        table_fits(text, table),
    ensures
        import_consistent(text, table, today, import_run(text, table, today, inputs)),
    decreases inputs.len(),
{
    if inputs.len() > 0 {
        lemma_import_all_or_nothing(text, table, today, inputs.drop_last());
        let before = import_run(text, table, today, inputs.drop_last());
        let after = import_run(text, table, today, inputs);
        let s = before.state;
        let last = inputs.last();
        let (next, turn) = import_step(s, last.cancelled, last.reply);
        assert(before.inserts.push(before.inserts.len() as usize) =~= places(
            before.inserts.len() + 1,
        ));
        if s.phase == ImportPhase::Validating && s.cursor < s.entries.len() {
            assert forall|i: int| 0 <= i < next.cursor implies entry_faults(
                #[trigger] next.entries[i],
                today,
            ).len() == 0 by {
                if i == s.cursor {
                } else {
                    assert(i < s.cursor);
                }
            }
        }
    } else {
        assert(Seq::<usize>::empty() =~= places(0));
    }
}

/// A table with a row that cannot be read or that breaks a rule leaves the
/// store untouched: no transaction, no insert, no commit, and no result.
pub proof fn lemma_import_refuses_invalid_table(
    text: Seq<char>,
    table: ImportTable,
    today: i32,
    inputs: Seq<ImportInput>,
)
    requires
        table_fits(text, table),
        !table_is_valid(text, table, today),
    ensures
        !import_run(text, table, today, inputs).began,
        import_run(text, table, today, inputs).inserts.len() == 0,
        !import_run(text, table, today, inputs).commit_asked,
        !(import_run(text, table, today, inputs).command matches ImportCommandView::Finish(Ok(_))),
{
    lemma_import_all_or_nothing(text, table, today, inputs);
}

/// An import whose token is cancelled from the start leaves the store
/// untouched and ends without a result, provided that the table has a row:
/// the first checkpoint stands before the validation of the first row, so a
/// table without rows passes none.
pub proof fn lemma_import_cancelled_before_start(
    text: Seq<char>,
    table: ImportTable,
    today: i32,
    inputs: Seq<ImportInput>,
)
    requires
        table_fits(text, table),
        forall|i: int| 0 <= i < inputs.len() ==> (#[trigger] inputs[i]).cancelled,
        decode_table(table, csv_records(text)) matches Ok(entries) ==> entries.len() > 0,
    ensures
        !import_run(text, table, today, inputs).began,
        import_run(text, table, today, inputs).inserts.len() == 0,
        import_run(text, table, today, inputs).command is Continue || import_run(
            text,
            table,
            today,
            inputs,
        ).command matches ImportCommandView::Finish(Err(_)),
        import_run(text, table, today, inputs).state.phase == ImportPhase::Validating
            ==> import_run(text, table, today, inputs).state.cursor == 0,
    decreases inputs.len(),
{
    lemma_import_all_or_nothing(text, table, today, inputs);
    if inputs.len() > 0 {
        let before = inputs.drop_last();
        assert forall|i: int| 0 <= i < before.len() implies (#[trigger] before[i]).cancelled by {
            assert(before[i] == inputs[i]);
        }
        lemma_import_cancelled_before_start(text, table, today, before);
        lemma_import_all_or_nothing(text, table, today, before);
        assert(inputs.last() == inputs[inputs.len() - 1]);
    }
}

/// A cancellation takes effect at the next checkpoint. At a checkpoint at
/// which the token answers that a cancellation is pending, the import hands
/// nothing more to the store: before the transaction it finishes at once, as
/// cancelled; inside the transaction it asks for the rollback and finishes
/// with the step after, as cancelled and rolled back, whatever the store and
/// the token answer then.
pub proof fn lemma_import_cancel_is_prompt(
    s: ImportSessionView,
    reply: StoreReplyView,
    later: ImportInput,
)
    requires
        at_checkpoint(s),
        s.phase == ImportPhase::Validating || reply is Done,
    ensures
        ({
            let (after, turn) = import_step(s, true, reply);
            let (end, last) = import_step(after, later.cancelled, later.reply);
            &&& s.phase == ImportPhase::Validating ==> turn.command == ImportCommandView::Finish(
                Err(cancelled_message()),
            ) && turn.progress.last().stage == ImportStage::Cancelled
            &&& s.phase != ImportPhase::Validating ==> {
                &&& turn.command is Rollback
                &&& turn.progress.len() == 0
                &&& last.command == ImportCommandView::Finish(Err(rolled_back_message()))
                &&& last.progress.last().stage == ImportStage::Cancelled
            }
        }),
{
}

} // verus!
