//! Import of tabular data into the store: the cancellation token, the
//! progress events and the result of the import engine.

pub mod csv;
pub mod rows;

use std::sync::atomic::AtomicBool;
use std::sync::atomic::Ordering;
use std::sync::Arc;
use vstd::prelude::*;
use vstd::string::*;

use crate::percent::Percent;
use crate::timeline::Mark;

verus! {

// ============================================================================
// CANCELLATION STATE
// ============================================================================

/// Cancellation flag for imports. Every clone shares the same flag, so the
/// thread that asks for the cancellation and the thread that imports can each
/// hold one. Checking is cooperative: the engine polls the flag at its
/// checkpoints, and what a poll returns depends on what other threads stored
/// in the meantime.
#[derive(Clone)]
pub struct ImportCancellation {
    pub cancelled: Arc<AtomicBool>,
}

impl ImportCancellation {
    /// A fresh token, not cancelled.
    pub fn new() -> Self {
        Self { cancelled: Arc::new(AtomicBool::new(false)) }
    }

    /// Asks the running import to stop at its next checkpoint.
    pub fn cancel(&self) {
        self.cancelled.store(true, Ordering::Relaxed);
    }

    /// Whether a cancellation is pending.
    pub fn is_cancelled(&self) -> bool {
        self.cancelled.load(Ordering::Relaxed)
    }

    /// Clears a pending cancellation, so that it cannot leak into the next import.
    pub fn reset(&self) {
        self.cancelled.store(false, Ordering::Relaxed);
    }
}

// ============================================================================
// SHARED TYPES
// ============================================================================

/// Target table for import
#[derive(Clone, Copy, Debug, PartialEq, Eq, Structural)]
pub enum ImportTable {
    Intake,
    WeightTracker,
    IntakeTarget,
    WeightTarget,
}

/// User selected import format
#[derive(Clone, Copy, Debug, PartialEq, Eq, Structural)]
pub enum ImportFormat {
    Csv,
}

/// Import result
#[derive(Clone, Copy, Debug, PartialEq, Eq, Structural)]
pub struct ImportResult {
    pub imported_count: usize,
    pub table: ImportTable,
}

/// Progress stage
#[derive(Clone, Copy, Debug, PartialEq, Eq, Structural)]
pub enum ImportStage {
    Initializing,
    ValidatingFile,
    ParsingData,
    ValidatingEntries,
    InsertingData,
    Complete,
    Cancelled,
    Error,
}

impl ImportStage {
    /// Whether the stage ends an import.
    pub open spec fn is_terminal(self) -> bool {
        self == ImportStage::Complete || self == ImportStage::Cancelled || self == ImportStage::Error
    }

    /// The position of the stage in the order in which an import passes
    /// through its stages; the three terminal stages share the last position.
    pub open spec fn rank(self) -> nat {
        match self {
            ImportStage::Initializing => 0,
            ImportStage::ValidatingFile => 1,
            ImportStage::ParsingData => 2,
            ImportStage::ValidatingEntries => 3,
            ImportStage::InsertingData => 4,
            ImportStage::Complete => 5,
            ImportStage::Cancelled => 5,
            ImportStage::Error => 5,
        }
    }
}

/// Progress tracking
#[derive(Debug)]
pub struct ImportProgress {
    pub stage: ImportStage,
    pub percent: Percent,
    pub message: String,
    pub total_rows: Option<usize>,
    pub rows_processed: Option<usize>,
    pub successful_imports: usize,
    pub failed_imports: usize,
}

/// What an [`ImportProgress`] holds, as mathematical values.
pub struct ImportProgressView {
    pub stage: ImportStage,
    pub percent: nat,
    pub message: Seq<char>,
    pub total_rows: Option<usize>,
    pub rows_processed: Option<usize>,
    pub successful_imports: usize,
    pub failed_imports: usize,
}

impl View for ImportProgress {
    type V = ImportProgressView;

    open spec fn view(&self) -> ImportProgressView {
        ImportProgressView {
            stage: self.stage,
            percent: self.percent.hundredths as nat,
            message: self.message@,
            total_rows: self.total_rows,
            rows_processed: self.rows_processed,
            successful_imports: self.successful_imports,
            failed_imports: self.failed_imports,
        }
    }
}

/// The progress event with the given contents.
pub open spec fn event(
    stage: ImportStage,
    percent: nat,
    message: Seq<char>,
    total_rows: Option<usize>,
    rows_processed: Option<usize>,
    successful_imports: usize,
    failed_imports: usize,
) -> ImportProgressView {
    ImportProgressView {
        stage,
        percent,
        message,
        total_rows,
        rows_processed,
        successful_imports,
        failed_imports,
    }
}

/// What the order of a run reads of an import event.
pub open spec fn mark_of(e: ImportProgressView) -> Mark {
    Mark {
        rank: e.stage.rank(),
        percent: e.percent,
        closing: e.stage.is_terminal(),
        interrupted: e.stage == ImportStage::Cancelled || e.stage == ImportStage::Error,
    }
}

/// What the order of a run reads of a list of import events.
pub open spec fn marks_of(events: Seq<ImportProgressView>) -> Seq<Mark> {
    events.map_values(|e: ImportProgressView| mark_of(e))
}

/// The views of a list of progress events, in order.
pub open spec fn progress_views(events: Seq<ImportProgress>) -> Seq<ImportProgressView> {
    events.map_values(|e: ImportProgress| e@)
}

/// An empty list of events to queue progress on.
pub fn new_outbox() -> (outbox: Vec<ImportProgress>)
    ensures
        progress_views(outbox@) == Seq::<ImportProgressView>::empty(),
{
    let outbox: Vec<ImportProgress> = Vec::new();
    assert(progress_views(outbox@) =~= Seq::<ImportProgressView>::empty());
    outbox
}

// ============================================================================
// HELPER FUNCTIONS
// ============================================================================

/// Queues a progress update on `outbox`, the list of events that the caller
/// delivers to its progress sink. Delivery is the caller's business and never
/// reaches back into the import.
pub fn send_progress(
    outbox: &mut Vec<ImportProgress>,
    stage: ImportStage,
    percent: Percent,
    message: &str,
    total_rows: Option<usize>,
    rows_processed: Option<usize>,
    successful_imports: usize,
    failed_imports: usize,
)
    ensures
        progress_views(final(outbox)@) == progress_views(old(outbox)@).push(
            event(
                stage,
                percent.hundredths as nat,
                message@,
                total_rows,
                rows_processed,
                successful_imports,
                failed_imports,
            ),
        ),
{
    let event = ImportProgress {
        stage,
        percent,
        message: String::from_str(message),
        total_rows,
        rows_processed,
        successful_imports,
        failed_imports,
    };
    outbox.push(event);
    assert(progress_views(outbox@) =~= progress_views(old(outbox)@).push(event@));
}

// ============================================================================
// COMMANDS
// ============================================================================

/// Starts the import of `csv_data` into `target_table`: clears what is left
/// of an earlier cancellation and hands out the session that imports the
/// table today. The session clears the token again when it finishes.
pub fn import_data_from_string(
    cancellation: &ImportCancellation,
    csv_data: String,
    import_format: ImportFormat,
    target_table: ImportTable,
) -> (session: csv::ImportSession)
    ensures
        exists|day: i32| session@ == #[trigger] csv::import_start(csv_data@, target_table, day),
{
    // Reset cancellation flag at the start
    cancellation.reset();
    match import_format {
        ImportFormat::Csv => csv::import_csv(csv_data.as_str(), target_table),
    }
}

/// Cancel the current import operation
pub fn cancel_import(cancellation: &ImportCancellation) {
    cancellation.cancel();
}

} // verus!
