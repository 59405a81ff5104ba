//! The raw snapshot export: a byte-exact copy of the store.
//!
//! The store, the temporary file and the progress sink are out of reach of
//! this library, so the export is written as a machine. [`RawExport::step`]
//! takes the outcome of the command that the previous step handed out, and
//! answers with the progress events to deliver and the next command. The caller
//! performs the command and comes back with its outcome, until the command is
//! [`RawCommand::Finish`].
//!
//! While the store writes the snapshot it reports nothing. The caller runs a
//! [`SnapshotTicker`] beside that command, delivers its reports for as long as
//! it makes any, and joins it before it takes the next step.

use std::sync::atomic::AtomicBool;
use std::sync::atomic::Ordering;
use vstd::prelude::*;
use vstd::string::*;

use super::{
    event, format_bytes, format_bytes_text, mark_of, marks_of, new_outbox, progress_views,
    send_progress, ExportCancellation, ExportProgress, ExportProgressView, ExportResult,
    ExportResultView, ExportStage,
};
use crate::clock::local_stamp;
use crate::percent::{lemma_scaled_monotone, scaled, Percent};
use crate::text::{decimal, push_decimal, push_signed_decimal, signed_decimal};
use crate::timeline::{
    closed, closing_count, continues, lemma_append_closing, lemma_append_open,
    lemma_closed_has_one, orderly, reaches, Mark,
};

verus! {

/// Bytes asked for with every read of the snapshot: 64 KiB.
pub const CHUNK_SIZE: usize = 65536;

/// Number of reports that the ticker spreads over the writing of the snapshot.
pub const SNAPSHOT_TICKS: usize = 50;

/// Where a raw export stands: which outcome its next step expects.
#[derive(Clone, Copy, Debug, PartialEq, Eq, Structural)]
pub enum RawPhase {
    /// Nothing has happened yet.
    Start,
    /// Waiting for the store handle.
    Connecting,
    /// Waiting for the number of pages of the store.
    CountingPages,
    /// Waiting for the size of a page.
    SizingPages,
    /// Waiting for the store to write the snapshot.
    Snapshotting,
    /// Waiting for the size of the snapshot file.
    Measuring,
    /// Waiting for the snapshot file to be opened.
    Opening,
    /// Waiting for the next chunk of the snapshot file.
    Reading,
    /// Waiting for the removal of the snapshot file after a complete read.
    Cleaning,
    /// Waiting for the removal of the snapshot file after an interruption.
    Discarding,
    /// The export has handed out its result.
    Finished,
}

/// The outcome of a command.
pub enum RawReply {
    /// The command succeeded and has nothing to tell.
    Done,
    /// The number that the store reported, if it reported one.
    Number(Option<i64>),
    /// The size of the snapshot file in bytes.
    Size(usize),
    /// The bytes that a read returned; none at the end of the file.
    Chunk(Vec<u8>),
    /// The command failed, with the reason.
    Failed(String),
}

/// What a [`RawReply`] holds, as mathematical values.
pub enum RawReplyView {
    Done,
    Number(Option<i64>),
    Size(usize),
    Chunk(Seq<u8>),
    Failed(Seq<char>),
}

impl View for RawReply {
    type V = RawReplyView;

    open spec fn view(&self) -> RawReplyView {
        match self {
            RawReply::Done => RawReplyView::Done,
            RawReply::Number(n) => RawReplyView::Number(*n),
            RawReply::Size(n) => RawReplyView::Size(*n),
            RawReply::Chunk(bytes) => RawReplyView::Chunk(bytes@),
            RawReply::Failed(reason) => RawReplyView::Failed(reason@),
        }
    }
}

/// What the caller has to do before the next step.
pub enum RawCommand {
    /// Obtain a handle on the store.
    Connect,
    /// Ask the store how many pages it holds.
    CountPages,
    /// Ask the store how large a page is.
    SizePages,
    /// Have the store write a consistent snapshot to a temporary file, with the
    /// ticker running beside it.
    Snapshot { page_count: i64, page_size: i64, estimated: usize },
    /// Look up the size of the snapshot file.
    MeasureSnapshot,
    /// Open the snapshot file for reading.
    OpenSnapshot,
    /// Read up to [`CHUNK_SIZE`] bytes from the snapshot file.
    ReadChunk,
    /// Remove the snapshot file.
    RemoveSnapshot,
    /// Return this result: the export is over.
    Finish(Result<ExportResult, String>),
}

/// What a [`RawCommand`] holds, as mathematical values.
pub enum RawCommandView {
    Connect,
    CountPages,
    SizePages,
    Snapshot { page_count: i64, page_size: i64, estimated: usize },
    MeasureSnapshot,
    OpenSnapshot,
    ReadChunk,
    RemoveSnapshot,
    Finish(Result<ExportResultView, Seq<char>>),
}

impl View for RawCommand {
    type V = RawCommandView;

    open spec fn view(&self) -> RawCommandView {
        match self {
            RawCommand::Connect => RawCommandView::Connect,
            RawCommand::CountPages => RawCommandView::CountPages,
            RawCommand::SizePages => RawCommandView::SizePages,
            RawCommand::Snapshot { page_count, page_size, estimated } => RawCommandView::Snapshot {
                page_count: *page_count,
                page_size: *page_size,
                estimated: *estimated,
            },
            RawCommand::MeasureSnapshot => RawCommandView::MeasureSnapshot,
            RawCommand::OpenSnapshot => RawCommandView::OpenSnapshot,
            RawCommand::ReadChunk => RawCommandView::ReadChunk,
            RawCommand::RemoveSnapshot => RawCommandView::RemoveSnapshot,
            RawCommand::Finish(Ok(result)) => RawCommandView::Finish(Ok(result@)),
            RawCommand::Finish(Err(message)) => RawCommandView::Finish(Err(message@)),
        }
    }
}

/// What one step hands to the caller: the events to deliver, in order, and the
/// command to perform.
pub struct RawTurn {
    pub progress: Vec<ExportProgress>,
    pub command: RawCommand,
}

/// What a [`RawTurn`] holds, as mathematical values.
pub struct RawTurnView {
    pub progress: Seq<ExportProgressView>,
    pub command: RawCommandView,
}

impl View for RawTurn {
    type V = RawTurnView;

    open spec fn view(&self) -> RawTurnView {
        RawTurnView { progress: progress_views(self.progress@), command: self.command@ }
    }
}

/// A raw export in progress.
pub struct RawExport {
    phase: RawPhase,
    page_count: i64,
    page_size: i64,
    estimated: usize,
    total_bytes: usize,
    bytes: Vec<u8>,
    failure: String,
}

/// What a [`RawExport`] holds, as mathematical values.
pub struct RawExportView {
    pub phase: RawPhase,
    /// Pages that the store reported.
    pub page_count: i64,
    /// Size of a page that the store reported.
    pub page_size: i64,
    /// Size of the artifact as estimated from both. Advisory only.
    pub estimated: usize,
    /// Size of the snapshot file.
    pub total_bytes: usize,
    /// What has been read of the snapshot file.
    pub bytes: Seq<u8>,
    /// The message of the interruption that the export is cleaning up after.
    pub failure: Seq<char>,
}

impl View for RawExport {
    type V = RawExportView;

    closed spec fn view(&self) -> RawExportView {
        RawExportView {
            phase: self.phase,
            page_count: self.page_count,
            page_size: self.page_size,
            estimated: self.estimated,
            total_bytes: self.total_bytes,
            bytes: self.bytes@,
            failure: self.failure@,
        }
    }
}

// ============================================================================
// THE MODEL
// ============================================================================

/// A raw export before its first step.
pub open spec fn raw_start() -> RawExportView {
    RawExportView {
        phase: RawPhase::Start,
        page_count: 0,
        page_size: 4096,
        estimated: 0,
        total_bytes: 0,
        bytes: Seq::empty(),
        failure: Seq::empty(),
    }
}

/// The size of a store of `page_count` pages of `page_size` bytes: nothing
/// where either is not positive, and no more than a size can hold.
pub open spec fn estimated_size(page_count: int, page_size: int) -> nat {
    if page_count <= 0 || page_size <= 0 {
        0
    } else if page_count * page_size > usize::MAX {
        usize::MAX as nat
    } else {
        (page_count * page_size) as nat
    }
}

/// The message of a cancelled export.
pub open spec fn cancelled_message() -> Seq<char> {
    "Export cancelled by user"@
}

/// What a failed command said, or that the outcome was of the wrong kind.
pub open spec fn reply_detail(reply: RawReplyView) -> Seq<char> {
    match reply {
        RawReplyView::Failed(reason) => reason,
        _ => "unexpected reply"@,
    }
}

/// The message that reports the estimated size.
pub open spec fn size_message(page_count: int, estimated: nat) -> Seq<char> {
    "Database size: "@ + signed_decimal(page_count) + " pages (~"@ + format_bytes_text(estimated)
        + ")"@
}

/// The message that reports how much of the snapshot file has been read.
pub open spec fn reading_message(read: nat, total: nat) -> Seq<char> {
    "Reading: "@ + format_bytes_text(read) + "/"@ + format_bytes_text(total)
}

/// The message of a completed export.
pub open spec fn complete_message(size: nat) -> Seq<char> {
    "Export complete ("@ + format_bytes_text(size) + ")"@
}

/// The file name suggested for a raw export made at the moment `stamp`.
pub open spec fn raw_file_name(stamp: Seq<char>) -> Seq<char> {
    "librefit_export_"@ + stamp + ".db"@
}

/// The name of the temporary snapshot file made at `nanos` nanoseconds.
pub open spec fn snapshot_file_name_text(nanos: nat) -> Seq<char> {
    "librefit_backup_"@ + decimal(nanos) + ".db"@
}

/// The step that moves to `phase`, reports `progress` and hands out `command`.
pub open spec fn go(
    s: RawExportView,
    phase: RawPhase,
    progress: Seq<ExportProgressView>,
    command: RawCommandView,
) -> (RawExportView, RawTurnView) {
    (RawExportView { phase, ..s }, RawTurnView { progress, command })
}

/// The step that interrupts the export: it reports `stage` with `message`
/// after the events `before`, and either finishes with the message or, where a
/// snapshot file may exist, has it removed first.
pub open spec fn interrupt(
    s: RawExportView,
    before: Seq<ExportProgressView>,
    stage: ExportStage,
    message: Seq<char>,
    cleanup: bool,
) -> (RawExportView, RawTurnView) {
    let progress = before.push(event(stage, 0, message, None, None));
    if cleanup {
        (
            RawExportView { phase: RawPhase::Discarding, failure: message, ..s },
            RawTurnView { progress, command: RawCommandView::RemoveSnapshot },
        )
    } else {
        (
            RawExportView { phase: RawPhase::Finished, ..s },
            RawTurnView { progress, command: RawCommandView::Finish(Err(message)) },
        )
    }
}

/// No events.
pub open spec fn nothing() -> Seq<ExportProgressView> {
    Seq::empty()
}

/// The step after the attempt to connect.
pub open spec fn connected(s: RawExportView, cancelled: bool, reply: RawReplyView) -> (
    RawExportView,
    RawTurnView,
) {
    match reply {
        RawReplyView::Done => {
            let progress = nothing().push(
                event(ExportStage::Initializing, 500, "Connected to database"@, None, None),
            ).push(
                event(
                    ExportStage::AnalyzingDatabase,
                    500,
                    "Analyzing database size..."@,
                    None,
                    None,
                ),
            );
            if cancelled {
                interrupt(s, progress, ExportStage::Cancelled, cancelled_message(), false)
            } else {
                go(s, RawPhase::CountingPages, progress, RawCommandView::CountPages)
            }
        },
        _ => interrupt(
            s,
            nothing(),
            ExportStage::Error,
            "Failed to get database connection: "@ + reply_detail(reply),
            false,
        ),
    }
}

/// The step after the store was asked for its number of pages.
pub open spec fn pages_counted(s: RawExportView, reply: RawReplyView) -> (
    RawExportView,
    RawTurnView,
) {
    match reply {
        RawReplyView::Number(n) => go(
            RawExportView {
                page_count: match n {
                    Some(count) => count,
                    None => 0,
                },
                ..s
            },
            RawPhase::SizingPages,
            nothing(),
            RawCommandView::SizePages,
        ),
        _ => interrupt(
            s,
            nothing(),
            ExportStage::Error,
            "Failed to get page count: "@ + reply_detail(reply),
            false,
        ),
    }
}

/// The step after the store was asked for the size of a page.
pub open spec fn pages_sized(s: RawExportView, reply: RawReplyView) -> (
    RawExportView,
    RawTurnView,
) {
    match reply {
        RawReplyView::Number(n) => {
            let page_size = match n {
                Some(size) => size,
                None => 4096,
            };
            let estimated = estimated_size(s.page_count as int, page_size as int) as usize;
            go(
                RawExportView { page_size, estimated, ..s },
                RawPhase::Snapshotting,
                nothing().push(
                    event(
                        ExportStage::AnalyzingDatabase,
                        1000,
                        size_message(s.page_count as int, estimated as nat),
                        None,
                        Some(estimated),
                    ),
                ).push(
                    event(
                        ExportStage::CreatingBackup,
                        1000,
                        "Creating backup..."@,
                        None,
                        Some(estimated),
                    ),
                ),
                RawCommandView::Snapshot { page_count: s.page_count, page_size, estimated },
            )
        },
        _ => interrupt(
            s,
            nothing(),
            ExportStage::Error,
            "Failed to get page size: "@ + reply_detail(reply),
            false,
        ),
    }
}

/// The step after the store was told to write the snapshot.
pub open spec fn snapshot_written(s: RawExportView, cancelled: bool, reply: RawReplyView) -> (
    RawExportView,
    RawTurnView,
) {
    match reply {
        RawReplyView::Done => if cancelled {
            interrupt(s, nothing(), ExportStage::Cancelled, cancelled_message(), true)
        } else {
            go(
                s,
                RawPhase::Measuring,
                nothing().push(
                    event(
                        ExportStage::CreatingBackup,
                        6000,
                        "Backup created"@,
                        Some(s.estimated),
                        Some(s.estimated),
                    ),
                ).push(
                    event(ExportStage::ReadingFile, 6000, "Reading backup file..."@, None, None),
                ),
                RawCommandView::MeasureSnapshot,
            )
        },
        _ => interrupt(
            s,
            nothing(),
            ExportStage::Error,
            "Failed to create backup: "@ + reply_detail(reply),
            true,
        ),
    }
}

/// The step after the snapshot file was measured.
pub open spec fn snapshot_measured(s: RawExportView, reply: RawReplyView) -> (
    RawExportView,
    RawTurnView,
) {
    match reply {
        RawReplyView::Size(total) => go(
            RawExportView { total_bytes: total, ..s },
            RawPhase::Opening,
            nothing(),
            RawCommandView::OpenSnapshot,
        ),
        _ => interrupt(
            s,
            nothing(),
            ExportStage::Error,
            "Failed to read backup metadata: "@ + reply_detail(reply),
            true,
        ),
    }
}

/// The checkpoint before a read: on a cancellation the export stops after the
/// events `before`, else it has the next chunk read.
pub open spec fn read_on(s: RawExportView, cancelled: bool, before: Seq<ExportProgressView>) -> (
    RawExportView,
    RawTurnView,
) {
    if cancelled {
        interrupt(s, before, ExportStage::Cancelled, cancelled_message(), true)
    } else {
        go(s, RawPhase::Reading, before, RawCommandView::ReadChunk)
    }
}

/// The step after the snapshot file was opened.
pub open spec fn snapshot_opened(s: RawExportView, cancelled: bool, reply: RawReplyView) -> (
    RawExportView,
    RawTurnView,
) {
    match reply {
        RawReplyView::Done => read_on(s, cancelled, nothing()),
        _ => interrupt(
            s,
            nothing(),
            ExportStage::Error,
            "Failed to open backup file: "@ + reply_detail(reply),
            true,
        ),
    }
}

/// The step after a read of the snapshot file.
pub open spec fn chunk_read(s: RawExportView, cancelled: bool, reply: RawReplyView) -> (
    RawExportView,
    RawTurnView,
) {
    match reply {
        RawReplyView::Chunk(chunk) => if chunk.len() == 0 {
            go(
                s,
                RawPhase::Cleaning,
                nothing().push(
                    event(
                        ExportStage::ReadingFile,
                        9500,
                        "File read complete"@,
                        Some(s.total_bytes),
                        Some(s.total_bytes),
                    ),
                ).push(event(ExportStage::Finalizing, 9500, "Cleaning up..."@, None, None)),
                RawCommandView::RemoveSnapshot,
            )
        } else {
            let bytes = s.bytes + chunk;
            read_on(
                RawExportView { bytes, ..s },
                cancelled,
                nothing().push(
                    event(
                        ExportStage::ReadingFile,
                        scaled(60, 35, bytes.len(), s.total_bytes as nat),
                        reading_message(bytes.len(), s.total_bytes as nat),
                        Some(bytes.len() as usize),
                        Some(s.total_bytes),
                    ),
                ),
            )
        },
        _ => interrupt(
            s,
            nothing(),
            ExportStage::Error,
            "Failed to read backup: "@ + reply_detail(reply),
            true,
        ),
    }
}

/// The step after the snapshot file was removed: the export is complete,
/// whether or not the removal worked.
pub open spec fn cleaned(s: RawExportView, stamp: Seq<char>) -> (RawExportView, RawTurnView) {
    go(
        RawExportView { bytes: Seq::empty(), ..s },
        RawPhase::Finished,
        nothing().push(event(ExportStage::Finalizing, 9800, "Cleanup complete"@, None, None)).push(
            event(
                ExportStage::Complete,
                10_000,
                complete_message(s.bytes.len()),
                Some(s.bytes.len() as usize),
                Some(s.bytes.len() as usize),
            ),
        ),
        RawCommandView::Finish(
            Ok(ExportResultView { bytes: s.bytes, file_path: raw_file_name(stamp) }),
        ),
    )
}

/// Whether the next step polls the cancellation token: after connecting, after
/// the snapshot was written, and before every read.
pub open spec fn at_checkpoint(phase: RawPhase) -> bool {
    phase == RawPhase::Connecting || phase == RawPhase::Snapshotting || phase == RawPhase::Opening
        || phase == RawPhase::Reading
}

/// One step of a raw export: from the state `s`, the answer `cancelled` of the
/// cancellation token, the outcome `reply` of the last command and the moment
/// `stamp` to the next state and what the caller is handed.
///
/// The token counts only at a checkpoint and the moment only when the export
/// completes.
pub open spec fn raw_step(
    s: RawExportView,
    cancelled: bool,
    reply: RawReplyView,
    stamp: Seq<char>,
) -> (RawExportView, RawTurnView) {
    match s.phase {
        RawPhase::Start => go(
            s,
            RawPhase::Connecting,
            nothing().push(
                event(ExportStage::Initializing, 0, "Starting export..."@, None, None),
            ),
            RawCommandView::Connect,
        ),
        RawPhase::Connecting => connected(s, cancelled, reply),
        RawPhase::CountingPages => pages_counted(s, reply),
        RawPhase::SizingPages => pages_sized(s, reply),
        RawPhase::Snapshotting => snapshot_written(s, cancelled, reply),
        RawPhase::Measuring => snapshot_measured(s, reply),
        RawPhase::Opening => snapshot_opened(s, cancelled, reply),
        RawPhase::Reading => chunk_read(s, cancelled, reply),
        RawPhase::Cleaning => cleaned(s, stamp),
        RawPhase::Discarding => go(
            s,
            RawPhase::Finished,
            nothing(),
            RawCommandView::Finish(Err(s.failure)),
        ),
        RawPhase::Finished => go(
            s,
            RawPhase::Finished,
            nothing(),
            RawCommandView::Finish(Err("Export already finished"@)),
        ),
    }
}

/// The pages that the ticker takes as written at its report `index`: the share
/// `index / 50` of all pages.
pub open spec fn pages_at_tick(index: nat, page_count: int) -> int {
    if page_count <= 0 {
        0
    } else {
        (page_count * index) / 50
    }
}

/// The message of a report of the ticker.
pub open spec fn tick_message(pages: int, page_count: int) -> Seq<char> {
    "Compacting database... ("@ + signed_decimal(pages) + "/"@ + signed_decimal(page_count)
        + "  pages)"@
}

/// The report `index` of the ticker that runs beside the writing of the
/// snapshot of a store of `page_count` pages of `page_size` bytes: one percent
/// further with every report, from ten percent on.
pub open spec fn tick_event(
    index: nat,
    page_count: i64,
    page_size: i64,
    estimated: usize,
) -> ExportProgressView {
    let pages = pages_at_tick(index, page_count as int);
    event(
        ExportStage::CreatingBackup,
        1000 + 100 * index,
        tick_message(pages, page_count as int),
        Some(estimated_size(pages, page_size as int) as usize),
        Some(estimated),
    )
}

/// The pause between two reports of the ticker, in milliseconds: the writing
/// is taken to manage ten kibibytes in a millisecond and to last half a second
/// at least, and the reports are spread evenly over it.
pub open spec fn tick_pause(estimated: nat) -> nat {
    if estimated / 1024 / 10 >= 500 {
        estimated / 1024 / 10 / 50
    } else {
        10
    }
}

// ============================================================================
// THE ENGINE
// ============================================================================

/// The size of a store of `page_count` pages of `page_size` bytes.
pub fn estimate_size(page_count: i64, page_size: i64) -> (size: usize)
    ensures
        size == estimated_size(page_count as int, page_size as int),
{
    if page_count <= 0 || page_size <= 0 {
        0
    } else {
        assert(0 < page_count * page_size <= 0x7FFF_FFFF_FFFF_FFFF * 0x7FFF_FFFF_FFFF_FFFF)
            by (nonlinear_arith)
            requires
                0 < page_count <= 0x7FFF_FFFF_FFFF_FFFF,
                0 < page_size <= 0x7FFF_FFFF_FFFF_FFFF,
        ;
        let product: u128 = (page_count as u128) * (page_size as u128);
        if product > usize::MAX as u128 {
            usize::MAX
        } else {
            product as usize
        }
    }
}

/// The name of the temporary file that holds the snapshot made at `nanos`
/// nanoseconds since the epoch.
pub fn snapshot_file_name(nanos: u128) -> (name: String)
    ensures
        name@ == snapshot_file_name_text(nanos as nat),
{
    let mut name = String::from_str("librefit_backup_");
    push_decimal(&mut name, nanos);
    name.append(".db");
    name
}

/// Whether the ticker reports once more: it stops after its last report, when
/// the snapshot is written, and when a cancellation is pending.
pub fn keep_ticking(index: usize, snapshot_done: bool, cancelled: bool) -> (again: bool)
    ensures
        again == (index < SNAPSHOT_TICKS && !snapshot_done && !cancelled),
{
    index < SNAPSHOT_TICKS && !snapshot_done && !cancelled
}

/// The pause between two reports of the ticker, in milliseconds.
pub fn tick_pause_millis(estimated: usize) -> (millis: u64)
    ensures
        millis == tick_pause(estimated as nat),
{
    let duration = estimated / 1024 / 10;
    if duration >= 500 {
        (duration / 50) as u64
    } else {
        10
    }
}

/// The report `index` of the ticker.
pub fn snapshot_tick(index: usize, page_count: i64, page_size: i64, estimated: usize) -> (report:
    ExportProgress)
    requires
        index < SNAPSHOT_TICKS,
    ensures
        report@ == tick_event(index as nat, page_count, page_size, estimated),
{
    let pages: i64 = if page_count <= 0 {
        0
    } else {
        assert(0 <= (page_count as int * index as int) / 50 <= page_count) by (nonlinear_arith)
            requires
                0 < page_count,
                0 <= index < 50,
        ;
        assert(0 <= page_count as int * index as int <= 0x7FFF_FFFF_FFFF_FFFF * 50)
            by (nonlinear_arith)
            requires
                0 < page_count <= 0x7FFF_FFFF_FFFF_FFFF,
                0 <= index < 50,
        ;
        (((page_count as i128) * (index as i128)) / 50) as i64
    };
    let mut message = String::from_str("Compacting database... (");
    push_signed_decimal(&mut message, pages as i128);
    message.append("/");
    push_signed_decimal(&mut message, page_count as i128);
    message.append("  pages)");
    ExportProgress {
        stage: ExportStage::CreatingBackup,
        percent: Percent::whole(10 + index as u32),
        message,
        bytes_processed: Some(estimate_size(pages, page_size)),
        total_bytes: Some(estimated),
    }
}

/// The ticker that reports beside the writing of the snapshot. It is made
/// from what [`RawCommand::Snapshot`] carries and runs on a thread of its own:
/// the caller asks it for the next report, delivers the report and sleeps for
/// [`SnapshotTicker::pause_millis`], until the ticker has no report left.
pub struct SnapshotTicker {
    index: usize,
    page_count: i64,
    page_size: i64,
    estimated: usize,
}

impl SnapshotTicker {
    /// How many reports the ticker has made.
    pub closed spec fn made(&self) -> nat {
        self.index as nat
    }

    /// The report that the ticker makes as its report `index`.
    pub closed spec fn report_at(&self, index: nat) -> ExportProgressView {
        tick_event(index, self.page_count, self.page_size, self.estimated)
    }

    /// The pause between two reports, in milliseconds.
    pub closed spec fn pause(&self) -> nat {
        tick_pause(self.estimated as nat)
    }

    /// A ticker for a store of `page_count` pages of `page_size` bytes, of an
    /// estimated size of `estimated` bytes.
    pub fn new(page_count: i64, page_size: i64, estimated: usize) -> (ticker: SnapshotTicker)
        ensures
            ticker.made() == 0,
            ticker.pause() == tick_pause(estimated as nat),
            forall|index: nat| #[trigger]
                ticker.report_at(index) == tick_event(index, page_count, page_size, estimated),
    {
        SnapshotTicker { index: 0, page_count, page_size, estimated }
    }

    /// The pause between two reports, in milliseconds.
    pub fn pause_millis(&self) -> (millis: u64)
        ensures
            millis == self.pause(),
    {
        tick_pause_millis(self.estimated)
    }

    /// The next report, given whether the snapshot is written and whether a
    /// cancellation is pending: none once either is so, and none after the
    /// last report. A ticker that has answered with none stays as it is.
    pub fn next(&mut self, snapshot_done: bool, cancelled: bool) -> (report: Option<ExportProgress>)
        ensures
            report is Some <==> old(self).made() < SNAPSHOT_TICKS && !snapshot_done && !cancelled,
            forall|index: nat| #[trigger] final(self).report_at(index) == old(self).report_at(index),
            final(self).pause() == old(self).pause(),
            match report {
                Some(event) => {
                    &&& event@ == old(self).report_at(old(self).made())
                    &&& final(self).made() == old(self).made() + 1
                },
                None => final(self).made() == old(self).made(),
            },
    {
        if keep_ticking(self.index, snapshot_done, cancelled) {
            let report = snapshot_tick(self.index, self.page_count, self.page_size, self.estimated);
            self.index = self.index + 1;
            Some(report)
        } else {
            None
        }
    }

    /// The next report, after a look at the flag that tells that the snapshot
    /// is written and at the cancellation token. What the two answer is not
    /// known beforehand: the report is the one that [`SnapshotTicker::next`]
    /// makes for some answer of each.
    pub fn tick(&mut self, snapshot_done: &AtomicBool, cancellation: &ExportCancellation) -> (report:
        Option<ExportProgress>)
        ensures
            report is Some ==> old(self).made() < SNAPSHOT_TICKS,
            forall|index: nat| #[trigger] final(self).report_at(index) == old(self).report_at(index),
            final(self).pause() == old(self).pause(),
            match report {
                Some(event) => {
                    &&& event@ == old(self).report_at(old(self).made())
                    &&& final(self).made() == old(self).made() + 1
                },
                None => final(self).made() == old(self).made(),
            },
    {
        let done = snapshot_done.load(Ordering::Relaxed);
        let cancelled = cancellation.is_cancelled();
        self.next(done, cancelled)
    }
}

/// `prefix` followed by what a failed command said.
fn failure_message(prefix: &str, reply: &RawReply) -> (message: String)
    ensures
        message@ == prefix@ + reply_detail(reply@),
{
    let mut message = String::from_str(prefix);
    match reply {
        RawReply::Failed(reason) => message.append(reason.as_str()),
        _ => message.append("unexpected reply"),
    }
    message
}

impl RawExport {
    /// A raw export before its first step.
    pub fn new() -> (export: RawExport)
        ensures
            export@ == raw_start(),
    {
        RawExport {
            phase: RawPhase::Start,
            page_count: 0,
            page_size: 4096,
            estimated: 0,
            total_bytes: 0,
            bytes: Vec::new(),
            failure: String::new(),
        }
    }

    /// Where the export stands.
    pub fn phase(&self) -> (phase: RawPhase)
        ensures
            phase == self@.phase,
    {
        self.phase
    }

    /// Whether the export has handed out its result.
    pub fn is_finished(&self) -> (finished: bool)
        ensures
            finished == (self@.phase == RawPhase::Finished),
    {
        match self.phase {
            RawPhase::Finished => true,
            _ => false,
        }
    }

    /// Whether the next step polls the cancellation token.
    pub fn polls(&self) -> (polls: bool)
        ensures
            polls == at_checkpoint(self@.phase),
    {
        match self.phase {
            RawPhase::Connecting | RawPhase::Snapshotting => true,
            RawPhase::Opening | RawPhase::Reading => true,
            _ => false,
        }
    }

    fn go(&mut self, phase: RawPhase, progress: Vec<ExportProgress>, command: RawCommand) -> (turn:
        RawTurn)
        ensures
            (final(self)@, turn@) == go(old(self)@, phase, progress_views(progress@), command@),
    {
        self.phase = phase;
        RawTurn { progress, command }
    }

    fn interrupt(
        &mut self,
        before: Vec<ExportProgress>,
        stage: ExportStage,
        message: String,
        cleanup: bool,
    ) -> (turn: RawTurn)
        ensures
            (final(self)@, turn@) == interrupt(
                old(self)@,
                progress_views(before@),
                stage,
                message@,
                cleanup,
            ),
    {
        let mut progress = before;
        send_progress(&mut progress, stage, Percent::whole(0), message.as_str(), None, None);
        if cleanup {
            self.phase = RawPhase::Discarding;
            self.failure = message;
            RawTurn { progress, command: RawCommand::RemoveSnapshot }
        } else {
            self.phase = RawPhase::Finished;
            RawTurn { progress, command: RawCommand::Finish(Err(message)) }
        }
    }

    fn connected(&mut self, cancelled: bool, reply: RawReply) -> (turn: RawTurn)
        ensures
            (final(self)@, turn@) == connected(old(self)@, cancelled, reply@),
    {
        match reply {
            RawReply::Done => {
                let mut progress = new_outbox();
                send_progress(
                    &mut progress,
                    ExportStage::Initializing,
                    Percent::whole(5),
                    "Connected to database",
                    None,
                    None,
                );
                send_progress(
                    &mut progress,
                    ExportStage::AnalyzingDatabase,
                    Percent::whole(5),
                    "Analyzing database size...",
                    None,
                    None,
                );
                if cancelled {
                    self.interrupt(
                        progress,
                        ExportStage::Cancelled,
                        String::from_str("Export cancelled by user"),
                        false,
                    )
                } else {
                    self.go(RawPhase::CountingPages, progress, RawCommand::CountPages)
                }
            },
            _ => {
                let message = failure_message("Failed to get database connection: ", &reply);
                self.interrupt(new_outbox(), ExportStage::Error, message, false)
            },
        }
    }

    fn pages_counted(&mut self, reply: RawReply) -> (turn: RawTurn)
        ensures
            (final(self)@, turn@) == pages_counted(old(self)@, reply@),
    {
        match reply {
            RawReply::Number(n) => {
                self.page_count = match n {
                    Some(count) => count,
                    None => 0,
                };
                self.go(RawPhase::SizingPages, new_outbox(), RawCommand::SizePages)
            },
            _ => {
                let message = failure_message("Failed to get page count: ", &reply);
                self.interrupt(new_outbox(), ExportStage::Error, message, false)
            },
        }
    }

    fn pages_sized(&mut self, reply: RawReply) -> (turn: RawTurn)
        ensures
            (final(self)@, turn@) == pages_sized(old(self)@, reply@),
    {
        match reply {
            RawReply::Number(n) => {
                let page_size = match n {
                    Some(size) => size,
                    None => 4096,
                };
                let estimated = estimate_size(self.page_count, page_size);
                self.page_size = page_size;
                self.estimated = estimated;
                let mut message = String::from_str("Database size: ");
                push_signed_decimal(&mut message, self.page_count as i128);
                message.append(" pages (~");
                message.append(format_bytes(estimated).as_str());
                message.append(")");
                let mut progress = new_outbox();
                send_progress(
                    &mut progress,
                    ExportStage::AnalyzingDatabase,
                    Percent::whole(10),
                    message.as_str(),
                    None,
                    Some(estimated),
                );
                send_progress(
                    &mut progress,
                    ExportStage::CreatingBackup,
                    Percent::whole(10),
                    "Creating backup...",
                    None,
                    Some(estimated),
                );
                let page_count = self.page_count;
                self.go(
                    RawPhase::Snapshotting,
                    progress,
                    RawCommand::Snapshot { page_count, page_size, estimated },
                )
            },
            _ => {
                let message = failure_message("Failed to get page size: ", &reply);
                self.interrupt(new_outbox(), ExportStage::Error, message, false)
            },
        }
    }

    fn snapshot_written(&mut self, cancelled: bool, reply: RawReply) -> (turn: RawTurn)
        ensures
            (final(self)@, turn@) == snapshot_written(old(self)@, cancelled, reply@),
    {
        match reply {
            RawReply::Done => {
                if cancelled {
                    self.interrupt(
                        new_outbox(),
                        ExportStage::Cancelled,
                        String::from_str("Export cancelled by user"),
                        true,
                    )
                } else {
                    let mut progress = new_outbox();
                    send_progress(
                        &mut progress,
                        ExportStage::CreatingBackup,
                        Percent::whole(60),
                        "Backup created",
                        Some(self.estimated),
                        Some(self.estimated),
                    );
                    send_progress(
                        &mut progress,
                        ExportStage::ReadingFile,
                        Percent::whole(60),
                        "Reading backup file...",
                        None,
                        None,
                    );
                    self.go(RawPhase::Measuring, progress, RawCommand::MeasureSnapshot)
                }
            },
            _ => {
                let message = failure_message("Failed to create backup: ", &reply);
                self.interrupt(new_outbox(), ExportStage::Error, message, true)
            },
        }
    }

    fn snapshot_measured(&mut self, reply: RawReply) -> (turn: RawTurn)
        ensures
            (final(self)@, turn@) == snapshot_measured(old(self)@, reply@),
    {
        match reply {
            RawReply::Size(total) => {
                self.total_bytes = total;
                self.go(RawPhase::Opening, new_outbox(), RawCommand::OpenSnapshot)
            },
            _ => {
                let message = failure_message("Failed to read backup metadata: ", &reply);
                self.interrupt(new_outbox(), ExportStage::Error, message, true)
            },
        }
    }

    fn read_on(&mut self, cancelled: bool, before: Vec<ExportProgress>) -> (turn: RawTurn)
        ensures
            (final(self)@, turn@) == read_on(old(self)@, cancelled, progress_views(before@)),
    {
        if cancelled {
            self.interrupt(
                before,
                ExportStage::Cancelled,
                String::from_str("Export cancelled by user"),
                true,
            )
        } else {
            self.go(RawPhase::Reading, before, RawCommand::ReadChunk)
        }
    }

    fn snapshot_opened(&mut self, cancelled: bool, reply: RawReply) -> (turn: RawTurn)
        ensures
            (final(self)@, turn@) == snapshot_opened(old(self)@, cancelled, reply@),
    {
        match reply {
            RawReply::Done => self.read_on(cancelled, new_outbox()),
            _ => {
                let message = failure_message("Failed to open backup file: ", &reply);
                self.interrupt(new_outbox(), ExportStage::Error, message, true)
            },
        }
    }

    fn chunk_read(&mut self, cancelled: bool, reply: RawReply) -> (turn: RawTurn)
        ensures
            (final(self)@, turn@) == chunk_read(old(self)@, cancelled, reply@),
    {
        match reply {
            RawReply::Chunk(chunk) => {
                if chunk.len() == 0 {
                    let mut progress = new_outbox();
                    send_progress(
                        &mut progress,
                        ExportStage::ReadingFile,
                        Percent::whole(95),
                        "File read complete",
                        Some(self.total_bytes),
                        Some(self.total_bytes),
                    );
                    send_progress(
                        &mut progress,
                        ExportStage::Finalizing,
                        Percent::whole(95),
                        "Cleaning up...",
                        None,
                        None,
                    );
                    self.go(RawPhase::Cleaning, progress, RawCommand::RemoveSnapshot)
                } else {
                    let mut chunk = chunk;
                    self.bytes.append(&mut chunk);
                    let read = self.bytes.len();
                    let mut message = String::from_str("Reading: ");
                    message.append(format_bytes(read).as_str());
                    message.append("/");
                    message.append(format_bytes(self.total_bytes).as_str());
                    let mut progress = new_outbox();
                    send_progress(
                        &mut progress,
                        ExportStage::ReadingFile,
                        Percent::scaled(60, 35, read, self.total_bytes),
                        message.as_str(),
                        Some(read),
                        Some(self.total_bytes),
                    );
                    self.read_on(cancelled, progress)
                }
            },
            _ => {
                let message = failure_message("Failed to read backup: ", &reply);
                self.interrupt(new_outbox(), ExportStage::Error, message, true)
            },
        }
    }

    fn cleaned(&mut self, stamp: &str) -> (turn: RawTurn)
        ensures
            (final(self)@, turn@) == cleaned(old(self)@, stamp@),
    {
        let mut bytes: Vec<u8> = Vec::new();
        bytes.append(&mut self.bytes);
        let size = bytes.len();
        let mut message = String::from_str("Export complete (");
        message.append(format_bytes(size).as_str());
        message.append(")");
        let mut progress = new_outbox();
        send_progress(
            &mut progress,
            ExportStage::Finalizing,
            Percent::whole(98),
            "Cleanup complete",
            None,
            None,
        );
        send_progress(
            &mut progress,
            ExportStage::Complete,
            Percent::whole(100),
            message.as_str(),
            Some(size),
            Some(size),
        );
        let mut file_path = String::from_str("librefit_export_");
        file_path.append(stamp);
        file_path.append(".db");
        assert(bytes@ =~= old(self)@.bytes);
        self.go(
            RawPhase::Finished,
            progress,
            RawCommand::Finish(Ok(ExportResult { bytes, file_path })),
        )
    }

    /// One step of the export, with the answer of the cancellation token and
    /// the moment given by the caller.
    pub fn advance(&mut self, cancelled: bool, reply: RawReply, stamp: &str) -> (turn: RawTurn)
        ensures
            (final(self)@, turn@) == raw_step(old(self)@, cancelled, reply@, stamp@),
    {
        match self.phase {
            RawPhase::Start => {
                let mut progress = new_outbox();
                send_progress(
                    &mut progress,
                    ExportStage::Initializing,
                    Percent::whole(0),
                    "Starting export...",
                    None,
                    None,
                );
                self.go(RawPhase::Connecting, progress, RawCommand::Connect)
            },
            RawPhase::Connecting => self.connected(cancelled, reply),
            RawPhase::CountingPages => self.pages_counted(reply),
            RawPhase::SizingPages => self.pages_sized(reply),
            RawPhase::Snapshotting => self.snapshot_written(cancelled, reply),
            RawPhase::Measuring => self.snapshot_measured(reply),
            RawPhase::Opening => self.snapshot_opened(cancelled, reply),
            RawPhase::Reading => self.chunk_read(cancelled, reply),
            RawPhase::Cleaning => self.cleaned(stamp),
            RawPhase::Discarding => {
                let message = self.failure.clone();
                self.go(RawPhase::Finished, new_outbox(), RawCommand::Finish(Err(message)))
            },
            RawPhase::Finished => self.go(
                RawPhase::Finished,
                new_outbox(),
                RawCommand::Finish(Err(String::from_str("Export already finished"))),
            ),
        }
    }

    /// One step of the export.
    ///
    /// Polls `cancellation` where the export stands at a checkpoint, reads the
    /// clock where the export is about to complete, advances, and resets the
    /// token once the export is over, so that the cancellation of this export
    /// cannot reach the next. What the token and the clock answer is not known
    /// beforehand: the step is the one that [`raw_step`] describes for some
    /// answer of each.
    pub fn step(&mut self, cancellation: &ExportCancellation, reply: RawReply) -> (turn: RawTurn)
        ensures
            exists|cancelled: bool, stamp: Seq<char>|
                (final(self)@, turn@) == #[trigger] raw_step(old(self)@, cancelled, reply@, stamp),
    {
        let cancelled = if self.polls() {
            cancellation.is_cancelled()
        } else {
            false
        };
        let stamp = match self.phase {
            RawPhase::Cleaning => local_stamp("%Y-%m-%d_%H%M%S"),
            _ => String::new(),
        };
        let turn = self.advance(cancelled, reply, stamp.as_str());
        if self.is_finished() {
            cancellation.reset();
        }
        turn
    }
}

/// Export database as raw snapshot: the session, before its first step.
pub fn export_raw() -> (export: RawExport)
    ensures
        export@ == raw_start(),
{
    RawExport::new()
}

// ============================================================================
// WHAT HOLDS OF EVERY RUN
// ============================================================================

/// Whether an export in this phase may still report progress.
pub open spec fn is_open(phase: RawPhase) -> bool {
    phase != RawPhase::Discarding && phase != RawPhase::Finished
}

/// The stage that an export in state `s` has reached, as a rank.
pub open spec fn level_rank(s: RawExportView) -> nat {
    match s.phase {
        RawPhase::Start => 0,
        RawPhase::Connecting => 0,
        RawPhase::CountingPages => 1,
        RawPhase::SizingPages => 1,
        RawPhase::Snapshotting => 2,
        RawPhase::Measuring => 3,
        RawPhase::Opening => 3,
        RawPhase::Reading => 3,
        RawPhase::Cleaning => 4,
        RawPhase::Discarding => 5,
        RawPhase::Finished => 5,
    }
}

/// The percentage that an export in state `s` has reached, in hundredths, when
/// the ticker has reported `ticks` times.
pub open spec fn level_percent(s: RawExportView, ticks: nat) -> nat {
    match s.phase {
        RawPhase::Start => 0,
        RawPhase::Connecting => 0,
        RawPhase::CountingPages => 500,
        RawPhase::SizingPages => 500,
        RawPhase::Snapshotting => if ticks <= 50 {
            1000 + 100 * ticks
        } else {
            6000
        },
        RawPhase::Measuring => 6000,
        RawPhase::Opening => 6000,
        RawPhase::Reading => scaled(60, 35, s.bytes.len(), s.total_bytes as nat),
        RawPhase::Cleaning => 9500,
        RawPhase::Discarding => 10_000,
        RawPhase::Finished => 10_000,
    }
}

/// One round of a run.
pub enum RawInput {
    /// The engine takes a step: what the token and the clock answer and what
    /// the caller comes back with.
    Step { cancelled: bool, reply: RawReplyView, stamp: Seq<char> },
    /// The ticker is due. It reports only while the snapshot is being written
    /// and it has reports left.
    Tick,
}

/// A run so far: the state of the engine, the number of reports of the
/// ticker, everything reported, the command handed out last, and what has
/// become of the snapshot file.
pub struct RawRun {
    pub state: RawExportView,
    pub ticks: nat,
    pub events: Seq<ExportProgressView>,
    pub command: RawCommandView,
    /// Whether the store has been told to write the snapshot.
    pub snapshot_asked: bool,
    /// Whether the removal of the snapshot file has been asked for.
    pub removal_asked: bool,
    /// All bytes that the reads of the snapshot file have returned to the
    /// engine, in order.
    pub read: Seq<u8>,
}

/// The run after the rounds `inputs`.
pub open spec fn raw_run(inputs: Seq<RawInput>) -> RawRun
    decreases inputs.len(),
{
    if inputs.len() == 0 {
        RawRun {
            state: raw_start(),
            ticks: 0,
            events: nothing(),
            command: RawCommandView::Connect,
            snapshot_asked: false,
            removal_asked: false,
            read: Seq::empty(),
        }
    } else {
        let before = raw_run(inputs.drop_last());
        match inputs.last() {
            RawInput::Step { cancelled, reply, stamp } => {
                let (state, turn) = raw_step(before.state, cancelled, reply, stamp);
                RawRun {
                    state,
                    ticks: before.ticks,
                    events: before.events + turn.progress,
                    command: turn.command,
                    snapshot_asked: before.snapshot_asked || turn.command is Snapshot,
                    removal_asked: before.removal_asked || turn.command is RemoveSnapshot,
                    read: match reply {
                        RawReplyView::Chunk(chunk) => if before.state.phase == RawPhase::Reading {
                            before.read + chunk
                        } else {
                            before.read
                        },
                        _ => before.read,
                    },
                }
            },
            RawInput::Tick => if before.state.phase == RawPhase::Snapshotting && before.ticks < 50 {
                RawRun {
                    ticks: before.ticks + 1,
                    events: before.events.push(
                        tick_event(
                            before.ticks,
                            before.state.page_count,
                            before.state.page_size,
                            before.state.estimated,
                        ),
                    ),
                    ..before
                }
            } else {
                before
            },
        }
    }
}

/// What one step reports fits the state that it starts from and the state that
/// it leads to: the events continue from the level of the first, stay within
/// the level of the second, and close the run exactly when the export leaves
/// the open phases. A closed export reports nothing more. The step finishes
/// with a result exactly when its last event is `Complete`, and with an error
/// only after a `Cancelled` or `Error` event.
pub proof fn lemma_raw_step_fits(
    s: RawExportView,
    ticks: nat,
    cancelled: bool,
    reply: RawReplyView,
    stamp: Seq<char>,
)
    ensures
        ({
            let (next, turn) = raw_step(s, cancelled, reply, stamp);
            let marks = marks_of(turn.progress);
            &&& is_open(s.phase) ==> continues(marks, level_rank(s), level_percent(s, ticks))
            &&& is_open(s.phase) && is_open(next.phase) ==> {
                &&& level_rank(s) <= level_rank(next)
                &&& level_percent(s, ticks) <= level_percent(next, ticks)
                &&& forall|i: int|
                    0 <= i < marks.len() ==> !(#[trigger] marks[i]).closing && marks[i].rank
                        <= level_rank(next) && marks[i].percent <= level_percent(next, ticks)
            }
            &&& is_open(s.phase) && !is_open(next.phase) ==> marks.len() > 0
                && marks.last().closing
            &&& !is_open(s.phase) ==> marks.len() == 0 && next.phase == RawPhase::Finished
            &&& (turn.command is Finish) <==> next.phase == RawPhase::Finished
            &&& turn.command matches RawCommandView::Finish(Ok(_)) ==> marks.len() > 0
                && turn.progress.last().stage == ExportStage::Complete
                && turn.progress.last().percent == 10_000
            &&& (is_open(s.phase) && turn.command matches RawCommandView::Finish(Err(_)))
                ==> marks.len() > 0 && marks.last().interrupted
        }),
{
    let (next, turn) = raw_step(s, cancelled, reply, stamp);
    let marks = marks_of(turn.progress);
    if s.phase == RawPhase::Reading {
        match reply {
            RawReplyView::Chunk(chunk) => {
                let read = (s.bytes + chunk).len();
                lemma_scaled_monotone(60, 35, s.bytes.len(), read, s.total_bytes as nat);
                lemma_scaled_monotone(60, 35, read, read, s.total_bytes as nat);
            },
            _ => {},
        }
        lemma_scaled_monotone(60, 35, s.bytes.len(), s.bytes.len(), s.total_bytes as nat);
    }
    assert(marks.len() == turn.progress.len());
    assert forall|i: int| 0 <= i < marks.len() implies #[trigger] marks[i] == mark_of(
        turn.progress[i],
    ) by {}
}

/// Progress is orderly in every run, whatever the store, the file system, the
/// token and the clock answer and however the reports of the ticker fall
/// between the steps: the stages only move forward, the percentage never
/// falls except where a cancellation or a failure is reported, and nothing
/// follows the event that closes the run. While the export may still report,
/// no closing event has been reported; once it may not, the last event
/// reported is a closing one.
pub proof fn lemma_raw_run_orderly(inputs: Seq<RawInput>)
    ensures
        orderly(marks_of(raw_run(inputs).events)),
        is_open(raw_run(inputs).state.phase) ==> reaches(
            marks_of(raw_run(inputs).events),
            level_rank(raw_run(inputs).state),
            level_percent(raw_run(inputs).state, raw_run(inputs).ticks),
        ),
        !is_open(raw_run(inputs).state.phase) ==> closed(marks_of(raw_run(inputs).events)),
        raw_run(inputs).ticks <= 50,
    decreases inputs.len(),
{
    if inputs.len() == 0 {
        assert(marks_of(raw_run(inputs).events) =~= Seq::<Mark>::empty());
    } else {
        lemma_raw_run_orderly(inputs.drop_last());
        let before = raw_run(inputs.drop_last());
        let s = before.state;
        let history = marks_of(before.events);
        match inputs.last() {
            RawInput::Step { cancelled, reply, stamp } => {
                let (next, turn) = raw_step(s, cancelled, reply, stamp);
                lemma_raw_step_fits(s, before.ticks, cancelled, reply, stamp);
                let marks = marks_of(turn.progress);
                assert(marks_of(raw_run(inputs).events) =~= history + marks);
                if is_open(s.phase) {
                    if is_open(next.phase) {
                        lemma_append_open(
                            history,
                            marks,
                            level_rank(s),
                            level_percent(s, before.ticks),
                            level_rank(next),
                            level_percent(next, before.ticks),
                        );
                    } else {
                        lemma_append_closing(
                            history,
                            marks,
                            level_rank(s),
                            level_percent(s, before.ticks),
                        );
                    }
                } else {
                    assert(history + marks =~= history);
                }
            },
            RawInput::Tick => {
                if s.phase == RawPhase::Snapshotting && before.ticks < 50 {
                    let report = tick_event(before.ticks, s.page_count, s.page_size, s.estimated);
                    let marks = seq![mark_of(report)];
                    assert(marks_of(raw_run(inputs).events) =~= history + marks);
                    lemma_append_open(
                        history,
                        marks,
                        level_rank(s),
                        level_percent(s, before.ticks),
                        level_rank(s),
                        level_percent(s, before.ticks + 1),
                    );
                }
            },
        }
    }
}

/// Every export that has finished reported exactly one closing event, as its
/// last event.
pub proof fn lemma_raw_run_closes_once(inputs: Seq<RawInput>)
    requires
        raw_run(inputs).state.phase == RawPhase::Finished,
    ensures
        closing_count(marks_of(raw_run(inputs).events)) == 1,
        raw_run(inputs).events.len() > 0,
        raw_run(inputs).events.last().stage.is_terminal(),
{
    lemma_raw_run_orderly(inputs);
    lemma_closed_has_one(marks_of(raw_run(inputs).events));
    let events = raw_run(inputs).events;
    assert(marks_of(events).last() == mark_of(events.last()));
}

/// The step that finishes an export with a result reports `Complete` at a
/// hundred percent last, and
/// the step that finishes it with an error reports `Cancelled` or `Error` last.
pub proof fn lemma_raw_result_matches_close(inputs: Seq<RawInput>)
    requires
        inputs.len() > 0,
        inputs.last() is Step,
        is_open(raw_run(inputs.drop_last()).state.phase),
        raw_run(inputs).command is Finish,
    ensures
        raw_run(inputs).events.len() > 0,
        raw_run(inputs).command matches RawCommandView::Finish(Ok(_)) ==> raw_run(
            inputs,
        ).events.last().stage == ExportStage::Complete && raw_run(inputs).events.last().percent
            == 10_000,
        raw_run(inputs).command matches RawCommandView::Finish(Err(_)) ==> raw_run(
            inputs,
        ).events.last().stage != ExportStage::Complete,
{
    let before = raw_run(inputs.drop_last());
    match inputs.last() {
        RawInput::Step { cancelled, reply, stamp } => {
            lemma_raw_step_fits(before.state, before.ticks, cancelled, reply, stamp);
            let turn = raw_step(before.state, cancelled, reply, stamp).1;
            assert(marks_of(turn.progress).last() == mark_of(turn.progress.last()));
            assert(raw_run(inputs).events.last() == turn.progress.last());
        },
        RawInput::Tick => {},
    }
}

/// An export whose token is cancelled from the start never reaches the store:
/// it asks for the handle, stops at its first checkpoint and finishes with an
/// error. No other command is ever handed out.
pub proof fn lemma_raw_cancelled_before_start(inputs: Seq<RawInput>)
    requires
        forall|i: int|
            0 <= i < inputs.len() ==> ((#[trigger] inputs[i]) matches RawInput::Step {
                cancelled,
                ..
            } ==> cancelled),
    ensures
        raw_run(inputs).state.phase == RawPhase::Start || raw_run(inputs).state.phase
            == RawPhase::Connecting || raw_run(inputs).state.phase == RawPhase::Finished,
        raw_run(inputs).command is Connect || raw_run(inputs).command matches RawCommandView::Finish(
            Err(_),
        ),
    decreases inputs.len(),
{
    if inputs.len() > 0 {
        let before = inputs.drop_last();
        assert forall|i: int| 0 <= i < before.len() implies (
            (#[trigger] before[i]) matches RawInput::Step { cancelled, .. } ==> cancelled
        ) by {
            assert(before[i] == inputs[i]);
        }
        lemma_raw_cancelled_before_start(before);
        assert(inputs.last() == inputs[inputs.len() - 1]);
    }
}

/// The artifact is the snapshot, and the snapshot file does not stay behind.
/// Whatever the store, the file system, the token and the clock answer: the
/// bytes of a result are the bytes that the reads of the snapshot file
/// returned, in order and complete; and an export that has finished after the
/// store was told to write the snapshot has asked for the removal of the
/// file, on success and on every interruption.
pub proof fn lemma_raw_artifact_is_the_snapshot(inputs: Seq<RawInput>)
    ensures
        raw_run(inputs).command matches RawCommandView::Finish(Ok(result)) ==> result.bytes
            == raw_run(inputs).read,
        raw_run(inputs).state.phase == RawPhase::Finished && raw_run(inputs).snapshot_asked
            ==> raw_run(inputs).removal_asked,
        raw_run(inputs).state.phase == RawPhase::Finished || raw_run(inputs).state.bytes
            == raw_run(inputs).read,
        match raw_run(inputs).state.phase {
            RawPhase::Start | RawPhase::Connecting => !raw_run(inputs).snapshot_asked
                && raw_run(inputs).read.len() == 0,
            RawPhase::CountingPages | RawPhase::SizingPages => !raw_run(inputs).snapshot_asked
                && raw_run(inputs).read.len() == 0,
            RawPhase::Snapshotting | RawPhase::Measuring | RawPhase::Opening => raw_run(
                inputs,
            ).read.len() == 0,
            RawPhase::Cleaning | RawPhase::Discarding => raw_run(inputs).removal_asked,
            _ => true,
        },
    decreases inputs.len(),
{
    if inputs.len() > 0 {
        lemma_raw_artifact_is_the_snapshot(inputs.drop_last());
        let before = raw_run(inputs.drop_last());
        match inputs.last() {
            RawInput::Step { cancelled, reply, stamp } => {
                match reply {
                    RawReplyView::Chunk(chunk) => {
                        if before.state.phase == RawPhase::Reading && chunk.len() == 0 {
                            assert(before.read + chunk =~= before.read);
                        }
                    },
                    _ => {},
                }
            },
            RawInput::Tick => {},
        }
    }
}

/// A cancellation takes effect at the next checkpoint. At a checkpoint at
/// which the command before has succeeded and the token answers that a
/// cancellation is pending, the export reports that it is cancelled and asks
/// for nothing but the removal of the snapshot file, where there may be one;
/// it finishes as cancelled with that step or with the step after, whatever
/// is answered then.
pub proof fn lemma_raw_cancel_is_prompt(
    s: RawExportView,
    reply: RawReplyView,
    stamp: Seq<char>,
    later_cancelled: bool,
    later_reply: RawReplyView,
    later_stamp: Seq<char>,
)
    requires
        at_checkpoint(s.phase),
        match s.phase {
            RawPhase::Reading => reply matches RawReplyView::Chunk(chunk) && chunk.len() > 0,
            _ => reply is Done,
        },
    ensures
        ({
            let (after, turn) = raw_step(s, true, reply, stamp);
            let (end, last) = raw_step(after, later_cancelled, later_reply, later_stamp);
            &&& turn.progress.len() > 0
            &&& turn.progress.last().stage == ExportStage::Cancelled
            &&& s.phase == RawPhase::Connecting ==> turn.command == RawCommandView::Finish(
                Err(cancelled_message()),
            )
            &&& s.phase != RawPhase::Connecting ==> {
                &&& turn.command is RemoveSnapshot
                &&& last.command == RawCommandView::Finish(Err(cancelled_message()))
                &&& last.progress.len() == 0
            }
        }),
{
}

} // verus!
