//! Export of the whole store: the cancellation token, the progress events and
//! the result that both export engines share.

pub mod csv;
pub mod raw;

use std::sync::atomic::AtomicBool;
use std::sync::atomic::Ordering;
use std::sync::Arc;
use vstd::prelude::*;
use vstd::string::*;

use crate::percent::Percent;
use crate::timeline::Mark;
use crate::text::{decimal, digit_char, digit_text, push_decimal};

verus! {

// ============================================================================
// CANCELLATION STATE
// ============================================================================

/// Cancellation flag for exports. Every clone shares the same flag, so the
/// thread that asks for the cancellation and the thread that exports can each
/// hold one. Checking is cooperative: the engines poll the flag at their
/// checkpoints, and what a poll returns depends on what other threads stored
/// in the meantime.
#[derive(Clone)]
pub struct ExportCancellation {
    pub cancelled: Arc<AtomicBool>,
}

impl ExportCancellation {
    /// A fresh token, not cancelled.
    pub fn new() -> Self {
        Self { cancelled: Arc::new(AtomicBool::new(false)) }
    }

    /// Asks the running export to stop at its next checkpoint.
    pub fn cancel(&self) {
        self.cancelled.store(true, Ordering::Relaxed);
    }

    /// Whether a cancellation is pending.
    pub fn is_cancelled(&self) -> bool {
        self.cancelled.load(Ordering::Relaxed)
    }

    /// Clears a pending cancellation, so that it cannot leak into the next export.
    pub fn reset(&self) {
        self.cancelled.store(false, Ordering::Relaxed);
    }
}

// ============================================================================
// SHARED TYPES
// ============================================================================

/// Export result: the artifact and the file name suggested for it.
pub struct ExportResult {
    pub bytes: Vec<u8>,
    pub file_path: String,
}

/// What an [`ExportResult`] holds, as mathematical values.
pub struct ExportResultView {
    pub bytes: Seq<u8>,
    pub file_path: Seq<char>,
}

impl View for ExportResult {
    type V = ExportResultView;

    open spec fn view(&self) -> ExportResultView {
        ExportResultView { bytes: self.bytes@, file_path: self.file_path@ }
    }
}

/// Progress stage
#[derive(Clone, Copy, Debug, PartialEq, Eq, Structural)]
pub enum ExportStage {
    Initializing,
    AnalyzingDatabase,
    CreatingBackup,
    ReadingFile,
    Finalizing,
    Complete,
    Cancelled,
    Error,
}

impl ExportStage {
    /// Whether the stage ends an export.
    pub open spec fn is_terminal(self) -> bool {
        self == ExportStage::Complete || self == ExportStage::Cancelled || self == ExportStage::Error
    }

    /// The position of the stage in the order in which an export passes
    /// through its stages; the three terminal stages share the last position.
    pub open spec fn rank(self) -> nat {
        match self {
            ExportStage::Initializing => 0,
            ExportStage::AnalyzingDatabase => 1,
            ExportStage::CreatingBackup => 2,
            ExportStage::ReadingFile => 3,
            ExportStage::Finalizing => 4,
            ExportStage::Complete => 5,
            ExportStage::Cancelled => 5,
            ExportStage::Error => 5,
        }
    }
}

/// User selected export format
#[derive(Clone, Copy, Debug, PartialEq, Eq, Structural)]
pub enum ExportFormat {
    Raw,
    Csv,
}

/// Progress tracking
#[derive(Debug)]
pub struct ExportProgress {
    pub stage: ExportStage,
    pub percent: Percent,
    pub message: String,
    pub bytes_processed: Option<usize>,
    pub total_bytes: Option<usize>,
}

/// What an [`ExportProgress`] holds, as mathematical values.
pub struct ExportProgressView {
    pub stage: ExportStage,
    pub percent: nat,
    pub message: Seq<char>,
    pub bytes_processed: Option<usize>,
    pub total_bytes: Option<usize>,
}

impl View for ExportProgress {
    type V = ExportProgressView;

    open spec fn view(&self) -> ExportProgressView {
        ExportProgressView {
            stage: self.stage,
            percent: self.percent.hundredths as nat,
            message: self.message@,
            bytes_processed: self.bytes_processed,
            total_bytes: self.total_bytes,
        }
    }
}

/// The progress event with the given contents.
pub open spec fn event(
    stage: ExportStage,
    percent: nat,
    message: Seq<char>,
    bytes_processed: Option<usize>,
    total_bytes: Option<usize>,
) -> ExportProgressView {
    ExportProgressView { stage, percent, message, bytes_processed, total_bytes }
}

/// What the order of a run reads of an export event.
pub open spec fn mark_of(e: ExportProgressView) -> Mark {
    Mark {
        rank: e.stage.rank(),
        percent: e.percent,
        closing: e.stage.is_terminal(),
        interrupted: e.stage == ExportStage::Cancelled || e.stage == ExportStage::Error,
    }
}

/// What the order of a run reads of a list of export events.
pub open spec fn marks_of(events: Seq<ExportProgressView>) -> Seq<Mark> {
    events.map_values(|e: ExportProgressView| mark_of(e))
}

/// The views of a list of progress events, in order.
pub open spec fn progress_views(events: Seq<ExportProgress>) -> Seq<ExportProgressView> {
    events.map_values(|e: ExportProgress| e@)
}

/// An empty list of events to queue progress on.
pub fn new_outbox() -> (outbox: Vec<ExportProgress>)
    ensures
        progress_views(outbox@) == Seq::<ExportProgressView>::empty(),
{
    let outbox: Vec<ExportProgress> = Vec::new();
    assert(progress_views(outbox@) =~= Seq::<ExportProgressView>::empty());
    outbox
}

// ============================================================================
// HELPER FUNCTIONS
// ============================================================================

/// Queues a progress update on `outbox`, the list of events that the caller
/// delivers to its progress sink. Delivery is the caller's business and never
/// reaches back into the export.
pub fn send_progress(
    outbox: &mut Vec<ExportProgress>,
    stage: ExportStage,
    percent: Percent,
    message: &str,
    bytes_processed: Option<usize>,
    total_bytes: Option<usize>,
)
    ensures
        progress_views(final(outbox)@) == progress_views(old(outbox)@).push(
            event(stage, percent.hundredths as nat, message@, bytes_processed, total_bytes),
        ),
{
    let event = ExportProgress {
        stage,
        percent,
        message: String::from_str(message),
        bytes_processed,
        total_bytes,
    };
    outbox.push(event);
    assert(progress_views(outbox@) =~= progress_views(old(outbox)@).push(event@));
}

/// The unit in which a size is written: `0` for bytes, then one step for each
/// factor of 1024, up to `3`.
pub open spec fn unit_index(bytes: nat) -> nat {
    if bytes < 1024 {
        0
    } else if bytes < 1_048_576 {
        1
    } else if bytes < 1_073_741_824 {
        2
    } else {
        3
    }
}

/// How many bytes make one unit.
pub open spec fn unit_size(index: nat) -> nat {
    if index == 0 {
        1
    } else if index == 1 {
        1024
    } else if index == 2 {
        1_048_576
    } else {
        1_073_741_824
    }
}

/// The name of a unit.
pub open spec fn unit_name(index: nat) -> Seq<char> {
    if index == 0 {
        "B"@
    } else if index == 1 {
        "KB"@
    } else if index == 2 {
        "MB"@
    } else {
        "GB"@
    }
}

/// The spacing of the double-precision numbers around `n`: `1` below 2^53,
/// then doubling with every further bit.
pub open spec fn double_spacing(n: nat) -> nat {
    if n < 0x20_0000_0000_0000 {
        1
    } else if n < 0x40_0000_0000_0000 {
        2
    } else if n < 0x80_0000_0000_0000 {
        4
    } else if n < 0x100_0000_0000_0000 {
        8
    } else if n < 0x200_0000_0000_0000 {
        16
    } else if n < 0x400_0000_0000_0000 {
        32
    } else if n < 0x800_0000_0000_0000 {
        64
    } else if n < 0x1000_0000_0000_0000 {
        128
    } else if n < 0x2000_0000_0000_0000 {
        256
    } else if n < 0x4000_0000_0000_0000 {
        512
    } else if n < 0x8000_0000_0000_0000 {
        1024
    } else {
        2048
    }
}

/// `numerator / denominator` rounded to the nearest whole number, a tie going
/// to the even neighbour.
pub open spec fn rounded_half_even(numerator: nat, denominator: nat) -> nat {
    let quotient = numerator / denominator;
    let rest = numerator % denominator;
    if 2 * rest > denominator || (2 * rest == denominator && quotient % 2 == 1) {
        quotient + 1
    } else {
        quotient
    }
}

/// The double-precision number nearest to `n`, which is how a size enters the
/// division by the unit.
pub open spec fn nearest_double(n: nat) -> nat {
    rounded_half_even(n, double_spacing(n)) * double_spacing(n)
}

/// A size in hundredths of its unit, rounded to the nearest hundredth.
pub open spec fn size_hundredths(bytes: nat) -> nat {
    rounded_half_even(100 * nearest_double(bytes), unit_size(unit_index(bytes)))
}

/// A number below one hundred as two digits.
pub open spec fn two_digits(n: nat) -> Seq<char> {
    seq![digit_char(n / 10), digit_char(n % 10)]
}

/// A size as people read it: two decimals and the unit, as in `1.50 KB`.
pub open spec fn format_bytes_text(bytes: nat) -> Seq<char> {
    let hundredths = size_hundredths(bytes);
    decimal(hundredths / 100) + seq!['.'] + two_digits(hundredths % 100) + seq![' ']
        + unit_name(unit_index(bytes))
}

fn spacing_of(n: u128) -> (s: u128)
    ensures
        s == double_spacing(n as nat),
        1 <= s <= 2048,
{
    if n < 0x20_0000_0000_0000 {
        1
    } else if n < 0x40_0000_0000_0000 {
        2
    } else if n < 0x80_0000_0000_0000 {
        4
    } else if n < 0x100_0000_0000_0000 {
        8
    } else if n < 0x200_0000_0000_0000 {
        16
    } else if n < 0x400_0000_0000_0000 {
        32
    } else if n < 0x800_0000_0000_0000 {
        64
    } else if n < 0x1000_0000_0000_0000 {
        128
    } else if n < 0x2000_0000_0000_0000 {
        256
    } else if n < 0x4000_0000_0000_0000 {
        512
    } else if n < 0x8000_0000_0000_0000 {
        1024
    } else {
        2048
    }
}

fn round_half_even(numerator: u128, denominator: u128) -> (r: u128)
    requires
        denominator > 0,
        numerator <= 0xFFFF_FFFF_FFFF_FFFF_FFFF_FFFF,
        denominator <= 0xFFFF_FFFF_FFFF_FFFF_FFFF_FFFF,
    ensures
        r == rounded_half_even(numerator as nat, denominator as nat),
        r <= numerator + 1,
{
    let quotient = numerator / denominator;
    let rest = numerator % denominator;
    if 2 * rest > denominator || (2 * rest == denominator && quotient % 2 == 1) {
        quotient + 1
    } else {
        quotient
    }
}

/// Helper to format bytes
pub fn format_bytes(bytes: usize) -> (text: String)
    ensures
        text@ == format_bytes_text(bytes as nat),
{
    let n: u128 = bytes as u128;
    let spacing = spacing_of(n);
    let steps = round_half_even(n, spacing);
    assert(steps * spacing <= 0x1_0000_0000_0000_0000 * 2048) by (nonlinear_arith)
        requires
            steps <= 0x1_0000_0000_0000_0000,
            spacing <= 2048,
    ;
    let nearest: u128 = steps * spacing;
    let (size, name): (u128, &'static str) = if n < 1024 {
        (1, "B")
    } else if n < 1_048_576 {
        (1024, "KB")
    } else if n < 1_073_741_824 {
        (1_048_576, "MB")
    } else {
        (1_073_741_824, "GB")
    };
    let hundredths = round_half_even(100 * nearest, size);
    let mut text = String::new();
    push_decimal(&mut text, hundredths / 100);
    proof {
        reveal_strlit(".");
        reveal_strlit(" ");
    }
    text.append(".");
    let fraction: u8 = (hundredths % 100) as u8;
    text.append(digit_text(fraction / 10));
    text.append(digit_text(fraction % 10));
    text.append(" ");
    text.append(name);
    proof {
        let h = size_hundredths(bytes as nat);
        assert(h == hundredths);
        assert(name@ == unit_name(unit_index(bytes as nat)));
        assert(text@ =~= format_bytes_text(bytes as nat));
    }
    text
}

// ============================================================================
// COMMANDS
// ============================================================================

/// An export in progress, in one of the two formats.
pub enum ExportSession {
    Raw(raw::RawExport),
    Csv(csv::CsvExport),
}

/// Starts an export of the whole store in the format asked for: clears what
/// is left of an earlier cancellation and hands out the session, before its
/// first step. The session clears the token again when it finishes.
pub fn export_database_file(cancellation: &ExportCancellation, export_format: ExportFormat) -> (session:
    ExportSession)
    ensures
        match export_format {
            ExportFormat::Raw => session matches ExportSession::Raw(export) && export@
                == raw::raw_start(),
            ExportFormat::Csv => session matches ExportSession::Csv(export) && export@
                == csv::csv_export_start(),
        },
{
    // Reset cancellation flag at the start
    cancellation.reset();
    match export_format {
        ExportFormat::Raw => ExportSession::Raw(raw::export_raw()),
        ExportFormat::Csv => ExportSession::Csv(csv::export_csv()),
    }
}

/// Cancel the current export operation
pub fn cancel_export(cancellation: &ExportCancellation) {
    cancellation.cancel();
}

} // verus!
