use std::sync::atomic::{AtomicBool, Ordering};

use librefit_lib::service::export::raw::{
    export_raw, keep_ticking, snapshot_file_name, snapshot_tick, tick_pause_millis, RawCommand,
    RawExport, RawPhase, RawReply, SnapshotTicker, CHUNK_SIZE, SNAPSHOT_TICKS,
};
use librefit_lib::service::export::{
    cancel_export, export_database_file, format_bytes, ExportCancellation, ExportFormat,
    ExportProgress, ExportResult, ExportSession, ExportStage,
};

/// A store and a file system in memory.
struct Machine {
    page_count: Option<i64>,
    page_size: Option<i64>,
    database: Vec<u8>,
    snapshot: Option<Vec<u8>>,
    position: usize,
    ticks_before_done: usize,
    fail_connect: bool,
    fail_count: bool,
    fail_size: bool,
    fail_measure: bool,
    fail_open: bool,
    cancel_at_open: bool,
    fail_snapshot: bool,
    fail_read_at: Option<usize>,
    cancel_at_read: Option<usize>,
    cancel_during_snapshot: bool,
    reads: usize,
    removed: usize,
    commands: Vec<String>,
}

fn database_of(pages: usize) -> Vec<u8> {
    let mut bytes = vec![0u8; pages * 4096];
    bytes[..16].copy_from_slice(b"SQLite format 3\0");
    for (i, byte) in bytes.iter_mut().enumerate().skip(16) {
        *byte = (i % 251) as u8;
    }
    bytes
}

fn machine(pages: usize) -> Machine {
    Machine {
        page_count: Some(pages as i64),
        page_size: Some(4096),
        database: database_of(pages),
        snapshot: None,
        position: 0,
        ticks_before_done: 3,
        fail_connect: false,
        fail_count: false,
        fail_size: false,
        fail_measure: false,
        fail_open: false,
        cancel_at_open: false,
        fail_snapshot: false,
        fail_read_at: None,
        cancel_at_read: None,
        cancel_during_snapshot: false,
        reads: 0,
        removed: 0,
        commands: Vec::new(),
    }
}

/// Runs a raw export to its end.
fn run(
    export: &mut RawExport,
    cancellation: &ExportCancellation,
    machine: &mut Machine,
    progress: &mut Vec<ExportProgress>,
) -> Result<ExportResult, String> {
    let mut reply = RawReply::Done;
    loop {
        let turn = export.step(cancellation, reply);
        progress.extend(turn.progress);
        reply = RawReply::Done;
        match turn.command {
            RawCommand::Connect => {
                machine.commands.push("connect".to_string());
                if machine.fail_connect {
                    reply = RawReply::Failed("timed out waiting for connection".to_string());
                }
            }
            RawCommand::CountPages => {
                machine.commands.push("count pages".to_string());
                reply = if machine.fail_count {
                    RawReply::Failed("database is locked".to_string())
                } else {
                    RawReply::Number(machine.page_count)
                };
            }
            RawCommand::SizePages => {
                machine.commands.push("size pages".to_string());
                reply = if machine.fail_size {
                    RawReply::Failed("database is locked".to_string())
                } else {
                    RawReply::Number(machine.page_size)
                };
            }
            RawCommand::Snapshot { page_count, page_size, estimated } => {
                machine.commands.push("snapshot".to_string());
                let snapshot_done = AtomicBool::new(machine.ticks_before_done == 0);
                let mut ticker = SnapshotTicker::new(page_count, page_size, estimated);
                let mut ticks = 0;
                while let Some(report) = ticker.tick(&snapshot_done, cancellation) {
                    progress.push(report);
                    ticks += 1;
                    if ticks >= machine.ticks_before_done {
                        snapshot_done.store(true, Ordering::Relaxed);
                    }
                    if machine.cancel_during_snapshot {
                        cancellation.cancel();
                    }
                }
                if machine.fail_snapshot {
                    reply = RawReply::Failed("disk full".to_string());
                } else {
                    machine.snapshot = Some(machine.database.clone());
                }
            }
            RawCommand::MeasureSnapshot => {
                machine.commands.push("measure".to_string());
                reply = if machine.fail_measure {
                    RawReply::Failed("No such file or directory".to_string())
                } else {
                    RawReply::Size(machine.snapshot.as_ref().unwrap().len())
                };
            }
            RawCommand::OpenSnapshot => {
                machine.commands.push("open".to_string());
                machine.position = 0;
                if machine.fail_open {
                    reply = RawReply::Failed("Permission denied".to_string());
                }
                if machine.cancel_at_open {
                    cancellation.cancel();
                }
            }
            RawCommand::ReadChunk => {
                machine.commands.push("read".to_string());
                if machine.fail_read_at == Some(machine.reads) {
                    reply = RawReply::Failed("bad sector".to_string());
                } else {
                    let snapshot = machine.snapshot.as_ref().unwrap();
                    let end = (machine.position + CHUNK_SIZE).min(snapshot.len());
                    reply = RawReply::Chunk(snapshot[machine.position..end].to_vec());
                    machine.position = end;
                }
                if machine.cancel_at_read == Some(machine.reads) {
                    cancellation.cancel();
                }
                machine.reads += 1;
            }
            RawCommand::RemoveSnapshot => {
                machine.commands.push("remove".to_string());
                machine.snapshot = None;
                machine.removed += 1;
            }
            RawCommand::Finish(result) => {
                assert!(export.is_finished());
                return result;
            }
        }
    }
}

fn export(machine: &mut Machine) -> (Result<ExportResult, String>, Vec<ExportProgress>) {
    let cancellation = ExportCancellation::new();
    let mut progress = Vec::new();
    let result = match export_database_file(&cancellation, ExportFormat::Raw) {
        ExportSession::Raw(mut export) => run(&mut export, &cancellation, machine, &mut progress),
        ExportSession::Csv(_) => panic!("asked for a raw export"),
    };
    (result, progress)
}

fn rank(stage: ExportStage) -> u32 {
    match stage {
        ExportStage::Initializing => 0,
        ExportStage::AnalyzingDatabase => 1,
        ExportStage::CreatingBackup => 2,
        ExportStage::ReadingFile => 3,
        ExportStage::Finalizing => 4,
        _ => 5,
    }
}

fn assert_orderly(progress: &[ExportProgress]) {
    assert!(!progress.is_empty());
    for (i, event) in progress.iter().enumerate() {
        assert!(event.percent.hundredths <= 10_000);
        assert_eq!(rank(event.stage) == 5, i == progress.len() - 1, "terminal at {}", i);
        if i > 0 {
            assert!(rank(progress[i - 1].stage) <= rank(event.stage));
            if event.stage != ExportStage::Cancelled && event.stage != ExportStage::Error {
                assert!(progress[i - 1].percent.hundredths <= event.percent.hundredths);
            }
        }
    }
}

// ============================================================================
// RAW EXPORT TESTS
// ============================================================================

#[test]
fn test_export_raw_database_empty() {
    let mut machine = machine(1);
    let (result, progress) = export(&mut machine);

    assert!(result.is_ok());
    let export_result = result.unwrap();
    assert!(export_result.bytes.len() > 0);
    assert!(export_result.file_path.starts_with("librefit_export_"));
    assert!(export_result.file_path.ends_with(".db"));

    // Verify progress updates were sent
    let mut complete_received = false;
    for progress in progress.iter() {
        if matches!(progress.stage, ExportStage::Complete) {
            complete_received = true;
            assert_eq!(progress.percent.hundredths, 10_000);
        }
    }
    assert!(complete_received, "Should receive Complete stage");
    assert_eq!(&export_result.bytes[0..16], b"SQLite format 3\0");
}

#[test]
fn test_export_raw_database_with_data() {
    let mut machine = machine(3);
    let (result, progress) = export(&mut machine);

    assert!(result.is_ok());
    let export_result = result.unwrap();

    // the snapshot is larger with data
    assert!(export_result.bytes.len() > 8000);

    // Verify the bytes start with the magic number of the store
    assert_eq!(&export_result.bytes[0..16], b"SQLite format 3\0");
    assert_eq!(export_result.bytes, machine.database);

    // Verify all progress stages were sent
    let stages_received: Vec<ExportStage> = progress.iter().map(|p| p.stage).collect();
    assert!(stages_received.iter().any(|s| matches!(s, ExportStage::Initializing)));
    assert!(stages_received.iter().any(|s| matches!(s, ExportStage::AnalyzingDatabase)));
    assert!(stages_received.iter().any(|s| matches!(s, ExportStage::CreatingBackup)));
    assert!(stages_received.iter().any(|s| matches!(s, ExportStage::ReadingFile)));
    assert!(stages_received.iter().any(|s| matches!(s, ExportStage::Finalizing)));
    assert!(stages_received.iter().any(|s| matches!(s, ExportStage::Complete)));
}

#[test]
fn test_export_raw_cancellation() {
    let cancellation = ExportCancellation::new();
    let mut machine = machine(50);
    let mut progress = Vec::new();

    // Cancel immediately
    cancellation.cancel();

    let mut export = export_raw();
    let result = run(&mut export, &cancellation, &mut machine, &mut progress);

    // the first checkpoint stops the export
    assert!(result.is_err());
    let err = result.err().unwrap();
    assert!(err.contains("cancelled by user"));

    // Verify cancellation stage was sent
    let cancelled_received = progress.iter().any(|p| matches!(p.stage, ExportStage::Cancelled));
    assert!(cancelled_received, "Should receive Cancelled stage");
    assert_eq!(machine.commands, vec!["connect"]);
    assert_orderly(&progress);
    assert!(!cancellation.is_cancelled());
}

#[test]
fn test_export_raw_progress_tracking() {
    let mut machine = machine(40);
    let (result, progress_updates) = export(&mut machine);

    assert!(result.is_ok());

    // Verify progress increases monotonically (or at least doesn't decrease)
    for i in 1..progress_updates.len() {
        // Allow same percent but not decrease
        assert!(
            progress_updates[i].percent.hundredths >= progress_updates[i - 1].percent.hundredths
                || matches!(progress_updates[i].stage, ExportStage::Cancelled | ExportStage::Error)
        );
    }

    // Verify final progress is 100%
    let last = progress_updates.last().unwrap();
    assert_eq!(last.percent.hundredths, 10_000);
    assert_orderly(&progress_updates);
}

#[test]
fn test_export_raw_all_stages_present() {
    let mut machine = machine(2);
    let (_result, progress) = export(&mut machine);

    let mut stages = std::collections::HashSet::new();
    for progress in progress.iter() {
        stages.insert(format!("{:?}", progress.stage));
    }

    // Verify all expected stages
    assert!(stages.contains("Initializing"));
    assert!(stages.contains("AnalyzingDatabase"));
    assert!(stages.contains("CreatingBackup"));
    assert!(stages.contains("ReadingFile"));
    assert!(stages.contains("Finalizing"));
    assert!(stages.contains("Complete"));
}

// ============================================================================
// CANCELLATION COMMAND TESTS
// ============================================================================

#[test]
fn test_cancel_export_command() {
    let cancellation = ExportCancellation::new();
    let shared = cancellation.clone();

    // Initially not cancelled
    assert!(!cancellation.is_cancelled());

    // Cancel
    cancel_export(&shared);

    // Should be cancelled
    assert!(cancellation.is_cancelled());
}

#[test]
fn test_cancellation_reset_on_new_export() {
    let cancellation = ExportCancellation::new();

    // Cancel
    cancellation.cancel();
    assert!(cancellation.is_cancelled());

    // Reset (this happens at start of export)
    cancellation.reset();
    assert!(!cancellation.is_cancelled());
}

// ============================================================================
// HELPER FUNCTION TESTS
// ============================================================================

#[test]
fn test_format_bytes_helper() {
    assert_eq!(format_bytes(0), "0.00 B");
    assert_eq!(format_bytes(500), "500.00 B");
    assert_eq!(format_bytes(1024), "1.00 KB");
    assert_eq!(format_bytes(1536), "1.50 KB");
    assert_eq!(format_bytes(1024 * 1024), "1.00 MB");
    assert_eq!(format_bytes(1024 * 1024 * 1024), "1.00 GB");
}

// ============================================================================
// MORE OF THE SAME KIND
// ============================================================================

#[test]
fn raw_export_reports_exact_messages_and_percentages() {
    let mut machine = machine(20);
    machine.ticks_before_done = 2;
    let (result, progress) = export(&mut machine);
    let result = result.unwrap();
    assert_eq!(result.bytes.len(), 81_920);
    let seen: Vec<(ExportStage, u32, &str, Option<usize>, Option<usize>)> = progress
        .iter()
        .map(|e| (e.stage, e.percent.hundredths, e.message.as_str(), e.bytes_processed, e.total_bytes))
        .collect();
    let expected = vec![
        (ExportStage::Initializing, 0, "Starting export...", None, None),
        (ExportStage::Initializing, 500, "Connected to database", None, None),
        (ExportStage::AnalyzingDatabase, 500, "Analyzing database size...", None, None),
        (ExportStage::AnalyzingDatabase, 1000, "Database size: 20 pages (~80.00 KB)", None, Some(81_920)),
        (ExportStage::CreatingBackup, 1000, "Creating backup...", None, Some(81_920)),
        (ExportStage::CreatingBackup, 1000, "Compacting database... (0/20  pages)", Some(0), Some(81_920)),
        (ExportStage::CreatingBackup, 1100, "Compacting database... (0/20  pages)", Some(0), Some(81_920)),
        (ExportStage::CreatingBackup, 6000, "Backup created", Some(81_920), Some(81_920)),
        (ExportStage::ReadingFile, 6000, "Reading backup file...", None, None),
        (ExportStage::ReadingFile, 8800, "Reading: 64.00 KB/80.00 KB", Some(65_536), Some(81_920)),
        (ExportStage::ReadingFile, 9500, "Reading: 80.00 KB/80.00 KB", Some(81_920), Some(81_920)),
        (ExportStage::ReadingFile, 9500, "File read complete", Some(81_920), Some(81_920)),
        (ExportStage::Finalizing, 9500, "Cleaning up...", None, None),
        (ExportStage::Finalizing, 9800, "Cleanup complete", None, None),
        (ExportStage::Complete, 10_000, "Export complete (80.00 KB)", Some(81_920), Some(81_920)),
    ];
    assert_eq!(seen, expected);
    assert_eq!(
        machine.commands,
        vec![
            "connect", "count pages", "size pages", "snapshot", "measure", "open", "read", "read",
            "read", "remove"
        ]
    );
    assert_eq!(machine.removed, 1);
    // librefit_export_YYYY-MM-DD_HHMMSS.db
    assert_eq!(result.file_path.len(), "librefit_export_".len() + 17 + ".db".len());
}

#[test]
fn raw_export_ticker_spreads_fifty_reports() {
    assert_eq!(SNAPSHOT_TICKS, 50);
    assert!(keep_ticking(0, false, false));
    assert!(keep_ticking(49, false, false));
    assert!(!keep_ticking(50, false, false));
    assert!(!keep_ticking(3, true, false));
    assert!(!keep_ticking(3, false, true));
    let tick = snapshot_tick(25, 1000, 4096, 4_096_000);
    assert_eq!(tick.stage, ExportStage::CreatingBackup);
    assert_eq!(tick.percent.hundredths, 3500);
    assert_eq!(tick.message, "Compacting database... (500/1000  pages)");
    assert_eq!(tick.bytes_processed, Some(2_048_000));
    assert_eq!(tick.total_bytes, Some(4_096_000));
    let last = snapshot_tick(49, 1000, 4096, 4_096_000);
    assert_eq!(last.percent.hundredths, 5900);
    // half a second at least, ten kibibytes a millisecond beyond that
    assert_eq!(tick_pause_millis(0), 10);
    assert_eq!(tick_pause_millis(5_119_999), 10);
    assert_eq!(tick_pause_millis(10_240_000), 20);
    assert_eq!(snapshot_file_name(1_700_000_000_123_456_789), "librefit_backup_1700000000123456789.db");
}

#[test]
fn raw_export_all_ticks_stay_below_the_finished_snapshot() {
    let mut machine = machine(4);
    machine.ticks_before_done = 1000;
    let (result, progress) = export(&mut machine);
    assert!(result.is_ok());
    let ticks = progress.iter().filter(|e| e.message.starts_with("Compacting")).count();
    assert_eq!(ticks, 50);
    assert_orderly(&progress);
}

#[test]
fn raw_export_connection_failure_is_reported_and_ends_the_export() {
    let mut machine = machine(1);
    machine.fail_connect = true;
    let (result, progress) = export(&mut machine);
    assert_eq!(
        result.err().unwrap(),
        "Failed to get database connection: timed out waiting for connection"
    );
    assert_eq!(progress.last().unwrap().stage, ExportStage::Error);
    assert_eq!(machine.commands, vec!["connect"]);
    assert_orderly(&progress);
}

#[test]
fn raw_export_snapshot_failure_removes_the_file() {
    let mut machine = machine(1);
    machine.fail_snapshot = true;
    let (result, progress) = export(&mut machine);
    assert_eq!(result.err().unwrap(), "Failed to create backup: disk full");
    assert_eq!(progress.last().unwrap().stage, ExportStage::Error);
    assert_eq!(machine.commands.last().unwrap(), "remove");
    assert_orderly(&progress);
}

#[test]
fn raw_export_read_failure_removes_the_file() {
    let mut machine = machine(40);
    machine.fail_read_at = Some(1);
    let (result, progress) = export(&mut machine);
    assert_eq!(result.err().unwrap(), "Failed to read backup: bad sector");
    assert_eq!(machine.removed, 1);
    assert!(machine.snapshot.is_none());
    assert_orderly(&progress);
}

#[test]
fn raw_export_cancelled_between_chunks_removes_the_file() {
    let mut machine = machine(64);
    machine.cancel_at_read = Some(1);
    let (result, progress) = export(&mut machine);
    assert_eq!(result.err().unwrap(), "Export cancelled by user");
    assert_eq!(machine.reads, 2);
    assert_eq!(machine.removed, 1);
    assert_eq!(progress.last().unwrap().stage, ExportStage::Cancelled);
    assert_orderly(&progress);
}

#[test]
fn raw_export_cancelled_while_the_snapshot_is_written() {
    let mut machine = machine(8);
    machine.cancel_during_snapshot = true;
    let (result, progress) = export(&mut machine);
    assert_eq!(result.err().unwrap(), "Export cancelled by user");
    assert_eq!(machine.removed, 1);
    assert_eq!(progress.iter().filter(|e| e.message.starts_with("Compacting")).count(), 1);
    assert_orderly(&progress);
}

#[test]
fn raw_export_estimates_with_defaults_and_limits() {
    let mut machine = machine(2);
    machine.page_count = None;
    machine.page_size = None;
    let (_, progress) = export(&mut machine);
    assert!(progress.iter().any(|e| e.message == "Database size: 0 pages (~0.00 B)"));

    let mut machine = self::machine(2);
    machine.page_count = Some(-3);
    let (result, progress) = export(&mut machine);
    assert!(result.is_ok());
    assert!(progress.iter().any(|e| e.message == "Database size: -3 pages (~0.00 B)"));

    let mut machine = self::machine(2);
    machine.page_count = Some(i64::MAX);
    machine.page_size = Some(i64::MAX);
    let (result, progress) = export(&mut machine);
    assert!(result.is_ok());
    assert!(progress.iter().any(|e| e.total_bytes == Some(usize::MAX)));
    assert_orderly(&progress);
}

#[test]
fn raw_export_stays_finished() {
    let cancellation = ExportCancellation::new();
    let mut export = RawExport::new();
    assert_eq!(export.phase(), RawPhase::Start);
    assert!(!export.polls());
    let mut machine = machine(1);
    let mut progress = Vec::new();
    run(&mut export, &cancellation, &mut machine, &mut progress).unwrap();
    assert_eq!(export.phase(), RawPhase::Finished);
    let turn = export.step(&cancellation, RawReply::Done);
    assert!(turn.progress.is_empty());
    match turn.command {
        RawCommand::Finish(Err(message)) => assert_eq!(message, "Export already finished"),
        _ => panic!("a finished export hands out nothing but its end"),
    }
}

#[test]
fn snapshot_ticker_reports_until_done_or_cancelled() {
    let mut ticker = SnapshotTicker::new(1000, 4096, 4_096_000);
    assert_eq!(ticker.pause_millis(), 10);
    let first = ticker.next(false, false).unwrap();
    assert_eq!(first.percent.hundredths, 1000);
    assert_eq!(first.message, "Compacting database... (0/1000  pages)");
    let second = ticker.next(false, false).unwrap();
    assert_eq!(second.percent.hundredths, 1100);
    assert_eq!(second.message, "Compacting database... (20/1000  pages)");
    assert!(ticker.next(true, false).is_none());
    assert!(ticker.next(false, true).is_none());
    // a ticker that had nothing to report has not moved on
    assert_eq!(ticker.next(false, false).unwrap().percent.hundredths, 1200);
    let mut reports = 3;
    while let Some(report) = ticker.next(false, false) {
        reports += 1;
        assert_eq!(report.percent.hundredths, 1000 + 100 * (reports - 1));
    }
    assert_eq!(reports, 50);
    assert!(ticker.next(false, false).is_none());

    let done = AtomicBool::new(false);
    let cancellation = ExportCancellation::new();
    let mut ticker = SnapshotTicker::new(10, 4096, 40_960);
    assert!(ticker.tick(&done, &cancellation).is_some());
    cancellation.cancel();
    assert!(ticker.tick(&done, &cancellation).is_none());
    cancellation.reset();
    done.store(true, Ordering::Relaxed);
    assert!(ticker.tick(&done, &cancellation).is_none());
}

#[test]
fn raw_export_failures_before_the_snapshot_leave_no_file_to_remove() {
    let mut machine = self::machine(2);
    machine.fail_count = true;
    let (result, progress) = export(&mut machine);
    assert_eq!(result.err().unwrap(), "Failed to get page count: database is locked");
    assert_eq!(machine.commands, vec!["connect", "count pages"]);
    assert_eq!(progress.last().unwrap().stage, ExportStage::Error);
    assert_orderly(&progress);

    let mut machine = self::machine(2);
    machine.fail_size = true;
    let (result, progress) = export(&mut machine);
    assert_eq!(result.err().unwrap(), "Failed to get page size: database is locked");
    assert_eq!(machine.commands, vec!["connect", "count pages", "size pages"]);
    assert_orderly(&progress);
}

#[test]
fn raw_export_failures_behind_the_snapshot_remove_the_file() {
    let mut machine = self::machine(2);
    machine.fail_measure = true;
    let (result, progress) = export(&mut machine);
    assert_eq!(
        result.err().unwrap(),
        "Failed to read backup metadata: No such file or directory"
    );
    assert_eq!(machine.removed, 1);
    assert_orderly(&progress);

    let mut machine = self::machine(2);
    machine.fail_open = true;
    let (result, progress) = export(&mut machine);
    assert_eq!(result.err().unwrap(), "Failed to open backup file: Permission denied");
    assert_eq!(machine.removed, 1);
    assert_eq!(machine.reads, 0);
    assert_orderly(&progress);
}

#[test]
fn raw_export_cancelled_before_the_first_read() {
    let mut machine = self::machine(2);
    machine.cancel_at_open = true;
    let (result, progress) = export(&mut machine);
    assert_eq!(result.err().unwrap(), "Export cancelled by user");
    assert_eq!(machine.reads, 0);
    assert_eq!(machine.removed, 1);
    assert_eq!(progress.last().unwrap().stage, ExportStage::Cancelled);
    assert_orderly(&progress);
}

#[test]
fn raw_export_takes_no_reply_of_another_kind() {
    let cancellation = ExportCancellation::new();
    let mut export = RawExport::new();
    export.step(&cancellation, RawReply::Done);
    export.step(&cancellation, RawReply::Done);
    assert_eq!(export.phase(), RawPhase::CountingPages);
    let turn = export.step(&cancellation, RawReply::Done);
    match turn.command {
        RawCommand::Finish(Err(message)) => {
            assert_eq!(message, "Failed to get page count: unexpected reply")
        }
        _ => panic!("a reply of another kind ends the export"),
    }
    assert_eq!(turn.progress.len(), 1);
    assert_eq!(turn.progress[0].stage, ExportStage::Error);
}
