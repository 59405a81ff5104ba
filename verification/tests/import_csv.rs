use librefit_lib::clock::day_number;
use librefit_lib::service::import::csv::{
    import_csv, ImportCommand, ImportPhase, ImportSession, StoreReply,
};
use librefit_lib::service::import::rows::{read_entry, ImportEntry};
use librefit_lib::service::import::{
    import_data_from_string, ImportCancellation, ImportFormat, ImportProgress, ImportResult,
    ImportStage, ImportTable,
};

/// What a store keeps of the entries that it was handed.
#[derive(Debug, Default)]
struct MemoryStore {
    committed: Vec<String>,
    pending: Option<Vec<String>>,
    fail_insert_at: Option<usize>,
    fail_begin: bool,
    fail_commit: bool,
    cancel_at_insert: Option<usize>,
    begun: usize,
    rolled_back: usize,
}

fn describe(entry: &ImportEntry) -> String {
    match entry {
        ImportEntry::Intake(e) => format!("{}|{}|{}|{:?}", e.added, e.amount, e.category, e.description),
        ImportEntry::WeightTracker(e) => format!("{}|{}|{:?}", e.added, e.amount, e.time),
        ImportEntry::IntakeTarget(e) => format!(
            "{}|{}|{}|{}|{}",
            e.added, e.start_date, e.end_date, e.target_calories, e.maximum_calories
        ),
        ImportEntry::WeightTarget(e) => format!(
            "{}|{}|{}|{}|{}",
            e.added, e.start_date, e.end_date, e.initial_weight, e.target_weight
        ),
    }
}

/// Runs a session to its end against a store in memory.
fn run(
    session: &mut ImportSession,
    cancellation: &ImportCancellation,
    store: &mut MemoryStore,
    progress: &mut Vec<ImportProgress>,
) -> Result<ImportResult, String> {
    let mut reply = StoreReply::Done;
    loop {
        let turn = session.step(cancellation, reply);
        progress.extend(turn.progress);
        reply = StoreReply::Done;
        match turn.command {
            ImportCommand::Continue => {}
            ImportCommand::Begin => {
                assert!(store.pending.is_none());
                if store.fail_begin {
                    reply = StoreReply::Failed("Failed to get connection: timed out".to_string());
                } else {
                    store.pending = Some(Vec::new());
                    store.begun += 1;
                }
            }
            ImportCommand::Insert(at) => {
                let pending = store.pending.as_mut().expect("insert outside a transaction");
                if store.fail_insert_at == Some(at) {
                    reply = StoreReply::Failed("Database operation failed".to_string());
                } else {
                    pending.push(describe(&session.entries()[at]));
                }
                if store.cancel_at_insert == Some(at) {
                    cancellation.cancel();
                }
            }
            ImportCommand::Commit => {
                let pending = store.pending.take().expect("commit outside a transaction");
                if store.fail_commit {
                    reply = StoreReply::Failed("Database operation failed".to_string());
                } else {
                    store.committed.extend(pending);
                }
            }
            ImportCommand::Rollback => {
                store.pending.take().expect("rollback outside a transaction");
                store.rolled_back += 1;
            }
            ImportCommand::Finish(result) => {
                assert!(store.pending.is_none());
                assert!(session.is_finished());
                return result;
            }
        }
    }
}

fn import(
    csv_data: &str,
    table: ImportTable,
    store: &mut MemoryStore,
) -> (Result<ImportResult, String>, Vec<ImportProgress>) {
    let cancellation = ImportCancellation::new();
    let mut progress = Vec::new();
    let mut session =
        import_data_from_string(&cancellation, csv_data.to_string(), ImportFormat::Csv, table);
    let result = run(&mut session, &cancellation, store, &mut progress);
    (result, progress)
}

fn assert_orderly(progress: &[ImportProgress]) {
    let rank = |stage: &ImportStage| match stage {
        ImportStage::Initializing => 0,
        ImportStage::ValidatingFile => 1,
        ImportStage::ParsingData => 2,
        ImportStage::ValidatingEntries => 3,
        ImportStage::InsertingData => 4,
        _ => 5,
    };
    let terminal = |stage: &ImportStage| rank(stage) == 5;
    assert!(!progress.is_empty());
    for (i, event) in progress.iter().enumerate() {
        assert!(event.percent.hundredths <= 10_000);
        assert_eq!(terminal(&event.stage), i == progress.len() - 1, "terminal at {}", i);
        if i > 0 {
            assert!(rank(&progress[i - 1].stage) <= rank(&event.stage));
            if event.stage != ImportStage::Cancelled && event.stage != ImportStage::Error {
                assert!(progress[i - 1].percent.hundredths <= event.percent.hundredths);
            }
        }
    }
}

// ============================================================================
// INTAKE IMPORT TESTS
// ============================================================================

#[test]
fn test_import_intake_csv_success() {
    let mut store = MemoryStore::default();
    let csv_data = "added,amount,category,description\n\
                    2026-01-15,500,b,Breakfast\n\
                    2026-01-16,700,l,Lunch\n\
                    2026-01-17,600,d,Dinner\n";

    let (result, progress) = import(csv_data, ImportTable::Intake, &mut store);

    assert!(result.is_ok());
    let import_result = result.unwrap();
    assert_eq!(import_result.imported_count, 3);

    // Verify progress updates were sent
    assert!(progress.len() > 0, "Should have received progress updates");

    // Verify data was actually inserted
    assert_eq!(store.committed.len(), 3);
    assert_eq!(
        store.committed,
        vec![
            "2026-01-15|500|b|Some(\"Breakfast\")",
            "2026-01-16|700|l|Some(\"Lunch\")",
            "2026-01-17|600|d|Some(\"Dinner\")",
        ]
    );
}

#[test]
fn test_import_intake_csv_with_validation_errors() {
    let mut store = MemoryStore::default();
    // Invalid: amount exceeds max (10000)
    let csv_data = "added,amount,category,description\n\
                    2026-01-15,500,b,Valid entry\n\
                    2026-01-16,15000,l,Invalid amount\n\
                    2026-01-17,600,d,Valid entry\n";

    let (result, _progress) = import(csv_data, ImportTable::Intake, &mut store);

    // validation errors cause the entire import to fail
    assert!(result.is_err());
    let error_msg = result.unwrap_err();
    assert!(error_msg.contains("Row 3")); // Row 3 (index 1 + 2) has the validation error
    assert!(error_msg.contains("Validation failed"));

    // Verify NO data was inserted
    assert_eq!(store.committed.len(), 0);
    assert_eq!(store.begun, 0);
}

#[test]
fn test_import_intake_csv_with_parse_errors() {
    let mut store = MemoryStore::default();
    // Invalid amount value (not a number)
    let csv_data = "added,amount,category,description\n\
                    2026-01-15,500,b,Valid\n\
                    2026-01-16,invalid,l,Bad amount\n\
                    2026-01-17,600,d,Valid\n";

    let (result, _progress) = import(csv_data, ImportTable::Intake, &mut store);

    // Parse errors also cause the entire import to fail
    assert!(result.is_err());
    let error_msg = result.unwrap_err();
    assert!(error_msg.contains("Row 3")); // Row 3 has the parse error
    assert!(error_msg.contains("Failed to parse CSV"));

    // Verify NO data was inserted
    assert_eq!(store.committed.len(), 0);
    assert_eq!(store.begun, 0);
}

#[test]
fn test_import_intake_csv_empty_file() {
    let mut store = MemoryStore::default();
    let csv_data = "added,amount,category,description\n";

    let (result, progress) = import(csv_data, ImportTable::Intake, &mut store);

    assert!(result.is_ok());
    let import_result = result.unwrap();
    assert_eq!(import_result.imported_count, 0);
    assert_eq!(progress.last().unwrap().stage, ImportStage::Complete);
    assert_eq!(progress.last().unwrap().percent.hundredths, 10_000);
    assert_orderly(&progress);
}

// ============================================================================
// WEIGHT TRACKER IMPORT TESTS
// ============================================================================

#[test]
fn test_import_weight_tracker_csv_success() {
    let mut store = MemoryStore::default();
    let csv_data = "added,amount\n\
                    2026-01-15,75.5\n\
                    2026-01-16,75.2\n\
                    2026-01-17,75.0\n";

    let (result, _progress) = import(csv_data, ImportTable::WeightTracker, &mut store);

    assert!(result.is_ok());
    let import_result = result.unwrap();
    assert_eq!(import_result.imported_count, 3);

    // Verify data was actually inserted
    assert_eq!(store.committed.len(), 3);
    assert_eq!(
        store.committed,
        vec!["2026-01-15|75500|None", "2026-01-16|75200|None", "2026-01-17|75000|None"]
    );
}

#[test]
fn test_import_weight_tracker_csv_with_validation_errors() {
    let mut store = MemoryStore::default();
    // Invalid: amount below min (30.0)
    let csv_data = "added,amount\n\
                2026-01-15,75.5\n\
                2026-01-16,25.0\n\
                2026-01-17,75.0\n";

    let (result, _progress) = import(csv_data, ImportTable::WeightTracker, &mut store);

    assert!(result.is_err());
    let error_msg = result.unwrap_err();
    assert!(error_msg.contains("Row 3")); // Row 3 has the validation error
    assert!(error_msg.contains("Validation failed"));

    // Verify NO data was inserted
    assert_eq!(store.committed.len(), 0);
}

// ============================================================================
// CANCELLATION TESTS
// ============================================================================

#[test]
fn test_import_cancellation() {
    let cancellation = ImportCancellation::new();

    // Create a large CSV to give time for cancellation
    let mut csv_data = String::from("added,amount,category,description\n");
    for i in 1..=1000 {
        csv_data.push_str(&format!("2026-01-{:02},500,b,Entry {}\n", (i % 28) + 1, i));
    }

    let mut store = MemoryStore::default();
    store.cancel_at_insert = Some(10);
    let mut progress = Vec::new();
    let mut session =
        import_data_from_string(&cancellation, csv_data, ImportFormat::Csv, ImportTable::Intake);
    let result = run(&mut session, &cancellation, &mut store, &mut progress);

    // Should return error due to cancellation
    assert!(result.is_err());
    let error_msg = result.unwrap_err();
    assert!(
        error_msg.contains("cancelled by user") || error_msg.contains("rolled back"),
        "Expected cancellation error, got: {}",
        error_msg
    );
    assert_eq!(error_msg, "Import cancelled by user - all changes rolled back");
    assert_eq!(store.committed.len(), 0);
    assert_eq!(store.rolled_back, 1);
    assert_eq!(progress.last().unwrap().stage, ImportStage::Cancelled);
    assert_orderly(&progress);
    // the token is clear again for the next import
    assert!(!cancellation.is_cancelled());
}

// ============================================================================
// MORE OF THE SAME KIND
// ============================================================================

#[test]
fn import_reports_exact_messages_and_percentages() {
    let mut store = MemoryStore::default();
    let csv_data = "added,amount,category,description\n2026-01-15,500,b,Breakfast\n2026-01-16,700,l,\n";
    let (result, progress) = import(csv_data, ImportTable::Intake, &mut store);
    assert_eq!(result, Ok(ImportResult { imported_count: 2, table: ImportTable::Intake }));
    let seen: Vec<(ImportStage, u32, String)> = progress
        .iter()
        .map(|e| (e.stage, e.percent.hundredths, e.message.clone()))
        .collect();
    let expected = vec![
        (ImportStage::Initializing, 0, "Initializing import..."),
        (ImportStage::ValidatingFile, 500, "Validating file format..."),
        (ImportStage::ParsingData, 1000, "Parsing CSV data..."),
        (ImportStage::ValidatingEntries, 1500, "Found 2 entries to import"),
        (ImportStage::ValidatingEntries, 1500, "Validating row 1/2"),
        (ImportStage::ValidatingEntries, 3000, "Validating row 2/2"),
        (ImportStage::InsertingData, 5000, "Starting transaction..."),
        (ImportStage::InsertingData, 5000, "Importing row 1/2"),
        (ImportStage::InsertingData, 7250, "Importing row 2/2"),
        (ImportStage::Complete, 10_000, "Successfully imported all 2 rows"),
    ];
    assert_eq!(seen.len(), expected.len());
    for (s, e) in seen.iter().zip(expected.iter()) {
        assert_eq!((s.0, s.1, s.2.as_str()), *e);
    }
    let last = progress.last().unwrap();
    assert_eq!(last.total_rows, Some(2));
    assert_eq!(last.rows_processed, Some(2));
    assert_eq!(last.successful_imports, 2);
    assert_eq!(last.failed_imports, 0);
    assert_eq!(store.committed[1], "2026-01-16|700|l|None");
    assert_orderly(&progress);
}

#[test]
fn import_scenario_row_three_is_invalid() {
    let mut store = MemoryStore::default();
    store.committed.push("kept".to_string());
    let csv_data =
        "added,amount,category,description\n2026-01-15,500,b,Breakfast\n2026-01-16,15000,l,Bad\n";
    let (result, progress) = import(csv_data, ImportTable::Intake, &mut store);
    assert_eq!(
        result,
        Err("Row 3: Validation failed - Calorie amount must be between 1 and 10,000".to_string())
    );
    assert_eq!(store.committed, vec!["kept"]);
    assert_eq!(store.begun, 0);
    assert_eq!(progress.last().unwrap().stage, ImportStage::Error);
    assert_orderly(&progress);
}

#[test]
fn import_parse_failure_names_the_row_and_the_field() {
    let mut store = MemoryStore::default();
    let (result, progress) = import(
        "added,amount,category,description\n2026-01-15,500,b,ok\n2026-01-16,abc,l,bad\n",
        ImportTable::Intake,
        &mut store,
    );
    assert_eq!(
        result,
        Err("Row 3: Failed to parse CSV - field `amount`: invalid number `abc`".to_string())
    );
    assert_eq!(progress.last().unwrap().stage, ImportStage::Error);
    assert_orderly(&progress);

    let (result, _) =
        import("added,category\n2026-01-15,b\n", ImportTable::Intake, &mut store);
    assert_eq!(result, Err("Row 2: Failed to parse CSV - missing field `amount`".to_string()));

    let (result, _) = import(
        "added,amount,amount,category\n2026-01-15,1,2,b\n",
        ImportTable::Intake,
        &mut store,
    );
    assert_eq!(result, Err("Row 2: Failed to parse CSV - duplicate field `amount`".to_string()));
    assert!(store.committed.is_empty());
}

#[test]
fn import_parse_failure_comes_before_validation_failure() {
    let mut store = MemoryStore::default();
    let (result, _) = import(
        "added,amount,category\n2026-01-15,15000,b\n2026-01-16,abc,l\n",
        ImportTable::Intake,
        &mut store,
    );
    let message = result.unwrap_err();
    assert!(message.starts_with("Row 3: Failed to parse CSV - "), "{}", message);
}

#[test]
fn import_ragged_row_is_a_parse_failure_of_that_row() {
    let mut store = MemoryStore::default();
    let (result, _) = import(
        "added,amount,category\n2026-01-15,500,b\n2026-01-16,500\n",
        ImportTable::Intake,
        &mut store,
    );
    let message = result.unwrap_err();
    assert!(message.starts_with("Row 3: Failed to parse CSV - "), "{}", message);
    assert!(message.contains("found record with 2 fields"), "{}", message);
}

#[test]
fn import_reads_quoted_cells_and_unknown_columns() {
    let mut store = MemoryStore::default();
    let (result, _) = import(
        "note,category,amount,added,description\nx,\"b\",0x1f4,2026-01-15,\"Bread, butter\"\n",
        ImportTable::Intake,
        &mut store,
    );
    assert_eq!(result.unwrap().imported_count, 1);
    assert_eq!(store.committed, vec!["2026-01-15|500|b|Some(\"Bread, butter\")"]);
}

#[test]
fn import_without_any_line_imports_nothing() {
    let mut store = MemoryStore::default();
    let (result, progress) = import("", ImportTable::WeightTarget, &mut store);
    assert_eq!(result, Ok(ImportResult { imported_count: 0, table: ImportTable::WeightTarget }));
    assert_eq!(store.begun, 1);
    assert_orderly(&progress);
}

#[test]
fn import_cancelled_before_the_engine_starts() {
    let cancellation = ImportCancellation::new();
    cancellation.cancel();
    let mut store = MemoryStore::default();
    let mut progress = Vec::new();
    let mut session = import_csv("added,amount,category\n2026-01-15,500,b\n", ImportTable::Intake);
    let result = run(&mut session, &cancellation, &mut store, &mut progress);
    assert_eq!(result, Err("Import cancelled by user".to_string()));
    assert_eq!(store.begun, 0);
    assert!(store.committed.is_empty());
    assert_eq!(progress.last().unwrap().stage, ImportStage::Cancelled);
    assert_eq!(progress.last().unwrap().message, "Import cancelled by user");
    assert_orderly(&progress);
    assert!(!cancellation.is_cancelled());
}

#[test]
fn import_cancelled_before_the_engine_starts_passes_a_table_without_rows() {
    let cancellation = ImportCancellation::new();
    cancellation.cancel();
    let mut store = MemoryStore::default();
    let mut progress = Vec::new();
    let mut session = import_csv("added,amount,category\n", ImportTable::Intake);
    let result = run(&mut session, &cancellation, &mut store, &mut progress);
    assert_eq!(result.unwrap().imported_count, 0);
}

#[test]
fn import_supervised_start_clears_an_old_cancellation() {
    let cancellation = ImportCancellation::new();
    cancellation.cancel();
    let mut store = MemoryStore::default();
    let mut progress = Vec::new();
    let mut session = import_data_from_string(
        &cancellation,
        "added,amount,category\n2026-01-15,500,b\n".to_string(),
        ImportFormat::Csv,
        ImportTable::Intake,
    );
    let result = run(&mut session, &cancellation, &mut store, &mut progress);
    assert_eq!(result.unwrap().imported_count, 1);
}

#[test]
fn import_failed_insert_rolls_everything_back() {
    let mut store = MemoryStore::default();
    store.fail_insert_at = Some(1);
    let (result, progress) = import(
        "added,amount,category\n2026-01-15,500,b\n2026-01-16,600,l\n2026-01-17,700,d\n",
        ImportTable::Intake,
        &mut store,
    );
    assert_eq!(
        result,
        Err("Database error during import: Database operation failed - all changes rolled back"
            .to_string())
    );
    assert!(store.committed.is_empty());
    assert_eq!(store.rolled_back, 1);
    assert_eq!(progress.last().unwrap().stage, ImportStage::Error);
    assert_orderly(&progress);
}

#[test]
fn import_targets_with_camel_case_columns() {
    let mut store = MemoryStore::default();
    let today = day_number("2026-01-01").unwrap();
    let mut session = ImportSession::new(
        "added,endDate,maximumCalories,startDate,targetCalories\n\
         2026-01-01,2026-06-01,2500,2026-01-02,2000\n",
        ImportTable::IntakeTarget,
        today,
    );
    let cancellation = ImportCancellation::new();
    let mut progress = Vec::new();
    let result = run(&mut session, &cancellation, &mut store, &mut progress);
    assert_eq!(result.unwrap().imported_count, 1);
    assert_eq!(store.committed, vec!["2026-01-01|2026-01-02|2026-06-01|2000|2500"]);

    let mut session = ImportSession::new(
        "added,endDate,initialWeight,startDate,targetWeight\n\
         2026-01-01,2026-06-01,80.5,2026-01-02,75\n",
        ImportTable::WeightTarget,
        today,
    );
    let result = run(&mut session, &cancellation, &mut store, &mut progress);
    assert_eq!(result.unwrap().imported_count, 1);
    assert_eq!(store.committed[1], "2026-01-01|2026-01-02|2026-06-01|80500|75000");
}

#[test]
fn import_target_rules_speak_of_the_whole_record() {
    let today = day_number("2026-03-01").unwrap();
    let cancellation = ImportCancellation::new();
    let header = "added,endDate,maximumCalories,startDate,targetCalories\n";
    let cases = [
        ("2026-01-01,2026-06-01,2000,2026-01-02,2500\n", "__all__ is invalid"),
        ("2026-01-01,2026-01-02,2500,2026-01-02,2000\n", "__all__ is invalid"),
        ("2026-01-01,2026-02-01,2500,2026-01-02,2000\n", "__all__ is invalid"),
        ("2026-01-01,soon,2500,2026-01-02,2000\n", "end_date is invalid"),
        (
            "never,2026-06-01,0,2026-01-02,20000\n",
            "added is invalid; Maximum calories must be between 1 and 10,000; \
             Target calories must be between 1 and 10,000",
        ),
    ];
    for (row, reasons) in cases {
        let mut store = MemoryStore::default();
        let mut progress = Vec::new();
        let mut session =
            ImportSession::new(&format!("{}{}", header, row), ImportTable::IntakeTarget, today);
        let result = run(&mut session, &cancellation, &mut store, &mut progress);
        assert_eq!(result, Err(format!("Row 2: Validation failed - {}", reasons)));
        assert_eq!(store.begun, 0);
    }
}

#[test]
fn import_session_starts_at_the_start_and_stays_finished() {
    let cancellation = ImportCancellation::new();
    let mut session = ImportSession::new("added,amount\n", ImportTable::WeightTracker, 0);
    assert_eq!(session.phase(), ImportPhase::Start);
    assert!(!session.polls());
    let mut store = MemoryStore::default();
    let mut progress = Vec::new();
    run(&mut session, &cancellation, &mut store, &mut progress).unwrap();
    assert_eq!(session.phase(), ImportPhase::Finished);
    let turn = session.step(&cancellation, StoreReply::Done);
    assert!(turn.progress.is_empty());
    match turn.command {
        ImportCommand::Finish(Err(message)) => assert_eq!(message, "Import already finished"),
        _ => panic!("a finished import hands out nothing but its end"),
    }
}

#[test]
fn import_without_a_transaction_inserts_nothing() {
    let mut store = MemoryStore::default();
    store.fail_begin = true;
    let (result, progress) =
        import("added,amount,category\n2026-01-15,500,b\n", ImportTable::Intake, &mut store);
    assert_eq!(
        result,
        Err("Database error during import: Failed to get connection: timed out - all changes rolled back"
            .to_string())
    );
    assert!(store.committed.is_empty());
    assert_eq!(progress.last().unwrap().stage, ImportStage::Error);
    assert_orderly(&progress);
}

#[test]
fn import_failed_commit_gives_no_result() {
    let mut store = MemoryStore::default();
    store.fail_commit = true;
    let (result, progress) =
        import("added,amount,category\n2026-01-15,500,b\n", ImportTable::Intake, &mut store);
    assert_eq!(
        result,
        Err("Database error during import: Database operation failed - all changes rolled back"
            .to_string())
    );
    assert!(store.committed.is_empty());
    assert_eq!(progress.last().unwrap().stage, ImportStage::Error);
    assert_orderly(&progress);
}

#[test]
fn import_cancelled_between_two_rows_of_the_validation() {
    let cancellation = ImportCancellation::new();
    let mut session = ImportSession::new(
        "added,amount,category\n2026-01-15,500,b\n2026-01-16,600,l\n",
        ImportTable::Intake,
        0,
    );
    let mut progress = Vec::new();
    // announce, read the table, validate the first row
    for _ in 0..3 {
        let turn = session.step(&cancellation, StoreReply::Done);
        assert!(matches!(turn.command, ImportCommand::Continue));
        progress.extend(turn.progress);
    }
    assert!(session.polls());
    cancellation.cancel();
    let turn = session.step(&cancellation, StoreReply::Done);
    progress.extend(turn.progress);
    match turn.command {
        ImportCommand::Finish(Err(message)) => assert_eq!(message, "Import cancelled by user"),
        _ => panic!("the checkpoint before the second row stops the import"),
    }
    assert_eq!(progress.last().unwrap().message, "Import cancelled by user");
    assert_orderly(&progress);
}

#[test]
fn entry_of_a_record_that_does_not_match_the_header() {
    let header = vec!["added".to_string(), "amount".to_string(), "category".to_string()];
    let cells = vec!["2026-01-15".to_string(), "500".to_string()];
    assert_eq!(
        read_entry(ImportTable::Intake, &header, &cells).unwrap_err(),
        "record does not match the header"
    );
    let cells = vec!["2026-01-15".to_string(), "500".to_string(), "b".to_string()];
    match read_entry(ImportTable::Intake, &header, &cells).unwrap() {
        ImportEntry::Intake(entry) => {
            assert_eq!(entry.added, "2026-01-15");
            assert_eq!(entry.amount, 500);
            assert_eq!(entry.category, "b");
            assert_eq!(entry.description, None);
        }
        _ => panic!("an intake entry was asked for"),
    }
    let header = vec!["time".to_string(), "amount".to_string(), "added".to_string()];
    let cells = vec!["".to_string(), "-0.5".to_string(), "x".to_string()];
    match read_entry(ImportTable::WeightTracker, &header, &cells).unwrap() {
        ImportEntry::WeightTracker(entry) => {
            assert_eq!(entry.added, "x");
            assert_eq!(entry.amount, -500);
            assert_eq!(entry.time, None);
        }
        _ => panic!("a weight entry was asked for"),
    }
    assert_eq!(
        read_entry(ImportTable::WeightTarget, &header, &cells).unwrap_err(),
        "missing field `endDate`"
    );
    assert_eq!(
        read_entry(ImportTable::IntakeTarget, &header, &cells).unwrap_err(),
        "missing field `endDate`"
    );
}

#[test]
fn import_takes_weights_as_plain_decimals() {
    let mut store = MemoryStore::default();
    let (result, _) =
        import("added,amount\n2026-01-15,7.5e1\n", ImportTable::WeightTracker, &mut store);
    assert_eq!(
        result,
        Err("Row 2: Failed to parse CSV - field `amount`: invalid number `7.5e1`".to_string())
    );
    let (result, _) =
        import("added,amount\n2026-01-15,330.0004\n", ImportTable::WeightTracker, &mut store);
    assert_eq!(result.unwrap().imported_count, 1);
    assert_eq!(store.committed, vec!["2026-01-15|330000|None"]);
}
