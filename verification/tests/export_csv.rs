use std::io::Read;

use librefit_lib::service::export::csv::{
    create_food_category_csv, create_intake_csv, create_intake_target_csv,
    create_weight_target_csv, create_weight_tracker_csv, export_csv, format_weight, CsvCommand,
    CsvExport, CsvPhase, CsvReply, ExportKind,
};
use librefit_lib::service::export::{
    export_database_file, ExportCancellation, ExportFormat, ExportProgress, ExportResult,
    ExportSession, ExportStage,
};
use librefit_lib::service::intake::{FoodCategory, Intake, IntakeTarget};
use librefit_lib::service::weight::{WeightTarget, WeightTracker};

/// A store in memory.
#[derive(Default)]
struct Store {
    intake: Vec<(String, i32, String, Option<String>)>,
    weight: Vec<(String, i64)>,
    intake_targets: Vec<(String, String, i32, i32)>,
    weight_targets: Vec<(String, String, i64, i64)>,
    categories: Vec<(String, String)>,
    fail_connect: bool,
    fail_count: bool,
    fail_load: Option<ExportKind>,
    commands: Vec<String>,
}

impl Store {
    fn intakes(&self) -> Vec<Intake> {
        self.intake
            .iter()
            .enumerate()
            .map(|(i, e)| Intake {
                id: i as i32 + 1,
                added: e.0.clone(),
                amount: e.1,
                category: e.2.clone(),
                description: e.3.clone(),
            })
            .collect()
    }

    fn weights(&self) -> Vec<WeightTracker> {
        self.weight
            .iter()
            .enumerate()
            .map(|(i, e)| WeightTracker {
                id: i as i32 + 1,
                added: e.0.clone(),
                amount: e.1,
                time: "12:00:00".to_string(),
            })
            .collect()
    }

    fn intake_targets(&self) -> Vec<IntakeTarget> {
        self.intake_targets
            .iter()
            .enumerate()
            .map(|(i, e)| IntakeTarget {
                id: i as i32 + 1,
                added: e.0.clone(),
                start_date: e.0.clone(),
                end_date: e.1.clone(),
                target_calories: e.2,
                maximum_calories: e.3,
            })
            .collect()
    }

    fn weight_targets(&self) -> Vec<WeightTarget> {
        self.weight_targets
            .iter()
            .enumerate()
            .map(|(i, e)| WeightTarget {
                id: i as i32 + 1,
                added: e.0.clone(),
                start_date: e.0.clone(),
                end_date: e.1.clone(),
                initial_weight: e.2,
                target_weight: e.3,
            })
            .collect()
    }

    fn categories(&self) -> Vec<FoodCategory> {
        self.categories
            .iter()
            .map(|e| FoodCategory { shortvalue: e.0.clone(), longvalue: e.1.clone() })
            .collect()
    }
}

fn create_test_intake_entry(
    store: &mut Store,
    added: &str,
    amount: i32,
    category: &str,
    description: Option<String>,
) {
    store.intake.push((added.to_string(), amount, category.to_string(), description));
}

fn create_test_weight_entry(store: &mut Store, added: &str, grams: i64) {
    store.weight.push((added.to_string(), grams));
}

fn create_test_intake_target(store: &mut Store, start: &str, end: &str, target: i32, maximum: i32) {
    store.intake_targets.push((start.to_string(), end.to_string(), target, maximum));
}

fn create_test_weight_target(store: &mut Store, start: &str, end: &str, initial: i64, target: i64) {
    store.weight_targets.push((start.to_string(), end.to_string(), initial, target));
}

fn setup_test_store() -> Store {
    let mut store = Store::default();
    for (code, name) in [("b", "Breakfast"), ("l", "Lunch"), ("d", "Dinner"), ("s", "Snack")] {
        store.categories.push((code.to_string(), name.to_string()));
    }
    store
}

/// Runs a tabular export to its end.
fn run(
    export: &mut CsvExport,
    cancellation: &ExportCancellation,
    store: &mut Store,
    progress: &mut Vec<ExportProgress>,
) -> Result<ExportResult, String> {
    let mut reply = CsvReply::Done;
    loop {
        let turn = export.step(cancellation, reply);
        progress.extend(turn.progress);
        reply = CsvReply::Done;
        match turn.command {
            CsvCommand::Connect => {
                store.commands.push("connect".to_string());
                if store.fail_connect {
                    reply = CsvReply::Failed("pool is closed".to_string());
                }
            }
            CsvCommand::CountRows(kind) => {
                store.commands.push(format!("count {:?}", kind));
                reply = if store.fail_count {
                    CsvReply::Failed("no such table".to_string())
                } else {
                    CsvReply::Count(match kind {
                        ExportKind::CalorieEntries => store.intake.len(),
                        ExportKind::WeightHistory => store.weight.len(),
                        ExportKind::CalorieTargets => store.intake_targets.len(),
                        ExportKind::WeightTargets => store.weight_targets.len(),
                        ExportKind::FoodCategories => store.categories.len(),
                    })
                };
            }
            CsvCommand::LoadRows(kind) => {
                store.commands.push(format!("load {:?}", kind));
                reply = if store.fail_load == Some(kind) {
                    CsvReply::Failed("Database operation failed".to_string())
                } else {
                    match kind {
                        ExportKind::CalorieEntries => CsvReply::Intakes(store.intakes()),
                        ExportKind::WeightHistory => CsvReply::WeightEntries(store.weights()),
                        ExportKind::CalorieTargets => CsvReply::IntakeTargets(store.intake_targets()),
                        ExportKind::WeightTargets => CsvReply::WeightTargets(store.weight_targets()),
                        ExportKind::FoodCategories => CsvReply::FoodCategories(store.categories()),
                    }
                };
            }
            CsvCommand::Continue => {}
            CsvCommand::Finish(result) => {
                assert!(export.is_finished());
                return result;
            }
        }
    }
}

fn export(store: &mut Store) -> (Result<ExportResult, String>, Vec<ExportProgress>) {
    let cancellation = ExportCancellation::new();
    let mut progress = Vec::new();
    let result = match export_database_file(&cancellation, ExportFormat::Csv) {
        ExportSession::Csv(mut export) => run(&mut export, &cancellation, store, &mut progress),
        ExportSession::Raw(_) => panic!("asked for a tabular export"),
    };
    (result, progress)
}

/// The files of an archive: the name and the text of each, in order.
fn unpack(bytes: &[u8]) -> Vec<(String, String)> {
    let mut archive = zip::ZipArchive::new(std::io::Cursor::new(bytes)).unwrap();
    let mut files = Vec::new();
    for i in 0..archive.len() {
        let mut file = archive.by_index(i).unwrap();
        let mut text = String::new();
        file.read_to_string(&mut text).unwrap();
        files.push((file.name().to_string(), text));
    }
    files
}

fn rank(stage: ExportStage) -> u32 {
    match stage {
        ExportStage::Initializing => 0,
        ExportStage::AnalyzingDatabase => 1,
        ExportStage::CreatingBackup => 2,
        ExportStage::ReadingFile => 3,
        ExportStage::Finalizing => 4,
        _ => 5,
    }
}

fn assert_in_order(progress: &[ExportProgress]) {
    assert!(!progress.is_empty());
    for (i, event) in progress.iter().enumerate() {
        assert!(event.percent.hundredths <= 10_000);
        assert_eq!(rank(event.stage) == 5, i == progress.len() - 1, "terminal at {}", i);
        if i > 0 {
            assert!(rank(progress[i - 1].stage) <= rank(event.stage));
            if event.stage != ExportStage::Cancelled && event.stage != ExportStage::Error {
                assert!(progress[i - 1].percent.hundredths <= event.percent.hundredths);
            }
        }
    }
}

// ============================================================================
// CSV EXPORT TESTS
// ============================================================================

#[test]
fn test_export_csv_empty_database() {
    let mut store = setup_test_store();
    let (result, progress) = export(&mut store);

    assert!(result.is_ok());
    let export_result = result.unwrap();

    // Should be a ZIP file even if empty
    assert!(export_result.bytes.len() > 0);

    // Verify ZIP magic number (PK)
    assert_eq!(&export_result.bytes[0..2], b"PK");

    // Filename should contain date
    assert!(export_result.file_path.contains("librefit_export_"));
    assert!(export_result.file_path.ends_with(".zip"));

    // Verify complete stage
    let mut complete_received = false;
    for progress in progress.iter() {
        if matches!(progress.stage, ExportStage::Complete) {
            complete_received = true;
        }
    }
    assert!(complete_received);
}

#[test]
fn test_export_csv_with_data() {
    let mut store = setup_test_store();

    // Create comprehensive test data
    create_test_intake_target(&mut store, "2026-01-01", "2026-06-01", 2000, 2500);
    create_test_weight_target(&mut store, "2026-01-01", "2026-06-01", 80_000, 75_000);

    // Multiple intake entries across categories
    create_test_intake_entry(&mut store, "2026-01-15", 500, "b", Some("Breakfast".to_string()));
    create_test_intake_entry(&mut store, "2026-01-15", 700, "l", Some("Lunch".to_string()));
    create_test_intake_entry(&mut store, "2026-01-15", 600, "d", None);
    create_test_intake_entry(&mut store, "2026-01-16", 200, "s", Some("Snack".to_string()));

    // Weight entries
    create_test_weight_entry(&mut store, "2026-01-15", 79_500);
    create_test_weight_entry(&mut store, "2026-01-16", 79_300);

    let (result, progress) = export(&mut store);

    assert!(result.is_ok());
    let export_result = result.unwrap();

    // ZIP should be reasonably sized
    assert!(export_result.bytes.len() > 200);

    // Verify ZIP magic number
    assert_eq!(&export_result.bytes[0..2], b"PK");

    // Verify progress included record counts
    let mut final_message = String::new();
    for progress in progress.iter() {
        if matches!(progress.stage, ExportStage::Complete) {
            final_message = progress.message.clone();
        }
    }

    assert!(final_message.contains("records"));
    assert!(final_message.ends_with(", 8 records)"), "{}", final_message);
}

#[test]
fn test_export_csv_cancellation() {
    let cancellation = ExportCancellation::new();
    let mut store = setup_test_store();

    // Create some data
    for i in 0..20 {
        create_test_intake_entry(&mut store, "2026-01-15", 100 + i, "b", None);
    }

    // Cancel before export
    cancellation.cancel();

    let mut progress = Vec::new();
    let mut export = export_csv();
    let result = run(&mut export, &cancellation, &mut store, &mut progress);

    // a tabular export has no checkpoint: it completes
    if result.is_err() {
        let err = result.err().unwrap();
        assert!(err.contains("cancelled by user"));
    } else {
        assert_eq!(unpack(&result.unwrap().bytes).len(), 5);
    }
    assert!(!cancellation.is_cancelled());
}

#[test]
fn test_export_csv_all_tables_included() {
    let mut store = setup_test_store();

    // Create data for all table types
    create_test_intake_entry(&mut store, "2026-01-15", 500, "b", None);
    create_test_weight_entry(&mut store, "2026-01-15", 79_500);
    create_test_intake_target(&mut store, "2026-01-01", "2026-06-01", 2000, 2500);
    create_test_weight_target(&mut store, "2026-01-01", "2026-06-01", 80_000, 75_000);

    let (result, progress) = export(&mut store);

    assert!(result.is_ok());

    // Verify we got progress for all tables
    let mut messages = Vec::new();
    for progress in progress.iter() {
        messages.push(progress.message.clone());
    }

    let messages_str = messages.join(" ");
    assert!(messages_str.contains("calorie") || messages_str.contains("Exporting"));
    assert!(messages_str.contains("weight") || messages_str.contains("history"));

    let names: Vec<String> = unpack(&result.unwrap().bytes).into_iter().map(|f| f.0).collect();
    assert_eq!(
        names,
        vec![
            "calorie_entries.csv",
            "weight_history.csv",
            "calorie_targets.csv",
            "weight_targets.csv",
            "food_categories.csv"
        ]
    );
}

#[test]
fn test_export_csv_all_stages_present() {
    let mut store = setup_test_store();
    create_test_intake_entry(&mut store, "2026-01-15", 500, "b", None);

    let (_result, progress) = export(&mut store);

    let mut stages = std::collections::HashSet::new();
    for progress in progress.iter() {
        stages.insert(format!("{:?}", progress.stage));
    }

    // CSV export should have these stages
    assert!(stages.contains("Initializing"));
    assert!(stages.contains("AnalyzingDatabase"));
    assert!(stages.contains("CreatingBackup")); // Used for CSV creation phase
    assert!(stages.contains("Finalizing"));
    assert!(stages.contains("Complete"));
}

// ============================================================================
// MORE OF THE SAME KIND
// ============================================================================

#[test]
fn csv_export_files_hold_one_row_per_record() {
    let mut store = setup_test_store();
    for i in 0..7 {
        create_test_intake_entry(&mut store, "2026-01-15", 100 + i, "b", None);
    }
    for i in 0..3 {
        create_test_weight_entry(&mut store, "2026-01-15", 79_000 + 100 * i);
    }
    let (result, progress) = export(&mut store);
    let files = unpack(&result.unwrap().bytes);
    assert_eq!(files.len(), 5);
    let rows = |text: &str| text.lines().count();
    assert_eq!(rows(&files[0].1), 7 + 1);
    assert_eq!(rows(&files[1].1), 3 + 1);
    assert_eq!(rows(&files[2].1), 1);
    assert_eq!(rows(&files[3].1), 1);
    assert_eq!(rows(&files[4].1), 4 + 1);
    assert_eq!(files[1].1, "Date,Weight (kg)\n2026-01-15,79.0\n2026-01-15,79.1\n2026-01-15,79.2\n");
    assert_in_order(&progress);
}

#[test]
fn csv_export_reports_exact_messages_and_percentages() {
    let mut store = setup_test_store();
    create_test_intake_entry(&mut store, "2026-01-15", 500, "b", None);
    create_test_intake_entry(&mut store, "2026-01-16", 600, "l", None);
    create_test_weight_entry(&mut store, "2026-01-15", 79_500);
    let (result, progress) = export(&mut store);
    let size = result.unwrap().bytes.len();
    let seen: Vec<(ExportStage, u32, &str, Option<usize>, Option<usize>)> = progress
        .iter()
        .map(|e| (e.stage, e.percent.hundredths, e.message.as_str(), e.bytes_processed, e.total_bytes))
        .collect();
    let complete = format!(
        "Export complete ({}, 3 records)",
        librefit_lib::service::export::format_bytes(size)
    );
    let expected = vec![
        (ExportStage::Initializing, 0, "Starting CSV export...", None, None),
        (ExportStage::Initializing, 500, "Connected to database", None, None),
        (ExportStage::AnalyzingDatabase, 500, "Counting records...", None, None),
        (ExportStage::AnalyzingDatabase, 1000, "Found 3 records to export", None, None),
        (ExportStage::CreatingBackup, 1000, "Creating CSV files...", None, None),
        (ExportStage::CreatingBackup, 1500, "Exporting calorie entries...", Some(0), Some(3)),
        (ExportStage::CreatingBackup, 3000, "Exporting weight history...", Some(2), Some(3)),
        (ExportStage::CreatingBackup, 4500, "Exporting calorie targets...", Some(3), Some(3)),
        (ExportStage::CreatingBackup, 6000, "Exporting weight targets...", Some(3), Some(3)),
        (ExportStage::CreatingBackup, 7500, "Exporting food categories...", Some(3), Some(3)),
        (ExportStage::Finalizing, 9000, "Finalizing archive...", Some(3), Some(3)),
        (ExportStage::Complete, 10_000, complete.as_str(), Some(size), Some(size)),
    ];
    assert_eq!(seen, expected);
    assert_eq!(
        store.commands,
        vec![
            "connect",
            "count CalorieEntries",
            "count WeightHistory",
            "count CalorieTargets",
            "count WeightTargets",
            "load CalorieEntries",
            "load WeightHistory",
            "load CalorieTargets",
            "load WeightTargets",
            "load FoodCategories",
        ]
    );
}

#[test]
fn csv_tables_have_pinned_headers_and_columns() {
    let intakes = vec![
        Intake {
            id: 1,
            added: "2026-01-15".to_string(),
            amount: 500,
            category: "b".to_string(),
            description: Some("Bread, butter".to_string()),
        },
        Intake {
            id: 2,
            added: "2026-01-16".to_string(),
            amount: -7,
            category: "l".to_string(),
            description: None,
        },
    ];
    assert_eq!(
        create_intake_csv(&intakes).unwrap(),
        "Date,Amount (kcal),Category,Description\n2026-01-15,500,b,\"Bread, butter\"\n2026-01-16,-7,l,\n"
    );
    let weights = vec![WeightTracker {
        id: 1,
        added: "2026-01-15".to_string(),
        amount: 79_550,
        time: "08:00:00".to_string(),
    }];
    assert_eq!(create_weight_tracker_csv(&weights).unwrap(), "Date,Weight (kg)\n2026-01-15,79.6\n");
    let targets = vec![IntakeTarget {
        id: 1,
        added: "2026-01-01".to_string(),
        end_date: "2026-06-01".to_string(),
        maximum_calories: 2500,
        start_date: "2026-01-02".to_string(),
        target_calories: 2000,
    }];
    assert_eq!(
        create_intake_target_csv(&targets).unwrap(),
        "Created,Start Date,End Date,Target Calories,Maximum Calories\n2026-01-01,2026-01-02,2026-06-01,2000,2500\n"
    );
    let targets = vec![WeightTarget {
        id: 1,
        added: "2026-01-01".to_string(),
        end_date: "2026-06-01".to_string(),
        initial_weight: 80_000,
        start_date: "2026-01-02".to_string(),
        target_weight: 75_250,
    }];
    assert_eq!(
        create_weight_target_csv(&targets).unwrap(),
        "Created,Start Date,End Date,Initial Weight (kg),Target Weight (kg)\n2026-01-01,2026-01-02,2026-06-01,80.0,75.2\n"
    );
    let categories =
        vec![FoodCategory { longvalue: "Breakfast".to_string(), shortvalue: "b".to_string() }];
    assert_eq!(create_food_category_csv(&categories).unwrap(), "Code,Name\nb,Breakfast\n");
    assert_eq!(create_food_category_csv(&Vec::new()).unwrap(), "Code,Name\n");
}

#[test]
fn weights_are_written_with_one_decimal() {
    assert_eq!(format_weight(0), "0.0");
    assert_eq!(format_weight(79_500), "79.5");
    assert_eq!(format_weight(79_549), "79.5");
    assert_eq!(format_weight(79_551), "79.6");
    // ties go to the even tenth
    assert_eq!(format_weight(79_450), "79.4");
    assert_eq!(format_weight(79_550), "79.6");
    assert_eq!(format_weight(-1_250), "-1.2");
    assert_eq!(format_weight(-40), "-0.0");
    assert_eq!(format_weight(i64::MIN), "-9223372036854775.8");
    for kilograms in [30.0f32, 75.5, 79.3, 120.25, 299.9, 330.0] {
        let grams = (kilograms as f64 * 1000.0).round() as i64;
        assert_eq!(format_weight(grams), format!("{:.1}", kilograms));
    }
}

#[test]
fn csv_export_counts_nothing_where_counting_fails() {
    let mut store = setup_test_store();
    store.fail_count = true;
    create_test_intake_entry(&mut store, "2026-01-15", 500, "b", None);
    let (result, progress) = export(&mut store);
    assert!(result.is_ok());
    assert!(progress.iter().any(|e| e.message == "Found 0 records to export"));
    assert_in_order(&progress);
}

#[test]
fn csv_export_connection_failure_is_reported() {
    let mut store = setup_test_store();
    store.fail_connect = true;
    let (result, progress) = export(&mut store);
    assert_eq!(result.err().unwrap(), "Failed to get database connection: pool is closed");
    assert_eq!(progress.last().unwrap().stage, ExportStage::Error);
    assert_eq!(store.commands, vec!["connect"]);
    assert_in_order(&progress);
}

#[test]
fn csv_export_load_failure_ends_the_export() {
    let cases = [
        (ExportKind::CalorieEntries, "Failed to load intake: Database operation failed"),
        (ExportKind::WeightHistory, "Failed to load weight tracker: Database operation failed"),
        (ExportKind::CalorieTargets, "Failed to load intake targets: Database operation failed"),
        (ExportKind::WeightTargets, "Failed to load weight targets: Database operation failed"),
        (ExportKind::FoodCategories, "Failed to load food categories: Database operation failed"),
    ];
    for (kind, message) in cases {
        let mut store = setup_test_store();
        store.fail_load = Some(kind);
        let (result, progress) = export(&mut store);
        assert_eq!(result.err().unwrap(), message);
        assert_eq!(progress.last().unwrap().stage, ExportStage::Error);
        assert_eq!(progress.last().unwrap().message, message);
        assert_in_order(&progress);
    }
}

#[test]
fn csv_export_refuses_rows_of_another_kind() {
    let cancellation = ExportCancellation::new();
    let mut export = CsvExport::new();
    assert_eq!(export.phase(), CsvPhase::Start);
    export.step(&cancellation, CsvReply::Done);
    export.step(&cancellation, CsvReply::Done);
    for _ in 0..4 {
        export.step(&cancellation, CsvReply::Count(0));
    }
    assert_eq!(export.phase(), CsvPhase::Loading);
    let turn = export.step(&cancellation, CsvReply::FoodCategories(Vec::new()));
    match turn.command {
        CsvCommand::Finish(Err(message)) => {
            assert_eq!(message, "Failed to load intake: unexpected reply")
        }
        _ => panic!("rows of another kind end the export"),
    }
    assert_eq!(export.phase(), CsvPhase::Finished);
    let turn = export.step(&cancellation, CsvReply::Done);
    assert!(turn.progress.is_empty());
    match turn.command {
        CsvCommand::Finish(Err(message)) => assert_eq!(message, "Export already finished"),
        _ => panic!("a finished export hands out nothing but its end"),
    }
}

#[test]
fn csv_export_file_name_carries_the_day() {
    let mut store = setup_test_store();
    let (result, _) = export(&mut store);
    let name = result.unwrap().file_path;
    // librefit_export_YYYY-MM-DD.zip
    assert_eq!(name.len(), "librefit_export_".len() + 10 + ".zip".len());
    assert!(name["librefit_export_".len()..].starts_with("20"));
}
