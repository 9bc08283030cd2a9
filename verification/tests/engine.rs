use scam::copy::FileSummary;
use scam::engine::{
    RunAction, RunEvent, RunMachine, TransferTotals, removes_source_directories, worker_count,
};
use scam::error::ScamError;
use scam::metadata::{MetadataSnapshot, PermissionBits};
use scam::model::{DirectoryTransfer, FsPath, Operation, RunSummary, TransferPlan};
use std::time::Duration;

fn path(parts: &[&str]) -> FsPath {
    FsPath::from_components(parts.iter().map(|p| p.as_bytes().to_vec()).collect())
}

#[test]
fn totals_add_up_per_file_summaries() {
    let summaries = vec![
        FileSummary { bytes_copied: 100, retries: 0, resumed_bytes: 0 },
        FileSummary { bytes_copied: 50, retries: 2, resumed_bytes: 30 },
        FileSummary { bytes_copied: 7, retries: 1, resumed_bytes: 7 },
    ];
    let totals = TransferTotals::of_summaries(&summaries);
    assert_eq!(totals.bytes_copied, 157);
    assert_eq!(totals.retries, 3);
    assert_eq!(totals.resumed_bytes, 37);
    assert_eq!(totals.resumed_files, 2);
    assert_eq!(TransferTotals::of_summaries(&Vec::new()), TransferTotals::zero());
}

#[test]
fn chooses_worker_counts() {
    assert_eq!(worker_count(1, 8), 1);
    assert_eq!(worker_count(0, 8), 1);
    assert_eq!(worker_count(5, 8), 8);
    assert_eq!(worker_count(5, 0), 1);
}

#[test]
fn removes_source_directories_only_for_directory_moves() {
    let snapshot = MetadataSnapshot {
        permissions: PermissionBits { readonly: false, mode: None },
        accessed: None,
        modified: None,
    };
    let mut plan = TransferPlan::for_directory(Operation::Move, path(&["s"]), path(&["d"]));
    assert!(!removes_source_directories(&plan));
    plan.directories.push(DirectoryTransfer { source: path(&["s"]), destination: path(&["d"]), metadata: snapshot });
    assert!(removes_source_directories(&plan));
    plan.operation = Operation::Copy;
    assert!(!removes_source_directories(&plan));

    let totals = TransferTotals { bytes_copied: 9, resumed_bytes: 4, resumed_files: 1, retries: 2 };
    let summary = RunSummary::of_run(&plan, totals, Duration::from_millis(1500));
    assert_eq!(summary.directories, 1);
    assert_eq!(summary.files, 0);
    assert_eq!(summary.bytes_copied, 9);
    assert_eq!(summary.resumed_files, 1);
    assert_eq!(summary.elapsed, Duration::from_millis(1500));
}

#[test]
fn detects_totals_that_overflow() {
    let small = vec![
        FileSummary { bytes_copied: 100, retries: 0, resumed_bytes: 0 },
        FileSummary { bytes_copied: u64::MAX - 100, retries: 1, resumed_bytes: 5 },
    ];
    assert!(TransferTotals::fit(&small));
    assert!(TransferTotals::fit(&Vec::new()));
    let too_large = vec![
        FileSummary { bytes_copied: 101, retries: 0, resumed_bytes: 0 },
        FileSummary { bytes_copied: u64::MAX - 100, retries: 1, resumed_bytes: 5 },
    ];
    assert!(!TransferTotals::fit(&too_large));
    let too_many_retries = vec![
        FileSummary { bytes_copied: 1, retries: usize::MAX, resumed_bytes: 0 },
        FileSummary { bytes_copied: 1, retries: 1, resumed_bytes: 0 },
    ];
    assert!(!TransferTotals::fit(&too_many_retries));
}

fn run_machine(
    directories: usize,
    removes_sources: bool,
    events: Vec<RunEvent>,
) -> Vec<RunAction> {
    let (mut machine, first) = RunMachine::start(directories, removes_sources);
    let mut actions = vec![first];
    for event in events {
        assert!(machine.accepts(&event));
        let (next, action) = machine.step(event);
        machine = next;
        actions.push(action);
    }
    actions
}

#[test]
fn a_directory_move_runs_in_order() {
    let summaries = vec![
        FileSummary { bytes_copied: 10, retries: 1, resumed_bytes: 4 },
        FileSummary { bytes_copied: 5, retries: 0, resumed_bytes: 0 },
    ];
    let actions = run_machine(
        3,
        true,
        vec![
            RunEvent::DirectoryCreated(Ok(())),
            RunEvent::DirectoryCreated(Ok(())),
            RunEvent::DirectoryCreated(Ok(())),
            RunEvent::FilesTransferred(Ok(summaries)),
            RunEvent::DirectoryMetadataApplied(Ok(())),
            RunEvent::DirectoryMetadataApplied(Ok(())),
            RunEvent::DirectoryMetadataApplied(Ok(())),
            RunEvent::SourceDirectoryRemoved(Ok(())),
            RunEvent::SourceDirectoryRemoved(Ok(())),
            RunEvent::SourceDirectoryRemoved(Ok(())),
            RunEvent::ProgressFinished(Ok(())),
        ],
    );
    let order: Vec<String> = actions
        .iter()
        .map(|a| match a {
            RunAction::CreateDirectory(i) => format!("create {i}"),
            RunAction::TransferFiles => "files".to_string(),
            RunAction::ApplyDirectoryMetadata(i) => format!("metadata {i}"),
            RunAction::RemoveSourceDirectory(i) => format!("remove {i}"),
            RunAction::FinishProgress => "progress".to_string(),
            RunAction::Finish(_) => "finish".to_string(),
            RunAction::Fail(_) => "fail".to_string(),
        })
        .collect();
    assert_eq!(
        order,
        vec![
            "create 0", "create 1", "create 2", "files", "metadata 2", "metadata 1", "metadata 0",
            "remove 2", "remove 1", "remove 0", "progress", "finish"
        ]
    );
    match actions.last() {
        Some(RunAction::Finish(totals)) => assert_eq!(
            *totals,
            TransferTotals { bytes_copied: 15, resumed_bytes: 4, resumed_files: 1, retries: 1 }
        ),
        other => panic!("unexpected {other:?}"),
    }
}

#[test]
fn a_file_copy_transfers_then_finishes() {
    let actions = run_machine(
        0,
        false,
        vec![
            RunEvent::FilesTransferred(Ok(vec![FileSummary {
                bytes_copied: 7,
                retries: 0,
                resumed_bytes: 0,
            }])),
            RunEvent::ProgressFinished(Ok(())),
        ],
    );
    assert!(matches!(actions[0], RunAction::TransferFiles));
    assert!(matches!(actions[1], RunAction::FinishProgress));
    assert!(matches!(actions[2], RunAction::Finish(TransferTotals { bytes_copied: 7, .. })));
}

#[test]
fn a_directory_copy_keeps_its_sources_and_stops_at_the_first_error() {
    let actions = run_machine(
        1,
        false,
        vec![
            RunEvent::DirectoryCreated(Ok(())),
            RunEvent::FilesTransferred(Ok(Vec::new())),
            RunEvent::DirectoryMetadataApplied(Ok(())),
        ],
    );
    assert!(matches!(actions[3], RunAction::FinishProgress));

    let failed = run_machine(
        2,
        true,
        vec![RunEvent::DirectoryCreated(Err(ScamError::parallel_setup("no".to_string())))],
    );
    assert!(matches!(failed[1], RunAction::Fail(ScamError::ParallelSetup { .. })));
}
