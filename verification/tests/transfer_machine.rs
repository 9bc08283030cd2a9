use scam::checksum::Checksum;
use scam::copy::{
    AttemptFailure, DestinationProbe, FileFailure, FileSummary, FileTransferMachine, PrefixComparison,
    RetryReason,
    TransferAction, TransferConfig, TransferEvent, chunks_equal, copy_fast_path_failure,
    copy_read_failure, effective_buffer_size, next_chunk_len, source_open_failure,
};
use scam::error::{IoErrorKind, ScamError};
use scam::metadata::{MetadataSnapshot, PermissionBits};
use scam::model::{FileTransfer, FsPath};

const EXPECTED: Checksum = Checksum { bytes: [1u8; 32] };
const OTHER: Checksum = Checksum { bytes: [2u8; 32] };

fn config(size: u64) -> TransferConfig {
    TransferConfig {
        size_bytes: size,
        max_retries: None,
        retry_delay_ms: 5,
        progress: false,
        remove_source: false,
    }
}

/// Feed `events` one by one and collect every action, starting with the first.
fn run(config: TransferConfig, events: Vec<TransferEvent>) -> (FileTransferMachine, Vec<TransferAction>) {
    let (mut machine, first) = FileTransferMachine::start(config);
    let mut actions = vec![first];
    for event in events {
        assert!(machine.accepts(&event), "event {event:?} does not answer {:?}", actions.last());
        let (next, action) = machine.step(event);
        machine = next;
        actions.push(action);
    }
    (machine, actions)
}

fn prefix_up_to_probe() -> Vec<TransferEvent> {
    vec![TransferEvent::SourceHashed(Ok(EXPECTED)), TransferEvent::ParentEnsured(Ok(()))]
}

fn path(parts: &[&str]) -> FsPath {
    FsPath::from_components(parts.iter().map(|p| p.as_bytes().to_vec()).collect())
}

#[test]
fn copies_a_fresh_destination_and_verifies_it() {
    let mut events = prefix_up_to_probe();
    events.extend([
        TransferEvent::DestinationProbed(DestinationProbe::Missing),
        TransferEvent::CopyFinished(Ok(())),
        TransferEvent::DestinationHashed(Ok(EXPECTED)),
        TransferEvent::MetadataApplied(Ok(())),
        TransferEvent::Acknowledged,
    ]);
    let (machine, actions) = run(config(100), events);
    assert!(matches!(actions[0], TransferAction::HashSource));
    assert!(matches!(actions[1], TransferAction::EnsureParent));
    assert!(matches!(actions[2], TransferAction::ProbeDestination));
    assert!(matches!(actions[3], TransferAction::Copy { resume_from: 0, manual: false }));
    assert!(matches!(actions[4], TransferAction::HashDestination));
    assert!(matches!(actions[5], TransferAction::ApplyMetadata));
    assert!(matches!(actions[6], TransferAction::CompleteProgress));
    match &actions[7] {
        TransferAction::Finish(summary) => assert_eq!(
            *summary,
            FileSummary { bytes_copied: 100, retries: 0, resumed_bytes: 0 }
        ),
        other => panic!("unexpected {other:?}"),
    }
    assert!(machine.is_finished());
    assert!(machine.destination_verified);
}

#[test]
fn progress_reporting_always_uses_the_manual_copy() {
    let mut events = prefix_up_to_probe();
    events.push(TransferEvent::DestinationProbed(DestinationProbe::Missing));
    let mut cfg = config(10);
    cfg.progress = true;
    let (_, actions) = run(cfg, events);
    assert!(matches!(actions.last(), Some(TransferAction::Copy { resume_from: 0, manual: true })));
}

#[test]
fn resumes_after_a_matching_shorter_destination() {
    let mut events = prefix_up_to_probe();
    events.extend([
        TransferEvent::DestinationProbed(DestinationProbe::File { len: 40 }),
        TransferEvent::IdentityChecked(Ok(false)),
        TransferEvent::PrefixCompared(Ok(true)),
        TransferEvent::Acknowledged,
        TransferEvent::CopyFinished(Ok(())),
        TransferEvent::DestinationHashed(Ok(EXPECTED)),
        TransferEvent::MetadataApplied(Ok(())),
        TransferEvent::Acknowledged,
    ]);
    let (_, actions) = run(config(100), events);
    assert!(matches!(actions[3], TransferAction::CheckIdentity));
    assert!(matches!(actions[4], TransferAction::ComparePrefix { length: 40 }));
    assert!(matches!(actions[5], TransferAction::AccountResumed { bytes: 40 }));
    assert!(matches!(actions[6], TransferAction::Copy { resume_from: 40, manual: true }));
    match actions.last() {
        Some(TransferAction::Finish(summary)) => {
            assert_eq!(summary.resumed_bytes, 40);
            assert_eq!(summary.bytes_copied, 100);
        }
        other => panic!("unexpected {other:?}"),
    }
}

#[test]
fn restarts_after_a_differing_prefix_or_a_longer_destination() {
    let mut events = prefix_up_to_probe();
    events.extend([
        TransferEvent::DestinationProbed(DestinationProbe::File { len: 40 }),
        TransferEvent::IdentityChecked(Ok(false)),
        TransferEvent::PrefixCompared(Ok(false)),
        TransferEvent::StaleDestinationRemoved(Ok(())),
    ]);
    let (_, actions) = run(config(100), events);
    assert!(matches!(actions[5], TransferAction::RemoveStaleDestination));
    assert!(matches!(actions[6], TransferAction::Copy { resume_from: 0, manual: false }));

    let mut events = prefix_up_to_probe();
    events.extend([
        TransferEvent::DestinationProbed(DestinationProbe::File { len: 400 }),
        TransferEvent::IdentityChecked(Ok(false)),
    ]);
    let (_, actions) = run(config(100), events);
    assert!(matches!(actions.last(), Some(TransferAction::RemoveStaleDestination)));

    let mut events = prefix_up_to_probe();
    events.extend([
        TransferEvent::DestinationProbed(DestinationProbe::File { len: 0 }),
        TransferEvent::IdentityChecked(Ok(false)),
    ]);
    let (_, actions) = run(config(100), events);
    assert!(matches!(actions.last(), Some(TransferAction::Copy { resume_from: 0, manual: false })));
}

#[test]
fn reuses_a_complete_matching_destination() {
    let mut events = prefix_up_to_probe();
    events.extend([
        TransferEvent::DestinationProbed(DestinationProbe::File { len: 100 }),
        TransferEvent::IdentityChecked(Ok(false)),
        TransferEvent::DestinationHashed(Ok(EXPECTED)),
        TransferEvent::Acknowledged,
        TransferEvent::MetadataApplied(Ok(())),
        TransferEvent::Acknowledged,
    ]);
    let (_, actions) = run(config(100), events);
    assert!(matches!(actions[4], TransferAction::HashDestination));
    assert!(matches!(actions[5], TransferAction::AccountResumed { bytes: 100 }));
    assert!(matches!(actions[6], TransferAction::ApplyMetadata));
    match actions.last() {
        Some(TransferAction::Finish(summary)) => assert_eq!(summary.resumed_bytes, 100),
        other => panic!("unexpected {other:?}"),
    }
}

#[test]
fn retries_after_a_checksum_mismatch() {
    let mut events = prefix_up_to_probe();
    events.extend([
        TransferEvent::DestinationProbed(DestinationProbe::Missing),
        TransferEvent::CopyFinished(Ok(())),
        TransferEvent::DestinationHashed(Ok(OTHER)),
        TransferEvent::SourceRechecked(Ok(EXPECTED)),
        TransferEvent::Acknowledged,
        TransferEvent::Acknowledged,
        TransferEvent::Acknowledged,
        TransferEvent::ParentEnsured(Ok(())),
        TransferEvent::DestinationProbed(DestinationProbe::Missing),
        TransferEvent::CopyFinished(Ok(())),
        TransferEvent::DestinationHashed(Ok(EXPECTED)),
        TransferEvent::MetadataApplied(Ok(())),
        TransferEvent::Acknowledged,
    ]);
    let (machine, actions) = run(config(100), events);
    assert!(matches!(actions[5], TransferAction::RecheckSource));
    assert!(matches!(actions[6], TransferAction::DiscardDestination));
    assert!(matches!(actions[7], TransferAction::ResetProgress));
    match &actions[8] {
        TransferAction::AnnounceRetry {
            attempt: 1,
            reason: RetryReason::ChecksumMismatch { source, destination },
            delay_ms: 5,
        } => {
            assert_eq!(source.bytes, EXPECTED.bytes);
            assert_eq!(destination.bytes, OTHER.bytes);
        }
        other => panic!("unexpected {other:?}"),
    }
    assert!(matches!(actions[9], TransferAction::EnsureParent));
    match actions.last() {
        Some(TransferAction::Finish(summary)) => assert_eq!(summary.retries, 1),
        other => panic!("unexpected {other:?}"),
    }
    assert_eq!(machine.attempts, 2);
}

#[test]
fn gives_up_when_the_attempt_limit_is_reached() {
    let mut cfg = config(100);
    cfg.max_retries = Some(1);
    let mut events = prefix_up_to_probe();
    events.extend([
        TransferEvent::DestinationProbed(DestinationProbe::Missing),
        TransferEvent::CopyFinished(Err(AttemptFailure::Retry(RetryReason::WritingDestinationFailed(
            "disk full".to_string(),
        )))),
        TransferEvent::Acknowledged,
    ]);
    let (machine, actions) = run(cfg, events);
    assert!(matches!(actions[4], TransferAction::ResetProgress));
    assert!(matches!(
        actions[5],
        TransferAction::Fail(FileFailure::RetryLimitExceeded { attempts: 1 })
    ));
    assert!(machine.is_finished());
}

#[test]
fn a_move_rechecks_the_source_before_removing_it() {
    let mut cfg = config(100);
    cfg.remove_source = true;
    let mut events = prefix_up_to_probe();
    events.extend([
        TransferEvent::DestinationProbed(DestinationProbe::Missing),
        TransferEvent::CopyFinished(Ok(())),
        TransferEvent::DestinationHashed(Ok(EXPECTED)),
        TransferEvent::MetadataApplied(Ok(())),
        TransferEvent::SourceRechecked(Ok(EXPECTED)),
        TransferEvent::SourceRemoved(Ok(())),
        TransferEvent::Acknowledged,
    ]);
    let (_, actions) = run(cfg, events);
    assert!(matches!(actions[6], TransferAction::RecheckSource));
    assert!(matches!(actions[7], TransferAction::RemoveSource));
    assert!(matches!(actions[8], TransferAction::CompleteProgress));
    assert!(matches!(actions[9], TransferAction::Finish(_)));
}

#[test]
fn a_move_keeps_a_source_that_changed() {
    let mut cfg = config(100);
    cfg.remove_source = true;
    let mut events = prefix_up_to_probe();
    events.extend([
        TransferEvent::DestinationProbed(DestinationProbe::Missing),
        TransferEvent::CopyFinished(Ok(())),
        TransferEvent::DestinationHashed(Ok(EXPECTED)),
        TransferEvent::MetadataApplied(Ok(())),
        TransferEvent::SourceRechecked(Ok(OTHER)),
    ]);
    let (_, actions) = run(cfg, events);
    assert!(matches!(actions.last(), Some(TransferAction::Fail(FileFailure::SourceChanged))));

    let mut events = prefix_up_to_probe();
    events.extend([
        TransferEvent::DestinationProbed(DestinationProbe::Missing),
        TransferEvent::CopyFinished(Ok(())),
        TransferEvent::DestinationHashed(Ok(EXPECTED)),
        TransferEvent::MetadataApplied(Ok(())),
        TransferEvent::SourceRechecked(Err(ScamError::io(
            "opening file for hashing".to_string(),
            path(&["src"]),
            IoErrorKind::NotFound,
            "gone".to_string(),
        ))),
    ]);
    let (_, actions) = run(cfg, events);
    assert!(matches!(actions.last(), Some(TransferAction::Fail(FileFailure::SourceChanged))));
}

#[test]
fn a_mismatch_with_a_changed_source_is_fatal() {
    let mut events = prefix_up_to_probe();
    events.extend([
        TransferEvent::DestinationProbed(DestinationProbe::Missing),
        TransferEvent::CopyFinished(Ok(())),
        TransferEvent::DestinationHashed(Ok(OTHER)),
        TransferEvent::SourceRechecked(Ok(OTHER)),
    ]);
    let (_, actions) = run(config(100), events);
    assert!(matches!(actions.last(), Some(TransferAction::Fail(FileFailure::SourceChanged))));
}

#[test]
fn refuses_links_directories_and_the_source_itself() {
    let mut events = prefix_up_to_probe();
    events.push(TransferEvent::DestinationProbed(DestinationProbe::Symlink));
    let (_, actions) = run(config(1), events);
    assert!(matches!(actions.last(), Some(TransferAction::Fail(FileFailure::DestinationIsSymlink))));

    let mut events = prefix_up_to_probe();
    events.push(TransferEvent::DestinationProbed(DestinationProbe::Directory));
    let (_, actions) = run(config(1), events);
    assert!(matches!(actions.last(), Some(TransferAction::Fail(FileFailure::DestinationIsDirectory))));

    let mut events = prefix_up_to_probe();
    events.extend([
        TransferEvent::DestinationProbed(DestinationProbe::File { len: 1 }),
        TransferEvent::IdentityChecked(Ok(true)),
        TransferEvent::DestinationResolved(Ok(path(&["/", "abs", "dst"]))),
    ]);
    let (_, actions) = run(config(1), events);
    assert!(matches!(actions[4], TransferAction::ResolveDestination));
    match actions.last() {
        Some(TransferAction::Fail(FileFailure::SamePath(p))) => {
            assert_eq!(p.components, path(&["/", "abs", "dst"]).components)
        }
        other => panic!("unexpected {other:?}"),
    }
}

#[test]
fn unreadable_destination_metadata_is_retried() {
    let mut events = prefix_up_to_probe();
    events.push(TransferEvent::DestinationProbed(DestinationProbe::Unreadable("denied".to_string())));
    events.push(TransferEvent::Acknowledged);
    let (_, actions) = run(config(1), events);
    assert!(matches!(actions[3], TransferAction::ResetProgress));
    match &actions[4] {
        TransferAction::AnnounceRetry {
            attempt: 1,
            reason: RetryReason::ReadingDestinationMetadataFailed(text),
            ..
        } => assert_eq!(text, "denied"),
        other => panic!("unexpected {other:?}"),
    }
}

#[test]
fn failures_name_the_right_path() {
    let file = FileTransfer {
        source: path(&["src.bin"]),
        destination: path(&["dst.bin"]),
        size_bytes: 3,
        metadata: MetadataSnapshot {
            permissions: PermissionBits { readonly: false, mode: None },
            accessed: None,
            modified: None,
        },
    };
    match FileFailure::SourceChanged.into_error(&file) {
        ScamError::SourceChanged(p) => assert_eq!(p.components, path(&["src.bin"]).components),
        other => panic!("unexpected {other:?}"),
    }
    match FileFailure::DestinationIsSymlink.into_error(&file) {
        ScamError::UnsupportedSymlink(p) => assert_eq!(p.components, path(&["dst.bin"]).components),
        other => panic!("unexpected {other:?}"),
    }
    match (FileFailure::RetryLimitExceeded { attempts: 4 }).into_error(&file) {
        ScamError::RetryLimitExceeded { path: p, attempts } => {
            assert_eq!(p.components, path(&["src.bin"]).components);
            assert_eq!(attempts, 4);
        }
        other => panic!("unexpected {other:?}"),
    }
}

#[test]
fn classifies_io_failures() {
    assert!(matches!(
        source_open_failure(IoErrorKind::NotFound, String::new()),
        AttemptFailure::SourceChanged
    ));
    assert!(matches!(
        source_open_failure(IoErrorKind::Other, "denied".to_string()),
        AttemptFailure::Retry(RetryReason::OpeningSourceFailed(_))
    ));
    assert!(matches!(
        copy_read_failure(IoErrorKind::UnexpectedEof, String::new()),
        AttemptFailure::SourceChanged
    ));
    assert!(matches!(
        copy_read_failure(IoErrorKind::Other, String::new()),
        AttemptFailure::Retry(RetryReason::ReadingSourceFailed(_))
    ));
    assert!(matches!(
        copy_fast_path_failure(IoErrorKind::NotFound, false, String::new()),
        AttemptFailure::SourceChanged
    ));
    assert!(matches!(
        copy_fast_path_failure(IoErrorKind::NotFound, true, String::new()),
        AttemptFailure::Retry(RetryReason::CopyFailed(_))
    ));
}

#[test]
fn buffer_and_chunk_sizes() {
    assert_eq!(effective_buffer_size(100), 8192);
    assert_eq!(effective_buffer_size(65536), 65536);
    assert_eq!(next_chunk_len(10, 8192), 10);
    assert_eq!(next_chunk_len(100_000, 8192), 8192);
    assert!(chunks_equal(&[1, 2, 3, 9], &[1, 2, 3, 7], 3));
    assert!(!chunks_equal(&[1, 2, 3, 9], &[1, 2, 3, 7], 4));
    assert!(chunks_equal(&[], &[], 0));
}

#[test]
fn keeps_retrying_without_a_limit() {
    let mut events = prefix_up_to_probe();
    for _ in 0..5 {
        events.extend([
            TransferEvent::DestinationProbed(DestinationProbe::Missing),
            TransferEvent::CopyFinished(Err(AttemptFailure::Retry(RetryReason::CopyFailed(
                "interrupted".to_string(),
            )))),
            TransferEvent::Acknowledged,
            TransferEvent::Acknowledged,
            TransferEvent::ParentEnsured(Ok(())),
        ]);
    }
    events.extend([
        TransferEvent::DestinationProbed(DestinationProbe::Missing),
        TransferEvent::CopyFinished(Ok(())),
        TransferEvent::DestinationHashed(Ok(EXPECTED)),
        TransferEvent::MetadataApplied(Ok(())),
        TransferEvent::Acknowledged,
    ]);
    let (machine, actions) = run(config(10), events);
    assert!(!actions.iter().any(|a| matches!(a, TransferAction::Fail(_))));
    match actions.last() {
        Some(TransferAction::Finish(summary)) => assert_eq!(summary.retries, 5),
        other => panic!("unexpected {other:?}"),
    }
    assert_eq!(machine.attempts, 6);
}

#[test]
fn compares_a_prefix_chunk_by_chunk() {
    let mut comparison = PrefixComparison::new(20_000, 100);
    assert_eq!(comparison.buffer_len, 8192);
    assert!(!comparison.is_done());
    let mut sizes = Vec::new();
    while !comparison.is_done() {
        let n = comparison.next_chunk();
        sizes.push(n);
        let chunk = vec![7u8; n];
        assert!(comparison.compare(&chunk, &chunk));
    }
    assert_eq!(sizes, vec![8192, 8192, 3616]);

    let mut differing = PrefixComparison::new(3, 8192);
    assert_eq!(differing.next_chunk(), 3);
    assert!(!differing.compare(&[1, 2, 3], &[1, 2, 4]));
    assert_eq!(differing.remaining, 3);
    assert!(PrefixComparison::new(0, 1).is_done());
}
