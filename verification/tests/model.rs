use scam::metadata::{MetadataSnapshot, PermissionBits};
use scam::model::{ExecutionSettings, FsPath, Operation, TransferPlan};
use scam::progress::pluralize;

fn path(parts: &[&str]) -> FsPath {
    FsPath::from_components(parts.iter().map(|p| p.as_bytes().to_vec()).collect())
}

fn snapshot() -> MetadataSnapshot {
    MetadataSnapshot {
        permissions: PermissionBits { readonly: false, mode: Some(0o644) },
        accessed: None,
        modified: None,
    }
}

#[test]
fn operation_words() {
    assert!(Operation::Move.is_move());
    assert!(!Operation::Copy.is_move());
    assert_eq!(Operation::Copy.present_tense(), "copy");
    assert_eq!(Operation::Move.present_tense(), "move");
    assert_eq!(Operation::Copy.past_tense(), "Copied");
    assert_eq!(Operation::Move.past_tense(), "Moved");
}

#[test]
fn pluralizes_by_count() {
    assert_eq!(pluralize(1, "file", "files"), "file");
    assert_eq!(pluralize(0, "file", "files"), "files");
    assert_eq!(pluralize(2, "retry", "retries"), "retries");
}

#[test]
fn default_settings() {
    let settings = ExecutionSettings::defaults(3);
    assert_eq!(settings.hash_buffer_size, 4 * 1024 * 1024);
    assert_eq!(settings.copy_buffer_size, 8 * 1024 * 1024);
    assert_eq!(settings.max_retries, None);
    assert_eq!(settings.retry_delay_ms, 0);
    assert!(!settings.verbose);
    assert!(!settings.progress);
    assert_eq!(settings.jobs, 3);
}

#[test]
fn paths_join_and_compare_by_component() {
    let root = path(&["/", "data"]);
    let joined = root.join(&path(&["a", "b.txt"]));
    assert_eq!(joined.components, path(&["/", "data", "a", "b.txt"]).components);
    assert!(joined.starts_with(&root));
    assert!(!root.starts_with(&joined));
    assert!(!path(&["/", "database"]).starts_with(&root));
    assert!(joined.same_as(&path(&["/", "data", "a", "b.txt"])));
    assert!(!joined.same_as(&root));
    assert_eq!(root.child(&b"x".to_vec()).components, vec![b"/".to_vec(), b"data".to_vec(), b"x".to_vec()]);
    assert_eq!(root.join(&path(&[])).components, root.components);
}

#[test]
fn total_bytes_adds_sizes_and_saturates() {
    let mut plan = TransferPlan::for_directory(Operation::Copy, path(&["s"]), path(&["d"]));
    assert_eq!(plan.total_bytes(), 0);
    assert!(!plan.is_directory_transfer());
    for size in [10u64, 20, 30] {
        plan.files.push(scam::model::FileTransfer {
            source: path(&["s", "f"]),
            destination: path(&["d", "f"]),
            size_bytes: size,
            metadata: snapshot(),
        });
    }
    assert_eq!(plan.total_bytes(), 60);
    plan.files.push(scam::model::FileTransfer {
        source: path(&["s", "big"]),
        destination: path(&["d", "big"]),
        size_bytes: u64::MAX - 5,
        metadata: snapshot(),
    });
    assert_eq!(plan.total_bytes(), u64::MAX);
}

#[test]
fn paths_hold_components_that_are_not_text() {
    let odd = FsPath::from_components(vec![b"/".to_vec(), vec![0x66, 0xff, 0x6f]]);
    let child = odd.child(&vec![0xfe]);
    assert_eq!(child.components, vec![b"/".to_vec(), vec![0x66, 0xff, 0x6f], vec![0xfe]]);
    assert!(child.starts_with(&odd));
    assert!(!odd.starts_with(&child));
    assert!(!child.same_as(&odd));
    assert!(odd.same_as(&odd.clone()));
}
