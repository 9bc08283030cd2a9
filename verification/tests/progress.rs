use scam::progress::{
    ProgressReporter, ProgressSnapshot, RenderTick, closing_line, progress_enabled, render_tick,
};

#[test]
fn accounting_and_reset_restore_the_position() {
    let mut reporter = ProgressReporter::new(1000, 2);
    let mut file = reporter.begin_file(600);
    file.account_resume(&mut reporter, 100);
    file.account_copy(&mut reporter, 250);
    assert_eq!(reporter.position_bytes, 350);
    assert_eq!(file.accounted_bytes, 350);
    file.reset_attempt(&mut reporter);
    assert_eq!(reporter.position_bytes, 0);
    assert_eq!(file.accounted_bytes, 0);
}

#[test]
fn completing_tops_up_to_the_file_size_once() {
    let mut reporter = ProgressReporter::new(1000, 2);
    let mut file = reporter.begin_file(600);
    file.account_copy(&mut reporter, 200);
    file.complete(&mut reporter);
    assert_eq!(reporter.position_bytes, 600);
    assert_eq!(reporter.completed_files, 1);
    file.complete(&mut reporter);
    assert_eq!(reporter.position_bytes, 600);
    assert_eq!(reporter.completed_files, 1);
    file.abandon(&mut reporter);
    assert_eq!(reporter.position_bytes, 600);
}

#[test]
fn abandoning_an_unfinished_file_takes_its_bytes_back() {
    let mut reporter = ProgressReporter::new(1000, 2);
    let mut done = reporter.begin_file(300);
    done.complete(&mut reporter);
    let mut partial = reporter.begin_file(700);
    partial.account_copy(&mut reporter, 123);
    assert_eq!(reporter.position_bytes, 423);
    partial.abandon(&mut reporter);
    assert_eq!(reporter.position_bytes, 300);
}

#[test]
fn counters_and_flags() {
    let mut reporter = ProgressReporter::new(10, 1);
    reporter.note_retry();
    reporter.note_retry();
    let snap = reporter.snapshot();
    assert_eq!(snap.retries, 2);
    assert_eq!(snap.position_bytes, 0);
    assert_eq!(snap.completed_files, 0);
    assert!(!reporter.is_stopped());
    assert!(!reporter.succeeded());
    reporter.mark_success();
    reporter.stop();
    assert!(reporter.is_stopped());
    assert!(reporter.succeeded());
}

#[test]
fn position_wraps_like_an_atomic_counter() {
    let mut reporter = ProgressReporter::new(0, 1);
    let mut file = reporter.begin_file(0);
    file.account_copy(&mut reporter, 5);
    reporter.position_bytes = 2;
    file.reset_attempt(&mut reporter);
    assert_eq!(reporter.position_bytes, u64::MAX - 2);
}

#[test]
fn display_prints_only_changed_counters() {
    let zero = ProgressSnapshot { position_bytes: 0, completed_files: 0, retries: 0 };
    let later = ProgressSnapshot { position_bytes: 512, completed_files: 1, retries: 0 };

    let quiet = render_tick(zero, zero, false);
    assert_eq!(quiet, RenderTick { print: None, last: zero, stop: false });

    let changed = render_tick(zero, later, false);
    assert_eq!(changed, RenderTick { print: Some(later), last: later, stop: false });

    let stopping = render_tick(later, later, true);
    assert_eq!(stopping, RenderTick { print: None, last: later, stop: true });

    let done = ProgressSnapshot { position_bytes: 1024, completed_files: 2, retries: 1 };
    assert_eq!(closing_line(later, done, true), Some(done));
    assert_eq!(closing_line(done, done, true), None);
    assert_eq!(closing_line(later, done, false), None);
}

#[test]
fn progress_is_shown_only_when_asked_for_and_there_are_files() {
    assert!(progress_enabled(true, 3));
    assert!(!progress_enabled(true, 0));
    assert!(!progress_enabled(false, 3));
}
