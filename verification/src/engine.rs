//! Run-level decisions: how many workers to use and how per-file results add
//! up to the run's totals.

use vstd::prelude::*;

use crate::copy::FileSummary;
use crate::error::ScamError;
use crate::model::{FileTransfer, RunSummary, TransferPlan, total_size};

verus! {

/// Totals over the files of a run.
#[derive(Debug, Clone, Copy, PartialEq, Eq, Structural)]
pub struct TransferTotals {
    pub bytes_copied: u64,
    pub resumed_bytes: u64,
    pub resumed_files: usize,
    pub retries: usize,
}

/// Sum of `bytes_copied` over `s`.
pub open spec fn sum_bytes(s: Seq<FileSummary>) -> nat
    decreases s.len(),
{
    if s.len() == 0 { 0 } else { sum_bytes(s.drop_last()) + s.last().bytes_copied as nat }
}

/// Sum of `resumed_bytes` over `s`.
pub open spec fn sum_resumed_bytes(s: Seq<FileSummary>) -> nat
    decreases s.len(),
{
    if s.len() == 0 { 0 } else { sum_resumed_bytes(s.drop_last()) + s.last().resumed_bytes as nat }
}

/// Number of summaries in `s` that resumed some bytes.
pub open spec fn count_resumed(s: Seq<FileSummary>) -> nat
    decreases s.len(),
{
    if s.len() == 0 {
        0
    } else {
        count_resumed(s.drop_last()) + if s.last().resumed_bytes > 0 { 1nat } else { 0nat }
    }
}

/// Sum of `retries` over `s`.
pub open spec fn sum_retries(s: Seq<FileSummary>) -> nat
    decreases s.len(),
{
    if s.len() == 0 { 0 } else { sum_retries(s.drop_last()) + s.last().retries as nat }
}

/// Whether the totals over `s` fit their counters.
pub open spec fn totals_fit(s: Seq<FileSummary>) -> bool {
    &&& sum_bytes(s) <= u64::MAX
    &&& sum_resumed_bytes(s) <= u64::MAX
    &&& count_resumed(s) <= usize::MAX
    &&& sum_retries(s) <= usize::MAX
}

proof fn lemma_sums_monotone(s: Seq<FileSummary>, n: int)
    requires
        0 <= n <= s.len(),
    ensures
        sum_bytes(s.take(n)) <= sum_bytes(s),
        sum_resumed_bytes(s.take(n)) <= sum_resumed_bytes(s),
        count_resumed(s.take(n)) <= count_resumed(s),
        sum_retries(s.take(n)) <= sum_retries(s),
    decreases s.len() - n,
{
    if n < s.len() {
        lemma_sums_monotone(s, n + 1);
        assert(s.take(n + 1).drop_last() =~= s.take(n));
    } else {
        assert(s.take(n) =~= s);
    }
}

impl TransferTotals {
    /// Totals of a run without files.
    pub fn zero() -> (t: TransferTotals)
        ensures
            t == (TransferTotals { bytes_copied: 0, resumed_bytes: 0, resumed_files: 0, retries: 0 }),
    {
        TransferTotals { bytes_copied: 0, resumed_bytes: 0, resumed_files: 0, retries: 0 }
    }

    /// Add one file's summary; a file counts as resumed when it reused bytes.
    pub fn add_file(&mut self, file_summary: FileSummary)
        requires
            old(self).bytes_copied + file_summary.bytes_copied <= u64::MAX,
            old(self).resumed_bytes + file_summary.resumed_bytes <= u64::MAX,
            old(self).retries + file_summary.retries <= usize::MAX,
            file_summary.resumed_bytes > 0 ==> old(self).resumed_files + 1 <= usize::MAX,
        ensures
            final(self).bytes_copied == old(self).bytes_copied + file_summary.bytes_copied,
            final(self).resumed_bytes == old(self).resumed_bytes + file_summary.resumed_bytes,
            final(self).retries == old(self).retries + file_summary.retries,
            final(self).resumed_files == old(self).resumed_files + if file_summary.resumed_bytes
                > 0 {
                1int
            } else {
                0int
            },
    {
        self.bytes_copied = self.bytes_copied + file_summary.bytes_copied;
        self.resumed_bytes = self.resumed_bytes + file_summary.resumed_bytes;
        self.retries = self.retries + file_summary.retries;
        if file_summary.resumed_bytes > 0 {
            self.resumed_files = self.resumed_files + 1;
        }
    }

    /// Whether the totals over `summaries` fit their counters, so that
    /// [`TransferTotals::of_summaries`] may be called.
    pub fn fit(summaries: &Vec<FileSummary>) -> (r: bool)
        ensures
            r == totals_fit(summaries@),
    {
        let mut bytes: u64 = 0;
        let mut resumed: u64 = 0;
        let mut resumed_files: usize = 0;
        let mut retries: usize = 0;
        let mut i: usize = 0;
        while i < summaries.len()
            invariant
                i <= summaries.len(),
                bytes == sum_bytes(summaries@.take(i as int)),
                resumed == sum_resumed_bytes(summaries@.take(i as int)),
                resumed_files == count_resumed(summaries@.take(i as int)),
                retries == sum_retries(summaries@.take(i as int)),
            decreases summaries.len() - i,
        {
            proof {
                assert(summaries@.take(i + 1).drop_last() =~= summaries@.take(i as int));
                lemma_sums_monotone(summaries@, i + 1);
            }
            let s = summaries[i];
            if s.bytes_copied > u64::MAX - bytes || s.resumed_bytes > u64::MAX - resumed
                || s.retries > usize::MAX - retries || (s.resumed_bytes > 0 && resumed_files
                == usize::MAX) {
                return false;
            }
            bytes = bytes + s.bytes_copied;
            resumed = resumed + s.resumed_bytes;
            retries = retries + s.retries;
            if s.resumed_bytes > 0 {
                resumed_files = resumed_files + 1;
            }
            i = i + 1;
        }
        assert(summaries@.take(summaries.len() as int) =~= summaries@);
        true
    }

    /// The totals over every file's summary.
    pub fn of_summaries(summaries: &Vec<FileSummary>) -> (t: TransferTotals)
        requires
            totals_fit(summaries@),
        ensures
            t.bytes_copied == sum_bytes(summaries@),
            t.resumed_bytes == sum_resumed_bytes(summaries@),
            t.resumed_files == count_resumed(summaries@),
            t.retries == sum_retries(summaries@),
    {
        let mut totals = TransferTotals::zero();
        let mut i: usize = 0;
        while i < summaries.len()
            invariant
                i <= summaries.len(),
                totals_fit(summaries@),
                totals.bytes_copied == sum_bytes(summaries@.take(i as int)),
                totals.resumed_bytes == sum_resumed_bytes(summaries@.take(i as int)),
                totals.resumed_files == count_resumed(summaries@.take(i as int)),
                totals.retries == sum_retries(summaries@.take(i as int)),
            decreases summaries.len() - i,
        {
            proof {
                assert(summaries@.take(i + 1).drop_last() =~= summaries@.take(i as int));
                lemma_sums_monotone(summaries@, i + 1);
            }
            totals.add_file(summaries[i]);
            i = i + 1;
        }
        assert(summaries@.take(summaries.len() as int) =~= summaries@);
        totals
    }
}

/// Number of worker threads for copying `file_count` files with `jobs`
/// requested: one for a single file, otherwise `jobs` but at least one.
pub fn worker_count(file_count: usize, jobs: usize) -> (n: usize)
    ensures
        n == if file_count > 1 && jobs > 1 { jobs } else { 1 },
{
    if file_count > 1 {
        if jobs > 1 {
            jobs
        } else {
            1
        }
    } else {
        1
    }
}

/// Whether the emptied source directories are removed at the end of the run.
pub fn removes_source_directories(plan: &TransferPlan) -> (r: bool)
    ensures
        r == (plan.operation is Move && plan.directories@.len() > 0),
{
    plan.operation.is_move() && plan.is_directory_transfer()
}

impl RunSummary {
    /// The summary of a successful run of `plan`.
    pub fn of_run(plan: &TransferPlan, totals: TransferTotals, elapsed: std::time::Duration) -> (s:
        RunSummary)
        ensures
            s.directories == plan.directories@.len(),
            s.files == plan.files@.len(),
            s.bytes_copied == totals.bytes_copied,
            s.resumed_files == totals.resumed_files,
            s.resumed_bytes == totals.resumed_bytes,
            s.retries == totals.retries,
            s.elapsed == elapsed,
    {
        RunSummary {
            directories: plan.directories.len(),
            files: plan.files.len(),
            bytes_copied: totals.bytes_copied,
            resumed_files: totals.resumed_files,
            resumed_bytes: totals.resumed_bytes,
            retries: totals.retries,
            elapsed,
        }
    }
}

/// Where a run stands: the work it waits for.
#[derive(Debug)]
pub enum RunPhase {
    /// Creating destination directory `next` (in plan order).
    CreatingDirectories { next: usize },
    /// Transferring every file.
    TransferringFiles,
    /// Restoring the metadata of directory `remaining - 1` (in reverse plan order).
    ApplyingDirectoryMetadata { remaining: usize },
    /// Removing source directory `remaining - 1` (in reverse plan order).
    RemovingSourceDirectories { remaining: usize },
    /// Stopping the progress display after success.
    FinishingProgress,
    /// Done.
    Finished,
}

/// The next piece of work for the program.
#[derive(Debug)]
pub enum RunAction {
    /// Create destination directory `i` of the plan (refusing a symbolic link
    /// there); answer with `DirectoryCreated`.
    CreateDirectory(usize),
    /// Transfer every file of the plan; answer with `FilesTransferred`.
    TransferFiles,
    /// Restore the metadata of destination directory `i`; answer with
    /// `DirectoryMetadataApplied`.
    ApplyDirectoryMetadata(usize),
    /// Remove the emptied source directory `i`; answer with `SourceDirectoryRemoved`.
    RemoveSourceDirectory(usize),
    /// Stop the progress display with a final line; answer with `ProgressFinished`.
    FinishProgress,
    /// The run succeeded with these totals.
    Finish(TransferTotals),
    /// The run failed.
    Fail(ScamError),
}

/// The result of the last piece of work.
#[derive(Debug)]
pub enum RunEvent {
    DirectoryCreated(Result<(), ScamError>),
    /// Every file's summary in plan order, or the error of the first file that failed.
    FilesTransferred(Result<Vec<FileSummary>, ScamError>),
    DirectoryMetadataApplied(Result<(), ScamError>),
    SourceDirectoryRemoved(Result<(), ScamError>),
    ProgressFinished(Result<(), ScamError>),
}

/// The state of a run over a plan with `directories` directories.
#[derive(Debug)]
pub struct RunMachine {
    pub directories: usize,
    /// Whether the emptied source directories are removed (a directory move).
    pub removes_sources: bool,
    pub phase: RunPhase,
    /// The totals over the files, once they were all transferred.
    pub totals: Option<TransferTotals>,
}

/// Whether `event` answers the work that `phase` waits for.
pub open spec fn run_answers(phase: RunPhase, event: RunEvent) -> bool {
    match phase {
        RunPhase::CreatingDirectories { .. } => event is DirectoryCreated,
        RunPhase::TransferringFiles => event is FilesTransferred,
        RunPhase::ApplyingDirectoryMetadata { .. } => event is DirectoryMetadataApplied,
        RunPhase::RemovingSourceDirectories { .. } => event is SourceDirectoryRemoved,
        RunPhase::FinishingProgress => event is ProgressFinished,
        RunPhase::Finished => false,
    }
}

/// The totals over `s`.
pub open spec fn totals_of(s: Seq<FileSummary>) -> TransferTotals {
    TransferTotals {
        bytes_copied: sum_bytes(s) as u64,
        resumed_bytes: sum_resumed_bytes(s) as u64,
        resumed_files: count_resumed(s) as usize,
        retries: sum_retries(s) as usize,
    }
}

impl RunMachine {
    /// What holds of every state the run reaches from `start`.
    pub open spec fn inv(self) -> bool {
        match self.phase {
            RunPhase::CreatingDirectories { next } => next < self.directories && self.totals is None,
            RunPhase::TransferringFiles => self.totals is None,
            RunPhase::ApplyingDirectoryMetadata { remaining } => 0 < remaining <= self.directories
                && self.totals is Some,
            RunPhase::RemovingSourceDirectories { remaining } => 0 < remaining <= self.directories
                && self.removes_sources && self.totals is Some,
            RunPhase::FinishingProgress => self.totals is Some,
            RunPhase::Finished => true,
        }
    }

    pub open spec fn with_phase(self, phase: RunPhase) -> RunMachine {
        RunMachine { phase, ..self }
    }

    /// After the files: restore directory metadata from the last directory on,
    /// or stop the progress display when there are no directories.
    pub open spec fn spec_after_files(self) -> (RunMachine, RunAction) {
        if self.directories > 0 {
            (
                self.with_phase(RunPhase::ApplyingDirectoryMetadata { remaining: self.directories }),
                RunAction::ApplyDirectoryMetadata((self.directories - 1) as usize),
            )
        } else {
            (self.with_phase(RunPhase::FinishingProgress), RunAction::FinishProgress)
        }
    }

    /// After the metadata: remove the source directories from the last one on,
    /// for a directory move, else stop the progress display.
    pub open spec fn spec_after_metadata(self) -> (RunMachine, RunAction) {
        if self.removes_sources && self.directories > 0 {
            (
                self.with_phase(RunPhase::RemovingSourceDirectories { remaining: self.directories }),
                RunAction::RemoveSourceDirectory((self.directories - 1) as usize),
            )
        } else {
            (self.with_phase(RunPhase::FinishingProgress), RunAction::FinishProgress)
        }
    }

    /// The transition: the next state and action after `event`.
    pub open spec fn spec_step(self, event: RunEvent) -> (RunMachine, RunAction) {
        match (self.phase, event) {
            (RunPhase::CreatingDirectories { next }, RunEvent::DirectoryCreated(r)) => match r {
                Err(e) => (self.with_phase(RunPhase::Finished), RunAction::Fail(e)),
                Ok(()) => if next + 1 < self.directories {
                    (
                        self.with_phase(RunPhase::CreatingDirectories { next: (next + 1) as usize }),
                        RunAction::CreateDirectory((next + 1) as usize),
                    )
                } else {
                    (self.with_phase(RunPhase::TransferringFiles), RunAction::TransferFiles)
                },
            },
            (RunPhase::TransferringFiles, RunEvent::FilesTransferred(r)) => match r {
                Err(e) => (self.with_phase(RunPhase::Finished), RunAction::Fail(e)),
                Ok(s) => RunMachine { totals: Some(totals_of(s@)), ..self }.spec_after_files(),
            },
            (
                RunPhase::ApplyingDirectoryMetadata { remaining },
                RunEvent::DirectoryMetadataApplied(r),
            ) => match r {
                Err(e) => (self.with_phase(RunPhase::Finished), RunAction::Fail(e)),
                Ok(()) => if remaining > 1 {
                    (
                        self.with_phase(
                            RunPhase::ApplyingDirectoryMetadata { remaining: (remaining - 1) as usize },
                        ),
                        RunAction::ApplyDirectoryMetadata((remaining - 2) as usize),
                    )
                } else {
                    self.spec_after_metadata()
                },
            },
            (
                RunPhase::RemovingSourceDirectories { remaining },
                RunEvent::SourceDirectoryRemoved(r),
            ) => match r {
                Err(e) => (self.with_phase(RunPhase::Finished), RunAction::Fail(e)),
                Ok(()) => if remaining > 1 {
                    (
                        self.with_phase(
                            RunPhase::RemovingSourceDirectories { remaining: (remaining - 1) as usize },
                        ),
                        RunAction::RemoveSourceDirectory((remaining - 2) as usize),
                    )
                } else {
                    (self.with_phase(RunPhase::FinishingProgress), RunAction::FinishProgress)
                },
            },
            (RunPhase::FinishingProgress, RunEvent::ProgressFinished(r)) => match r {
                Err(e) => (self.with_phase(RunPhase::Finished), RunAction::Fail(e)),
                Ok(()) => (
                    self.with_phase(RunPhase::Finished),
                    RunAction::Finish(
                        match self.totals {
                            Some(t) => t,
                            None => TransferTotals {
                                bytes_copied: 0,
                                resumed_bytes: 0,
                                resumed_files: 0,
                                retries: 0,
                            },
                        },
                    ),
                ),
            },
            _ => (self, RunAction::FinishProgress),
        }
    }

    /// The run of a plan with `directories` directories, removing the emptied
    /// source directories when `removes_sources`, and its first piece of work:
    /// the first directory, or the files when there are no directories.
    pub fn start(directories: usize, removes_sources: bool) -> (r: (RunMachine, RunAction))
        ensures
            r.0.directories == directories,
            r.0.removes_sources == removes_sources,
            r.0.totals is None,
            r.0.inv(),
            directories > 0 ==> r.0.phase == (RunPhase::CreatingDirectories { next: 0 })
                && r.1 == RunAction::CreateDirectory(0),
            directories == 0 ==> r.0.phase is TransferringFiles && r.1 is TransferFiles,
    {
        if directories > 0 {
            (
                RunMachine {
                    directories,
                    removes_sources,
                    phase: RunPhase::CreatingDirectories { next: 0 },
                    totals: None,
                },
                RunAction::CreateDirectory(0),
            )
        } else {
            (
                RunMachine {
                    directories,
                    removes_sources,
                    phase: RunPhase::TransferringFiles,
                    totals: None,
                },
                RunAction::TransferFiles,
            )
        }
    }

    /// Whether `event` answers the work this run waits for.
    pub fn accepts(&self, event: &RunEvent) -> (r: bool)
        ensures
            r == run_answers(self.phase, *event),
    {
        match (&self.phase, event) {
            (RunPhase::CreatingDirectories { .. }, RunEvent::DirectoryCreated(_)) => true,
            (RunPhase::TransferringFiles, RunEvent::FilesTransferred(_)) => true,
            (RunPhase::ApplyingDirectoryMetadata { .. }, RunEvent::DirectoryMetadataApplied(_)) => true,
            (RunPhase::RemovingSourceDirectories { .. }, RunEvent::SourceDirectoryRemoved(_)) => true,
            (RunPhase::FinishingProgress, RunEvent::ProgressFinished(_)) => true,
            _ => false,
        }
    }

    fn after_files(self) -> (r: (RunMachine, RunAction))
        ensures
            r == self.spec_after_files(),
    {
        if self.directories > 0 {
            let i = self.directories - 1;
            let remaining = self.directories;
            (
                RunMachine { phase: RunPhase::ApplyingDirectoryMetadata { remaining }, ..self },
                RunAction::ApplyDirectoryMetadata(i),
            )
        } else {
            (RunMachine { phase: RunPhase::FinishingProgress, ..self }, RunAction::FinishProgress)
        }
    }

    fn after_metadata(self) -> (r: (RunMachine, RunAction))
        ensures
            r == self.spec_after_metadata(),
    {
        if self.removes_sources && self.directories > 0 {
            let i = self.directories - 1;
            let remaining = self.directories;
            (
                RunMachine { phase: RunPhase::RemovingSourceDirectories { remaining }, ..self },
                RunAction::RemoveSourceDirectory(i),
            )
        } else {
            (RunMachine { phase: RunPhase::FinishingProgress, ..self }, RunAction::FinishProgress)
        }
    }

    /// Take the result of the last piece of work and name the next one.
    pub fn step(self, event: RunEvent) -> (r: (RunMachine, RunAction))
        requires
            self.inv(),
            run_answers(self.phase, event),
            event matches RunEvent::FilesTransferred(Ok(s)) ==> totals_fit(s@),
        ensures
            r == self.spec_step(event),
    {
        let RunMachine { directories, removes_sources, phase, totals } = self;
        let m = RunMachine { directories, removes_sources, phase: RunPhase::Finished, totals };
        match (phase, event) {
            (RunPhase::CreatingDirectories { next }, RunEvent::DirectoryCreated(r)) => match r {
                Err(e) => (m, RunAction::Fail(e)),
                Ok(()) => if next < directories - 1 {
                    (
                        RunMachine { phase: RunPhase::CreatingDirectories { next: next + 1 }, ..m },
                        RunAction::CreateDirectory(next + 1),
                    )
                } else {
                    (RunMachine { phase: RunPhase::TransferringFiles, ..m }, RunAction::TransferFiles)
                },
            },
            (RunPhase::TransferringFiles, RunEvent::FilesTransferred(r)) => match r {
                Err(e) => (m, RunAction::Fail(e)),
                Ok(s) => {
                    let t = TransferTotals::of_summaries(&s);
                    RunMachine { totals: Some(t), ..m }.after_files()
                },
            },
            (
                RunPhase::ApplyingDirectoryMetadata { remaining },
                RunEvent::DirectoryMetadataApplied(r),
            ) => match r {
                Err(e) => (m, RunAction::Fail(e)),
                Ok(()) => if remaining > 1 {
                    (
                        RunMachine {
                            phase: RunPhase::ApplyingDirectoryMetadata { remaining: remaining - 1 },
                            ..m
                        },
                        RunAction::ApplyDirectoryMetadata(remaining - 2),
                    )
                } else {
                    RunMachine { phase: RunPhase::ApplyingDirectoryMetadata { remaining }, ..m }.after_metadata()
                },
            },
            (
                RunPhase::RemovingSourceDirectories { remaining },
                RunEvent::SourceDirectoryRemoved(r),
            ) => match r {
                Err(e) => (m, RunAction::Fail(e)),
                Ok(()) => if remaining > 1 {
                    (
                        RunMachine {
                            phase: RunPhase::RemovingSourceDirectories { remaining: remaining - 1 },
                            ..m
                        },
                        RunAction::RemoveSourceDirectory(remaining - 2),
                    )
                } else {
                    (RunMachine { phase: RunPhase::FinishingProgress, ..m }, RunAction::FinishProgress)
                },
            },
            (RunPhase::FinishingProgress, RunEvent::ProgressFinished(r)) => match r {
                Err(e) => (m, RunAction::Fail(e)),
                Ok(()) => {
                    let t = match totals {
                        Some(t) => t,
                        None => TransferTotals::zero(),
                    };
                    (m, RunAction::Finish(t))
                },
            },
            _ => {
                assert(false);
                (m, RunAction::FinishProgress)
            },
        }
    }
}

/// A run's invariant holds at the start and is kept by every step.
pub proof fn lemma_run_step_keeps_invariant(m: RunMachine, e: RunEvent)
    requires
        m.inv(),
        run_answers(m.phase, e),
    ensures
        m.spec_step(e).0.inv(),
{
}

/// The order of a run: destination directories are created in plan order
/// before any file is transferred; directory metadata is restored in reverse
/// plan order, and emptied source directories are removed in reverse plan
/// order (for a directory move only), both only after every file succeeded;
/// a successful run reports the totals of its files.
pub proof fn law_run_order(m: RunMachine, e: RunEvent)
    requires
        m.inv(),
        run_answers(m.phase, e),
    ensures
        m.spec_step(e).1 matches RunAction::CreateDirectory(i) ==> (m.phase matches RunPhase::CreatingDirectories {
            next,
        } && next + 1 == i) && e matches RunEvent::DirectoryCreated(Ok(_)),
        m.spec_step(e).1 is TransferFiles ==> (m.phase matches RunPhase::CreatingDirectories { next }
            && next + 1 == m.directories) && e matches RunEvent::DirectoryCreated(Ok(_)),
        m.spec_step(e).1 matches RunAction::ApplyDirectoryMetadata(i) ==> m.spec_step(e).0.totals is Some
            && i < m.directories && ((m.phase is TransferringFiles && i == m.directories - 1) || (
        m.phase == (RunPhase::ApplyingDirectoryMetadata { remaining: (i + 2) as usize })
            && e matches RunEvent::DirectoryMetadataApplied(Ok(_)))),
        m.spec_step(e).1 matches RunAction::RemoveSourceDirectory(i) ==> m.removes_sources
            && m.spec_step(e).0.totals is Some && i < m.directories && ((m.phase == (
        RunPhase::ApplyingDirectoryMetadata { remaining: 1 }) && i == m.directories - 1) || (m.phase
            == (RunPhase::RemovingSourceDirectories { remaining: (i + 2) as usize }))) && (
        e matches RunEvent::DirectoryMetadataApplied(Ok(())) || e matches RunEvent::SourceDirectoryRemoved(
            Ok(()),
        )),
        m.spec_step(e).1 matches RunAction::Finish(t) ==> m.phase is FinishingProgress && m.totals
            == Some(t),
{
}

/// When every file's summary carries that file's size and no more resumed
/// bytes than that, the run's totals copy exactly the plan's bytes, resume no
/// more bytes than they copy, and count no more resumed files than there are files.
pub proof fn law_run_totals(files: Seq<FileTransfer>, summaries: Seq<FileSummary>)
    requires
        files.len() == summaries.len(),
        forall|i: int|
            0 <= i < files.len() ==> #[trigger] summaries[i].bytes_copied == files[i].size_bytes,
        forall|i: int|
            0 <= i < summaries.len() ==> #[trigger] summaries[i].resumed_bytes
                <= summaries[i].bytes_copied,
    ensures
        sum_bytes(summaries) == total_size(files),
        sum_resumed_bytes(summaries) <= sum_bytes(summaries),
        count_resumed(summaries) <= summaries.len(),
    decreases files.len(),
{
    if files.len() > 0 {
        let f = files.drop_last();
        let s = summaries.drop_last();
        assert forall|i: int| 0 <= i < f.len() implies #[trigger] s[i].bytes_copied
            == f[i].size_bytes by {
            assert(summaries[i].bytes_copied == files[i].size_bytes);
        }
        assert forall|i: int| 0 <= i < s.len() implies #[trigger] s[i].resumed_bytes
            <= s[i].bytes_copied by {
            assert(summaries[i].resumed_bytes <= summaries[i].bytes_copied);
        }
        law_run_totals(f, s);
        assert(summaries.last().bytes_copied == files.last().size_bytes);
        assert(summaries.last().resumed_bytes <= summaries.last().bytes_copied);
    }
}

/// A directory move removes every planned source directory before the run
/// finishes: once the metadata of the first directory is restored, the last
/// directory's source is removed next, each removal is followed by the one of
/// the directory before it, and the progress display is stopped (the last step
/// before success) only right after directory 0's source was removed.
pub proof fn law_move_removes_every_source_directory(m: RunMachine, e: RunEvent)
    requires
        m.inv(),
        run_answers(m.phase, e),
        m.removes_sources,
        m.directories > 0,
    ensures
        (m.phase == (RunPhase::ApplyingDirectoryMetadata { remaining: 1 }) && e matches RunEvent::DirectoryMetadataApplied(
            Ok(_),
        )) ==> m.spec_step(e).1 == RunAction::RemoveSourceDirectory((m.directories - 1) as usize),
        (m.phase matches RunPhase::RemovingSourceDirectories { remaining } && remaining > 1
            && e matches RunEvent::SourceDirectoryRemoved(Ok(_))) ==> m.spec_step(e).1
            == RunAction::RemoveSourceDirectory((m.phase->RemovingSourceDirectories_remaining - 2) as usize),
        m.spec_step(e).1 is FinishProgress ==> m.phase == (RunPhase::RemovingSourceDirectories {
            remaining: 1,
        }) && e matches RunEvent::SourceDirectoryRemoved(Ok(_)),
{
}

} // verus!
