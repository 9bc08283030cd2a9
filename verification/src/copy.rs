//! Per-file verified copy and move logic.
//!
//! One file goes through hashing the source, inspecting the destination,
//! copying or resuming, hashing the destination, retrying on mismatch, and
//! (for a move) re-checking the source before deleting it. The decisions are a
//! state machine: [`FileTransferMachine::step`] takes the result of the last
//! filesystem action and returns the next action to perform.

use vstd::prelude::*;

use crate::checksum::Checksum;
use crate::error::{IoErrorKind, ScamError};
use crate::model::{ExecutionSettings, FileTransfer, FsPath};

verus! {

/// Aggregate result for one successfully processed file.
#[derive(Debug, Clone, Copy, PartialEq, Eq, Structural)]
pub struct FileSummary {
    /// Logical payload bytes represented by the file.
    pub bytes_copied: u64,
    /// Number of retries needed before the file succeeded.
    pub retries: usize,
    /// Number of bytes that were reused from a matching existing destination.
    pub resumed_bytes: u64,
}

/// Why an attempt is retried; the text fields hold the operating-system error.
#[derive(Debug)]
pub enum RetryReason {
    ReadingDestinationMetadataFailed(String),
    DestinationChecksumFailed(String),
    RemovingStaleDestinationFailed(String),
    OpeningExistingDestinationFailed(String),
    ReadingExistingDestinationFailed(String),
    OpeningSourceFailed(String),
    ReadingSourceFailed(String),
    CopyFailed(String),
    OpeningDestinationForWritingFailed(String),
    SeekingDestinationFailed(String),
    WritingDestinationFailed(String),
    FlushingDestinationFailed(String),
    /// The copied destination does not match the source, which is unchanged.
    ChecksumMismatch { source: Checksum, destination: Checksum },
}

/// Why the transfer of one file ends without success.
#[derive(Debug)]
pub enum FileFailure {
    /// An error reported by the filesystem work.
    Error(ScamError),
    /// The source no longer matches the checksum taken before copying.
    SourceChanged,
    /// The destination is a symbolic link.
    DestinationIsSymlink,
    /// The destination is a directory.
    DestinationIsDirectory,
    /// Source and destination are the same file; the path is the resolved destination.
    SamePath(FsPath),
    /// The bounded number of attempts was used up.
    RetryLimitExceeded { attempts: usize },
}

/// How reading or writing file contents failed: worth another attempt, or
/// fatal because the source changed.
#[derive(Debug)]
pub enum AttemptFailure {
    Retry(RetryReason),
    SourceChanged,
}

/// Classify a failure to open the source: a vanished source ends the transfer.
pub fn source_open_failure(kind: IoErrorKind, detail: String) -> (f: AttemptFailure)
    ensures
        kind == IoErrorKind::NotFound ==> f == AttemptFailure::SourceChanged,
        kind != IoErrorKind::NotFound ==> f == AttemptFailure::Retry(
            RetryReason::OpeningSourceFailed(detail),
        ),
{
    match kind {
        IoErrorKind::NotFound => AttemptFailure::SourceChanged,
        _ => AttemptFailure::Retry(RetryReason::OpeningSourceFailed(detail)),
    }
}

/// Classify a failure to read the source: a vanished or shortened source ends
/// the transfer.
pub fn copy_read_failure(kind: IoErrorKind, detail: String) -> (f: AttemptFailure)
    ensures
        (kind == IoErrorKind::NotFound || kind == IoErrorKind::UnexpectedEof) ==> f
            == AttemptFailure::SourceChanged,
        kind == IoErrorKind::Other ==> f == AttemptFailure::Retry(
            RetryReason::ReadingSourceFailed(detail),
        ),
{
    match kind {
        IoErrorKind::Other => AttemptFailure::Retry(RetryReason::ReadingSourceFailed(detail)),
        _ => AttemptFailure::SourceChanged,
    }
}

/// Classify a failure of the operating system's whole-file copy: it ends the
/// transfer only when the source is missing and no longer exists.
pub fn copy_fast_path_failure(kind: IoErrorKind, source_exists: bool, detail: String) -> (f:
    AttemptFailure)
    ensures
        (kind == IoErrorKind::NotFound && !source_exists) ==> f == AttemptFailure::SourceChanged,
        !(kind == IoErrorKind::NotFound && !source_exists) ==> f == AttemptFailure::Retry(
            RetryReason::CopyFailed(detail),
        ),
{
    if kind == IoErrorKind::NotFound && !source_exists {
        AttemptFailure::SourceChanged
    } else {
        AttemptFailure::Retry(RetryReason::CopyFailed(detail))
    }
}

/// The read buffer length used for copying and comparing: the requested size,
/// but at least 8 KiB.
pub fn effective_buffer_size(requested: usize) -> (n: usize)
    ensures
        n == if requested < 8192 { 8192 } else { requested },
{
    if requested < 8192 {
        8192
    } else {
        requested
    }
}

/// Length of the next chunk when `remaining` bytes are left to compare and the
/// buffers hold `buffer_len` bytes.
pub fn next_chunk_len(remaining: u64, buffer_len: usize) -> (n: usize)
    ensures
        n as int == if remaining < buffer_len { remaining as int } else { buffer_len as int },
{
    if remaining < buffer_len as u64 {
        remaining as usize
    } else {
        buffer_len
    }
}

/// Whether the first `len` bytes of two buffers are equal.
pub fn chunks_equal(a: &[u8], b: &[u8], len: usize) -> (r: bool)
    requires
        len <= a@.len(),
        len <= b@.len(),
    ensures
        r == (a@.take(len as int) == b@.take(len as int)),
{
    let mut i: usize = 0;
    while i < len
        invariant
            i <= len <= a@.len(),
            len <= b@.len(),
            forall|j: int| 0 <= j < i ==> a@[j] == b@[j],
        decreases len - i,
    {
        if a[i] != b[i] {
            assert(a@.take(len as int)[i as int] != b@.take(len as int)[i as int]);
            return false;
        }
        i = i + 1;
    }
    assert(a@.take(len as int) =~= b@.take(len as int));
    true
}

/// Comparing the first `length` bytes of the source and of an existing
/// destination, chunk by chunk; the program reads each chunk from both files.
pub struct PrefixComparison {
    /// Number of bytes still to compare.
    pub remaining: u64,
    /// Size of the read buffers.
    pub buffer_len: usize,
    /// The source bytes compared so far.
    pub compared_source: Ghost<Seq<u8>>,
    /// The destination bytes compared so far.
    pub compared_destination: Ghost<Seq<u8>>,
    /// The number of bytes to compare in all.
    pub length: Ghost<nat>,
}

impl PrefixComparison {
    /// Every chunk compared so far was equal, and they add up to the bytes
    /// already compared.
    pub open spec fn inv(&self) -> bool {
        &&& self.buffer_len > 0
        &&& self.compared_source@ == self.compared_destination@
        &&& self.compared_source@.len() + self.remaining == self.length@
    }

    /// A comparison of the first `length` bytes, reading with buffers of
    /// `buffer_size` bytes (at least 8 KiB).
    pub fn new(length: u64, buffer_size: usize) -> (c: PrefixComparison)
        ensures
            c.inv(),
            c.remaining == length,
            c.length@ == length,
            c.compared_source@ == Seq::<u8>::empty(),
            c.buffer_len == if buffer_size < 8192 { 8192 } else { buffer_size },
    {
        PrefixComparison {
            remaining: length,
            buffer_len: effective_buffer_size(buffer_size),
            compared_source: Ghost(Seq::empty()),
            compared_destination: Ghost(Seq::empty()),
            length: Ghost(length as nat),
        }
    }

    /// Whether every byte of the prefix was compared (and found equal).
    pub fn is_done(&self) -> (r: bool)
        ensures
            r == (self.remaining == 0),
    {
        self.remaining == 0
    }

    /// How many bytes to read from each file for the next chunk.
    pub fn next_chunk(&self) -> (n: usize)
        requires
            self.inv(),
        ensures
            n as int == if self.remaining < self.buffer_len {
                self.remaining as int
            } else {
                self.buffer_len as int
            },
            self.remaining > 0 ==> n > 0,
            n <= self.buffer_len,
    {
        next_chunk_len(self.remaining, self.buffer_len)
    }

    /// Compare the next chunk read from the source and from the destination:
    /// `true` when they are equal, and the comparison then moves past them.
    pub fn compare(&mut self, source_chunk: &[u8], destination_chunk: &[u8]) -> (r: bool)
        requires
            old(self).inv(),
            old(self).remaining > 0,
            source_chunk@.len() == destination_chunk@.len(),
            source_chunk@.len() as int == if old(self).remaining < old(self).buffer_len {
                old(self).remaining as int
            } else {
                old(self).buffer_len as int
            },
        ensures
            r == (source_chunk@ == destination_chunk@),
            r ==> final(self).inv() && final(self).remaining == old(self).remaining
                - source_chunk@.len() && final(self).compared_source@ == old(
                self,
            ).compared_source@ + source_chunk@ && final(self).compared_destination@ == old(
                self,
            ).compared_destination@ + destination_chunk@ && final(self).buffer_len == old(
                self,
            ).buffer_len && final(self).length@ == old(self).length@,
            !r ==> *final(self) == *old(self),
    {
        let len = source_chunk.len();
        let equal = chunks_equal(source_chunk, destination_chunk, len);
        assert(source_chunk@.take(len as int) =~= source_chunk@);
        assert(destination_chunk@.take(len as int) =~= destination_chunk@);
        if !equal {
            return false;
        }
        self.remaining = self.remaining - len as u64;
        self.compared_source = Ghost(self.compared_source@ + source_chunk@);
        self.compared_destination = Ghost(self.compared_destination@ + destination_chunk@);
        true
    }
}

/// A finished comparison compared exactly `length` bytes of each file and
/// found them equal: a prefix is reported matching only when every byte of it is.
pub proof fn law_prefix_matches_only_when_every_byte_does(c: PrefixComparison)
    requires
        c.inv(),
        c.remaining == 0,
    ensures
        c.compared_source@.len() == c.length@,
        c.compared_source@ == c.compared_destination@,
{
}

impl FileFailure {
    /// The error reported for this failure while transferring `file`.
    pub fn into_error(self, file: &FileTransfer) -> (e: ScamError)
        ensures
            match self {
                FileFailure::Error(inner) => e == inner,
                FileFailure::SourceChanged => e matches ScamError::SourceChanged(p) && p@
                    == file.source@,
                FileFailure::DestinationIsSymlink => e matches ScamError::UnsupportedSymlink(p)
                    && p@ == file.destination@,
                FileFailure::DestinationIsDirectory => e matches ScamError::DestinationIsDirectory(
                    p,
                ) && p@ == file.destination@,
                FileFailure::SamePath(resolved) => e == ScamError::SamePath(resolved),
                FileFailure::RetryLimitExceeded { attempts } => e matches ScamError::RetryLimitExceeded {
                    path,
                    attempts: a,
                } && path@ == file.source@ && a == attempts,
            },
    {
        match self {
            FileFailure::Error(inner) => inner,
            FileFailure::SourceChanged => ScamError::SourceChanged(file.source.clone()),
            FileFailure::DestinationIsSymlink => ScamError::UnsupportedSymlink(
                file.destination.clone(),
            ),
            FileFailure::DestinationIsDirectory => ScamError::DestinationIsDirectory(
                file.destination.clone(),
            ),
            FileFailure::SamePath(resolved) => ScamError::SamePath(resolved),
            FileFailure::RetryLimitExceeded { attempts } => ScamError::RetryLimitExceeded {
                path: file.source.clone(),
                attempts,
            },
        }
    }
}

/// What the destination path held when it was inspected (without following links).
#[derive(Debug)]
pub enum DestinationProbe {
    /// Nothing exists there.
    Missing,
    /// Its metadata could not be read; the text is the operating-system error.
    Unreadable(String),
    /// A symbolic link.
    Symlink,
    /// A directory.
    Directory,
    /// A file of `len` bytes.
    File { len: u64 },
}

/// The fixed parameters of one file's transfer.
#[derive(Debug, Clone, Copy, PartialEq, Eq, Structural)]
pub struct TransferConfig {
    /// Size of the source file when the plan was made.
    pub size_bytes: u64,
    /// Maximum number of attempts; `None` retries until the file verifies.
    pub max_retries: Option<usize>,
    /// Delay in milliseconds before another attempt.
    pub retry_delay_ms: u64,
    /// Whether progress is reported (the manual copy loop is then always used).
    pub progress: bool,
    /// Whether the source is deleted after the destination verified (a move).
    pub remove_source: bool,
}

/// Where one file's transfer stands: the filesystem action it waits for.
#[derive(Debug)]
pub enum TransferPhase {
    HashingSource,
    EnsuringParent,
    ProbingDestination,
    CheckingIdentity { existing_len: u64 },
    ResolvingSamePath,
    HashingExistingDestination,
    RestartingDestination,
    ComparingPrefix { existing_len: u64 },
    AccountingComplete,
    AccountingPrefix { offset: u64 },
    Copying { resumed: u64 },
    HashingCopy { resumed: u64 },
    RecheckingAfterMismatch { actual: Checksum },
    DiscardingMismatch { actual: Checksum },
    ResettingProgress { reason: RetryReason },
    AnnouncingRetry,
    ApplyingMetadata { resumed: u64 },
    VerifyingSourceBeforeRemoval { resumed: u64 },
    RemovingSource { resumed: u64 },
    CompletingProgress { resumed: u64 },
    Finished,
}

/// The next filesystem action for the program to perform.
#[derive(Debug)]
pub enum TransferAction {
    /// Compute the checksum of the source; answer with `SourceHashed`.
    HashSource,
    /// Create the destination's parent directories; answer with `ParentEnsured`.
    EnsureParent,
    /// Inspect the destination path; answer with `DestinationProbed`.
    ProbeDestination,
    /// Ask whether source and destination are the same file; answer with `IdentityChecked`.
    CheckIdentity,
    /// Make the destination path absolute; answer with `DestinationResolved`.
    ResolveDestination,
    /// Compute the checksum of the destination; answer with `DestinationHashed`.
    HashDestination,
    /// Delete the stale destination (a missing one is fine); answer with `StaleDestinationRemoved`.
    RemoveStaleDestination,
    /// Compare the first `length` bytes of source and destination; answer with `PrefixCompared`.
    ComparePrefix { length: u64 },
    /// Count `bytes` as already transferred in the progress display; answer with `Acknowledged`.
    AccountResumed { bytes: u64 },
    /// Copy the source from offset `resume_from` on, with the manual loop when
    /// `manual`, else with the operating system's whole-file copy; answer with `CopyFinished`.
    Copy { resume_from: u64, manual: bool },
    /// Compute the checksum of the source again; answer with `SourceRechecked`.
    RecheckSource,
    /// Delete the mismatching destination, ignoring errors; answer with `Acknowledged`.
    DiscardDestination,
    /// Take back the bytes this attempt counted in the progress display; answer with `Acknowledged`.
    ResetProgress,
    /// Report the failed attempt and wait `delay_ms`; answer with `Acknowledged`.
    AnnounceRetry { attempt: usize, reason: RetryReason, delay_ms: u64 },
    /// Restore the source's metadata on the destination; answer with `MetadataApplied`.
    ApplyMetadata,
    /// Delete the source; answer with `SourceRemoved`.
    RemoveSource,
    /// Mark the file complete in the progress display; answer with `Acknowledged`.
    CompleteProgress,
    /// The file is done.
    Finish(FileSummary),
    /// The file failed.
    Fail(FileFailure),
}

/// The result of the last action.
#[derive(Debug)]
pub enum TransferEvent {
    SourceHashed(Result<Checksum, ScamError>),
    ParentEnsured(Result<(), ScamError>),
    DestinationProbed(DestinationProbe),
    IdentityChecked(Result<bool, ScamError>),
    DestinationResolved(Result<FsPath, ScamError>),
    DestinationHashed(Result<Checksum, String>),
    StaleDestinationRemoved(Result<(), String>),
    PrefixCompared(Result<bool, AttemptFailure>),
    CopyFinished(Result<(), AttemptFailure>),
    SourceRechecked(Result<Checksum, ScamError>),
    MetadataApplied(Result<(), ScamError>),
    SourceRemoved(Result<(), ScamError>),
    Acknowledged,
}

/// The state of one file's transfer.
#[derive(Debug)]
pub struct FileTransferMachine {
    pub config: TransferConfig,
    pub phase: TransferPhase,
    /// Checksum of the source taken before the first attempt.
    pub expected: Checksum,
    /// Number of attempts started so far.
    pub attempts: usize,
    /// Whether the destination's checksum equals `expected` in the current attempt.
    pub destination_verified: bool,
}

/// Whether `event` answers the action that `phase` waits for.
pub open spec fn answers(phase: TransferPhase, event: TransferEvent) -> bool {
    match phase {
        TransferPhase::HashingSource => event is SourceHashed,
        TransferPhase::EnsuringParent => event is ParentEnsured,
        TransferPhase::ProbingDestination => event is DestinationProbed,
        TransferPhase::CheckingIdentity { .. } => event is IdentityChecked,
        TransferPhase::ResolvingSamePath => event is DestinationResolved,
        TransferPhase::HashingExistingDestination => event is DestinationHashed,
        TransferPhase::HashingCopy { .. } => event is DestinationHashed,
        TransferPhase::RestartingDestination => event is StaleDestinationRemoved,
        TransferPhase::ComparingPrefix { .. } => event is PrefixCompared,
        TransferPhase::Copying { .. } => event is CopyFinished,
        TransferPhase::RecheckingAfterMismatch { .. } => event is SourceRechecked,
        TransferPhase::VerifyingSourceBeforeRemoval { .. } => event is SourceRechecked,
        TransferPhase::ApplyingMetadata { .. } => event is MetadataApplied,
        TransferPhase::RemovingSource { .. } => event is SourceRemoved,
        TransferPhase::Finished => false,
        _ => event is Acknowledged,
    }
}

/// Whether a re-read source checksum shows the source unchanged; a source
/// that vanished counts as changed, other errors are reported as errors.
pub open spec fn recheck_verdict(result: Result<Checksum, ScamError>, expected: Checksum) -> Result<
    bool,
    ScamError,
> {
    match result {
        Ok(c) => Ok(c.bytes@ == expected.bytes@),
        Err(e) => if e matches ScamError::Io { kind, .. } && kind == IoErrorKind::NotFound {
            Ok(false)
        } else {
            Err(e)
        },
    }
}

impl FileTransferMachine {
    pub open spec fn with_phase(self, phase: TransferPhase) -> FileTransferMachine {
        FileTransferMachine { phase, ..self }
    }

    /// Ending with an action that reports the failure.
    pub open spec fn spec_fail(self, failure: FileFailure) -> (FileTransferMachine, TransferAction) {
        (self.with_phase(TransferPhase::Finished), TransferAction::Fail(failure))
    }

    /// Starting the copy from `resumed`.
    pub open spec fn spec_copy(self, resumed: u64) -> (FileTransferMachine, TransferAction) {
        (
            self.with_phase(TransferPhase::Copying { resumed }),
            TransferAction::Copy { resume_from: resumed, manual: self.config.progress || resumed > 0 },
        )
    }

    /// Abandoning the current attempt for `reason`.
    pub open spec fn spec_retry(self, reason: RetryReason) -> (FileTransferMachine, TransferAction) {
        (
            FileTransferMachine {
                phase: TransferPhase::ResettingProgress { reason },
                destination_verified: false,
                ..self
            },
            TransferAction::ResetProgress,
        )
    }

    /// Whether the attempt count has reached the limit.
    pub open spec fn limit_reached(self) -> bool {
        self.config.max_retries matches Some(limit) && self.attempts >= limit
    }

    /// The transition: the next state and action after `event`.
    pub open spec fn spec_step(self, event: TransferEvent) -> (FileTransferMachine, TransferAction) {
        match (self.phase, event) {
            (TransferPhase::HashingSource, TransferEvent::SourceHashed(r)) => match r {
                Ok(c) => (
                    FileTransferMachine {
                        phase: TransferPhase::EnsuringParent,
                        expected: c,
                        attempts: 1,
                        destination_verified: false,
                        ..self
                    },
                    TransferAction::EnsureParent,
                ),
                Err(e) => self.spec_fail(FileFailure::Error(e)),
            },
            (TransferPhase::EnsuringParent, TransferEvent::ParentEnsured(r)) => match r {
                Ok(()) => (
                    self.with_phase(TransferPhase::ProbingDestination),
                    TransferAction::ProbeDestination,
                ),
                Err(e) => self.spec_fail(FileFailure::Error(e)),
            },
            (TransferPhase::ProbingDestination, TransferEvent::DestinationProbed(p)) => match p {
                DestinationProbe::Missing => self.spec_copy(0),
                DestinationProbe::Unreadable(d) => self.spec_retry(
                    RetryReason::ReadingDestinationMetadataFailed(d),
                ),
                DestinationProbe::Symlink => self.spec_fail(FileFailure::DestinationIsSymlink),
                DestinationProbe::Directory => self.spec_fail(FileFailure::DestinationIsDirectory),
                DestinationProbe::File { len } => (
                    self.with_phase(TransferPhase::CheckingIdentity { existing_len: len }),
                    TransferAction::CheckIdentity,
                ),
            },
            (
                TransferPhase::CheckingIdentity { existing_len },
                TransferEvent::IdentityChecked(r),
            ) => match r {
                Err(e) => self.spec_fail(FileFailure::Error(e)),
                Ok(true) => (
                    self.with_phase(TransferPhase::ResolvingSamePath),
                    TransferAction::ResolveDestination,
                ),
                Ok(false) => if existing_len == self.config.size_bytes {
                    (
                        self.with_phase(TransferPhase::HashingExistingDestination),
                        TransferAction::HashDestination,
                    )
                } else if existing_len > self.config.size_bytes {
                    (
                        self.with_phase(TransferPhase::RestartingDestination),
                        TransferAction::RemoveStaleDestination,
                    )
                } else if existing_len == 0 {
                    self.spec_copy(0)
                } else {
                    (
                        self.with_phase(TransferPhase::ComparingPrefix { existing_len }),
                        TransferAction::ComparePrefix { length: existing_len },
                    )
                },
            },
            (TransferPhase::ResolvingSamePath, TransferEvent::DestinationResolved(r)) => match r {
                Ok(p) => self.spec_fail(FileFailure::SamePath(p)),
                Err(e) => self.spec_fail(FileFailure::Error(e)),
            },
            (TransferPhase::HashingExistingDestination, TransferEvent::DestinationHashed(r)) => match r {
                Err(d) => self.spec_retry(RetryReason::DestinationChecksumFailed(d)),
                Ok(c) => if c.bytes@ == self.expected.bytes@ {
                    (
                        FileTransferMachine {
                            phase: TransferPhase::AccountingComplete,
                            destination_verified: true,
                            ..self
                        },
                        TransferAction::AccountResumed { bytes: self.config.size_bytes },
                    )
                } else {
                    (
                        self.with_phase(TransferPhase::RestartingDestination),
                        TransferAction::RemoveStaleDestination,
                    )
                },
            },
            (TransferPhase::RestartingDestination, TransferEvent::StaleDestinationRemoved(r)) => match r {
                Ok(()) => self.spec_copy(0),
                Err(d) => self.spec_retry(RetryReason::RemovingStaleDestinationFailed(d)),
            },
            (TransferPhase::ComparingPrefix { existing_len }, TransferEvent::PrefixCompared(r)) => match r {
                Ok(true) => (
                    self.with_phase(TransferPhase::AccountingPrefix { offset: existing_len }),
                    TransferAction::AccountResumed { bytes: existing_len },
                ),
                Ok(false) => (
                    self.with_phase(TransferPhase::RestartingDestination),
                    TransferAction::RemoveStaleDestination,
                ),
                Err(AttemptFailure::Retry(reason)) => self.spec_retry(reason),
                Err(AttemptFailure::SourceChanged) => self.spec_fail(FileFailure::SourceChanged),
            },
            (TransferPhase::AccountingComplete, TransferEvent::Acknowledged) => (
                self.with_phase(TransferPhase::ApplyingMetadata { resumed: self.config.size_bytes }),
                TransferAction::ApplyMetadata,
            ),
            (TransferPhase::AccountingPrefix { offset }, TransferEvent::Acknowledged) => self.spec_copy(
                offset,
            ),
            (TransferPhase::Copying { resumed }, TransferEvent::CopyFinished(r)) => match r {
                Ok(()) => (
                    self.with_phase(TransferPhase::HashingCopy { resumed }),
                    TransferAction::HashDestination,
                ),
                Err(AttemptFailure::Retry(reason)) => self.spec_retry(reason),
                Err(AttemptFailure::SourceChanged) => self.spec_fail(FileFailure::SourceChanged),
            },
            (TransferPhase::HashingCopy { resumed }, TransferEvent::DestinationHashed(r)) => match r {
                Err(d) => self.spec_retry(RetryReason::DestinationChecksumFailed(d)),
                Ok(c) => if c.bytes@ == self.expected.bytes@ {
                    (
                        FileTransferMachine {
                            phase: TransferPhase::ApplyingMetadata { resumed },
                            destination_verified: true,
                            ..self
                        },
                        TransferAction::ApplyMetadata,
                    )
                } else {
                    (
                        self.with_phase(TransferPhase::RecheckingAfterMismatch { actual: c }),
                        TransferAction::RecheckSource,
                    )
                },
            },
            (
                TransferPhase::RecheckingAfterMismatch { actual },
                TransferEvent::SourceRechecked(r),
            ) => match recheck_verdict(r, self.expected) {
                Ok(true) => (
                    self.with_phase(TransferPhase::DiscardingMismatch { actual }),
                    TransferAction::DiscardDestination,
                ),
                Ok(false) => self.spec_fail(FileFailure::SourceChanged),
                Err(e) => self.spec_fail(FileFailure::Error(e)),
            },
            (TransferPhase::DiscardingMismatch { actual }, TransferEvent::Acknowledged) => self.spec_retry(
                RetryReason::ChecksumMismatch { source: self.expected, destination: actual },
            ),
            (TransferPhase::ResettingProgress { reason }, TransferEvent::Acknowledged) => if self.limit_reached() {
                self.spec_fail(FileFailure::RetryLimitExceeded { attempts: self.attempts })
            } else {
                (
                    self.with_phase(TransferPhase::AnnouncingRetry),
                    TransferAction::AnnounceRetry {
                        attempt: self.attempts,
                        reason,
                        delay_ms: self.config.retry_delay_ms,
                    },
                )
            },
            (TransferPhase::AnnouncingRetry, TransferEvent::Acknowledged) => (
                FileTransferMachine {
                    phase: TransferPhase::EnsuringParent,
                    attempts: (self.attempts + 1) as usize,
                    ..self
                },
                TransferAction::EnsureParent,
            ),
            (TransferPhase::ApplyingMetadata { resumed }, TransferEvent::MetadataApplied(r)) => match r {
                Err(e) => self.spec_fail(FileFailure::Error(e)),
                Ok(()) => if self.config.remove_source {
                    (
                        self.with_phase(TransferPhase::VerifyingSourceBeforeRemoval { resumed }),
                        TransferAction::RecheckSource,
                    )
                } else {
                    (
                        self.with_phase(TransferPhase::CompletingProgress { resumed }),
                        TransferAction::CompleteProgress,
                    )
                },
            },
            (
                TransferPhase::VerifyingSourceBeforeRemoval { resumed },
                TransferEvent::SourceRechecked(r),
            ) => match recheck_verdict(r, self.expected) {
                Ok(true) => (
                    self.with_phase(TransferPhase::RemovingSource { resumed }),
                    TransferAction::RemoveSource,
                ),
                Ok(false) => self.spec_fail(FileFailure::SourceChanged),
                Err(e) => self.spec_fail(FileFailure::Error(e)),
            },
            (TransferPhase::RemovingSource { resumed }, TransferEvent::SourceRemoved(r)) => match r {
                Err(e) => self.spec_fail(FileFailure::Error(e)),
                Ok(()) => (
                    self.with_phase(TransferPhase::CompletingProgress { resumed }),
                    TransferAction::CompleteProgress,
                ),
            },
            (TransferPhase::CompletingProgress { resumed }, TransferEvent::Acknowledged) => (
                self.with_phase(TransferPhase::Finished),
                TransferAction::Finish(
                    FileSummary {
                        bytes_copied: self.config.size_bytes,
                        retries: if self.attempts == 0 { 0 } else { (self.attempts - 1) as usize },
                        resumed_bytes: resumed,
                    },
                ),
            ),
            _ => (self, TransferAction::Fail(FileFailure::SourceChanged)),
        }
    }

    /// The machine for one file, before anything was done, and its first action.
    pub fn start(config: TransferConfig) -> (r: (FileTransferMachine, TransferAction))
        ensures
            r.0.config == config,
            r.0.phase is HashingSource,
            r.0.attempts == 0,
            !r.0.destination_verified,
            r.1 is HashSource,
    {
        (
            FileTransferMachine {
                config,
                phase: TransferPhase::HashingSource,
                expected: Checksum { bytes: [0u8; 32] },
                attempts: 0,
                destination_verified: false,
            },
            TransferAction::HashSource,
        )
    }

    /// Whether `event` answers the action this machine waits for.
    pub fn accepts(&self, event: &TransferEvent) -> (r: bool)
        ensures
            r == answers(self.phase, *event),
    {
        match (&self.phase, event) {
            (TransferPhase::HashingSource, TransferEvent::SourceHashed(_)) => true,
            (TransferPhase::EnsuringParent, TransferEvent::ParentEnsured(_)) => true,
            (TransferPhase::ProbingDestination, TransferEvent::DestinationProbed(_)) => true,
            (TransferPhase::CheckingIdentity { .. }, TransferEvent::IdentityChecked(_)) => true,
            (TransferPhase::ResolvingSamePath, TransferEvent::DestinationResolved(_)) => true,
            (TransferPhase::HashingExistingDestination, TransferEvent::DestinationHashed(_)) => true,
            (TransferPhase::HashingCopy { .. }, TransferEvent::DestinationHashed(_)) => true,
            (TransferPhase::RestartingDestination, TransferEvent::StaleDestinationRemoved(_)) => true,
            (TransferPhase::ComparingPrefix { .. }, TransferEvent::PrefixCompared(_)) => true,
            (TransferPhase::Copying { .. }, TransferEvent::CopyFinished(_)) => true,
            (TransferPhase::RecheckingAfterMismatch { .. }, TransferEvent::SourceRechecked(_)) => true,
            (TransferPhase::VerifyingSourceBeforeRemoval { .. }, TransferEvent::SourceRechecked(_)) => true,
            (TransferPhase::ApplyingMetadata { .. }, TransferEvent::MetadataApplied(_)) => true,
            (TransferPhase::RemovingSource { .. }, TransferEvent::SourceRemoved(_)) => true,
            (TransferPhase::AccountingComplete, TransferEvent::Acknowledged) => true,
            (TransferPhase::AccountingPrefix { .. }, TransferEvent::Acknowledged) => true,
            (TransferPhase::DiscardingMismatch { .. }, TransferEvent::Acknowledged) => true,
            (TransferPhase::ResettingProgress { .. }, TransferEvent::Acknowledged) => true,
            (TransferPhase::AnnouncingRetry, TransferEvent::Acknowledged) => true,
            (TransferPhase::CompletingProgress { .. }, TransferEvent::Acknowledged) => true,
            _ => false,
        }
    }

    /// Whether the machine has ended (after a `Finish` or `Fail` action).
    pub fn is_finished(&self) -> (r: bool)
        ensures
            r == (self.phase is Finished),
    {
        matches!(self.phase, TransferPhase::Finished)
    }

    /// The result of the last action, `event`, gives the next state and action.
    pub fn step(self, event: TransferEvent) -> (r: (FileTransferMachine, TransferAction))
        requires
            answers(self.phase, event),
            self.phase is AnnouncingRetry ==> self.attempts < usize::MAX,
        ensures
            r == self.spec_step(event),
    {
        let FileTransferMachine { config, phase, expected, attempts, destination_verified } = self;
        let fail = |failure: FileFailure| -> (r: (FileTransferMachine, TransferAction))
            ensures
                r == (FileTransferMachine { config, phase: TransferPhase::Finished, expected, attempts, destination_verified }, TransferAction::Fail(failure)),
            {
                (
                    FileTransferMachine { config, phase: TransferPhase::Finished, expected, attempts, destination_verified },
                    TransferAction::Fail(failure),
                )
            };
        let go = |phase: TransferPhase, action: TransferAction| -> (r: (FileTransferMachine, TransferAction))
            ensures
                r == (FileTransferMachine { config, phase, expected, attempts, destination_verified }, action),
            {
                (FileTransferMachine { config, phase, expected, attempts, destination_verified }, action)
            };
        let retry = |reason: RetryReason| -> (r: (FileTransferMachine, TransferAction))
            ensures
                r == (FileTransferMachine { config, phase: TransferPhase::ResettingProgress { reason }, expected, attempts, destination_verified: false }, TransferAction::ResetProgress),
            {
                (
                    FileTransferMachine { config, phase: TransferPhase::ResettingProgress { reason }, expected, attempts, destination_verified: false },
                    TransferAction::ResetProgress,
                )
            };
        let copy_from = |resumed: u64| -> (r: (FileTransferMachine, TransferAction))
            ensures
                r == (FileTransferMachine { config, phase: TransferPhase::Copying { resumed }, expected, attempts, destination_verified }, TransferAction::Copy { resume_from: resumed, manual: config.progress || resumed > 0 }),
            {
                (
                    FileTransferMachine { config, phase: TransferPhase::Copying { resumed }, expected, attempts, destination_verified },
                    TransferAction::Copy { resume_from: resumed, manual: config.progress || resumed > 0 },
                )
            };
        match (phase, event) {
            (TransferPhase::HashingSource, TransferEvent::SourceHashed(r)) => match r {
                Ok(c) => (
                    FileTransferMachine {
                        config,
                        phase: TransferPhase::EnsuringParent,
                        expected: c,
                        attempts: 1,
                        destination_verified: false,
                    },
                    TransferAction::EnsureParent,
                ),
                Err(e) => fail(FileFailure::Error(e)),
            },
            (TransferPhase::EnsuringParent, TransferEvent::ParentEnsured(r)) => match r {
                Ok(()) => go(TransferPhase::ProbingDestination, TransferAction::ProbeDestination),
                Err(e) => fail(FileFailure::Error(e)),
            },
            (TransferPhase::ProbingDestination, TransferEvent::DestinationProbed(p)) => match p {
                DestinationProbe::Missing => copy_from(0),
                DestinationProbe::Unreadable(d) => retry(
                    RetryReason::ReadingDestinationMetadataFailed(d),
                ),
                DestinationProbe::Symlink => fail(FileFailure::DestinationIsSymlink),
                DestinationProbe::Directory => fail(FileFailure::DestinationIsDirectory),
                DestinationProbe::File { len } => go(
                    TransferPhase::CheckingIdentity { existing_len: len },
                    TransferAction::CheckIdentity,
                ),
            },
            (
                TransferPhase::CheckingIdentity { existing_len },
                TransferEvent::IdentityChecked(r),
            ) => match r {
                Err(e) => fail(FileFailure::Error(e)),
                Ok(true) => go(TransferPhase::ResolvingSamePath, TransferAction::ResolveDestination),
                Ok(false) => if existing_len == config.size_bytes {
                    go(TransferPhase::HashingExistingDestination, TransferAction::HashDestination)
                } else if existing_len > config.size_bytes {
                    go(TransferPhase::RestartingDestination, TransferAction::RemoveStaleDestination)
                } else if existing_len == 0 {
                    copy_from(0)
                } else {
                    go(
                        TransferPhase::ComparingPrefix { existing_len },
                        TransferAction::ComparePrefix { length: existing_len },
                    )
                },
            },
            (TransferPhase::ResolvingSamePath, TransferEvent::DestinationResolved(r)) => match r {
                Ok(p) => fail(FileFailure::SamePath(p)),
                Err(e) => fail(FileFailure::Error(e)),
            },
            (TransferPhase::HashingExistingDestination, TransferEvent::DestinationHashed(r)) => match r {
                Err(d) => retry(RetryReason::DestinationChecksumFailed(d)),
                Ok(c) => if c.matches(&expected) {
                    (
                        FileTransferMachine {
                            config,
                            phase: TransferPhase::AccountingComplete,
                            expected,
                            attempts,
                            destination_verified: true,
                        },
                        TransferAction::AccountResumed { bytes: config.size_bytes },
                    )
                } else {
                    go(TransferPhase::RestartingDestination, TransferAction::RemoveStaleDestination)
                },
            },
            (TransferPhase::RestartingDestination, TransferEvent::StaleDestinationRemoved(r)) => match r {
                Ok(()) => copy_from(0),
                Err(d) => retry(RetryReason::RemovingStaleDestinationFailed(d)),
            },
            (TransferPhase::ComparingPrefix { existing_len }, TransferEvent::PrefixCompared(r)) => match r {
                Ok(true) => go(
                    TransferPhase::AccountingPrefix { offset: existing_len },
                    TransferAction::AccountResumed { bytes: existing_len },
                ),
                Ok(false) => go(TransferPhase::RestartingDestination, TransferAction::RemoveStaleDestination),
                Err(AttemptFailure::Retry(reason)) => retry(reason),
                Err(AttemptFailure::SourceChanged) => fail(FileFailure::SourceChanged),
            },
            (TransferPhase::AccountingComplete, TransferEvent::Acknowledged) => go(
                TransferPhase::ApplyingMetadata { resumed: config.size_bytes },
                TransferAction::ApplyMetadata,
            ),
            (TransferPhase::AccountingPrefix { offset }, TransferEvent::Acknowledged) => copy_from(offset),
            (TransferPhase::Copying { resumed }, TransferEvent::CopyFinished(r)) => match r {
                Ok(()) => go(TransferPhase::HashingCopy { resumed }, TransferAction::HashDestination),
                Err(AttemptFailure::Retry(reason)) => retry(reason),
                Err(AttemptFailure::SourceChanged) => fail(FileFailure::SourceChanged),
            },
            (TransferPhase::HashingCopy { resumed }, TransferEvent::DestinationHashed(r)) => match r {
                Err(d) => retry(RetryReason::DestinationChecksumFailed(d)),
                Ok(c) => if c.matches(&expected) {
                    (
                        FileTransferMachine {
                            config,
                            phase: TransferPhase::ApplyingMetadata { resumed },
                            expected,
                            attempts,
                            destination_verified: true,
                        },
                        TransferAction::ApplyMetadata,
                    )
                } else {
                    go(TransferPhase::RecheckingAfterMismatch { actual: c }, TransferAction::RecheckSource)
                },
            },
            (
                TransferPhase::RecheckingAfterMismatch { actual },
                TransferEvent::SourceRechecked(r),
            ) => match recheck(r, &expected) {
                Ok(true) => go(TransferPhase::DiscardingMismatch { actual }, TransferAction::DiscardDestination),
                Ok(false) => fail(FileFailure::SourceChanged),
                Err(e) => fail(FileFailure::Error(e)),
            },
            (TransferPhase::DiscardingMismatch { actual }, TransferEvent::Acknowledged) => retry(
                RetryReason::ChecksumMismatch { source: expected, destination: actual },
            ),
            (TransferPhase::ResettingProgress { reason }, TransferEvent::Acknowledged) => {
                let limit_reached = match config.max_retries {
                    Some(limit) => attempts >= limit,
                    None => false,
                };
                if limit_reached {
                    fail(FileFailure::RetryLimitExceeded { attempts })
                } else {
                    go(
                        TransferPhase::AnnouncingRetry,
                        TransferAction::AnnounceRetry {
                            attempt: attempts,
                            reason,
                            delay_ms: config.retry_delay_ms,
                        },
                    )
                }
            },
            (TransferPhase::AnnouncingRetry, TransferEvent::Acknowledged) => (
                FileTransferMachine {
                    config,
                    phase: TransferPhase::EnsuringParent,
                    expected,
                    attempts: attempts + 1,
                    destination_verified,
                },
                TransferAction::EnsureParent,
            ),
            (TransferPhase::ApplyingMetadata { resumed }, TransferEvent::MetadataApplied(r)) => match r {
                Err(e) => fail(FileFailure::Error(e)),
                Ok(()) => if config.remove_source {
                    go(
                        TransferPhase::VerifyingSourceBeforeRemoval { resumed },
                        TransferAction::RecheckSource,
                    )
                } else {
                    go(TransferPhase::CompletingProgress { resumed }, TransferAction::CompleteProgress)
                },
            },
            (
                TransferPhase::VerifyingSourceBeforeRemoval { resumed },
                TransferEvent::SourceRechecked(r),
            ) => match recheck(r, &expected) {
                Ok(true) => go(TransferPhase::RemovingSource { resumed }, TransferAction::RemoveSource),
                Ok(false) => fail(FileFailure::SourceChanged),
                Err(e) => fail(FileFailure::Error(e)),
            },
            (TransferPhase::RemovingSource { resumed }, TransferEvent::SourceRemoved(r)) => match r {
                Err(e) => fail(FileFailure::Error(e)),
                Ok(()) => go(TransferPhase::CompletingProgress { resumed }, TransferAction::CompleteProgress),
            },
            (TransferPhase::CompletingProgress { resumed }, TransferEvent::Acknowledged) => go(
                TransferPhase::Finished,
                TransferAction::Finish(
                    FileSummary {
                        bytes_copied: config.size_bytes,
                        retries: attempts.saturating_sub(1),
                        resumed_bytes: resumed,
                    },
                ),
            ),
            (phase, _) => {
                proof { assert(false); }
                go(phase, TransferAction::Fail(FileFailure::SourceChanged))
            },
        }
    }
}

/// Whether a re-read source checksum shows the source unchanged.
fn recheck(result: Result<Checksum, ScamError>, expected: &Checksum) -> (r: Result<bool, ScamError>)
    ensures
        r == recheck_verdict(result, *expected),
{
    match result {
        Ok(c) => Ok(c.matches(expected)),
        Err(e) => if e.is_not_found() {
            Ok(false)
        } else {
            Err(e)
        },
    }
}

impl FileTransferMachine {
    /// What holds of every state the machine reaches from `start`.
    pub open spec fn inv(self) -> bool {
        &&& (self.phase is AccountingComplete || self.phase is ApplyingMetadata
            || self.phase is VerifyingSourceBeforeRemoval || self.phase is RemovingSource
            || self.phase is CompletingProgress) ==> self.destination_verified
        &&& (self.phase is VerifyingSourceBeforeRemoval || self.phase is RemovingSource)
            ==> self.config.remove_source
        &&& self.phase is HashingSource ==> self.attempts == 0
        &&& !(self.phase is HashingSource || self.phase is Finished) ==> self.attempts >= 1
        &&& match self.config.max_retries {
            Some(limit) => limit >= 1 ==> self.attempts <= limit,
            None => true,
        }
        &&& self.phase is AnnouncingRetry ==> !self.limit_reached()
        &&& match self.phase {
            TransferPhase::ComparingPrefix { existing_len } => 0 < existing_len
                < self.config.size_bytes,
            TransferPhase::AccountingPrefix { offset } => 0 < offset < self.config.size_bytes,
            TransferPhase::Copying { resumed } => resumed == 0 || resumed < self.config.size_bytes,
            TransferPhase::HashingCopy { resumed } => resumed <= self.config.size_bytes,
            TransferPhase::ApplyingMetadata { resumed } => resumed <= self.config.size_bytes,
            TransferPhase::VerifyingSourceBeforeRemoval { resumed } => resumed
                <= self.config.size_bytes,
            TransferPhase::RemovingSource { resumed } => resumed <= self.config.size_bytes,
            TransferPhase::CompletingProgress { resumed } => resumed <= self.config.size_bytes,
            _ => true,
        }
    }
}

/// The machine's invariant holds at the start and is kept by every step.
pub proof fn lemma_step_keeps_invariant(m: FileTransferMachine, e: TransferEvent)
    requires
        m.inv(),
        answers(m.phase, e),
        m.phase is AnnouncingRetry ==> m.attempts < usize::MAX,
    ensures
        m.spec_step(e).0.inv(),
{
}

/// A fresh machine satisfies the invariant.
pub proof fn lemma_start_satisfies_invariant(config: TransferConfig, m: FileTransferMachine)
    requires
        m.config == config,
        m.phase is HashingSource,
        m.attempts == 0,
        !m.destination_verified,
    ensures
        m.inv(),
{
}

/// A move deletes the source only after the destination's checksum matched the
/// source's, and only when the source, hashed again, still has that checksum.
pub proof fn law_source_removed_only_after_verification(m: FileTransferMachine, e: TransferEvent)
    requires
        m.inv(),
        answers(m.phase, e),
        m.spec_step(e).1 is RemoveSource,
    ensures
        m.config.remove_source,
        m.destination_verified,
        e matches TransferEvent::SourceRechecked(Ok(c)) && c.bytes@ == m.expected.bytes@,
{
}

/// A file is reported done only when its destination verified against the
/// source's checksum, with the planned size, no more resumed bytes than that
/// size, and one retry fewer than attempts.
pub proof fn law_finished_files_are_verified(m: FileTransferMachine, e: TransferEvent)
    requires
        m.inv(),
        answers(m.phase, e),
        m.spec_step(e).1 is Finish,
    ensures
        m.destination_verified,
        m.spec_step(e).1 matches TransferAction::Finish(s) && s.bytes_copied == m.config.size_bytes
            && s.retries == m.attempts - 1 && s.resumed_bytes <= s.bytes_copied,
{
}

/// Destination bytes are counted as already transferred only when the whole
/// destination matched the source's checksum, or when a strictly shorter
/// destination was found equal to the start of the source.
pub proof fn law_resume_only_from_verified_bytes(m: FileTransferMachine, e: TransferEvent)
    requires
        m.inv(),
        answers(m.phase, e),
        m.spec_step(e).1 is AccountResumed,
    ensures
        m.spec_step(e).1 matches TransferAction::AccountResumed { bytes } && (
        (m.phase is HashingExistingDestination && bytes == m.config.size_bytes && (
        e matches TransferEvent::DestinationHashed(Ok(c)) && c.bytes@ == m.expected.bytes@)) || (
        m.phase == (TransferPhase::ComparingPrefix { existing_len: bytes }) && 0 < bytes
            < m.config.size_bytes && e matches TransferEvent::PrefixCompared(Ok(true)))),
{
}

/// The copy starts past the beginning of the file only right after a strictly
/// shorter destination was found equal to the start of the source.
pub proof fn law_copy_resumes_only_after_matching_prefix(m: FileTransferMachine, e: TransferEvent)
    requires
        m.inv(),
        answers(m.phase, e),
        m.spec_step(e).1 matches TransferAction::Copy { resume_from, .. } && resume_from > 0,
    ensures
        m.spec_step(e).1 matches TransferAction::Copy { resume_from, manual } && manual && m.phase
            == (TransferPhase::AccountingPrefix { offset: resume_from }) && 0 < resume_from
            < m.config.size_bytes,
{
}

/// With a bounded number of attempts, no more than that many are started, and
/// the transfer gives up exactly when the last allowed attempt failed.
pub proof fn law_attempts_stay_within_limit(m: FileTransferMachine, e: TransferEvent, limit: usize)
    requires
        m.inv(),
        answers(m.phase, e),
        m.config.max_retries == Some(limit),
        limit >= 1,
    ensures
        m.spec_step(e).0.attempts <= limit,
        m.spec_step(e).1 matches TransferAction::Fail(FileFailure::RetryLimitExceeded { attempts })
            ==> attempts == limit == m.attempts,
{
}

/// Without a bound on attempts the transfer never gives up for want of
/// attempts: a failed attempt is always followed by another.
pub proof fn law_unbounded_retries_never_give_up(m: FileTransferMachine, e: TransferEvent)
    requires
        m.inv(),
        answers(m.phase, e),
        m.config.max_retries is None,
    ensures
        !(m.spec_step(e).1 is Fail && m.spec_step(e).1->Fail_0 is RetryLimitExceeded),
        m.phase is ResettingProgress ==> m.spec_step(e).1 is AnnounceRetry,
{
}

/// An existing destination that is not the source itself is checked by
/// checksum when it has the source's size, deleted when it is longer, written
/// over from the start when it is empty, and compared with the start of the
/// source when it is shorter.
pub proof fn law_existing_destination_is_inspected(m: FileTransferMachine, existing_len: u64)
    requires
        m.inv(),
        m.phase == (TransferPhase::CheckingIdentity { existing_len }),
    ensures
        existing_len == m.config.size_bytes ==> m.spec_step(
            TransferEvent::IdentityChecked(Ok(false)),
        ).1 is HashDestination,
        existing_len > m.config.size_bytes ==> m.spec_step(
            TransferEvent::IdentityChecked(Ok(false)),
        ).1 is RemoveStaleDestination,
        existing_len == 0 < m.config.size_bytes ==> m.spec_step(
            TransferEvent::IdentityChecked(Ok(false)),
        ).1 == (TransferAction::Copy { resume_from: 0, manual: m.config.progress }),
        0 < existing_len < m.config.size_bytes ==> m.spec_step(
            TransferEvent::IdentityChecked(Ok(false)),
        ).1 == (TransferAction::ComparePrefix { length: existing_len }),
        m.spec_step(TransferEvent::IdentityChecked(Ok(true))).1 is ResolveDestination,
{
}

/// A destination of the source's size whose checksum equals the source's is
/// kept as the verified copy, all of its bytes counted as resumed; one whose
/// checksum differs is deleted and copied anew.
pub proof fn law_complete_destination_is_reused(m: FileTransferMachine, c: Checksum)
    requires
        m.inv(),
        m.phase is HashingExistingDestination,
    ensures
        c.bytes@ == m.expected.bytes@ ==> m.spec_step(TransferEvent::DestinationHashed(Ok(c))).1
            == (TransferAction::AccountResumed { bytes: m.config.size_bytes }) && m.spec_step(
            TransferEvent::DestinationHashed(Ok(c)),
        ).0.destination_verified,
        c.bytes@ != m.expected.bytes@ ==> m.spec_step(
            TransferEvent::DestinationHashed(Ok(c)),
        ).1 is RemoveStaleDestination,
{
}

/// A shorter destination equal to the start of the source is resumed from its
/// end, with its bytes counted as resumed first; one that differs is deleted
/// and copied anew.
pub proof fn law_matching_prefix_is_resumed(m: FileTransferMachine, existing_len: u64)
    requires
        m.inv(),
        m.phase == (TransferPhase::ComparingPrefix { existing_len }),
    ensures
        m.spec_step(TransferEvent::PrefixCompared(Ok(true))).1 == (TransferAction::AccountResumed {
            bytes: existing_len,
        }),
        m.spec_step(TransferEvent::PrefixCompared(Ok(true))).0.spec_step(
            TransferEvent::Acknowledged,
        ).1 == (TransferAction::Copy { resume_from: existing_len, manual: true }),
        m.spec_step(TransferEvent::PrefixCompared(Ok(false))).1 is RemoveStaleDestination,
{
}

/// When the copy's checksum differs from the source's and the source, hashed
/// again, is unchanged, the copy is deleted, the attempt's progress taken
/// back, and, while the bound on attempts allows, a new attempt starts.
pub proof fn law_mismatch_is_retried(
    m: FileTransferMachine,
    resumed: u64,
    actual: Checksum,
    rechecked: Checksum,
)
    requires
        m.inv(),
        m.phase == (TransferPhase::HashingCopy { resumed }),
        actual.bytes@ != m.expected.bytes@,
        rechecked.bytes@ == m.expected.bytes@,
    ensures
        ({
            let (m1, a1) = m.spec_step(TransferEvent::DestinationHashed(Ok(actual)));
            let (m2, a2) = m1.spec_step(TransferEvent::SourceRechecked(Ok(rechecked)));
            let (m3, a3) = m2.spec_step(TransferEvent::Acknowledged);
            let (m4, a4) = m3.spec_step(TransferEvent::Acknowledged);
            &&& a1 is RecheckSource
            &&& a2 is DiscardDestination
            &&& a3 is ResetProgress
            &&& !m.limit_reached() ==> a4 == (TransferAction::AnnounceRetry {
                attempt: m.attempts,
                reason: RetryReason::ChecksumMismatch { source: m.expected, destination: actual },
                delay_ms: m.config.retry_delay_ms,
            })
            &&& (!m.limit_reached() && m.attempts < usize::MAX) ==> m4.spec_step(
                TransferEvent::Acknowledged,
            ).1 is EnsureParent && m4.spec_step(TransferEvent::Acknowledged).0.attempts
                == m.attempts + 1
            &&& m.limit_reached() ==> a4 == TransferAction::Fail(
                FileFailure::RetryLimitExceeded { attempts: m.attempts },
            )
        }),
{
}

/// The bytes found already in place are reported in the file's summary: from
/// the start of the copy (`resumed` bytes reused, zero for a fresh copy)
/// through the destination's verification and, for a move, the source's
/// re-check and removal, the file finishes with exactly `resumed` bytes
/// resumed and its planned size copied.
pub proof fn law_resumed_bytes_reach_the_summary(
    m: FileTransferMachine,
    resumed: u64,
    c: Checksum,
)
    requires
        m.inv(),
        m.phase == (TransferPhase::Copying { resumed }),
        c.bytes@ == m.expected.bytes@,
    ensures
        ({
            let (m1, a1) = m.spec_step(TransferEvent::CopyFinished(Ok(())));
            let (m2, a2) = m1.spec_step(TransferEvent::DestinationHashed(Ok(c)));
            &&& a1 is HashDestination
            &&& a2 is ApplyMetadata
            &&& m2.phase == (TransferPhase::ApplyingMetadata { resumed })
            &&& finishes_reporting_resumed(m2, resumed, c)
        }),
{
    let (m1, a1) = m.spec_step(TransferEvent::CopyFinished(Ok(())));
    let (m2, a2) = m1.spec_step(TransferEvent::DestinationHashed(Ok(c)));
    lemma_step_keeps_invariant(m, TransferEvent::CopyFinished(Ok(())));
    lemma_step_keeps_invariant(m1, TransferEvent::DestinationHashed(Ok(c)));
    law_metadata_to_finish(m2, resumed, c);
}

/// Whether, from restoring metadata after a verified destination, the file
/// finishes (a move after re-checking and removing its source) with its planned
/// size copied, `resumed` bytes resumed and one retry fewer than attempts.
pub open spec fn finishes_reporting_resumed(m: FileTransferMachine, resumed: u64, c: Checksum) -> bool {
    let (m1, a1) = m.spec_step(TransferEvent::MetadataApplied(Ok(())));
    if m.config.remove_source {
        let (m2, a2) = m1.spec_step(TransferEvent::SourceRechecked(Ok(c)));
        let (m3, a3) = m2.spec_step(TransferEvent::SourceRemoved(Ok(())));
        let (m4, a4) = m3.spec_step(TransferEvent::Acknowledged);
        &&& a1 is RecheckSource
        &&& a2 is RemoveSource
        &&& a3 is CompleteProgress
        &&& a4 == TransferAction::Finish(
            FileSummary {
                bytes_copied: m.config.size_bytes,
                retries: (m.attempts - 1) as usize,
                resumed_bytes: resumed,
            },
        )
    } else {
        let (m2, a2) = m1.spec_step(TransferEvent::Acknowledged);
        &&& a1 is CompleteProgress
        &&& a2 == TransferAction::Finish(
            FileSummary {
                bytes_copied: m.config.size_bytes,
                retries: (m.attempts - 1) as usize,
                resumed_bytes: resumed,
            },
        )
    }
}

/// Once the destination verified with `resumed` bytes reused, whatever
/// `resumed` is (a complete destination included): a move re-checks the source
/// and removes it before the file is done, a copy completes at once; either
/// way the summary reports the planned size, `resumed` bytes resumed and one
/// retry fewer than attempts.
pub proof fn law_metadata_to_finish(m: FileTransferMachine, resumed: u64, c: Checksum)
    requires
        m.inv(),
        m.phase == (TransferPhase::ApplyingMetadata { resumed }),
        c.bytes@ == m.expected.bytes@,
    ensures
        finishes_reporting_resumed(m, resumed, c),
{
}

/// A move completes a file only right after removing its source: the
/// progress is marked complete (the last step before the file is done) only
/// after the source was removed.
pub proof fn law_move_completes_only_after_removing_the_source(
    m: FileTransferMachine,
    e: TransferEvent,
)
    requires
        m.inv(),
        answers(m.phase, e),
        m.config.remove_source,
        m.spec_step(e).1 is CompleteProgress,
    ensures
        m.phase is RemovingSource,
        e matches TransferEvent::SourceRemoved(Ok(_)),
{
}

/// A destination found complete and matching is kept with all of its bytes
/// counted as resumed, and the file then finishes reporting them all resumed
/// (a move still re-checks and removes its source first).
pub proof fn law_complete_destination_finishes_fully_resumed(m: FileTransferMachine, c: Checksum)
    requires
        m.inv(),
        m.phase is AccountingComplete,
        c.bytes@ == m.expected.bytes@,
    ensures
        m.spec_step(TransferEvent::Acknowledged).0.phase == (TransferPhase::ApplyingMetadata {
            resumed: m.config.size_bytes,
        }),
        finishes_reporting_resumed(
            m.spec_step(TransferEvent::Acknowledged).0,
            m.config.size_bytes,
            c,
        ),
{
    lemma_step_keeps_invariant(m, TransferEvent::Acknowledged);
    law_metadata_to_finish(m.spec_step(TransferEvent::Acknowledged).0, m.config.size_bytes, c);
}

} // verus!
