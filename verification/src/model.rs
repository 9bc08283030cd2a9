//! Core domain types shared across parsing, planning, and execution.

use vstd::prelude::*;

use crate::metadata::MetadataSnapshot;

verus! {

/// The high-level operation requested by the user.
#[derive(Debug, Clone, Copy, PartialEq, Eq, Structural)]
pub enum Operation {
    /// Copy the source and keep the original in place.
    Copy,
    /// Copy the source, verify it, and then remove the original.
    Move,
}

impl View for Operation {
    type V = Operation;

    open spec fn view(&self) -> Operation {
        *self
    }
}

impl Operation {
    /// Returns `true` when the operation removes the source after verification.
    pub fn is_move(self) -> (r: bool)
        ensures
            r == (self == Operation::Move),
    {
        matches!(self, Operation::Move)
    }

    /// Human-friendly verb for status output.
    pub fn present_tense(self) -> (r: &'static str)
        ensures
            self == Operation::Copy ==> r@ == "copy"@,
            self == Operation::Move ==> r@ == "move"@,
    {
        match self {
            Operation::Copy => "copy",
            Operation::Move => "move",
        }
    }

    /// Human-friendly past tense for status output.
    pub fn past_tense(self) -> (r: &'static str)
        ensures
            self == Operation::Copy ==> r@ == "Copied"@,
            self == Operation::Move ==> r@ == "Moved"@,
    {
        match self {
            Operation::Copy => "Copied",
            Operation::Move => "Moved",
        }
    }
}


/// Default hashing buffer size in bytes (4 MiB).
pub const DEFAULT_HASH_BUFFER_SIZE: usize = 4194304;

/// Default copy buffer size in bytes (8 MiB).
pub const DEFAULT_COPY_BUFFER_SIZE: usize = 8388608;

/// How often, in milliseconds, the optional progress reporter emits a status line.
pub const DEFAULT_PROGRESS_UPDATE_INTERVAL_MS: u64 = 250;

/// A filesystem path held as its sequence of components (`/`, `..`, names, ...),
/// in the order in which the platform's path iterator yields them, each as the
/// bytes the platform encodes it with (not necessarily UTF-8).
#[derive(Debug)]
pub struct FsPath {
    pub components: Vec<Vec<u8>>,
}

impl View for FsPath {
    type V = Seq<Seq<u8>>;

    open spec fn view(&self) -> Seq<Seq<u8>> {
        self.components@.map_values(|c: Vec<u8>| c@)
    }
}

/// A copy of `bytes`.
pub fn copy_bytes(bytes: &Vec<u8>) -> (r: Vec<u8>)
    ensures
        r@ == bytes@,
{
    let mut r: Vec<u8> = Vec::new();
    let mut i: usize = 0;
    while i < bytes.len()
        invariant
            i <= bytes@.len(),
            r@ == bytes@.take(i as int),
        decreases bytes@.len() - i,
    {
        r.push(bytes[i]);
        i = i + 1;
        assert(r@ =~= bytes@.take(i as int));
    }
    assert(bytes@.take(i as int) =~= bytes@);
    r
}

/// Whether two byte strings are equal.
pub fn bytes_equal(a: &Vec<u8>, b: &Vec<u8>) -> (r: bool)
    ensures
        r == (a@ == b@),
{
    if a.len() != b.len() {
        assert(a@.len() != b@.len());
        return false;
    }
    let mut i: usize = 0;
    while i < a.len()
        invariant
            i <= a@.len() == b@.len(),
            forall|j: int| 0 <= j < i ==> a@[j] == b@[j],
        decreases a@.len() - i,
    {
        if a[i] != b[i] {
            return false;
        }
        i = i + 1;
    }
    assert(a@ =~= b@);
    true
}

impl Clone for FsPath {
    fn clone(&self) -> (r: Self)
        ensures
            r@ == self@,
    {
        let mut components: Vec<Vec<u8>> = Vec::new();
        let mut i: usize = 0;
        while i < self.components.len()
            invariant
                i <= self.components.len(),
                components@.len() == i,
                forall|j: int| 0 <= j < i ==> components@[j]@ == #[trigger] self.components@[j]@,
            decreases self.components.len() - i,
        {
            components.push(copy_bytes(&self.components[i]));
            i = i + 1;
        }
        let r = FsPath { components };
        assert(r@ =~= self@);
        r
    }
}

impl FsPath {
    /// A path made of the given components.
    pub fn from_components(components: Vec<Vec<u8>>) -> (p: FsPath)
        ensures
            p.components == components,
    {
        FsPath { components }
    }

    /// This path followed by every component of `tail` (`Path::join` of a relative path).
    pub fn join(&self, tail: &FsPath) -> (p: FsPath)
        ensures
            p@ == self@ + tail@,
    {
        let mut p = self.clone();
        let mut i: usize = 0;
        while i < tail.components.len()
            invariant
                i <= tail.components.len(),
                p@ == self@ + tail@.take(i as int),
            decreases tail.components.len() - i,
        {
            let ghost before = p@;
            p.components.push(copy_bytes(&tail.components[i]));
            assert(p@ =~= before.push(tail@[i as int]));
            assert(tail@.take(i + 1) =~= tail@.take(i as int).push(tail@[i as int]));
            i = i + 1;
        }
        assert(tail@.take(tail.components.len() as int) =~= tail@);
        p
    }

    /// This path with one more component, `name`, at its end.
    pub fn child(&self, name: &Vec<u8>) -> (p: FsPath)
        ensures
            p@ == self@.push(name@),
    {
        let mut p = self.clone();
        let ghost before = p@;
        p.components.push(copy_bytes(name));
        assert(p@ =~= before.push(name@));
        p
    }

    /// Whether `base` is a prefix of this path, comparing whole components
    /// (`Path::starts_with`).
    pub fn starts_with(&self, base: &FsPath) -> (r: bool)
        ensures
            r == base@.is_prefix_of(self@),
    {
        if base.components.len() > self.components.len() {
            return false;
        }
        let mut i: usize = 0;
        while i < base.components.len()
            invariant
                i <= base.components.len() <= self.components.len(),
                forall|j: int| 0 <= j < i ==> base@[j] == self@[j],
            decreases base.components.len() - i,
        {
            if !bytes_equal(&base.components[i], &self.components[i]) {
                assert(base@[i as int] != self@[i as int]);
                return false;
            }
            i = i + 1;
        }
        true
    }

    /// Whether both paths consist of the same components.
    pub fn same_as(&self, other: &FsPath) -> (r: bool)
        ensures
            r == (self@ == other@),
    {
        if self.components.len() != other.components.len() {
            assert(self@.len() != other@.len());
            return false;
        }
        let r = self.starts_with(other);
        if r {
            assert(self@ =~= other@);
        }
        r
    }
}

/// Runtime execution settings that affect performance, output, and retry behavior.
#[derive(Debug)]
pub struct ExecutionSettings {
    /// Buffer size used while hashing files.
    pub hash_buffer_size: usize,
    /// Buffer size used while manually copying files.
    pub copy_buffer_size: usize,
    /// Maximum number of attempts per file; `None` retries until the file verifies.
    pub max_retries: Option<usize>,
    /// Delay, in milliseconds, after a failed attempt and before retrying.
    pub retry_delay_ms: u64,
    /// Whether to print a success summary to stderr.
    pub verbose: bool,
    /// Whether to print live progress updates to stderr.
    pub progress: bool,
    /// Number of worker threads used for directory file transfers.
    pub jobs: usize,
}

impl ExecutionSettings {
    /// The default settings, given the worker count to use by default
    /// (the machine's available parallelism).
    pub fn defaults(jobs: usize) -> (s: ExecutionSettings)
        ensures
            s.hash_buffer_size == DEFAULT_HASH_BUFFER_SIZE,
            s.copy_buffer_size == DEFAULT_COPY_BUFFER_SIZE,
            s.max_retries is None,
            s.retry_delay_ms == 0,
            !s.verbose,
            !s.progress,
            s.jobs == jobs,
    {
        ExecutionSettings {
            hash_buffer_size: DEFAULT_HASH_BUFFER_SIZE,
            copy_buffer_size: DEFAULT_COPY_BUFFER_SIZE,
            max_retries: None,
            retry_delay_ms: 0,
            verbose: false,
            progress: false,
            jobs,
        }
    }
}

/// A single directory that belongs to a recursive transfer.
#[derive(Debug)]
pub struct DirectoryTransfer {
    /// Source directory path.
    pub source: FsPath,
    /// Final destination path for the directory.
    pub destination: FsPath,
    /// Metadata captured from the source directory before transfer.
    pub metadata: MetadataSnapshot,
}

/// A single file that must be copied and verified.
#[derive(Debug)]
pub struct FileTransfer {
    /// Source file to copy.
    pub source: FsPath,
    /// Destination file path.
    pub destination: FsPath,
    /// Logical size of the source file in bytes.
    pub size_bytes: u64,
    /// Metadata captured from the source file before transfer.
    pub metadata: MetadataSnapshot,
}

/// Fully resolved work plan derived from command-line arguments.
#[derive(Debug)]
pub struct TransferPlan {
    /// Whether the user requested a copy or a move.
    pub operation: Operation,
    /// Root path provided as the source.
    pub source_root: FsPath,
    /// Final root destination after cp/mv-style path resolution.
    pub destination_root: FsPath,
    /// Every directory that must exist at the destination.
    pub directories: Vec<DirectoryTransfer>,
    /// Every file that must be copied and verified.
    pub files: Vec<FileTransfer>,
}

/// Sum of the sizes of `files`.
pub open spec fn total_size(files: Seq<FileTransfer>) -> nat
    decreases files.len(),
{
    if files.len() == 0 {
        0
    } else {
        total_size(files.drop_last()) + files.last().size_bytes as nat
    }
}

impl TransferPlan {
    /// Returns `true` when the source is a directory transfer.
    pub fn is_directory_transfer(&self) -> (r: bool)
        ensures
            r == (self.directories@.len() > 0),
    {
        self.directories.len() > 0
    }

    /// Sum the logical payload size of every file in the plan, saturating at `u64::MAX`.
    pub fn total_bytes(&self) -> (total: u64)
        ensures
            total == if total_size(self.files@) > u64::MAX { u64::MAX as nat } else { total_size(self.files@) },
    {
        let mut total: u64 = 0;
        let mut i: usize = 0;
        while i < self.files.len()
            invariant
                i <= self.files.len(),
                total == if total_size(self.files@.take(i as int)) > u64::MAX {
                    u64::MAX as nat
                } else {
                    total_size(self.files@.take(i as int))
                },
            decreases self.files.len() - i,
        {
            assert(self.files@.take(i + 1).drop_last() =~= self.files@.take(i as int));
            total = total.saturating_add(self.files[i].size_bytes);
            i = i + 1;
        }
        assert(self.files@.take(self.files.len() as int) =~= self.files@);
        total
    }
}

/// Aggregate transfer statistics returned after a successful run.
#[derive(Debug)]
pub struct RunSummary {
    /// Number of directories involved in the plan.
    pub directories: usize,
    /// Number of files that were copied and verified.
    pub files: usize,
    /// Total logical payload bytes completed.
    pub bytes_copied: u64,
    /// Number of files that were resumed from a matching destination prefix.
    pub resumed_files: usize,
    /// Number of bytes that were reused from resumable destination files.
    pub resumed_bytes: u64,
    /// Total number of retry attempts across every file.
    pub retries: usize,
    /// Total wall-clock runtime.
    pub elapsed: std::time::Duration,
}

} // verus!
