//! Error values of the library.

use vstd::prelude::*;

use crate::model::FsPath;

verus! {

/// The classes of operating-system I/O failure that the library's decisions
/// tell apart.
#[derive(Debug, Clone, Copy, PartialEq, Eq, Structural)]
pub enum IoErrorKind {
    /// The path does not exist.
    NotFound,
    /// A read ended before the expected number of bytes.
    UnexpectedEof,
    /// Any other failure.
    Other,
}

/// Errors that can occur while planning or executing a transfer.
#[derive(Debug)]
pub enum ScamError {
    /// Any ordinary filesystem I/O failure.
    Io {
        /// What the code was trying to do.
        action: String,
        /// Which path triggered the error.
        path: FsPath,
        /// The class of the operating-system error.
        kind: IoErrorKind,
        /// The operating-system error, as text.
        detail: String,
    },
    /// Recursive directory traversal failed.
    Walk {
        /// Path associated with the walk failure (empty when none is available).
        path: FsPath,
        /// The traversal error, as text.
        detail: String,
    },
    /// A path does not have a usable file name.
    MissingFileName(FsPath),
    /// Symbolic links are rejected instead of being followed.
    UnsupportedSymlink(FsPath),
    /// Only regular files and directories are supported.
    UnsupportedSourceType(FsPath),
    /// Copying a directory into an existing file is never meaningful.
    DirectoryIntoFile(FsPath),
    /// A file transfer resolved to a path that is a directory.
    DestinationIsDirectory(FsPath),
    /// The source and destination resolve to the same location.
    SamePath(FsPath),
    /// Recursive operations may not place the destination inside the source.
    DestinationInsideSource {
        /// Source directory root.
        source_path: FsPath,
        /// Conflicting destination path.
        destination_path: FsPath,
    },
    /// The bounded retry count was exhausted.
    RetryLimitExceeded {
        /// Source file that never verified successfully.
        path: FsPath,
        /// How many attempts were made.
        attempts: usize,
    },
    /// The source changed while a move was in progress.
    SourceChanged(FsPath),
    /// Parallel worker-pool initialization failed.
    ParallelSetup {
        /// The pool's error, as text.
        detail: String,
    },
    /// Starting a background helper thread failed.
    ThreadSpawn {
        /// Human-friendly name of the failed thread.
        task: String,
        /// The operating-system error, as text.
        detail: String,
    },
    /// A background helper thread panicked unexpectedly.
    BackgroundTaskPanicked(String),
}

impl ScamError {
    /// Helper constructor for I/O failures.
    pub fn io(action: String, path: FsPath, kind: IoErrorKind, detail: String) -> (e: ScamError)
        ensures
            e == (ScamError::Io { action, path, kind, detail }),
    {
        ScamError::Io { action, path, kind, detail }
    }

    /// Helper constructor for directory-walk failures.
    pub fn walk(path: FsPath, detail: String) -> (e: ScamError)
        ensures
            e == (ScamError::Walk { path, detail }),
    {
        ScamError::Walk { path, detail }
    }

    /// Helper constructor for worker-pool setup failures.
    pub fn parallel_setup(detail: String) -> (e: ScamError)
        ensures
            e == (ScamError::ParallelSetup { detail }),
    {
        ScamError::ParallelSetup { detail }
    }

    /// Helper constructor for helper-thread startup failures.
    pub fn thread_spawn(task: String, detail: String) -> (e: ScamError)
        ensures
            e == (ScamError::ThreadSpawn { task, detail }),
    {
        ScamError::ThreadSpawn { task, detail }
    }

    /// Helper constructor for unexpected background thread panics.
    pub fn background_task_panicked(task: String) -> (e: ScamError)
        ensures
            e == ScamError::BackgroundTaskPanicked(task),
    {
        ScamError::BackgroundTaskPanicked(task)
    }

    /// Whether this is an I/O error whose cause is a missing path.
    pub fn is_not_found(&self) -> (r: bool)
        ensures
            r == (self matches ScamError::Io { kind, .. } && kind == IoErrorKind::NotFound),
    {
        match self {
            ScamError::Io { kind: IoErrorKind::NotFound, .. } => true,
            _ => false,
        }
    }
}

} // verus!
