//! Aggregate progress accounting.
//!
//! Progress is aggregate rather than per file so that it stays readable when
//! many files are copied in parallel. Each file's share is tracked by a
//! [`FileProgress`] so that a failed attempt can take back the bytes it counted.
//! Counters wrap around on overflow, as the program's atomic counters do.

use vstd::prelude::*;

verus! {

/// `p` moved by `delta`, modulo 2^64.
pub open spec fn shifted(p: u64, delta: int) -> u64 {
    ((p as int + delta) % 0x1_0000_0000_0000_0000int) as u64
}

/// `n` plus one, modulo the range of `usize`.
pub open spec fn bumped(n: usize) -> usize {
    if n == usize::MAX { 0 } else { (n + 1) as usize }
}

/// Shared progress state of a whole run.
#[derive(Debug)]
pub struct ProgressReporter {
    pub total_bytes: u64,
    pub total_files: usize,
    pub position_bytes: u64,
    pub completed_files: usize,
    pub retries: usize,
    pub stopped: bool,
    pub success: bool,
}

/// The counters at one moment.
#[derive(Debug, Clone, Copy, PartialEq, Eq, Structural)]
pub struct ProgressSnapshot {
    pub position_bytes: u64,
    pub completed_files: usize,
    pub retries: usize,
}

/// Per-file progress bookkeeping that can be rolled back if a retry is needed.
#[derive(Debug)]
pub struct FileProgress {
    pub file_size: u64,
    pub accounted_bytes: u64,
    pub completed: bool,
}

impl ProgressReporter {
    /// A reporter for a run of `total_files` files totalling `total_bytes`.
    pub fn new(total_bytes: u64, total_files: usize) -> (r: ProgressReporter)
        ensures
            r == (ProgressReporter {
                total_bytes,
                total_files,
                position_bytes: 0,
                completed_files: 0,
                retries: 0,
                stopped: false,
                success: false,
            }),
    {
        ProgressReporter {
            total_bytes,
            total_files,
            position_bytes: 0,
            completed_files: 0,
            retries: 0,
            stopped: false,
            success: false,
        }
    }

    /// Start tracking progress for one file.
    pub fn begin_file(&self, file_size: u64) -> (f: FileProgress)
        ensures
            f == (FileProgress { file_size, accounted_bytes: 0, completed: false }),
    {
        FileProgress { file_size, accounted_bytes: 0, completed: false }
    }

    /// Count one retry.
    pub fn note_retry(&mut self)
        ensures
            *final(self) == (ProgressReporter { retries: bumped(old(self).retries), ..*old(self) }),
    {
        self.retries = self.retries.wrapping_add(1);
    }

    fn add_bytes(&mut self, bytes: u64)
        ensures
            *final(self) == (ProgressReporter {
                position_bytes: shifted(old(self).position_bytes, bytes as int),
                ..*old(self)
            }),
    {
        if bytes != 0 {
            self.position_bytes = self.position_bytes.wrapping_add(bytes);
        }
    }

    fn remove_bytes(&mut self, bytes: u64)
        ensures
            *final(self) == (ProgressReporter {
                position_bytes: shifted(old(self).position_bytes, -(bytes as int)),
                ..*old(self)
            }),
    {
        if bytes != 0 {
            self.position_bytes = self.position_bytes.wrapping_sub(bytes);
        }
    }

    fn complete_file(&mut self)
        ensures
            *final(self) == (ProgressReporter {
                completed_files: bumped(old(self).completed_files),
                ..*old(self)
            }),
    {
        self.completed_files = self.completed_files.wrapping_add(1);
    }

    /// Record that the run succeeded.
    pub fn mark_success(&mut self)
        ensures
            *final(self) == (ProgressReporter { success: true, ..*old(self) }),
    {
        self.success = true;
    }

    /// Ask the display to stop.
    pub fn stop(&mut self)
        ensures
            *final(self) == (ProgressReporter { stopped: true, ..*old(self) }),
    {
        self.stopped = true;
    }

    /// Whether the display was asked to stop.
    pub fn is_stopped(&self) -> (r: bool)
        ensures
            r == self.stopped,
    {
        self.stopped
    }

    /// Whether the run was recorded as successful.
    pub fn succeeded(&self) -> (r: bool)
        ensures
            r == self.success,
    {
        self.success
    }

    /// The current counters.
    pub fn snapshot(&self) -> (s: ProgressSnapshot)
        ensures
            s == (ProgressSnapshot {
                position_bytes: self.position_bytes,
                completed_files: self.completed_files,
                retries: self.retries,
            }),
    {
        ProgressSnapshot {
            position_bytes: self.position_bytes,
            completed_files: self.completed_files,
            retries: self.retries,
        }
    }
}

impl FileProgress {
    /// Mark bytes that can be reused from an already matching destination prefix.
    pub fn account_resume(&mut self, reporter: &mut ProgressReporter, bytes: u64)
        requires
            old(self).accounted_bytes + bytes <= u64::MAX,
        ensures
            final(self).accounted_bytes == old(self).accounted_bytes + bytes,
            final(self).file_size == old(self).file_size,
            final(self).completed == old(self).completed,
            *final(reporter) == (ProgressReporter {
                position_bytes: shifted(old(reporter).position_bytes, bytes as int),
                ..*old(reporter)
            }),
    {
        reporter.add_bytes(bytes);
        self.accounted_bytes = self.accounted_bytes + bytes;
    }

    /// Mark newly copied bytes.
    pub fn account_copy(&mut self, reporter: &mut ProgressReporter, bytes: u64)
        requires
            old(self).accounted_bytes + bytes <= u64::MAX,
        ensures
            final(self).accounted_bytes == old(self).accounted_bytes + bytes,
            final(self).file_size == old(self).file_size,
            final(self).completed == old(self).completed,
            *final(reporter) == (ProgressReporter {
                position_bytes: shifted(old(reporter).position_bytes, bytes as int),
                ..*old(reporter)
            }),
    {
        reporter.add_bytes(bytes);
        self.accounted_bytes = self.accounted_bytes + bytes;
    }

    /// Take back the bytes of the failed attempt before another attempt.
    pub fn reset_attempt(&mut self, reporter: &mut ProgressReporter)
        ensures
            final(self).accounted_bytes == 0,
            final(self).file_size == old(self).file_size,
            final(self).completed == old(self).completed,
            *final(reporter) == (ProgressReporter {
                position_bytes: shifted(
                    old(reporter).position_bytes,
                    -(old(self).accounted_bytes as int),
                ),
                ..*old(reporter)
            }),
    {
        reporter.remove_bytes(self.accounted_bytes);
        self.accounted_bytes = 0;
    }

    /// Mark the file as fully completed: its share becomes its whole size
    /// (unless more was counted) and it counts as one completed file, once.
    pub fn complete(&mut self, reporter: &mut ProgressReporter)
        ensures
            old(self).completed ==> *final(self) == *old(self) && *final(reporter) == *old(
                reporter,
            ),
            !old(self).completed ==> {
                let topped_up = old(self).accounted_bytes < old(self).file_size;
                &&& final(self).completed
                &&& final(self).file_size == old(self).file_size
                &&& final(self).accounted_bytes == if topped_up {
                    old(self).file_size
                } else {
                    old(self).accounted_bytes
                }
                &&& *final(reporter) == (ProgressReporter {
                    position_bytes: if topped_up {
                        shifted(
                            old(reporter).position_bytes,
                            old(self).file_size - old(self).accounted_bytes,
                        )
                    } else {
                        old(reporter).position_bytes
                    },
                    completed_files: bumped(old(reporter).completed_files),
                    ..*old(reporter)
                })
            },
    {
        if self.completed {
            return;
        }
        if self.accounted_bytes < self.file_size {
            reporter.add_bytes(self.file_size - self.accounted_bytes);
            self.accounted_bytes = self.file_size;
        }
        self.completed = true;
        reporter.complete_file();
    }

    /// Give up on the file: an unfinished file takes its counted bytes back.
    pub fn abandon(self, reporter: &mut ProgressReporter)
        ensures
            self.completed ==> *final(reporter) == *old(reporter),
            !self.completed ==> *final(reporter) == (ProgressReporter {
                position_bytes: shifted(
                    old(reporter).position_bytes,
                    -(self.accounted_bytes as int),
                ),
                ..*old(reporter)
            }),
    {
        if !self.completed {
            reporter.remove_bytes(self.accounted_bytes);
        }
    }
}

/// Whether a run shows live progress: only when it was asked for and there
/// is at least one file to transfer.
pub fn progress_enabled(requested: bool, total_files: usize) -> (r: bool)
    ensures
        r == (requested && total_files > 0),
{
    requested && total_files > 0
}

/// What the live display does after one of its periodic wake-ups.
#[derive(Debug, Clone, Copy, PartialEq, Eq, Structural)]
pub struct RenderTick {
    /// The counters to print, when they changed since the last printed line.
    pub print: Option<ProgressSnapshot>,
    /// The counters last printed after this wake-up.
    pub last: ProgressSnapshot,
    /// Whether the display stops now.
    pub stop: bool,
}

/// The display's decision after waking up with `current` counters, having
/// last printed `last`, the run having asked it to stop or not.
pub fn render_tick(last: ProgressSnapshot, current: ProgressSnapshot, stopped: bool) -> (t:
    RenderTick)
    ensures
        t.print == if current != last {
            Some(current)
        } else {
            None::<ProgressSnapshot>
        },
        t.last == current,
        t.stop == stopped,
{
    if current != last {
        RenderTick { print: Some(current), last: current, stop: stopped }
    } else {
        RenderTick { print: None, last, stop: stopped }
    }
}

/// The closing line of the display: the final counters of a successful run,
/// unless they were already the last line printed.
pub fn closing_line(last: ProgressSnapshot, current: ProgressSnapshot, succeeded: bool) -> (r:
    Option<ProgressSnapshot>)
    ensures
        r == if succeeded && current != last {
            Some(current)
        } else {
            None::<ProgressSnapshot>
        },
{
    if succeeded && current != last {
        Some(current)
    } else {
        None
    }
}

/// Pick the singular or plural form of a word for `count`.
pub fn pluralize<'a>(count: usize, singular: &'a str, plural: &'a str) -> (r: &'a str)
    ensures
        r == if count == 1 { singular } else { plural },
{
    if count == 1 {
        singular
    } else {
        plural
    }
}

/// Counting bytes and then taking them back leaves the position where it was:
/// `reset_attempt` undoes every `account_resume` and `account_copy` of the attempt.
pub proof fn law_reset_undoes_accounting(position: u64, accounted: nat)
    ensures
        shifted(shifted(position, accounted as int), -(accounted as int)) == position,
{
}

/// Counting bytes in two steps is counting their sum at once.
pub proof fn law_accounting_adds_up(position: u64, first: nat, second: nat)
    ensures
        shifted(shifted(position, first as int), second as int) == shifted(
            position,
            (first + second) as int,
        ),
{
}

/// A completed file contributes exactly its size when no more than its size
/// was counted; an abandoned, unfinished file contributes nothing.
pub proof fn law_completed_file_contributes_its_size(base: u64, accounted: nat, size: nat)
    requires
        accounted < size,
    ensures
        shifted(shifted(base, accounted as int), size - accounted as int) == shifted(base, size as int),
        shifted(shifted(base, accounted as int), -(accounted as int)) == base,
{
}

} // verus!
