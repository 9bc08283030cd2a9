//! Metadata captured from a source item and the decisions taken when it is
//! restored onto the destination.

use vstd::prelude::*;

verus! {

/// A point in time as seconds and nanoseconds relative to the Unix epoch.
#[derive(Debug, Clone, Copy, PartialEq, Eq, Structural)]
pub struct FileTimestamp {
    pub seconds: i64,
    pub nanos: u32,
}

/// Permission information: the read-only bit, and the Unix mode bits where
/// the platform has them.
#[derive(Debug, Clone, Copy, PartialEq, Eq, Structural)]
pub struct PermissionBits {
    pub readonly: bool,
    pub mode: Option<u32>,
}

/// Snapshot of source metadata that can be restored onto a destination path.
#[derive(Debug, Clone, Copy, PartialEq, Eq, Structural)]
pub struct MetadataSnapshot {
    /// Permission information of the source.
    pub permissions: PermissionBits,
    /// Access timestamp when the platform exposes it.
    pub accessed: Option<FileTimestamp>,
    /// Modification timestamp when the platform exposes it.
    pub modified: Option<FileTimestamp>,
}

/// Which timestamps are written back onto the destination.
#[derive(Debug, Clone, Copy, PartialEq, Eq, Structural)]
pub enum TimestampUpdate {
    /// Set both access and modification time.
    Both { accessed: FileTimestamp, modified: FileTimestamp },
    /// Set only the access time.
    AccessedOnly(FileTimestamp),
    /// Set only the modification time.
    ModifiedOnly(FileTimestamp),
    /// Nothing to set.
    Nothing,
}

impl MetadataSnapshot {
    /// The timestamps to restore: each one the platform exposed on the source.
    pub fn timestamp_update(&self) -> (u: TimestampUpdate)
        ensures
            u == match (self.accessed, self.modified) {
                (Some(a), Some(m)) => TimestampUpdate::Both { accessed: a, modified: m },
                (Some(a), None) => TimestampUpdate::AccessedOnly(a),
                (None, Some(m)) => TimestampUpdate::ModifiedOnly(m),
                (None, None) => TimestampUpdate::Nothing,
            },
    {
        match (self.accessed, self.modified) {
            (Some(a), Some(m)) => TimestampUpdate::Both { accessed: a, modified: m },
            (Some(a), None) => TimestampUpdate::AccessedOnly(a),
            (None, Some(m)) => TimestampUpdate::ModifiedOnly(m),
            (None, None) => TimestampUpdate::Nothing,
        }
    }
}

/// Unix mode `mode` with the owner's write bit set.
pub fn with_owner_write(mode: u32) -> (r: u32)
    ensures
        r == mode | 0o200,
        r & 0o200 == 0o200,
        r & !0o200u32 == mode & !0o200u32,
{
    let r = mode | 0o200;
    assert(r & 0o200 == 0o200 && r & !0o200u32 == mode & !0o200u32) by (bit_vector)
        requires
            r == mode | 0o200,
    ;
    r
}

/// The permissions to set so that a read-only destination can have its
/// timestamps written: the owner's write bit where there are Unix modes, else
/// the read-only bit cleared. `None` when the destination is not read-only.
pub fn temporarily_writable(current: PermissionBits) -> (r: Option<PermissionBits>)
    ensures
        !current.readonly ==> r is None,
        current.readonly ==> r == Some(
            PermissionBits {
                readonly: false,
                mode: match current.mode {
                    Some(m) => Some(m | 0o200),
                    None => None,
                },
            },
        ),
{
    if !current.readonly {
        return None;
    }
    let mode = match current.mode {
        Some(m) => Some(with_owner_write(m)),
        None => None,
    };
    Some(PermissionBits { readonly: false, mode })
}

} // verus!
