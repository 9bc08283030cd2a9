//! Transfer planning and cp/mv-style path resolution.
//!
//! The program inspects the filesystem; these functions decide what the
//! inspection means: where the destination really is, which combinations are
//! refused, and which walk entries become directory and file transfers.

use vstd::prelude::*;

use crate::error::ScamError;
use crate::metadata::MetadataSnapshot;
use crate::model::{DirectoryTransfer, FileTransfer, FsPath, Operation, TransferPlan};

verus! {

/// What a path holds, inspected without following symbolic links.
#[derive(Debug, Clone, Copy, PartialEq, Eq, Structural)]
pub enum PathProbe {
    /// Nothing exists there.
    Missing,
    /// A symbolic link.
    Symlink,
    /// A directory.
    Directory,
    /// A regular file.
    File,
    /// Anything else (device, socket, pipe, ...).
    Other,
}

/// What kind of transfer the source asks for.
#[derive(Debug, Clone, Copy, PartialEq, Eq, Structural)]
pub enum SourceKind {
    File,
    Directory,
}

/// Decide what kind of transfer the existing `source` (inspected as `probe`;
/// a source that cannot be inspected is an I/O error before this) asks for:
/// symbolic links and anything but files and directories are refused.
pub fn classify_source(probe: PathProbe, source: &FsPath) -> (r: Result<SourceKind, ScamError>)
    requires
        probe != PathProbe::Missing,
    ensures
        probe == PathProbe::File ==> r == Ok::<SourceKind, ScamError>(SourceKind::File),
        probe == PathProbe::Directory ==> r == Ok::<SourceKind, ScamError>(SourceKind::Directory),
        probe == PathProbe::Symlink ==> (r matches Err(ScamError::UnsupportedSymlink(p)) && p@
            == source@),
        probe == PathProbe::Other ==> (r matches Err(ScamError::UnsupportedSourceType(p)) && p@
            == source@),
{
    match probe {
        PathProbe::File => Ok(SourceKind::File),
        PathProbe::Directory => Ok(SourceKind::Directory),
        PathProbe::Symlink => Err(ScamError::UnsupportedSymlink(source.clone())),
        _ => Err(ScamError::UnsupportedSourceType(source.clone())),
    }
}

/// The file name of `source` (its last component), or the error for a path without one.
pub fn file_name(source: &FsPath, name: Option<Vec<u8>>) -> (r: Result<Vec<u8>, ScamError>)
    ensures
        name matches Some(n) ==> r == Ok::<Vec<u8>, ScamError>(n),
        name is None ==> (r matches Err(ScamError::MissingFileName(p)) && p@ == source@),
{
    match name {
        Some(n) => Ok(n),
        None => Err(ScamError::MissingFileName(source.clone())),
    }
}

/// Where a file is copied to: into an existing directory under the source's
/// file name (`source_name`), otherwise exactly to `destination`.
pub fn resolve_file_destination(
    source: &FsPath,
    source_name: Option<Vec<u8>>,
    destination: &FsPath,
    probe: PathProbe,
) -> (r: Result<FsPath, ScamError>)
    ensures
        probe == PathProbe::Symlink ==> (r matches Err(ScamError::UnsupportedSymlink(p)) && p@
            == destination@),
        probe == PathProbe::Directory ==> match source_name {
            Some(n) => (r matches Ok(p) && p@ == destination@.push(n@)),
            None => (r matches Err(ScamError::MissingFileName(p)) && p@ == source@),
        },
        (probe == PathProbe::Missing || probe == PathProbe::File || probe == PathProbe::Other)
            ==> (r matches Ok(p) && p@ == destination@),
{
    match probe {
        PathProbe::Symlink => Err(ScamError::UnsupportedSymlink(destination.clone())),
        PathProbe::Directory => {
            let name = file_name(source, source_name)?;
            Ok(destination.child(&name))
        },
        _ => Ok(destination.clone()),
    }
}

/// Where a directory is copied to: into an existing directory under the
/// source's name, to `destination` when nothing exists there, never onto a file.
pub fn resolve_directory_destination(
    source: &FsPath,
    source_name: Option<Vec<u8>>,
    destination: &FsPath,
    probe: PathProbe,
) -> (r: Result<FsPath, ScamError>)
    ensures
        probe == PathProbe::Symlink ==> (r matches Err(ScamError::UnsupportedSymlink(p)) && p@
            == destination@),
        probe == PathProbe::Directory ==> match source_name {
            Some(n) => (r matches Ok(p) && p@ == destination@.push(n@)),
            None => (r matches Err(ScamError::MissingFileName(p)) && p@ == source@),
        },
        probe == PathProbe::Missing ==> (r matches Ok(p) && p@ == destination@),
        (probe == PathProbe::File || probe == PathProbe::Other) ==> (r matches Err(
            ScamError::DirectoryIntoFile(p),
        ) && p@ == destination@),
{
    match probe {
        PathProbe::Symlink => Err(ScamError::UnsupportedSymlink(destination.clone())),
        PathProbe::Directory => {
            let name = file_name(source, source_name)?;
            Ok(destination.child(&name))
        },
        PathProbe::Missing => Ok(destination.clone()),
        _ => Err(ScamError::DirectoryIntoFile(destination.clone())),
    }
}

/// The next check when refusing to copy a path onto itself.
#[derive(Debug, Clone, Copy, PartialEq, Eq, Structural)]
pub enum SamePathCheck {
    /// Ask the filesystem whether source and destination are the same file.
    CompareIdentity,
    /// They are the same file: refuse with the destination's absolute path.
    RejectAsSame,
    /// Compare the absolute paths.
    CompareAbsolutePaths,
}

/// First check for a resolved destination inspected as `probe`: an existing
/// destination is compared by identity, a symbolic link is refused.
pub fn same_path_check(probe: PathProbe, destination: &FsPath) -> (r: Result<SamePathCheck, ScamError>)
    ensures
        probe == PathProbe::Missing ==> r == Ok::<SamePathCheck, ScamError>(
            SamePathCheck::CompareAbsolutePaths,
        ),
        probe == PathProbe::Symlink ==> (r matches Err(ScamError::UnsupportedSymlink(p)) && p@
            == destination@),
        (probe == PathProbe::Directory || probe == PathProbe::File || probe == PathProbe::Other)
            ==> r == Ok::<SamePathCheck, ScamError>(SamePathCheck::CompareIdentity),
{
    match probe {
        PathProbe::Missing => Ok(SamePathCheck::CompareAbsolutePaths),
        PathProbe::Symlink => Err(ScamError::UnsupportedSymlink(destination.clone())),
        _ => Ok(SamePathCheck::CompareIdentity),
    }
}

/// The check after the identity comparison.
pub fn after_identity(same_file: bool) -> (r: SamePathCheck)
    ensures
        r == if same_file { SamePathCheck::RejectAsSame } else { SamePathCheck::CompareAbsolutePaths },
{
    if same_file {
        SamePathCheck::RejectAsSame
    } else {
        SamePathCheck::CompareAbsolutePaths
    }
}

/// The refusal of a destination that is the source file itself, named by the
/// destination's absolute path.
pub fn same_file_error(resolved_destination: FsPath) -> (e: ScamError)
    ensures
        e matches ScamError::SamePath(p) && p@ == resolved_destination@,
{
    ScamError::SamePath(resolved_destination)
}

/// Whether a destination directory may be created at `destination`, which was
/// inspected as `probe` (an uninspectable path counts as missing): a symbolic
/// link there is refused.
pub fn directory_creation_check(probe: PathProbe, destination: &FsPath) -> (r: Result<
    (),
    ScamError,
>)
    ensures
        probe == PathProbe::Symlink ==> (r matches Err(ScamError::UnsupportedSymlink(p)) && p@
            == destination@),
        probe != PathProbe::Symlink ==> r is Ok,
{
    if probe == PathProbe::Symlink {
        Err(ScamError::UnsupportedSymlink(destination.clone()))
    } else {
        Ok(())
    }
}

/// Refuse source and destination whose absolute paths are equal.
pub fn reject_equal_paths(absolute_source: &FsPath, absolute_destination: &FsPath) -> (r: Result<
    (),
    ScamError,
>)
    ensures
        r is Ok <==> absolute_source@ != absolute_destination@,
        r matches Err(e) ==> (e matches ScamError::SamePath(p) && p@ == absolute_source@),
{
    if absolute_source.same_as(absolute_destination) {
        Err(ScamError::SamePath(absolute_source.clone()))
    } else {
        Ok(())
    }
}

/// Refuse a recursive transfer whose destination lies inside the source tree
/// (comparing whole path components).
pub fn reject_destination_inside_source(
    absolute_source: &FsPath,
    absolute_destination: &FsPath,
) -> (r: Result<(), ScamError>)
    ensures
        r is Ok <==> !absolute_source@.is_prefix_of(absolute_destination@),
        r matches Err(e) ==> (e matches ScamError::DestinationInsideSource {
            source_path,
            destination_path,
        } && source_path@ == absolute_source@ && destination_path@ == absolute_destination@),
{
    if absolute_destination.starts_with(absolute_source) {
        Err(
            ScamError::DestinationInsideSource {
                source_path: absolute_source.clone(),
                destination_path: absolute_destination.clone(),
            },
        )
    } else {
        Ok(())
    }
}

/// What a directory walk yields for one entry (links are not followed).
#[derive(Debug, Clone, Copy, PartialEq, Eq, Structural)]
pub enum EntryKind {
    Directory,
    File,
    Symlink,
    Other,
}

/// Size and metadata of a walk entry.
#[derive(Debug)]
pub struct EntryMetadata {
    pub size_bytes: u64,
    pub snapshot: MetadataSnapshot,
}

/// One entry of the walk over the source tree.
#[derive(Debug)]
pub struct WalkEntry {
    pub kind: EntryKind,
    /// The entry's path.
    pub source: FsPath,
    /// The entry's path relative to the source root (empty for the root itself).
    pub relative: FsPath,
    /// The entry's metadata, or the error reading it.
    pub metadata: Result<EntryMetadata, ScamError>,
}

impl TransferPlan {
    /// Whether every planned destination lies inside the destination root.
    pub open spec fn destinations_inside_root(&self) -> bool {
        &&& forall|j: int|
            0 <= j < self.directories@.len() ==> self.destination_root@.is_prefix_of(
                #[trigger] self.directories@[j].destination@,
            )
        &&& forall|j: int|
            0 <= j < self.files@.len() ==> self.destination_root@.is_prefix_of(
                #[trigger] self.files@[j].destination@,
            )
    }

    /// The plan for one file copied from `source_root` to `destination_root`.
    pub fn for_file(
        operation: Operation,
        source_root: FsPath,
        destination_root: FsPath,
        size_bytes: u64,
        metadata: MetadataSnapshot,
    ) -> (plan: TransferPlan)
        ensures
            plan.operation == operation,
            plan.source_root@ == source_root@,
            plan.destination_root@ == destination_root@,
            plan.directories@.len() == 0,
            plan.files@.len() == 1,
            plan.files@[0].source@ == source_root@,
            plan.files@[0].destination@ == destination_root@,
            plan.files@[0].size_bytes == size_bytes,
            plan.files@[0].metadata == metadata,
            plan.destinations_inside_root(),
    {
        let file = FileTransfer {
            source: source_root.clone(),
            destination: destination_root.clone(),
            size_bytes,
            metadata,
        };
        let mut files: Vec<FileTransfer> = Vec::new();
        files.push(file);
        let plan = TransferPlan {
            operation,
            source_root,
            destination_root,
            directories: Vec::new(),
            files,
        };
        assert(plan.destination_root@.is_prefix_of(plan.files@[0].destination@));
        plan
    }

    /// An empty plan for copying the directory `source_root` to `destination_root`;
    /// the walk's entries are added with `add_walk_entry`.
    pub fn for_directory(operation: Operation, source_root: FsPath, destination_root: FsPath) -> (plan:
        TransferPlan)
        ensures
            plan.operation == operation,
            plan.source_root == source_root,
            plan.destination_root == destination_root,
            plan.directories@.len() == 0,
            plan.files@.len() == 0,
            plan.destinations_inside_root(),
    {
        TransferPlan {
            operation,
            source_root,
            destination_root,
            directories: Vec::new(),
            files: Vec::new(),
        }
    }

    /// Add one walk entry: a directory or file is planned at the same relative
    /// place under the destination root; symbolic links and other kinds refuse
    /// the whole plan.
    pub fn add_walk_entry(&mut self, entry: WalkEntry) -> (r: Result<(), ScamError>)
        requires
            old(self).destinations_inside_root(),
        ensures
            final(self).operation == old(self).operation,
            final(self).source_root == old(self).source_root,
            final(self).destination_root == old(self).destination_root,
            final(self).destinations_inside_root(),
            r is Err ==> final(self).directories@ == old(self).directories@ && final(self).files@
                == old(self).files@,
            entry.kind == EntryKind::Symlink ==> (r matches Err(ScamError::UnsupportedSymlink(p))
                && p@ == entry.source@),
            entry.kind != EntryKind::Symlink ==> match entry.metadata {
                Err(e) => r == Err::<(), ScamError>(e),
                Ok(m) => match entry.kind {
                    EntryKind::Directory => {
                        &&& r is Ok
                        &&& final(self).files@ == old(self).files@
                        &&& final(self).directories@.len() == old(self).directories@.len() + 1
                        &&& final(self).directories@.drop_last() == old(self).directories@
                        &&& final(self).directories@.last().source@ == entry.source@
                        &&& final(self).directories@.last().destination@
                            == old(self).destination_root@ + entry.relative@
                        &&& final(self).directories@.last().metadata == m.snapshot
                    },
                    EntryKind::File => {
                        &&& r is Ok
                        &&& final(self).directories@ == old(self).directories@
                        &&& final(self).files@.len() == old(self).files@.len() + 1
                        &&& final(self).files@.drop_last() == old(self).files@
                        &&& final(self).files@.last().source@ == entry.source@
                        &&& final(self).files@.last().destination@
                            == old(self).destination_root@ + entry.relative@
                        &&& final(self).files@.last().size_bytes == m.size_bytes
                        &&& final(self).files@.last().metadata == m.snapshot
                    },
                    _ => (r matches Err(ScamError::UnsupportedSourceType(p)) && p@ == entry.source@),
                },
            },
    {
        let WalkEntry { kind, source, relative, metadata } = entry;
        if kind == EntryKind::Symlink {
            return Err(ScamError::UnsupportedSymlink(source));
        }
        let m = match metadata {
            Ok(m) => m,
            Err(e) => return Err(e),
        };
        let destination = self.destination_root.join(&relative);
        assert(self.destination_root@.is_prefix_of(destination@));
        match kind {
            EntryKind::Directory => {
                self.directories.push(
                    DirectoryTransfer { source, destination, metadata: m.snapshot },
                );
                assert(self.directories@.drop_last() =~= old(self).directories@);
                Ok(())
            },
            EntryKind::File => {
                self.files.push(
                    FileTransfer {
                        source,
                        destination,
                        size_bytes: m.size_bytes,
                        metadata: m.snapshot,
                    },
                );
                assert(self.files@.drop_last() =~= old(self).files@);
                Ok(())
            },
            _ => Err(ScamError::UnsupportedSourceType(source)),
        }
    }
}

} // verus!
