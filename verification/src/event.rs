//! Filesystem events as the pipeline reads them: a kind and the paths
//! concerned. The kinds mirror the classification of the `notify` crate,
//! variant for variant, so that a caller can hand over what the watcher
//! reported without loss.
use vstd::prelude::*;

verus! {

/// How a file was opened or closed.
#[derive(Clone, Copy, Debug, PartialEq, Eq, Hash, Structural)]
pub enum AccessMode {
    Any,
    Execute,
    Read,
    Write,
    Other,
}

/// An access to a file that changed nothing.
#[derive(Clone, Copy, Debug, PartialEq, Eq, Hash, Structural)]
pub enum AccessKind {
    Any,
    Read,
    Open(AccessMode),
    Close(AccessMode),
    Other,
}

/// What was created.
#[derive(Clone, Copy, Debug, PartialEq, Eq, Hash, Structural)]
pub enum CreateKind {
    Any,
    File,
    Folder,
    Other,
}

/// Which part of a file's content changed.
#[derive(Clone, Copy, Debug, PartialEq, Eq, Hash, Structural)]
pub enum DataChange {
    Any,
    Size,
    Content,
    Other,
}

/// Which part of a file's metadata changed.
#[derive(Clone, Copy, Debug, PartialEq, Eq, Hash, Structural)]
pub enum MetadataKind {
    Any,
    AccessTime,
    WriteTime,
    Permissions,
    Ownership,
    Extended,
    Other,
}

/// Which end of a rename an event speaks of.
#[derive(Clone, Copy, Debug, PartialEq, Eq, Hash, Structural)]
pub enum RenameMode {
    Any,
    To,
    From,
    Both,
    Other,
}

/// What was modified.
#[derive(Clone, Copy, Debug, PartialEq, Eq, Hash, Structural)]
pub enum ModifyKind {
    Any,
    Data(DataChange),
    Metadata(MetadataKind),
    Name(RenameMode),
    Other,
}

/// What was removed.
#[derive(Clone, Copy, Debug, PartialEq, Eq, Hash, Structural)]
pub enum RemoveKind {
    Any,
    File,
    Folder,
    Other,
}

/// The kind of a filesystem event. Platforms differ in how exactly they
/// classify: a file's creation may come as `Create(File)` or as
/// `Create(Any)`.
#[derive(Clone, Copy, Debug, PartialEq, Eq, Hash, Structural)]
pub enum EventKind {
    Any,
    Access(AccessKind),
    Create(CreateKind),
    Modify(ModifyKind),
    Remove(RemoveKind),
    Other,
}

/// One event of a debounced batch: what happened, and to which paths.
#[derive(Debug)]
pub struct DebouncedEvent {
    pub kind: EventKind,
    pub paths: Vec<String>,
}

impl DebouncedEvent {
    /// An event of the given kind that concerns no path yet.
    pub fn new(kind: EventKind) -> (event: DebouncedEvent)
        ensures
            event.kind == kind,
            event.paths@.len() == 0,
    {
        DebouncedEvent { kind, paths: Vec::new() }
    }

    /// The same event with one more path at the end.
    pub fn add_path(self, path: String) -> (event: DebouncedEvent)
        ensures
            event.kind == self.kind,
            event.paths@ == self.paths@.push(path),
    {
        let mut event = self;
        event.paths.push(path);
        event
    }
}

} // verus!
