//! What passes between the extraction and the driver that runs it: the
//! driver performs an [`Action`] on the codec or the file system and hands
//! back what it observed as an [`Event`].

use crate::error::{LibArchiveError, LibArchiveResult};
use vstd::prelude::*;

verus! {

/// What was found at the path of the container.
#[derive(Debug, Clone, Copy, PartialEq, Eq, Structural)]
pub enum SourceProbe {
    /// Nothing is there.
    Missing,
    /// Something is there, but its metadata cannot be read.
    Unreadable,
    /// It is something other than a regular file.
    NotFile,
    /// It is a regular file of `len` bytes.
    File { len: u64 },
}

/// What was found at the path of the target directory.
#[derive(Debug, Clone, Copy, PartialEq, Eq, Structural)]
pub enum TargetProbe {
    /// Nothing is there.
    Missing,
    /// Something is there, and it is not a directory.
    NotDir,
    /// A directory is there.
    Dir,
}

/// Preserve the permission bits of what is written.
pub const ARCHIVE_EXTRACT_PERM: i32 = 0x0002;

/// Preserve the modification time of what is written.
pub const ARCHIVE_EXTRACT_TIME: i32 = 0x0004;

/// Preserve access control lists.
pub const ARCHIVE_EXTRACT_ACL: i32 = 0x0020;

/// Preserve file system flags.
pub const ARCHIVE_EXTRACT_FFLAGS: i32 = 0x0040;

/// The attributes that are preserved when the caller names none: time,
/// permissions, access control lists and file system flags.
pub const DEFAULT_EXTRACT_FLAGS: i32 = 0x0066;

/// The mask the sink is configured with: the caller's, or the default.
pub open spec fn spec_resolve_flags(flags: Option<i32>) -> i32 {
    match flags {
        Some(v) => v,
        None => DEFAULT_EXTRACT_FLAGS,
    }
}

/// The mask the sink is configured with.
pub fn resolve_flags(flags: Option<i32>) -> (mask: i32)
    ensures
        mask == spec_resolve_flags(flags),
        flags is None ==> mask == ARCHIVE_EXTRACT_TIME | ARCHIVE_EXTRACT_PERM | ARCHIVE_EXTRACT_ACL
            | ARCHIVE_EXTRACT_FFLAGS,
{
    assert(0x0004i32 | 0x0002i32 | 0x0020i32 | 0x0040i32 == 0x0066i32) by (bit_vector);
    match flags {
        Some(v) => v,
        None => DEFAULT_EXTRACT_FLAGS,
    }
}

/// The size of a container as a block size for the codec, capped at the
/// largest count the machine can address.
pub open spec fn block_size_of(len: u64) -> usize {
    if len > usize::MAX {
        usize::MAX
    } else {
        len as usize
    }
}

/// Converts the size of a container to a block size.
pub fn block_size(len: u64) -> (size: usize)
    ensures
        size == block_size_of(len),
{
    if len > usize::MAX as u64 {
        usize::MAX
    } else {
        len as usize
    }
}

/// Whether a container found like this can be read into memory: only a
/// regular file can. Its length is the result.
pub open spec fn spec_source_for_memory(probe: SourceProbe) -> LibArchiveResult<u64> {
    match probe {
        SourceProbe::Missing => Err(LibArchiveError::FailedGetMetaDataFromFile),
        SourceProbe::Unreadable => Err(LibArchiveError::FailedGetMetaDataFromFile),
        SourceProbe::NotFile => Err(LibArchiveError::IsNotFile),
        SourceProbe::File { len } => Ok(len),
    }
}

/// Whether a container found like this can be extracted to a directory.
pub open spec fn spec_source_for_dir(probe: SourceProbe) -> LibArchiveResult<u64> {
    match probe {
        SourceProbe::Missing => Err(LibArchiveError::IsNotExists),
        SourceProbe::Unreadable => Err(LibArchiveError::FailedGetMetaDataFromFile),
        SourceProbe::NotFile => Err(LibArchiveError::IsNotFile),
        SourceProbe::File { len } => Ok(len),
    }
}

/// Validates the container for an extraction to memory.
pub fn source_for_memory(probe: SourceProbe) -> (res: LibArchiveResult<u64>)
    ensures
        res == spec_source_for_memory(probe),
{
    match probe {
        SourceProbe::Missing => Err(LibArchiveError::FailedGetMetaDataFromFile),
        SourceProbe::Unreadable => Err(LibArchiveError::FailedGetMetaDataFromFile),
        SourceProbe::NotFile => Err(LibArchiveError::IsNotFile),
        SourceProbe::File { len } => Ok(len),
    }
}

/// Validates the container for an extraction to a directory.
pub fn source_for_dir(probe: SourceProbe) -> (res: LibArchiveResult<u64>)
    ensures
        res == spec_source_for_dir(probe),
{
    match probe {
        SourceProbe::Missing => Err(LibArchiveError::IsNotExists),
        SourceProbe::Unreadable => Err(LibArchiveError::FailedGetMetaDataFromFile),
        SourceProbe::NotFile => Err(LibArchiveError::IsNotFile),
        SourceProbe::File { len } => Ok(len),
    }
}

/// What the driver observed when it performed an action.
#[derive(Debug, PartialEq, Eq)]
pub enum Event {
    /// The container's path was looked at.
    Source(SourceProbe),
    /// The target directory's path was looked at.
    Target(TargetProbe),
    /// The target directory was asked for: whether it could be created, and
    /// whether a directory is there now.
    TargetCreated { created: bool, is_dir: bool },
    /// A codec handle was asked for: whether one was given.
    Handle { allocated: bool },
    /// A codec call returned this status.
    Status(i32),
    /// The reader was advanced: the status, and the name and declared size
    /// of the entry it now stands on.
    Header { status: i32, pathname: Option<Vec<u8>>, size: i64 },
    /// A data block was pulled: the status, the bytes, and their offset in
    /// the entry.
    Block { status: i32, data: Vec<u8>, offset: i64 },
}

/// The mathematical value of an [`Event`].
pub enum EventView {
    Source(SourceProbe),
    Target(TargetProbe),
    TargetCreated { created: bool, is_dir: bool },
    Handle { allocated: bool },
    Status(i32),
    Header { status: i32, pathname: Option<Seq<u8>>, size: i64 },
    Block { status: i32, data: Seq<u8>, offset: i64 },
}

impl View for Event {
    type V = EventView;

    open spec fn view(&self) -> EventView {
        match *self {
            Event::Source(probe) => EventView::Source(probe),
            Event::Target(probe) => EventView::Target(probe),
            Event::TargetCreated { created, is_dir } => EventView::TargetCreated { created, is_dir },
            Event::Handle { allocated } => EventView::Handle { allocated },
            Event::Status(code) => EventView::Status(code),
            Event::Header { status, pathname, size } => EventView::Header {
                status,
                pathname: match pathname {
                    Some(bytes) => Some(bytes@),
                    None => None,
                },
                size,
            },
            Event::Block { status, data, offset } => EventView::Block { status, data: data@, offset },
        }
    }
}

/// What the driver is to do next.
#[derive(Debug, PartialEq, Eq)]
pub enum Action {
    /// Look at the container's path.
    ProbeSource,
    /// Look at the target directory's path.
    ProbeTarget,
    /// Create the target directory.
    CreateTarget,
    /// Allocate the read session.
    CreateReader,
    /// Register every decompression filter with the read session.
    EnableFilters,
    /// Register every container format with the read session.
    EnableFormats,
    /// Open the container at the NUL-terminated `path`.
    OpenReader { path: Vec<u8>, block_size: usize },
    /// Allocate the write-to-disk session.
    CreateSink,
    /// Give the sink its attribute mask and the standard owner lookup.
    ConfigureSink { flags: i32 },
    /// Advance the read session to the next entry.
    NextHeader,
    /// Pull the next data block of the current entry.
    ReadBlock,
    /// Set the NUL-terminated `path` on the current entry and write its
    /// header to the sink.
    WriteHeader { path: Vec<u8> },
    /// Write these bytes to the sink at this offset of the current entry.
    WriteBlock { data: Vec<u8>, offset: i64 },
    /// Finish the current entry on the sink.
    FinishEntry,
    /// Close the sink.
    CloseSink,
    /// Free the sink.
    FreeSink,
    /// Close the read session.
    CloseReader,
    /// Free the read session.
    FreeReader,
    /// Nothing is left to do: the result can be taken.
    Finish,
    /// The event answered no pending action; nothing has changed.
    Unexpected,
}

/// The mathematical value of an [`Action`].
pub enum ActionView {
    ProbeSource,
    ProbeTarget,
    CreateTarget,
    CreateReader,
    EnableFilters,
    EnableFormats,
    OpenReader { path: Seq<u8>, block_size: usize },
    CreateSink,
    ConfigureSink { flags: i32 },
    NextHeader,
    ReadBlock,
    WriteHeader { path: Seq<u8> },
    WriteBlock { data: Seq<u8>, offset: i64 },
    FinishEntry,
    CloseSink,
    FreeSink,
    CloseReader,
    FreeReader,
    Finish,
    Unexpected,
}

impl View for Action {
    type V = ActionView;

    open spec fn view(&self) -> ActionView {
        match *self {
            Action::ProbeSource => ActionView::ProbeSource,
            Action::ProbeTarget => ActionView::ProbeTarget,
            Action::CreateTarget => ActionView::CreateTarget,
            Action::CreateReader => ActionView::CreateReader,
            Action::EnableFilters => ActionView::EnableFilters,
            Action::EnableFormats => ActionView::EnableFormats,
            Action::OpenReader { path, block_size } => ActionView::OpenReader { path: path@, block_size },
            Action::CreateSink => ActionView::CreateSink,
            Action::ConfigureSink { flags } => ActionView::ConfigureSink { flags },
            Action::NextHeader => ActionView::NextHeader,
            Action::ReadBlock => ActionView::ReadBlock,
            Action::WriteHeader { path } => ActionView::WriteHeader { path: path@ },
            Action::WriteBlock { data, offset } => ActionView::WriteBlock { data: data@, offset },
            Action::FinishEntry => ActionView::FinishEntry,
            Action::CloseSink => ActionView::CloseSink,
            Action::FreeSink => ActionView::FreeSink,
            Action::CloseReader => ActionView::CloseReader,
            Action::FreeReader => ActionView::FreeReader,
            Action::Finish => ActionView::Finish,
            Action::Unexpected => ActionView::Unexpected,
        }
    }
}

} // verus!
