//! The records an extraction reports: one per entry that was processed.

use crate::error::LibArchiveError;
use vstd::prelude::*;

verus! {

/// What happened to one entry: its name, its declared size, and whether it
/// was extracted.
#[derive(Debug, PartialEq, Eq)]
pub struct FileInfo {
    pub file_name: String,
    pub size: usize,
    pub is_success: bool,
    pub error: Option<LibArchiveError>,
}

/// The mathematical value of a [`FileInfo`].
pub struct FileInfoView {
    pub file_name: Seq<char>,
    pub size: usize,
    pub is_success: bool,
    pub error: Option<LibArchiveError>,
}

impl View for FileInfo {
    type V = FileInfoView;

    open spec fn view(&self) -> FileInfoView {
        FileInfoView {
            file_name: self.file_name@,
            size: self.size,
            is_success: self.is_success,
            error: self.error,
        }
    }
}

impl FileInfoView {
    /// The record of an entry that was extracted.
    pub open spec fn success(file_name: Seq<char>, size: usize) -> FileInfoView {
        FileInfoView { file_name, size, is_success: true, error: None }
    }

    /// The record of an entry that was not extracted: no size, and the cause.
    pub open spec fn failure(file_name: Seq<char>, cause: LibArchiveError) -> FileInfoView {
        FileInfoView { file_name, size: 0, is_success: false, error: Some(cause) }
    }

    /// A record is tagged as a success exactly when it carries no cause, and
    /// a failed record reports no size.
    pub open spec fn well_formed(self) -> bool {
        &&& self.is_success <==> self.error is None
        &&& !self.is_success ==> self.size == 0
    }
}

impl FileInfo {
    /// The record of an entry that was extracted.
    pub fn success(file_name: String, size: usize) -> (info: FileInfo)
        ensures
            info@ == FileInfoView::success(file_name@, size),
            info@.well_formed(),
    {
        FileInfo { file_name, size, is_success: true, error: None }
    }

    /// The record of an entry that was not extracted.
    pub fn failure(file_name: String, cause: LibArchiveError) -> (info: FileInfo)
        ensures
            info@ == FileInfoView::failure(file_name@, cause),
            info@.well_formed(),
    {
        FileInfo { file_name, size: 0, is_success: false, error: Some(cause) }
    }
}

/// One entry of an extraction to memory: the record, and the bytes.
#[derive(Debug, PartialEq, Eq)]
pub struct DecompressedData {
    pub value: Vec<u8>,
    pub file_info: FileInfo,
}

/// The mathematical value of a [`DecompressedData`].
pub struct DecompressedDataView {
    pub value: Seq<u8>,
    pub file_info: FileInfoView,
}

impl View for DecompressedData {
    type V = DecompressedDataView;

    open spec fn view(&self) -> DecompressedDataView {
        DecompressedDataView { value: self.value@, file_info: self.file_info@ }
    }
}

impl DecompressedDataView {
    /// An extracted entry with its bytes.
    pub open spec fn success(file_name: Seq<char>, size: usize, value: Seq<u8>) -> DecompressedDataView {
        DecompressedDataView { value, file_info: FileInfoView::success(file_name, size) }
    }

    /// An entry that was not extracted: the cause, and no bytes.
    pub open spec fn failure(file_name: Seq<char>, cause: LibArchiveError) -> DecompressedDataView {
        DecompressedDataView { value: Seq::empty(), file_info: FileInfoView::failure(file_name, cause) }
    }

    /// The record is well formed, and a failed entry holds no bytes.
    pub open spec fn well_formed(self) -> bool {
        &&& self.file_info.well_formed()
        &&& !self.file_info.is_success ==> self.value.len() == 0
    }
}

impl DecompressedData {
    /// An extracted entry with its bytes.
    pub fn success(file_name: String, size: usize, value: Vec<u8>) -> (data: DecompressedData)
        ensures
            data@ == DecompressedDataView::success(file_name@, size, value@),
            data@.well_formed(),
    {
        DecompressedData { value, file_info: FileInfo::success(file_name, size) }
    }

    /// An entry that was not extracted.
    pub fn failure(file_name: String, cause: LibArchiveError) -> (data: DecompressedData)
        ensures
            data@ == DecompressedDataView::failure(file_name@, cause),
            data@.well_formed(),
    {
        DecompressedData { value: Vec::new(), file_info: FileInfo::failure(file_name, cause) }
    }
}

/// The values of a list of records, in order.
pub open spec fn file_infos_view(records: Seq<FileInfo>) -> Seq<FileInfoView> {
    records.map_values(|r: FileInfo| r@)
}

/// The values of a list of extracted entries, in order.
pub open spec fn decompressed_view(records: Seq<DecompressedData>) -> Seq<DecompressedDataView> {
    records.map_values(|r: DecompressedData| r@)
}

/// The declared size as a count: a size below one counts as nothing, and a
/// size beyond what the machine can address is capped at the largest count.
pub open spec fn declared_count(size: i64) -> usize {
    if size < 1 {
        0
    } else if size > usize::MAX {
        usize::MAX
    } else {
        size as usize
    }
}

/// Converts a declared size to a count.
pub fn declared_size_to_count(size: i64) -> (count: usize)
    ensures
        count == declared_count(size),
{
    if size < 1 {
        0
    } else if size as u64 > usize::MAX as u64 {
        usize::MAX
    } else {
        size as usize
    }
}

} // verus!
