//! The entry point: an [`Archive`] begins extractions.

use crate::disk::{DirExtraction, DirModel};
use crate::error::{LibArchiveError, LibArchiveResult};
use crate::memory::{MemoryExtraction, MemoryModel};
use crate::path::{convert_c_char_to_string, decoded_text};
use vstd::prelude::*;
use vstd::string::StringSliceAdditionalSpecFns;

verus! {

/// The extractor. It holds nothing: every extraction it begins is a value
/// of its own.
#[derive(Debug, Clone, Copy, PartialEq, Eq, Structural)]
pub struct Archive;

/// What an extractor offers.
pub trait ArchiveExt: Sized {
    /// An extractor, if the codec could allocate a read session when it was
    /// asked to.
    fn new(allocated: bool) -> (archive: LibArchiveResult<Self>)
        ensures
            allocated <==> archive is Ok,
            !allocated ==> archive == Err::<Self, LibArchiveError>(
                LibArchiveError::FailedCreateArchive,
            ),
    ;

    /// Begins the extraction of the container at `file_path` into memory.
    fn extract_to_memory(&self, file_path: &str) -> (extraction: MemoryExtraction)
        ensures
            extraction@ == MemoryModel::initial(file_path.spec_bytes()),
    ;

    /// The text of the codec's last error message, from its bytes.
    fn get_error_string(message: Option<&[u8]>) -> (text: Option<String>)
        ensures
            (match text {
                Some(s) => Some(s@),
                None => None,
            }) == decoded_text(
                match message {
                    Some(bytes) => Some(bytes@),
                    None => None,
                },
            ),
    ;

    /// Begins the extraction of the container at `file_path` into the
    /// directory at `target_dir_path`. Without `flags` the sink preserves
    /// time, permissions, access control lists and file system flags.
    fn extract_to_dir(&self, file_path: &str, target_dir_path: &str, flags: Option<i32>) -> (extraction:
        DirExtraction)
        ensures
            extraction@ == DirModel::initial(
                file_path.spec_bytes(),
                target_dir_path.spec_bytes(),
                flags,
            ),
    ;
}

impl ArchiveExt for Archive {
    fn new(allocated: bool) -> (archive: LibArchiveResult<Archive>) {
        if allocated {
            Ok(Archive)
        } else {
            Err(LibArchiveError::FailedCreateArchive)
        }
    }

    fn extract_to_memory(&self, file_path: &str) -> (extraction: MemoryExtraction) {
        MemoryExtraction::new(file_path)
    }

    fn get_error_string(message: Option<&[u8]>) -> (text: Option<String>) {
        convert_c_char_to_string(message)
    }

    fn extract_to_dir(&self, file_path: &str, target_dir_path: &str, flags: Option<i32>) -> (extraction:
        DirExtraction) {
        DirExtraction::new(file_path, target_dir_path, flags)
    }
}

} // verus!
