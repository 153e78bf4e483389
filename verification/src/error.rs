//! Codec status classification and the failure taxonomy of an extraction.

use vstd::prelude::*;
use vstd::std_specs::convert::FromSpecImpl;
use vstd::string::StringExecFns;

verus! {

/// Status the codec returns when an operation succeeded.
pub const ARCHIVE_OK: i32 = 0;

/// Status the codec returns at the end of the archive, or of an entry's data.
pub const ARCHIVE_EOF: i32 = 1;

/// Status the codec returns when a retry might succeed.
pub const ARCHIVE_RETRY: i32 = -10;

/// Status the codec returns for a partial success.
pub const ARCHIVE_WARN: i32 = -20;

/// Status the codec returns when the current operation cannot complete.
pub const ARCHIVE_FAILED: i32 = -25;

/// Status the codec returns when no more operations are possible.
pub const ARCHIVE_FATAL: i32 = -30;

/// Coarse classification of a codec status code.
#[derive(Debug, Clone, Copy, PartialEq, Eq, Structural)]
pub enum LibArchiveInternalStatus {
    ArchiveOk,
    ArchiveFailed,
    ArchiveEof,
    ArchiveFatal,
    ArchiveRetry,
    ArchiveWarn,
    Unknown,
}

/// The classification of a numeric status code: each of the six codes the
/// codec defines has its own class, every other number is `Unknown`.
pub open spec fn classify(code: int) -> LibArchiveInternalStatus {
    if code == 0 {
        LibArchiveInternalStatus::ArchiveOk
    } else if code == 1 {
        LibArchiveInternalStatus::ArchiveEof
    } else if code == -10 {
        LibArchiveInternalStatus::ArchiveRetry
    } else if code == -20 {
        LibArchiveInternalStatus::ArchiveWarn
    } else if code == -25 {
        LibArchiveInternalStatus::ArchiveFailed
    } else if code == -30 {
        LibArchiveInternalStatus::ArchiveFatal
    } else {
        LibArchiveInternalStatus::Unknown
    }
}

impl From<i32> for LibArchiveInternalStatus {
    fn from(v: i32) -> (status: Self) {
        if v == ARCHIVE_OK {
            LibArchiveInternalStatus::ArchiveOk
        } else if v == ARCHIVE_EOF {
            LibArchiveInternalStatus::ArchiveEof
        } else if v == ARCHIVE_WARN {
            LibArchiveInternalStatus::ArchiveWarn
        } else if v == ARCHIVE_FATAL {
            LibArchiveInternalStatus::ArchiveFatal
        } else if v == ARCHIVE_RETRY {
            LibArchiveInternalStatus::ArchiveRetry
        } else if v == ARCHIVE_FAILED {
            LibArchiveInternalStatus::ArchiveFailed
        } else {
            LibArchiveInternalStatus::Unknown
        }
    }
}

impl FromSpecImpl<i32> for LibArchiveInternalStatus {
    open spec fn obeys_from_spec() -> bool {
        true
    }

    open spec fn from_spec(v: i32) -> Self {
        classify(v as int)
    }
}

/// The text shown for a status class.
pub open spec fn status_text(status: LibArchiveInternalStatus) -> Seq<char> {
    match status {
        LibArchiveInternalStatus::ArchiveOk => "Ok"@,
        LibArchiveInternalStatus::ArchiveFailed => "Failed"@,
        LibArchiveInternalStatus::ArchiveFatal => "Fatal"@,
        LibArchiveInternalStatus::ArchiveEof => "Eof"@,
        LibArchiveInternalStatus::ArchiveWarn => "Warn"@,
        LibArchiveInternalStatus::ArchiveRetry => "Retry"@,
        LibArchiveInternalStatus::Unknown => "Unknown"@,
    }
}

/// Builds the text shown for a status class.
pub fn generate_message(status: &LibArchiveInternalStatus) -> (msg: String)
    ensures
        msg@ == status_text(*status),
{
    match status {
        LibArchiveInternalStatus::ArchiveOk => "Ok".to_owned(),
        LibArchiveInternalStatus::ArchiveFailed => "Failed".to_owned(),
        LibArchiveInternalStatus::ArchiveFatal => "Fatal".to_owned(),
        LibArchiveInternalStatus::ArchiveEof => "Eof".to_owned(),
        LibArchiveInternalStatus::ArchiveWarn => "Warn".to_owned(),
        LibArchiveInternalStatus::ArchiveRetry => "Retry".to_owned(),
        LibArchiveInternalStatus::Unknown => "Unknown".to_owned(),
    }
}

impl LibArchiveInternalStatus {
    /// The numeric code that stands for this class: the codec's own code for
    /// the six classes it defines, and -19 for `Unknown`.
    pub open spec fn spec_code(self) -> int {
        match self {
            LibArchiveInternalStatus::ArchiveOk => 0,
            LibArchiveInternalStatus::ArchiveFailed => -25,
            LibArchiveInternalStatus::ArchiveEof => 1,
            LibArchiveInternalStatus::ArchiveFatal => -30,
            LibArchiveInternalStatus::ArchiveRetry => -10,
            LibArchiveInternalStatus::ArchiveWarn => -20,
            LibArchiveInternalStatus::Unknown => -19,
        }
    }

    /// The numeric code that stands for this class.
    pub fn code(&self) -> (code: i32)
        ensures
            code == self.spec_code(),
    {
        match self {
            LibArchiveInternalStatus::ArchiveOk => ARCHIVE_OK,
            LibArchiveInternalStatus::ArchiveFailed => ARCHIVE_FAILED,
            LibArchiveInternalStatus::ArchiveEof => ARCHIVE_EOF,
            LibArchiveInternalStatus::ArchiveFatal => ARCHIVE_FATAL,
            LibArchiveInternalStatus::ArchiveRetry => ARCHIVE_RETRY,
            LibArchiveInternalStatus::ArchiveWarn => ARCHIVE_WARN,
            LibArchiveInternalStatus::Unknown => ARCHIVE_WARN + 1,
        }
    }

    /// The status line as it is displayed: the class text and a line break.
    pub open spec fn spec_to_string(self) -> Seq<char> {
        status_text(self) + "\n"@
    }

    /// The status line as it is displayed.
    pub fn to_string(&self) -> (line: String)
        ensures
            line@ == self.spec_to_string(),
    {
        generate_message(self).concat("\n")
    }
}

/// Every way an extraction, or one entry of it, can fail.
#[derive(Debug, Clone, Copy, PartialEq, Eq, Structural)]
pub enum LibArchiveError {
    Null,
    FailedFreeArchive,
    FailedGeneratePath,
    FailedCloseReadArchive,
    FailedFreeReadArchive,
    FailedCreateArchiveEntry,
    FailedCreateArchive,
    FailedCreateDirectory,
    FailedCreateFile,
    FailedWriteFile,
    FailedFlushWhenWrite,
    FailedGetPathNameFromEntry,
    EntrySizeLessThanOne,
    NulError,
    FailedGetMetaDataFromFile,
    FailedGetMetaDataFromDir,
    FailedWriteHeader,
    IsNotFile,
    IsNotDir,
    IsNotExists,
    FailedUncompress,
    /// The codec answered with a status that is not a success: the class of
    /// the status and the number itself.
    LibArchiveInternalError(LibArchiveInternalStatus, i32),
}

pub type LibArchiveResult<T> = Result<T, LibArchiveError>;

impl LibArchiveError {
    /// The failure that stands for a codec status: the number, with its class.
    pub open spec fn spec_internal(code: i32) -> LibArchiveError {
        LibArchiveError::LibArchiveInternalError(classify(code as int), code)
    }

    /// Wraps a codec status as a failure.
    pub fn internal(code: i32) -> (err: LibArchiveError)
        ensures
            err == Self::spec_internal(code),
    {
        LibArchiveError::LibArchiveInternalError(LibArchiveInternalStatus::from(code), code)
    }

    /// The text shown for a failure.
    pub open spec fn spec_to_string(self) -> Seq<char> {
        match self {
            LibArchiveError::Null => "Null"@,
            LibArchiveError::FailedFreeArchive => "Failed free to archive"@,
            LibArchiveError::FailedGeneratePath => "Failed generate path"@,
            LibArchiveError::FailedCloseReadArchive => "Failed close to read archive"@,
            LibArchiveError::FailedFreeReadArchive => "Failed free to read archive"@,
            LibArchiveError::FailedCreateArchiveEntry => "Failed create archive entry"@,
            LibArchiveError::FailedCreateArchive => "Failed create archive"@,
            LibArchiveError::FailedCreateDirectory => "Failed create directory"@,
            LibArchiveError::FailedCreateFile => "Failed create file"@,
            LibArchiveError::FailedWriteFile => "Failed write file"@,
            LibArchiveError::FailedFlushWhenWrite => "Failed flush when write"@,
            LibArchiveError::FailedGetPathNameFromEntry => "Failed get pathname from entry"@,
            LibArchiveError::EntrySizeLessThanOne => "Entry size less than one"@,
            LibArchiveError::NulError => "NulError from ffi"@,
            LibArchiveError::FailedGetMetaDataFromFile => "Failed get metadata from file"@,
            LibArchiveError::FailedGetMetaDataFromDir => "Failed get metadata from dir"@,
            LibArchiveError::FailedWriteHeader => "Failed write header"@,
            LibArchiveError::IsNotFile => "is not file"@,
            LibArchiveError::IsNotDir => "is not dir"@,
            LibArchiveError::IsNotExists => "is not exists"@,
            LibArchiveError::FailedUncompress => "Failed uncompress"@,
            LibArchiveError::LibArchiveInternalError(status, _) => "libarchive internal error: "@
                + status.spec_to_string(),
        }
    }

    /// Builds the text shown for a failure.
    pub fn to_string(&self) -> (msg: String)
        ensures
            msg@ == self.spec_to_string(),
    {
        match self {
            LibArchiveError::Null => "Null".to_owned(),
            LibArchiveError::FailedFreeArchive => "Failed free to archive".to_owned(),
            LibArchiveError::FailedGeneratePath => "Failed generate path".to_owned(),
            LibArchiveError::FailedCloseReadArchive => "Failed close to read archive".to_owned(),
            LibArchiveError::FailedFreeReadArchive => "Failed free to read archive".to_owned(),
            LibArchiveError::FailedCreateArchiveEntry => "Failed create archive entry".to_owned(),
            LibArchiveError::FailedCreateArchive => "Failed create archive".to_owned(),
            LibArchiveError::FailedCreateDirectory => "Failed create directory".to_owned(),
            LibArchiveError::FailedCreateFile => "Failed create file".to_owned(),
            LibArchiveError::FailedWriteFile => "Failed write file".to_owned(),
            LibArchiveError::FailedFlushWhenWrite => "Failed flush when write".to_owned(),
            LibArchiveError::FailedGetPathNameFromEntry => "Failed get pathname from entry".to_owned(),
            LibArchiveError::EntrySizeLessThanOne => "Entry size less than one".to_owned(),
            LibArchiveError::NulError => "NulError from ffi".to_owned(),
            LibArchiveError::FailedGetMetaDataFromFile => "Failed get metadata from file".to_owned(),
            LibArchiveError::FailedGetMetaDataFromDir => "Failed get metadata from dir".to_owned(),
            LibArchiveError::FailedWriteHeader => "Failed write header".to_owned(),
            LibArchiveError::IsNotFile => "is not file".to_owned(),
            LibArchiveError::IsNotDir => "is not dir".to_owned(),
            LibArchiveError::IsNotExists => "is not exists".to_owned(),
            LibArchiveError::FailedUncompress => "Failed uncompress".to_owned(),
            LibArchiveError::LibArchiveInternalError(status, _) => {
                let line = status.to_string();
                "libarchive internal error: ".to_owned().concat(line.as_str())
            },
        }
    }
}

/// Turns a codec status into success or failure: zero is success, every other
/// number is an internal failure that carries it.
pub fn check_status(code: i32) -> (res: LibArchiveResult<()>)
    ensures
        code == 0 ==> res is Ok,
        code != 0 ==> res == Err::<(), LibArchiveError>(LibArchiveError::spec_internal(code)),
{
    if code != ARCHIVE_OK {
        Err(LibArchiveError::internal(code))
    } else {
        Ok(())
    }
}

} // verus!
