use archive_extract::error::{
    check_status, generate_message, ARCHIVE_EOF, ARCHIVE_FAILED, ARCHIVE_FATAL, ARCHIVE_OK,
    ARCHIVE_RETRY, ARCHIVE_WARN,
};
use archive_extract::{LibArchiveError, LibArchiveInternalStatus};

#[test]
fn status_codes_have_the_codec_values() {
    assert_eq!(ARCHIVE_OK, 0);
    assert_eq!(ARCHIVE_EOF, 1);
    assert_eq!(ARCHIVE_RETRY, -10);
    assert_eq!(ARCHIVE_WARN, -20);
    assert_eq!(ARCHIVE_FAILED, -25);
    assert_eq!(ARCHIVE_FATAL, -30);
}

#[test]
fn every_known_code_has_its_class() {
    assert_eq!(LibArchiveInternalStatus::from(0), LibArchiveInternalStatus::ArchiveOk);
    assert_eq!(LibArchiveInternalStatus::from(1), LibArchiveInternalStatus::ArchiveEof);
    assert_eq!(LibArchiveInternalStatus::from(-10), LibArchiveInternalStatus::ArchiveRetry);
    assert_eq!(LibArchiveInternalStatus::from(-20), LibArchiveInternalStatus::ArchiveWarn);
    assert_eq!(LibArchiveInternalStatus::from(-25), LibArchiveInternalStatus::ArchiveFailed);
    assert_eq!(LibArchiveInternalStatus::from(-30), LibArchiveInternalStatus::ArchiveFatal);
}

#[test]
fn unrecognised_codes_are_unknown() {
    for code in [2, -1, -19, -21, 7, i32::MAX, i32::MIN, -31, 10, 25, 30] {
        assert_eq!(LibArchiveInternalStatus::from(code), LibArchiveInternalStatus::Unknown);
    }
}

#[test]
fn class_code_round_trips_for_known_classes() {
    for code in [0, 1, -10, -20, -25, -30] {
        assert_eq!(LibArchiveInternalStatus::from(code).code(), code);
    }
    assert_eq!(LibArchiveInternalStatus::Unknown.code(), -19);
}

#[test]
fn status_texts() {
    assert_eq!(generate_message(&LibArchiveInternalStatus::ArchiveOk), "Ok");
    assert_eq!(generate_message(&LibArchiveInternalStatus::ArchiveFailed), "Failed");
    assert_eq!(generate_message(&LibArchiveInternalStatus::ArchiveFatal), "Fatal");
    assert_eq!(generate_message(&LibArchiveInternalStatus::ArchiveEof), "Eof");
    assert_eq!(generate_message(&LibArchiveInternalStatus::ArchiveWarn), "Warn");
    assert_eq!(generate_message(&LibArchiveInternalStatus::ArchiveRetry), "Retry");
    assert_eq!(generate_message(&LibArchiveInternalStatus::Unknown), "Unknown");
}

#[test]
fn status_line_ends_with_a_line_break() {
    assert_eq!(LibArchiveInternalStatus::ArchiveFatal.to_string(), "Fatal\n");
    assert_eq!(LibArchiveInternalStatus::Unknown.to_string(), "Unknown\n");
}

#[test]
fn check_status_accepts_only_zero() {
    assert_eq!(check_status(0), Ok(()));
    assert_eq!(
        check_status(-30),
        Err(LibArchiveError::LibArchiveInternalError(LibArchiveInternalStatus::ArchiveFatal, -30))
    );
    assert_eq!(
        check_status(1),
        Err(LibArchiveError::LibArchiveInternalError(LibArchiveInternalStatus::ArchiveEof, 1))
    );
    assert_eq!(
        check_status(-20),
        Err(LibArchiveError::LibArchiveInternalError(LibArchiveInternalStatus::ArchiveWarn, -20))
    );
    assert_eq!(
        check_status(42),
        Err(LibArchiveError::LibArchiveInternalError(LibArchiveInternalStatus::Unknown, 42))
    );
}

#[test]
fn internal_failure_carries_code_and_class() {
    assert_eq!(
        LibArchiveError::internal(-25),
        LibArchiveError::LibArchiveInternalError(LibArchiveInternalStatus::ArchiveFailed, -25)
    );
    assert_eq!(
        LibArchiveError::internal(-7),
        LibArchiveError::LibArchiveInternalError(LibArchiveInternalStatus::Unknown, -7)
    );
}

#[test]
fn failure_texts() {
    let cases = [
        (LibArchiveError::Null, "Null"),
        (LibArchiveError::FailedFreeArchive, "Failed free to archive"),
        (LibArchiveError::FailedGeneratePath, "Failed generate path"),
        (LibArchiveError::FailedCloseReadArchive, "Failed close to read archive"),
        (LibArchiveError::FailedFreeReadArchive, "Failed free to read archive"),
        (LibArchiveError::FailedCreateArchiveEntry, "Failed create archive entry"),
        (LibArchiveError::FailedCreateArchive, "Failed create archive"),
        (LibArchiveError::FailedCreateDirectory, "Failed create directory"),
        (LibArchiveError::FailedCreateFile, "Failed create file"),
        (LibArchiveError::FailedWriteFile, "Failed write file"),
        (LibArchiveError::FailedFlushWhenWrite, "Failed flush when write"),
        (LibArchiveError::FailedGetPathNameFromEntry, "Failed get pathname from entry"),
        (LibArchiveError::EntrySizeLessThanOne, "Entry size less than one"),
        (LibArchiveError::NulError, "NulError from ffi"),
        (LibArchiveError::FailedGetMetaDataFromFile, "Failed get metadata from file"),
        (LibArchiveError::FailedGetMetaDataFromDir, "Failed get metadata from dir"),
        (LibArchiveError::FailedWriteHeader, "Failed write header"),
        (LibArchiveError::IsNotFile, "is not file"),
        (LibArchiveError::IsNotDir, "is not dir"),
        (LibArchiveError::IsNotExists, "is not exists"),
        (LibArchiveError::FailedUncompress, "Failed uncompress"),
    ];
    for (failure, text) in cases {
        assert_eq!(failure.to_string(), text);
    }
}

#[test]
fn internal_failure_text_names_the_class() {
    assert_eq!(
        LibArchiveError::internal(-30).to_string(),
        "libarchive internal error: Fatal\n"
    );
    assert_eq!(
        LibArchiveError::internal(3).to_string(),
        "libarchive internal error: Unknown\n"
    );
}
