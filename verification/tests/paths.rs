use archive_extract::path::{
    append_bytes, convert_c_char_to_string, get_pathname_from_entry, join_destination,
    nul_terminated, SEPARATOR,
};
use archive_extract::protocol::{
    block_size, resolve_flags, source_for_dir, source_for_memory, SourceProbe,
    ARCHIVE_EXTRACT_ACL, ARCHIVE_EXTRACT_FFLAGS, ARCHIVE_EXTRACT_PERM, ARCHIVE_EXTRACT_TIME,
    DEFAULT_EXTRACT_FLAGS,
};
use archive_extract::report::{declared_size_to_count, DecompressedData, FileInfo};
use archive_extract::{Archive, ArchiveExt, LibArchiveError};

#[test]
fn absent_bytes_have_no_text() {
    assert_eq!(convert_c_char_to_string(None), None);
}

#[test]
fn utf8_bytes_decode_to_their_text() {
    assert_eq!(convert_c_char_to_string(Some(b"hello.txt")), Some("hello.txt".to_string()));
    assert_eq!(
        convert_c_char_to_string(Some("dir/\u{00e9}t\u{00e9}.txt".as_bytes())),
        Some("dir/\u{00e9}t\u{00e9}.txt".to_string())
    );
    assert_eq!(convert_c_char_to_string(Some(b"")), Some(String::new()));
}

#[test]
fn bytes_that_are_not_utf8_have_no_text() {
    assert_eq!(convert_c_char_to_string(Some(&[0x66, 0xff, 0x6f])), None);
    assert_eq!(convert_c_char_to_string(Some(&[0xc3])), None);
    assert_eq!(convert_c_char_to_string(Some(&[0xed, 0xa0, 0x80])), None);
}

#[test]
fn entry_name_from_bytes() {
    assert_eq!(get_pathname_from_entry(Some(b"a/b.txt")), Ok("a/b.txt".to_string()));
    assert_eq!(
        get_pathname_from_entry(None),
        Err(LibArchiveError::FailedGetPathNameFromEntry)
    );
    assert_eq!(
        get_pathname_from_entry(Some(&[0x80, 0x81])),
        Err(LibArchiveError::FailedGetPathNameFromEntry)
    );
}

#[test]
fn error_string_is_decoded_like_any_c_string() {
    assert_eq!(
        <Archive as ArchiveExt>::get_error_string(Some(b"Truncated input")),
        Some("Truncated input".to_string())
    );
    assert_eq!(<Archive as ArchiveExt>::get_error_string(None), None);
    assert_eq!(<Archive as ArchiveExt>::get_error_string(Some(&[0xfe])), None);
}

#[test]
fn append_bytes_keeps_what_was_there() {
    let mut v = vec![1u8, 2];
    append_bytes(&mut v, &[3, 4, 5]);
    assert_eq!(v, vec![1, 2, 3, 4, 5]);
    append_bytes(&mut v, &[]);
    assert_eq!(v, vec![1, 2, 3, 4, 5]);
}

#[test]
fn join_puts_one_separator_between() {
    assert_eq!(SEPARATOR, b'/');
    assert_eq!(join_destination(b"out", b"a.txt"), b"out/a.txt".to_vec());
    assert_eq!(join_destination(b"out/", b"a.txt"), b"out/a.txt".to_vec());
    assert_eq!(join_destination(b"/tmp/x", b"d/e/f"), b"/tmp/x/d/e/f".to_vec());
}

#[test]
fn join_with_empty_parts() {
    assert_eq!(join_destination(b"", b"a.txt"), b"a.txt".to_vec());
    assert_eq!(join_destination(b"out", b""), b"out/".to_vec());
    assert_eq!(join_destination(b"", b""), Vec::<u8>::new());
}

#[test]
fn join_keeps_rooted_and_parent_names_as_they_are() {
    assert_eq!(join_destination(b"out", b"/etc/passwd"), b"/etc/passwd".to_vec());
    assert_eq!(join_destination(b"out", b"../up.txt"), b"out/../up.txt".to_vec());
}

#[test]
fn nul_terminated_appends_one_nul() {
    assert_eq!(nul_terminated(b"abc"), Some(vec![b'a', b'b', b'c', 0]));
    assert_eq!(nul_terminated(b""), Some(vec![0]));
}

#[test]
fn nul_terminated_refuses_an_inner_nul() {
    assert_eq!(nul_terminated(b"a\0b"), None);
    assert_eq!(nul_terminated(b"\0"), None);
    assert_eq!(nul_terminated(b"ab\0"), None);
}

#[test]
fn default_flags_are_time_perm_acl_fflags() {
    assert_eq!(
        resolve_flags(None),
        ARCHIVE_EXTRACT_TIME | ARCHIVE_EXTRACT_PERM | ARCHIVE_EXTRACT_ACL | ARCHIVE_EXTRACT_FFLAGS
    );
    assert_eq!(resolve_flags(None), 0x66);
    assert_eq!(DEFAULT_EXTRACT_FLAGS, 0x66);
    assert_eq!(ARCHIVE_EXTRACT_PERM, 0x0002);
    assert_eq!(ARCHIVE_EXTRACT_TIME, 0x0004);
    assert_eq!(ARCHIVE_EXTRACT_ACL, 0x0020);
    assert_eq!(ARCHIVE_EXTRACT_FFLAGS, 0x0040);
}

#[test]
fn given_flags_are_taken_as_they_are() {
    assert_eq!(resolve_flags(Some(0)), 0);
    assert_eq!(resolve_flags(Some(ARCHIVE_EXTRACT_TIME)), 4);
    assert_eq!(resolve_flags(Some(-1)), -1);
}

#[test]
fn block_size_is_the_length() {
    assert_eq!(block_size(0), 0);
    assert_eq!(block_size(10240), 10240);
}

#[test]
fn source_checks_for_memory() {
    assert_eq!(
        source_for_memory(SourceProbe::Missing),
        Err(LibArchiveError::FailedGetMetaDataFromFile)
    );
    assert_eq!(
        source_for_memory(SourceProbe::Unreadable),
        Err(LibArchiveError::FailedGetMetaDataFromFile)
    );
    assert_eq!(source_for_memory(SourceProbe::NotFile), Err(LibArchiveError::IsNotFile));
    assert_eq!(source_for_memory(SourceProbe::File { len: 77 }), Ok(77));
}

#[test]
fn source_checks_for_dir() {
    assert_eq!(source_for_dir(SourceProbe::Missing), Err(LibArchiveError::IsNotExists));
    assert_eq!(
        source_for_dir(SourceProbe::Unreadable),
        Err(LibArchiveError::FailedGetMetaDataFromFile)
    );
    assert_eq!(source_for_dir(SourceProbe::NotFile), Err(LibArchiveError::IsNotFile));
    assert_eq!(source_for_dir(SourceProbe::File { len: 0 }), Ok(0));
}

#[test]
fn declared_size_as_count() {
    assert_eq!(declared_size_to_count(0), 0);
    assert_eq!(declared_size_to_count(-5), 0);
    assert_eq!(declared_size_to_count(i64::MIN), 0);
    assert_eq!(declared_size_to_count(1), 1);
    assert_eq!(declared_size_to_count(4096), 4096);
}

#[test]
fn records_are_tagged_consistently() {
    let ok = FileInfo::success("a".to_string(), 3);
    assert_eq!(
        ok,
        FileInfo { file_name: "a".to_string(), size: 3, is_success: true, error: None }
    );
    let bad = FileInfo::failure("b".to_string(), LibArchiveError::FailedWriteHeader);
    assert_eq!(
        bad,
        FileInfo {
            file_name: "b".to_string(),
            size: 0,
            is_success: false,
            error: Some(LibArchiveError::FailedWriteHeader),
        }
    );
    let data = DecompressedData::success("c".to_string(), 2, vec![7, 8]);
    assert_eq!(data.value, vec![7, 8]);
    assert_eq!(data.file_info, FileInfo::success("c".to_string(), 2));
    let none = DecompressedData::failure("d".to_string(), LibArchiveError::FailedUncompress);
    assert_eq!(none.value, Vec::<u8>::new());
    assert_eq!(
        none.file_info,
        FileInfo::failure("d".to_string(), LibArchiveError::FailedUncompress)
    );
}

#[test]
fn archive_new_needs_a_session() {
    assert_eq!(<Archive as ArchiveExt>::new(true), Ok(Archive));
    assert_eq!(<Archive as ArchiveExt>::new(false), Err(LibArchiveError::FailedCreateArchive));
}
