use archive_extract::memory::{MemoryExtraction, MemoryPhase};
use archive_extract::protocol::{Action, Event, SourceProbe};
use archive_extract::{
    Archive, ArchiveExt, DecompressedData, FileInfo, LibArchiveError, LibArchiveInternalStatus,
};

fn replay(path: &str, events: Vec<Event>) -> (Vec<Action>, MemoryExtraction) {
    let mut extraction = Archive.extract_to_memory(path);
    let mut actions = vec![extraction.start()];
    for event in events {
        actions.push(extraction.step(event));
    }
    (actions, extraction)
}

fn opened() -> Vec<Event> {
    vec![
        Event::Source(SourceProbe::File { len: 512 }),
        Event::Handle { allocated: true },
        Event::Status(0),
        Event::Status(0),
        Event::Status(0),
    ]
}

fn header(name: &[u8], size: i64) -> Event {
    Event::Header { status: 0, pathname: Some(name.to_vec()), size }
}

fn block(status: i32, data: &[u8]) -> Event {
    Event::Block { status, data: data.to_vec(), offset: 0 }
}

fn end_of_archive() -> Vec<Event> {
    vec![Event::Header { status: 1, pathname: None, size: 0 }, Event::Status(0), Event::Status(0)]
}

#[test]
fn a_new_extraction_asks_for_the_source() {
    let extraction = MemoryExtraction::new("a.tar");
    assert_eq!(extraction.start(), Action::ProbeSource);
    assert_eq!(extraction.phase(), MemoryPhase::Probe);
    assert_eq!(extraction.finish(), None);
}

#[test]
fn clean_container_reports_every_entry() {
    let mut events = opened();
    events.push(header(b"one.txt", 5));
    events.push(block(0, b"he"));
    events.push(block(0, b"llo"));
    events.push(block(1, b""));
    events.push(header(b"dir/two.bin", 3));
    events.push(block(0, &[1, 2, 3]));
    events.push(block(1, b""));
    events.extend(end_of_archive());
    let (actions, extraction) = replay("a.tar", events);
    assert_eq!(
        actions,
        vec![
            Action::ProbeSource,
            Action::CreateReader,
            Action::EnableFilters,
            Action::EnableFormats,
            Action::OpenReader { path: b"a.tar\0".to_vec(), block_size: 512 },
            Action::NextHeader,
            Action::ReadBlock,
            Action::ReadBlock,
            Action::ReadBlock,
            Action::NextHeader,
            Action::ReadBlock,
            Action::ReadBlock,
            Action::NextHeader,
            Action::CloseReader,
            Action::FreeReader,
            Action::Finish,
        ]
    );
    assert_eq!(extraction.phase(), MemoryPhase::Done);
    let records = extraction.finish().unwrap().unwrap();
    assert_eq!(
        records,
        vec![
            DecompressedData {
                value: b"hello".to_vec(),
                file_info: FileInfo {
                    file_name: "one.txt".to_string(),
                    size: 5,
                    is_success: true,
                    error: None,
                },
            },
            DecompressedData {
                value: vec![1, 2, 3],
                file_info: FileInfo {
                    file_name: "dir/two.bin".to_string(),
                    size: 3,
                    is_success: true,
                    error: None,
                },
            },
        ]
    );
    for record in &records {
        assert_eq!(record.file_info.size, record.value.len());
    }
}

#[test]
fn empty_container_reports_nothing() {
    let mut events = opened();
    events.extend(end_of_archive());
    let (_, extraction) = replay("empty.tar", events);
    assert_eq!(extraction.finish(), Some(Ok(Vec::new())));
}

#[test]
fn missing_source_ends_at_once() {
    let (actions, extraction) = replay("nowhere.tar", vec![Event::Source(SourceProbe::Missing)]);
    assert_eq!(actions, vec![Action::ProbeSource, Action::Finish]);
    assert_eq!(extraction.finish(), Some(Err(LibArchiveError::FailedGetMetaDataFromFile)));
}

#[test]
fn unreadable_source_ends_at_once() {
    let (actions, extraction) = replay("a.tar", vec![Event::Source(SourceProbe::Unreadable)]);
    assert_eq!(actions, vec![Action::ProbeSource, Action::Finish]);
    assert_eq!(extraction.finish(), Some(Err(LibArchiveError::FailedGetMetaDataFromFile)));
}

#[test]
fn directory_as_source_is_not_a_file() {
    let (actions, extraction) = replay("some/dir", vec![Event::Source(SourceProbe::NotFile)]);
    assert_eq!(actions, vec![Action::ProbeSource, Action::Finish]);
    assert_eq!(extraction.finish(), Some(Err(LibArchiveError::IsNotFile)));
}

#[test]
fn source_path_with_nul_cannot_be_opened() {
    let (actions, extraction) =
        replay("a\0b.tar", vec![Event::Source(SourceProbe::File { len: 1 })]);
    assert_eq!(actions, vec![Action::ProbeSource, Action::Finish]);
    assert_eq!(extraction.finish(), Some(Err(LibArchiveError::NulError)));
}

#[test]
fn session_that_cannot_be_allocated() {
    let (actions, extraction) = replay(
        "a.tar",
        vec![Event::Source(SourceProbe::File { len: 1 }), Event::Handle { allocated: false }],
    );
    assert_eq!(actions, vec![Action::ProbeSource, Action::CreateReader, Action::Finish]);
    assert_eq!(extraction.finish(), Some(Err(LibArchiveError::FailedCreateArchive)));
}

#[test]
fn filter_registration_failure_releases_the_session() {
    let (actions, extraction) = replay(
        "a.tar",
        vec![
            Event::Source(SourceProbe::File { len: 1 }),
            Event::Handle { allocated: true },
            Event::Status(-30),
            Event::Status(0),
            Event::Status(0),
        ],
    );
    assert_eq!(
        actions,
        vec![
            Action::ProbeSource,
            Action::CreateReader,
            Action::EnableFilters,
            Action::CloseReader,
            Action::FreeReader,
            Action::Finish,
        ]
    );
    assert_eq!(
        extraction.finish(),
        Some(Err(LibArchiveError::LibArchiveInternalError(
            LibArchiveInternalStatus::ArchiveFatal,
            -30
        )))
    );
}

#[test]
fn format_registration_failure_carries_the_code() {
    let (actions, extraction) = replay(
        "a.tar",
        vec![
            Event::Source(SourceProbe::File { len: 1 }),
            Event::Handle { allocated: true },
            Event::Status(0),
            Event::Status(-20),
            Event::Status(0),
            Event::Status(0),
        ],
    );
    assert_eq!(actions[3], Action::EnableFormats);
    assert_eq!(actions[4], Action::CloseReader);
    assert_eq!(
        extraction.finish(),
        Some(Err(LibArchiveError::LibArchiveInternalError(
            LibArchiveInternalStatus::ArchiveWarn,
            -20
        )))
    );
}

#[test]
fn open_failure_carries_the_code() {
    let mut events = opened();
    events[4] = Event::Status(-25);
    events.push(Event::Status(0));
    events.push(Event::Status(0));
    let (actions, extraction) = replay("a.tar", events);
    assert_eq!(actions[5], Action::CloseReader);
    assert_eq!(
        extraction.finish(),
        Some(Err(LibArchiveError::LibArchiveInternalError(
            LibArchiveInternalStatus::ArchiveFailed,
            -25
        )))
    );
}

#[test]
fn entry_of_size_zero_fails_alone() {
    let mut events = opened();
    events.push(header(b"first", 2));
    events.push(block(0, b"ab"));
    events.push(block(1, b""));
    events.push(header(b"hollow", 0));
    events.push(header(b"third", 1));
    events.push(block(0, b"z"));
    events.push(block(1, b""));
    events.extend(end_of_archive());
    let (actions, extraction) = replay("a.tar", events);
    assert_eq!(actions[9], Action::NextHeader);
    assert_eq!(actions[10], Action::ReadBlock);
    let records = extraction.finish().unwrap().unwrap();
    assert_eq!(records.len(), 3);
    assert_eq!(records[0], DecompressedData::success("first".to_string(), 2, b"ab".to_vec()));
    assert_eq!(
        records[1],
        DecompressedData {
            value: vec![],
            file_info: FileInfo {
                file_name: "hollow".to_string(),
                size: 0,
                is_success: false,
                error: Some(LibArchiveError::EntrySizeLessThanOne),
            },
        }
    );
    assert_eq!(records[2], DecompressedData::success("third".to_string(), 1, b"z".to_vec()));
}

#[test]
fn entry_of_negative_size_fails_alone() {
    let mut events = opened();
    events.push(header(b"odd", -4));
    events.extend(end_of_archive());
    let (_, extraction) = replay("a.tar", events);
    assert_eq!(
        extraction.finish(),
        Some(Ok(vec![DecompressedData::failure(
            "odd".to_string(),
            LibArchiveError::EntrySizeLessThanOne
        )]))
    );
}

#[test]
fn entry_without_a_name_fails_alone() {
    let mut events = opened();
    events.push(Event::Header { status: 0, pathname: None, size: 9 });
    events.push(header(b"named", 1));
    events.push(block(0, b"q"));
    events.push(block(1, b""));
    events.extend(end_of_archive());
    let (actions, extraction) = replay("a.tar", events);
    assert_eq!(actions[6], Action::NextHeader);
    let records = extraction.finish().unwrap().unwrap();
    assert_eq!(records.len(), 2);
    assert_eq!(
        records[0],
        DecompressedData {
            value: vec![],
            file_info: FileInfo {
                file_name: String::new(),
                size: 0,
                is_success: false,
                error: Some(LibArchiveError::FailedGetPathNameFromEntry),
            },
        }
    );
    assert_eq!(records[1], DecompressedData::success("named".to_string(), 1, b"q".to_vec()));
}

#[test]
fn entry_with_a_name_that_is_not_text_fails_alone() {
    let mut events = opened();
    events.push(header(&[0xff, 0xfe], 9));
    events.extend(end_of_archive());
    let (_, extraction) = replay("a.tar", events);
    assert_eq!(
        extraction.finish(),
        Some(Ok(vec![DecompressedData::failure(
            String::new(),
            LibArchiveError::FailedGetPathNameFromEntry
        )]))
    );
}

#[test]
fn failed_pull_fails_the_entry_alone() {
    let mut events = opened();
    events.push(header(b"torn", 8));
    events.push(block(0, b"part"));
    events.push(block(-25, b""));
    events.push(header(b"whole", 2));
    events.push(block(0, b"ok"));
    events.push(block(1, b""));
    events.extend(end_of_archive());
    let (_, extraction) = replay("a.tar", events);
    assert_eq!(
        extraction.finish(),
        Some(Ok(vec![
            DecompressedData::failure("torn".to_string(), LibArchiveError::FailedUncompress),
            DecompressedData::success("whole".to_string(), 2, b"ok".to_vec()),
        ]))
    );
}

#[test]
fn blocks_are_appended_in_pull_order_whatever_their_offset() {
    let mut events = opened();
    events.push(header(b"sparse", 4));
    events.push(Event::Block { status: 0, data: b"ab".to_vec(), offset: 100 });
    events.push(Event::Block { status: 0, data: b"cd".to_vec(), offset: 0 });
    events.push(Event::Block { status: 1, data: b"ignored".to_vec(), offset: 0 });
    events.extend(end_of_archive());
    let (_, extraction) = replay("a.tar", events);
    assert_eq!(
        extraction.finish(),
        Some(Ok(vec![DecompressedData::success("sparse".to_string(), 4, b"abcd".to_vec())]))
    );
}

#[test]
fn header_failure_gives_the_whole_extraction_up() {
    let mut events = opened();
    events.push(header(b"kept", 1));
    events.push(block(0, b"k"));
    events.push(block(1, b""));
    events.push(Event::Header { status: -30, pathname: None, size: 0 });
    events.push(Event::Status(0));
    events.push(Event::Status(0));
    let (actions, extraction) = replay("a.tar", events);
    assert_eq!(
        &actions[9..],
        &[Action::CloseReader, Action::FreeReader, Action::Finish]
    );
    assert_eq!(
        extraction.finish(),
        Some(Err(LibArchiveError::LibArchiveInternalError(
            LibArchiveInternalStatus::ArchiveFatal,
            -30
        )))
    );
}

#[test]
fn header_warning_is_no_entry() {
    let mut events = opened();
    events.push(Event::Header { status: -20, pathname: Some(b"w".to_vec()), size: 1 });
    let (actions, _) = replay("a.tar", events);
    assert_eq!(actions[6], Action::CloseReader);
}

#[test]
fn close_failure_discards_the_records() {
    let mut events = opened();
    events.push(header(b"lost", 1));
    events.push(block(0, b"x"));
    events.push(block(1, b""));
    events.push(Event::Header { status: 1, pathname: None, size: 0 });
    events.push(Event::Status(-30));
    let (actions, extraction) = replay("a.tar", events);
    assert_eq!(&actions[9..], &[Action::CloseReader, Action::Finish]);
    assert_eq!(extraction.finish(), Some(Err(LibArchiveError::FailedCloseReadArchive)));
}

#[test]
fn free_failure_discards_the_records() {
    let mut events = opened();
    events.push(header(b"lost", 1));
    events.push(block(0, b"x"));
    events.push(block(1, b""));
    events.push(Event::Header { status: 1, pathname: None, size: 0 });
    events.push(Event::Status(0));
    events.push(Event::Status(-1));
    let (actions, extraction) = replay("a.tar", events);
    assert_eq!(&actions[9..], &[Action::CloseReader, Action::FreeReader, Action::Finish]);
    assert_eq!(extraction.finish(), Some(Err(LibArchiveError::FailedFreeArchive)));
}

#[test]
fn first_failure_wins_over_a_release_failure() {
    let mut events = opened();
    events.push(Event::Header { status: -25, pathname: None, size: 0 });
    events.push(Event::Status(-30));
    let (_, extraction) = replay("a.tar", events);
    assert_eq!(
        extraction.finish(),
        Some(Err(LibArchiveError::LibArchiveInternalError(
            LibArchiveInternalStatus::ArchiveFailed,
            -25
        )))
    );
}

#[test]
fn unexpected_event_changes_nothing() {
    let mut extraction = MemoryExtraction::new("a.tar");
    assert_eq!(extraction.step(Event::Status(0)), Action::Unexpected);
    assert_eq!(extraction.phase(), MemoryPhase::Probe);
    assert_eq!(
        extraction.step(Event::Source(SourceProbe::File { len: 3 })),
        Action::CreateReader
    );
    assert_eq!(extraction.step(block(0, b"x")), Action::Unexpected);
    assert_eq!(extraction.phase(), MemoryPhase::Create);
}

#[test]
fn nothing_follows_the_end() {
    let (_, mut extraction) = replay("a.tar", vec![Event::Source(SourceProbe::Missing)]);
    assert_eq!(extraction.step(Event::Status(0)), Action::Unexpected);
    assert_eq!(extraction.phase(), MemoryPhase::Done);
}

#[test]
fn result_is_not_ready_before_the_end() {
    let (_, extraction) = replay("a.tar", opened());
    assert_eq!(extraction.phase(), MemoryPhase::Header);
    assert_eq!(extraction.finish(), None);
}

#[test]
fn same_events_give_the_same_records() {
    let script = || {
        let mut events = opened();
        events.push(header(b"a", 3));
        events.push(block(0, b"abc"));
        events.push(block(1, b""));
        events.push(header(b"b", 0));
        events.push(Event::Header { status: 0, pathname: None, size: 1 });
        events.extend(end_of_archive());
        events
    };
    let (first_actions, first) = replay("same.tar", script());
    let (second_actions, second) = replay("same.tar", script());
    assert_eq!(first_actions, second_actions);
    let first = first.finish();
    assert_eq!(first, second.finish());
    assert_eq!(first.unwrap().unwrap().len(), 3);
}
