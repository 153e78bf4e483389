//! Extraction of a container into memory, as a machine that a driver runs:
//! the driver performs the action it is given and hands back the event.

use crate::error::{check_status, LibArchiveError, LibArchiveResult};
use crate::path::{append_bytes, decoded_text, get_pathname_from_entry, nul_terminated, terminated};
use crate::protocol::{
    block_size, block_size_of, source_for_memory, spec_source_for_memory, Action, ActionView, Event,
    EventView, SourceProbe,
};
use crate::report::{
    declared_count, declared_size_to_count, decompressed_view, DecompressedData, DecompressedDataView,
};
use vstd::prelude::*;
use vstd::string::StringSliceAdditionalSpecFns;

verus! {

/// Where an extraction to memory stands: what it has asked the driver for.
#[derive(Debug, Clone, Copy, PartialEq, Eq, Structural)]
pub enum MemoryPhase {
    /// The container's path is being looked at.
    Probe,
    /// The read session is being allocated.
    Create,
    /// The filters are being registered.
    Filters,
    /// The formats are being registered.
    Formats,
    /// The container is being opened.
    Open,
    /// The next entry is being looked for.
    Header,
    /// The data of the current entry is being pulled.
    Data,
    /// The read session is being closed.
    Close,
    /// The read session is being freed.
    Free,
    /// Nothing is left to do.
    Done,
}

/// The mathematical state of an extraction to memory.
pub struct MemoryModel {
    pub phase: MemoryPhase,
    /// The path of the container, as bytes.
    pub source: Seq<u8>,
    /// The path that is handed to the codec: NUL-terminated.
    pub encoded: Seq<u8>,
    /// The block size the container is opened with.
    pub block_size: usize,
    /// The name of the entry whose data is being pulled.
    pub name: Seq<char>,
    /// The declared size of that entry.
    pub size: usize,
    /// The bytes pulled for that entry so far.
    pub buffer: Seq<u8>,
    /// One record for each entry that has been dealt with, in order.
    pub records: Seq<DecompressedDataView>,
    /// The first failure that ends the whole extraction, if there was one.
    pub fault: Option<LibArchiveError>,
}

impl MemoryModel {
    /// The state before anything was done.
    pub open spec fn initial(source: Seq<u8>) -> MemoryModel {
        MemoryModel {
            phase: MemoryPhase::Probe,
            source,
            encoded: Seq::empty(),
            block_size: 0,
            name: Seq::empty(),
            size: 0,
            buffer: Seq::empty(),
            records: Seq::empty(),
            fault: None,
        }
    }

    /// The same state in another phase.
    pub open spec fn at(self, phase: MemoryPhase) -> MemoryModel {
        MemoryModel { phase, ..self }
    }

    /// The extraction ends at once with this failure: no session exists
    /// that would have to be released.
    pub open spec fn fail(self, cause: LibArchiveError) -> (MemoryModel, ActionView) {
        (MemoryModel { phase: MemoryPhase::Done, fault: Some(cause), ..self }, ActionView::Finish)
    }

    /// The extraction is given up with this failure, and the session is
    /// released first: it is closed next.
    pub open spec fn abort(self, cause: LibArchiveError) -> (MemoryModel, ActionView) {
        (MemoryModel { phase: MemoryPhase::Close, fault: Some(cause), ..self }, ActionView::CloseReader)
    }

    /// The entry at hand is recorded, and the next one is looked for.
    pub open spec fn record(self, entry: DecompressedDataView) -> (MemoryModel, ActionView) {
        (
            MemoryModel {
                phase: MemoryPhase::Header,
                name: Seq::empty(),
                size: 0,
                buffer: Seq::empty(),
                records: self.records.push(entry),
                ..self
            },
            ActionView::NextHeader,
        )
    }

    /// The first failure stays: a later one is kept only if none came before.
    pub open spec fn fault_or(self, cause: LibArchiveError) -> Option<LibArchiveError> {
        match self.fault {
            Some(first) => Some(first),
            None => Some(cause),
        }
    }

    /// After the container's path was looked at. Only a regular file whose
    /// path holds no NUL byte is read; then the session is allocated.
    pub open spec fn after_source(self, probe: SourceProbe) -> (MemoryModel, ActionView) {
        match spec_source_for_memory(probe) {
            Err(cause) => self.fail(cause),
            Ok(len) => match terminated(self.source) {
                None => self.fail(LibArchiveError::NulError),
                Some(encoded) => (
                    MemoryModel {
                        phase: MemoryPhase::Create,
                        encoded,
                        block_size: block_size_of(len),
                        ..self
                    },
                    ActionView::CreateReader,
                ),
            },
        }
    }

    /// After the session was asked for.
    pub open spec fn after_handle(self, allocated: bool) -> (MemoryModel, ActionView) {
        if allocated {
            (self.at(MemoryPhase::Filters), ActionView::EnableFilters)
        } else {
            self.fail(LibArchiveError::FailedCreateArchive)
        }
    }

    /// After the filters were registered.
    pub open spec fn after_filters(self, code: i32) -> (MemoryModel, ActionView) {
        if code == 0 {
            (self.at(MemoryPhase::Formats), ActionView::EnableFormats)
        } else {
            self.abort(LibArchiveError::spec_internal(code))
        }
    }

    /// After the formats were registered: the container is opened by its
    /// NUL-terminated path.
    pub open spec fn after_formats(self, code: i32) -> (MemoryModel, ActionView) {
        if code == 0 {
            (
                self.at(MemoryPhase::Open),
                ActionView::OpenReader { path: self.encoded, block_size: self.block_size },
            )
        } else {
            self.abort(LibArchiveError::spec_internal(code))
        }
    }

    /// After the container was opened.
    pub open spec fn after_open(self, code: i32) -> (MemoryModel, ActionView) {
        if code == 0 {
            (self.at(MemoryPhase::Header), ActionView::NextHeader)
        } else {
            self.abort(LibArchiveError::spec_internal(code))
        }
    }

    /// After the session was advanced. The end of the archive ends the loop;
    /// any status but success gives the whole extraction up. An entry
    /// without a usable name, or with a declared size below one, is
    /// recorded as failed and the loop goes on; the data of any other entry
    /// is pulled.
    pub open spec fn after_header(self, status: i32, pathname: Option<Seq<u8>>, size: i64) -> (
        MemoryModel,
        ActionView,
    ) {
        if status == 1 {
            (self.at(MemoryPhase::Close), ActionView::CloseReader)
        } else if status != 0 {
            self.abort(LibArchiveError::spec_internal(status))
        } else {
            match decoded_text(pathname) {
                None => self.record(
                    DecompressedDataView::failure(
                        Seq::empty(),
                        LibArchiveError::FailedGetPathNameFromEntry,
                    ),
                ),
                Some(name) => if size < 1 {
                    self.record(
                        DecompressedDataView::failure(name, LibArchiveError::EntrySizeLessThanOne),
                    )
                } else {
                    (
                        MemoryModel {
                            phase: MemoryPhase::Data,
                            name,
                            size: declared_count(size),
                            buffer: Seq::empty(),
                            ..self
                        },
                        ActionView::ReadBlock,
                    )
                },
            }
        }
    }

    /// After a block was pulled. A block is appended in the order it came,
    /// whatever its offset; the end of the data completes the entry; any
    /// other status fails this entry alone.
    pub open spec fn after_block(self, status: i32, data: Seq<u8>) -> (MemoryModel, ActionView) {
        if status == 0 {
            (MemoryModel { buffer: self.buffer + data, ..self }, ActionView::ReadBlock)
        } else if status == 1 {
            self.record(DecompressedDataView::success(self.name, self.size, self.buffer))
        } else {
            self.record(DecompressedDataView::failure(self.name, LibArchiveError::FailedUncompress))
        }
    }

    /// After the session was closed: it is freed only if closing succeeded.
    pub open spec fn after_close(self, code: i32) -> (MemoryModel, ActionView) {
        if code == 0 {
            (self.at(MemoryPhase::Free), ActionView::FreeReader)
        } else {
            (
                MemoryModel {
                    phase: MemoryPhase::Done,
                    fault: self.fault_or(LibArchiveError::FailedCloseReadArchive),
                    ..self
                },
                ActionView::Finish,
            )
        }
    }

    /// After the session was freed.
    pub open spec fn after_free(self, code: i32) -> (MemoryModel, ActionView) {
        (
            MemoryModel {
                phase: MemoryPhase::Done,
                fault: if code == 0 {
                    self.fault
                } else {
                    self.fault_or(LibArchiveError::FailedFreeArchive)
                },
                ..self
            },
            ActionView::Finish,
        )
    }

    /// One step: the state after an event, and what the driver is to do
    /// next. An event that does not answer what was asked changes nothing.
    pub open spec fn step(self, event: EventView) -> (MemoryModel, ActionView) {
        match (self.phase, event) {
            (MemoryPhase::Probe, EventView::Source(probe)) => self.after_source(probe),
            (MemoryPhase::Create, EventView::Handle { allocated }) => self.after_handle(allocated),
            (MemoryPhase::Filters, EventView::Status(code)) => self.after_filters(code),
            (MemoryPhase::Formats, EventView::Status(code)) => self.after_formats(code),
            (MemoryPhase::Open, EventView::Status(code)) => self.after_open(code),
            (MemoryPhase::Header, EventView::Header { status, pathname, size }) => self.after_header(
                status,
                pathname,
                size,
            ),
            (MemoryPhase::Data, EventView::Block { status, data, offset }) => self.after_block(
                status,
                data,
            ),
            (MemoryPhase::Close, EventView::Status(code)) => self.after_close(code),
            (MemoryPhase::Free, EventView::Status(code)) => self.after_free(code),
            _ => (self, ActionView::Unexpected),
        }
    }

    /// What the extraction returns once it is done: the first failure that
    /// ended it, with every record discarded, or else the records.
    pub open spec fn outcome(self) -> LibArchiveResult<Seq<DecompressedDataView>> {
        match self.fault {
            Some(cause) => Err(cause),
            None => Ok(self.records),
        }
    }

    /// The state after a run of events.
    pub open spec fn run(self, events: Seq<EventView>) -> MemoryModel
        decreases events.len(),
    {
        if events.len() == 0 {
            self
        } else {
            self.step(events[0]).0.run(events.drop_first())
        }
    }

    /// What the driver is told to do, event by event, in a run of events.
    pub open spec fn trace(self, events: Seq<EventView>) -> Seq<ActionView>
        decreases events.len(),
    {
        if events.len() == 0 {
            Seq::empty()
        } else {
            seq![self.step(events[0]).1] + self.step(events[0]).0.trace(events.drop_first())
        }
    }
}

/// An extraction of one container into memory.
pub struct MemoryExtraction {
    phase: MemoryPhase,
    source: Vec<u8>,
    encoded: Vec<u8>,
    block_size: usize,
    name: String,
    size: usize,
    buffer: Vec<u8>,
    records: Vec<DecompressedData>,
    fault: Option<LibArchiveError>,
}

impl View for MemoryExtraction {
    type V = MemoryModel;

    closed spec fn view(&self) -> MemoryModel {
        MemoryModel {
            phase: self.phase,
            source: self.source@,
            encoded: self.encoded@,
            block_size: self.block_size,
            name: self.name@,
            size: self.size,
            buffer: self.buffer@,
            records: decompressed_view(self.records@),
            fault: self.fault,
        }
    }
}

impl MemoryExtraction {
    /// An extraction of the container at `file_path` that has not begun.
    pub fn new(file_path: &str) -> (extraction: MemoryExtraction)
        ensures
            extraction@ == MemoryModel::initial(file_path.spec_bytes()),
    {
        let mut source: Vec<u8> = Vec::new();
        append_bytes(&mut source, file_path.as_bytes());
        assert(source@ =~= file_path.spec_bytes());
        let records: Vec<DecompressedData> = Vec::new();
        assert(decompressed_view(records@) =~= Seq::empty());
        MemoryExtraction {
            phase: MemoryPhase::Probe,
            source,
            encoded: Vec::new(),
            block_size: 0,
            name: String::new(),
            size: 0,
            buffer: Vec::new(),
            records,
            fault: None,
        }
    }

    /// The first thing the driver is to do.
    pub fn start(&self) -> (action: Action)
        ensures
            action@ == ActionView::ProbeSource,
    {
        Action::ProbeSource
    }

    /// The phase the extraction is in.
    pub fn phase(&self) -> (phase: MemoryPhase)
        ensures
            phase == self@.phase,
    {
        self.phase
    }

    fn fail(&mut self, cause: LibArchiveError) -> (action: Action)
        ensures
            (final(self)@, action@) == old(self)@.fail(cause),
    {
        self.phase = MemoryPhase::Done;
        self.fault = Some(cause);
        Action::Finish
    }

    fn abort(&mut self, cause: LibArchiveError) -> (action: Action)
        ensures
            (final(self)@, action@) == old(self)@.abort(cause),
    {
        self.phase = MemoryPhase::Close;
        self.fault = Some(cause);
        Action::CloseReader
    }

    fn record(&mut self, entry: DecompressedData) -> (action: Action)
        ensures
            (final(self)@, action@) == old(self)@.record(entry@),
    {
        proof {
            old(self).records@.lemma_push_map_commute(|r: DecompressedData| r@, entry);
        }
        self.phase = MemoryPhase::Header;
        self.name = String::new();
        self.size = 0;
        self.buffer = Vec::new();
        self.records.push(entry);
        Action::NextHeader
    }

    fn fault_or(&self, cause: LibArchiveError) -> (fault: Option<LibArchiveError>)
        ensures
            fault == self@.fault_or(cause),
    {
        match self.fault {
            Some(first) => Some(first),
            None => Some(cause),
        }
    }

    fn on_source(&mut self, probe: SourceProbe) -> (action: Action)
        ensures
            (final(self)@, action@) == old(self)@.after_source(probe),
    {
        match source_for_memory(probe) {
            Err(cause) => self.fail(cause),
            Ok(len) => match nul_terminated(self.source.as_slice()) {
                None => self.fail(LibArchiveError::NulError),
                Some(encoded) => {
                    self.phase = MemoryPhase::Create;
                    self.encoded = encoded;
                    self.block_size = block_size(len);
                    Action::CreateReader
                },
            },
        }
    }

    fn on_handle(&mut self, allocated: bool) -> (action: Action)
        ensures
            (final(self)@, action@) == old(self)@.after_handle(allocated),
    {
        if allocated {
            self.phase = MemoryPhase::Filters;
            Action::EnableFilters
        } else {
            self.fail(LibArchiveError::FailedCreateArchive)
        }
    }

    fn on_filters(&mut self, code: i32) -> (action: Action)
        ensures
            (final(self)@, action@) == old(self)@.after_filters(code),
    {
        match check_status(code) {
            Ok(()) => {
                self.phase = MemoryPhase::Formats;
                Action::EnableFormats
            },
            Err(cause) => self.abort(cause),
        }
    }

    fn on_formats(&mut self, code: i32) -> (action: Action)
        ensures
            (final(self)@, action@) == old(self)@.after_formats(code),
    {
        match check_status(code) {
            Ok(()) => {
                self.phase = MemoryPhase::Open;
                let mut path: Vec<u8> = Vec::new();
                append_bytes(&mut path, self.encoded.as_slice());
                assert(path@ =~= self.encoded@);
                Action::OpenReader { path, block_size: self.block_size }
            },
            Err(cause) => self.abort(cause),
        }
    }

    fn on_open(&mut self, code: i32) -> (action: Action)
        ensures
            (final(self)@, action@) == old(self)@.after_open(code),
    {
        match check_status(code) {
            Ok(()) => {
                self.phase = MemoryPhase::Header;
                Action::NextHeader
            },
            Err(cause) => self.abort(cause),
        }
    }

    fn on_header(&mut self, status: i32, pathname: Option<Vec<u8>>, size: i64) -> (action: Action)
        ensures
            (final(self)@, action@) == old(self)@.after_header(
                status,
                match pathname {
                    Some(bytes) => Some(bytes@),
                    None => None,
                },
                size,
            ),
    {
        if status == 1 {
            self.phase = MemoryPhase::Close;
            Action::CloseReader
        } else if status != 0 {
            self.abort(LibArchiveError::internal(status))
        } else {
            let raw: Option<&[u8]> = match &pathname {
                Some(bytes) => Some(bytes.as_slice()),
                None => None,
            };
            match get_pathname_from_entry(raw) {
                Err(cause) => self.record(DecompressedData::failure(String::new(), cause)),
                Ok(name) => if size < 1 {
                    self.record(DecompressedData::failure(name, LibArchiveError::EntrySizeLessThanOne))
                } else {
                    self.phase = MemoryPhase::Data;
                    self.name = name;
                    self.size = declared_size_to_count(size);
                    self.buffer = Vec::new();
                    Action::ReadBlock
                },
            }
        }
    }

    fn on_block(&mut self, status: i32, data: Vec<u8>) -> (action: Action)
        ensures
            (final(self)@, action@) == old(self)@.after_block(status, data@),
    {
        if status == 0 {
            append_bytes(&mut self.buffer, data.as_slice());
            Action::ReadBlock
        } else {
            let mut name = String::new();
            let mut buffer: Vec<u8> = Vec::new();
            core::mem::swap(&mut self.name, &mut name);
            core::mem::swap(&mut self.buffer, &mut buffer);
            if status == 1 {
                let size = self.size;
                self.record(DecompressedData::success(name, size, buffer))
            } else {
                self.record(DecompressedData::failure(name, LibArchiveError::FailedUncompress))
            }
        }
    }

    fn on_close(&mut self, code: i32) -> (action: Action)
        ensures
            (final(self)@, action@) == old(self)@.after_close(code),
    {
        if code == 0 {
            self.phase = MemoryPhase::Free;
            Action::FreeReader
        } else {
            self.fault = self.fault_or(LibArchiveError::FailedCloseReadArchive);
            self.phase = MemoryPhase::Done;
            Action::Finish
        }
    }

    fn on_free(&mut self, code: i32) -> (action: Action)
        ensures
            (final(self)@, action@) == old(self)@.after_free(code),
    {
        if code != 0 {
            self.fault = self.fault_or(LibArchiveError::FailedFreeArchive);
        }
        self.phase = MemoryPhase::Done;
        Action::Finish
    }

    /// Takes what the driver observed and says what it is to do next.
    pub fn step(&mut self, event: Event) -> (action: Action)
        ensures
            (final(self)@, action@) == old(self)@.step(event@),
    {
        match self.phase {
            MemoryPhase::Probe => match event {
                Event::Source(probe) => self.on_source(probe),
                _ => Action::Unexpected,
            },
            MemoryPhase::Create => match event {
                Event::Handle { allocated } => self.on_handle(allocated),
                _ => Action::Unexpected,
            },
            MemoryPhase::Filters => match event {
                Event::Status(code) => self.on_filters(code),
                _ => Action::Unexpected,
            },
            MemoryPhase::Formats => match event {
                Event::Status(code) => self.on_formats(code),
                _ => Action::Unexpected,
            },
            MemoryPhase::Open => match event {
                Event::Status(code) => self.on_open(code),
                _ => Action::Unexpected,
            },
            MemoryPhase::Header => match event {
                Event::Header { status, pathname, size } => self.on_header(status, pathname, size),
                _ => Action::Unexpected,
            },
            MemoryPhase::Data => match event {
                Event::Block { status, data, offset } => self.on_block(status, data),
                _ => Action::Unexpected,
            },
            MemoryPhase::Close => match event {
                Event::Status(code) => self.on_close(code),
                _ => Action::Unexpected,
            },
            MemoryPhase::Free => match event {
                Event::Status(code) => self.on_free(code),
                _ => Action::Unexpected,
            },
            MemoryPhase::Done => Action::Unexpected,
        }
    }

    /// The result of the extraction, once nothing is left to do: the first
    /// failure that ended it, or the records of all entries in order.
    pub fn finish(self) -> (result: Option<LibArchiveResult<Vec<DecompressedData>>>)
        ensures
            result is Some <==> self@.phase == MemoryPhase::Done,
            match result {
                Some(Ok(records)) => self@.outcome() == Ok::<
                    Seq<DecompressedDataView>,
                    LibArchiveError,
                >(decompressed_view(records@)),
                Some(Err(cause)) => self@.outcome() == Err::<
                    Seq<DecompressedDataView>,
                    LibArchiveError,
                >(cause),
                None => true,
            },
    {
        match self.phase {
            MemoryPhase::Done => match self.fault {
                Some(cause) => Some(Err(cause)),
                None => Some(Ok(self.records)),
            },
            _ => None,
        }
    }
}

} // verus!
