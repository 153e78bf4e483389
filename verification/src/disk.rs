//! Extraction of a container into a directory, as a machine that a driver
//! runs: beside the read session it steers a write-to-disk session, the
//! sink, that receives every entry.

use crate::error::{check_status, LibArchiveError, LibArchiveResult};
use crate::path::{
    append_bytes, decoded_text, get_pathname_from_entry, join_destination, joined, nul_terminated,
    terminated,
};
use crate::protocol::{
    block_size, block_size_of, resolve_flags, source_for_dir, spec_resolve_flags, spec_source_for_dir,
    Action, ActionView, Event, EventView, SourceProbe, TargetProbe,
};
use crate::report::{declared_count, declared_size_to_count, file_infos_view, FileInfo, FileInfoView};
use vstd::prelude::*;
use vstd::string::StringSliceAdditionalSpecFns;

verus! {

/// Where an extraction to a directory stands: what it has asked the driver
/// for.
#[derive(Debug, Clone, Copy, PartialEq, Eq, Structural)]
pub enum DirPhase {
    /// The container's path is being looked at.
    Probe,
    /// The target directory's path is being looked at.
    Target,
    /// The target directory is being created.
    MakeTarget,
    /// The read session is being allocated.
    Create,
    /// The filters are being registered.
    Filters,
    /// The formats are being registered.
    Formats,
    /// The container is being opened.
    Open,
    /// The sink is being allocated.
    CreateSink,
    /// The sink is being configured.
    ConfigureSink,
    /// The next entry is being looked for.
    Header,
    /// The header of the current entry is being written to the sink.
    WriteHeader,
    /// The next data block of the current entry is being pulled.
    Data,
    /// A data block is being written to the sink.
    Write,
    /// The current entry is being finished on the sink.
    FinishEntry,
    /// The sink is being closed.
    CloseSink,
    /// The sink is being freed.
    FreeSink,
    /// The read session is being closed.
    Close,
    /// The read session is being freed.
    Free,
    /// Nothing is left to do.
    Done,
}

/// The mathematical state of an extraction to a directory.
pub struct DirModel {
    pub phase: DirPhase,
    /// The path of the container, as bytes.
    pub source: Seq<u8>,
    /// The path of the target directory, as bytes.
    pub target: Seq<u8>,
    /// The attribute mask the sink is configured with.
    pub flags: i32,
    /// The container's path as it is handed to the codec: NUL-terminated.
    pub encoded: Seq<u8>,
    /// The block size the container is opened with.
    pub block_size: usize,
    /// The name of the entry at hand.
    pub name: Seq<char>,
    /// The declared size of the entry at hand.
    pub size: usize,
    /// Why the entry at hand failed, if it did.
    pub cause: Option<LibArchiveError>,
    /// One record for each entry that has been dealt with, in order.
    pub records: Seq<FileInfoView>,
    /// The first failure that ends the whole extraction, if there was one.
    pub fault: Option<LibArchiveError>,
}

impl DirModel {
    /// The state before anything was done.
    pub open spec fn initial(source: Seq<u8>, target: Seq<u8>, flags: Option<i32>) -> DirModel {
        DirModel {
            phase: DirPhase::Probe,
            source,
            target,
            flags: spec_resolve_flags(flags),
            encoded: Seq::empty(),
            block_size: 0,
            name: Seq::empty(),
            size: 0,
            cause: None,
            records: Seq::empty(),
            fault: None,
        }
    }

    /// The same state in another phase.
    pub open spec fn at(self, phase: DirPhase) -> DirModel {
        DirModel { phase, ..self }
    }

    /// The extraction ends at once with this failure: nothing exists that
    /// would have to be released.
    pub open spec fn fail(self, cause: LibArchiveError) -> (DirModel, ActionView) {
        (DirModel { phase: DirPhase::Done, fault: Some(cause), ..self }, ActionView::Finish)
    }

    /// The extraction is given up with this failure before a sink exists:
    /// the read session is released, it is closed next.
    pub open spec fn abort_reader(self, cause: LibArchiveError) -> (DirModel, ActionView) {
        (DirModel { phase: DirPhase::Close, fault: Some(cause), ..self }, ActionView::CloseReader)
    }

    /// The extraction is given up with this failure while both sessions
    /// exist: the sink is released first, it is closed next.
    pub open spec fn abort_both(self, cause: LibArchiveError) -> (DirModel, ActionView) {
        (DirModel { phase: DirPhase::CloseSink, fault: Some(cause), ..self }, ActionView::CloseSink)
    }

    /// The first failure stays: a later one is kept only if none came before.
    pub open spec fn fault_or(self, cause: LibArchiveError) -> Option<LibArchiveError> {
        match self.fault {
            Some(first) => Some(first),
            None => Some(cause),
        }
    }

    /// The entry at hand is over, with this cause if it failed: it is
    /// finished on the sink next.
    pub open spec fn settle(self, cause: Option<LibArchiveError>) -> (DirModel, ActionView) {
        (DirModel { phase: DirPhase::FinishEntry, cause, ..self }, ActionView::FinishEntry)
    }

    /// The record of the entry at hand.
    pub open spec fn pending(self) -> FileInfoView {
        match self.cause {
            Some(cause) => FileInfoView::failure(self.name, cause),
            None => FileInfoView::success(self.name, self.size),
        }
    }

    /// After the container's path was looked at: only a regular file is
    /// extracted; the target directory is looked at next.
    pub open spec fn after_source(self, probe: SourceProbe) -> (DirModel, ActionView) {
        match spec_source_for_dir(probe) {
            Err(cause) => self.fail(cause),
            Ok(len) => (
                DirModel { phase: DirPhase::Target, block_size: block_size_of(len), ..self },
                ActionView::ProbeTarget,
            ),
        }
    }

    /// Once a directory is known to be at the target: the container's path
    /// must hold no NUL byte; then the read session is allocated.
    pub open spec fn with_target(self) -> (DirModel, ActionView) {
        match terminated(self.source) {
            None => self.fail(LibArchiveError::NulError),
            Some(encoded) => (
                DirModel { phase: DirPhase::Create, encoded, ..self },
                ActionView::CreateReader,
            ),
        }
    }

    /// After the target directory's path was looked at: a missing directory
    /// is created, anything but a directory ends the extraction.
    pub open spec fn after_target(self, probe: TargetProbe) -> (DirModel, ActionView) {
        match probe {
            TargetProbe::Missing => (self.at(DirPhase::MakeTarget), ActionView::CreateTarget),
            TargetProbe::NotDir => self.fail(LibArchiveError::IsNotDir),
            TargetProbe::Dir => self.with_target(),
        }
    }

    /// After the target directory was asked for.
    pub open spec fn after_target_created(self, created: bool, is_dir: bool) -> (DirModel, ActionView) {
        if !created {
            self.fail(LibArchiveError::FailedCreateDirectory)
        } else if !is_dir {
            self.fail(LibArchiveError::IsNotDir)
        } else {
            self.with_target()
        }
    }

    /// After the read session was asked for.
    pub open spec fn after_handle(self, allocated: bool) -> (DirModel, ActionView) {
        if allocated {
            (self.at(DirPhase::Filters), ActionView::EnableFilters)
        } else {
            self.fail(LibArchiveError::FailedCreateArchive)
        }
    }

    /// After the filters were registered.
    pub open spec fn after_filters(self, code: i32) -> (DirModel, ActionView) {
        if code == 0 {
            (self.at(DirPhase::Formats), ActionView::EnableFormats)
        } else {
            self.abort_reader(LibArchiveError::spec_internal(code))
        }
    }

    /// After the formats were registered: the container is opened by its
    /// NUL-terminated path.
    pub open spec fn after_formats(self, code: i32) -> (DirModel, ActionView) {
        if code == 0 {
            (
                self.at(DirPhase::Open),
                ActionView::OpenReader { path: self.encoded, block_size: self.block_size },
            )
        } else {
            self.abort_reader(LibArchiveError::spec_internal(code))
        }
    }

    /// After the container was opened: the sink is allocated.
    pub open spec fn after_open(self, code: i32) -> (DirModel, ActionView) {
        if code == 0 {
            (self.at(DirPhase::CreateSink), ActionView::CreateSink)
        } else {
            self.abort_reader(LibArchiveError::spec_internal(code))
        }
    }

    /// After the sink was asked for: it is configured with the mask.
    pub open spec fn after_sink(self, allocated: bool) -> (DirModel, ActionView) {
        if allocated {
            (self.at(DirPhase::ConfigureSink), ActionView::ConfigureSink { flags: self.flags })
        } else {
            self.abort_reader(LibArchiveError::FailedCreateArchive)
        }
    }

    /// After the sink was configured, whatever it answered.
    pub open spec fn after_configured(self) -> (DirModel, ActionView) {
        (self.at(DirPhase::Header), ActionView::NextHeader)
    }

    /// After the read session was advanced. The end of the archive ends the
    /// loop; any status but success gives the whole extraction up. An entry
    /// without a usable name, or whose destination cannot be handed to the
    /// codec, fails alone; the header of any other entry is written to the
    /// sink under its destination below the target directory.
    pub open spec fn after_header(self, status: i32, pathname: Option<Seq<u8>>, size: i64) -> (
        DirModel,
        ActionView,
    ) {
        if status == 1 {
            (self.at(DirPhase::CloseSink), ActionView::CloseSink)
        } else if status != 0 {
            self.abort_both(LibArchiveError::spec_internal(status))
        } else {
            match decoded_text(pathname) {
                None => (DirModel { name: Seq::empty(), size: 0, ..self }).settle(
                    Some(LibArchiveError::FailedGetPathNameFromEntry),
                ),
                Some(name) => match terminated(joined(self.target, pathname->0)) {
                    None => (DirModel { name, size: 0, ..self }).settle(
                        Some(LibArchiveError::FailedGeneratePath),
                    ),
                    Some(path) => (
                        DirModel {
                            phase: DirPhase::WriteHeader,
                            name,
                            size: declared_count(size),
                            cause: None,
                            ..self
                        },
                        ActionView::WriteHeader { path },
                    ),
                },
            }
        }
    }

    /// After the header was written to the sink. A header the sink refused,
    /// and a declared size below one, fail the entry; else its data is
    /// pulled.
    pub open spec fn after_header_written(self, code: i32) -> (DirModel, ActionView) {
        if code != 0 {
            self.settle(Some(LibArchiveError::FailedWriteHeader))
        } else if self.size < 1 {
            self.settle(Some(LibArchiveError::EntrySizeLessThanOne))
        } else {
            (self.at(DirPhase::Data), ActionView::ReadBlock)
        }
    }

    /// After a block was pulled. A block goes to the sink as it came, with
    /// its offset; the end of the data completes the entry; any other
    /// status fails this entry alone.
    pub open spec fn after_block(self, status: i32, data: Seq<u8>, offset: i64) -> (
        DirModel,
        ActionView,
    ) {
        if status == 0 {
            (self.at(DirPhase::Write), ActionView::WriteBlock { data, offset })
        } else if status == 1 {
            self.settle(None)
        } else {
            self.settle(Some(LibArchiveError::FailedUncompress))
        }
    }

    /// After a block was written to the sink: a negative status fails the
    /// entry, and what was written of it stays.
    pub open spec fn after_block_written(self, code: i32) -> (DirModel, ActionView) {
        if code < 0 {
            self.settle(Some(LibArchiveError::FailedWriteFile))
        } else {
            (self.at(DirPhase::Data), ActionView::ReadBlock)
        }
    }

    /// After the entry was finished on the sink, whatever the sink answered:
    /// the entry is recorded and the next one is looked for.
    pub open spec fn after_finished(self) -> (DirModel, ActionView) {
        (
            DirModel {
                phase: DirPhase::Header,
                name: Seq::empty(),
                size: 0,
                cause: None,
                records: self.records.push(self.pending()),
                ..self
            },
            ActionView::NextHeader,
        )
    }

    /// After the sink was closed: it is freed only if closing succeeded.
    /// Either way the read session is released as well.
    pub open spec fn after_sink_closed(self, code: i32) -> (DirModel, ActionView) {
        if code == 0 {
            (self.at(DirPhase::FreeSink), ActionView::FreeSink)
        } else {
            (
                DirModel {
                    phase: DirPhase::Close,
                    fault: self.fault_or(LibArchiveError::spec_internal(code)),
                    ..self
                },
                ActionView::CloseReader,
            )
        }
    }

    /// After the sink was freed.
    pub open spec fn after_sink_freed(self, code: i32) -> (DirModel, ActionView) {
        (
            DirModel {
                phase: DirPhase::Close,
                fault: if code == 0 {
                    self.fault
                } else {
                    self.fault_or(LibArchiveError::spec_internal(code))
                },
                ..self
            },
            ActionView::CloseReader,
        )
    }

    /// After the read session was closed: it is freed only if closing
    /// succeeded.
    pub open spec fn after_close(self, code: i32) -> (DirModel, ActionView) {
        if code == 0 {
            (self.at(DirPhase::Free), ActionView::FreeReader)
        } else {
            (
                DirModel {
                    phase: DirPhase::Done,
                    fault: self.fault_or(LibArchiveError::FailedCloseReadArchive),
                    ..self
                },
                ActionView::Finish,
            )
        }
    }

    /// After the read session was freed.
    pub open spec fn after_free(self, code: i32) -> (DirModel, ActionView) {
        (
            DirModel {
                phase: DirPhase::Done,
                fault: if code == 0 {
                    self.fault
                } else {
                    self.fault_or(LibArchiveError::FailedFreeArchive)
                },
                ..self
            },
            ActionView::Finish,
        )
    }

    /// One step: the state after an event, and what the driver is to do
    /// next. An event that does not answer what was asked changes nothing.
    pub open spec fn step(self, event: EventView) -> (DirModel, ActionView) {
        match (self.phase, event) {
            (DirPhase::Probe, EventView::Source(probe)) => self.after_source(probe),
            (DirPhase::Target, EventView::Target(probe)) => self.after_target(probe),
            (DirPhase::MakeTarget, EventView::TargetCreated { created, is_dir }) =>
                self.after_target_created(created, is_dir),
            (DirPhase::Create, EventView::Handle { allocated }) => self.after_handle(allocated),
            (DirPhase::Filters, EventView::Status(code)) => self.after_filters(code),
            (DirPhase::Formats, EventView::Status(code)) => self.after_formats(code),
            (DirPhase::Open, EventView::Status(code)) => self.after_open(code),
            (DirPhase::CreateSink, EventView::Handle { allocated }) => self.after_sink(allocated),
            (DirPhase::ConfigureSink, EventView::Status(code)) => self.after_configured(),
            (DirPhase::Header, EventView::Header { status, pathname, size }) => self.after_header(
                status,
                pathname,
                size,
            ),
            (DirPhase::WriteHeader, EventView::Status(code)) => self.after_header_written(code),
            (DirPhase::Data, EventView::Block { status, data, offset }) => self.after_block(
                status,
                data,
                offset,
            ),
            (DirPhase::Write, EventView::Status(code)) => self.after_block_written(code),
            (DirPhase::FinishEntry, EventView::Status(code)) => self.after_finished(),
            (DirPhase::CloseSink, EventView::Status(code)) => self.after_sink_closed(code),
            (DirPhase::FreeSink, EventView::Status(code)) => self.after_sink_freed(code),
            (DirPhase::Close, EventView::Status(code)) => self.after_close(code),
            (DirPhase::Free, EventView::Status(code)) => self.after_free(code),
            _ => (self, ActionView::Unexpected),
        }
    }

    /// What the extraction returns once it is done: the first failure that
    /// ended it, with every record discarded, or else the records.
    pub open spec fn outcome(self) -> LibArchiveResult<Seq<FileInfoView>> {
        match self.fault {
            Some(cause) => Err(cause),
            None => Ok(self.records),
        }
    }

    /// The state after a run of events.
    pub open spec fn run(self, events: Seq<EventView>) -> DirModel
        decreases events.len(),
    {
        if events.len() == 0 {
            self
        } else {
            self.step(events[0]).0.run(events.drop_first())
        }
    }

    /// What the driver is told to do, event by event, in a run of events.
    pub open spec fn trace(self, events: Seq<EventView>) -> Seq<ActionView>
        decreases events.len(),
    {
        if events.len() == 0 {
            Seq::empty()
        } else {
            seq![self.step(events[0]).1] + self.step(events[0]).0.trace(events.drop_first())
        }
    }
}

/// An extraction of one container into a directory.
pub struct DirExtraction {
    phase: DirPhase,
    source: Vec<u8>,
    target: Vec<u8>,
    flags: i32,
    encoded: Vec<u8>,
    block_size: usize,
    name: String,
    size: usize,
    cause: Option<LibArchiveError>,
    records: Vec<FileInfo>,
    fault: Option<LibArchiveError>,
}

impl View for DirExtraction {
    type V = DirModel;

    closed spec fn view(&self) -> DirModel {
        DirModel {
            phase: self.phase,
            source: self.source@,
            target: self.target@,
            flags: self.flags,
            encoded: self.encoded@,
            block_size: self.block_size,
            name: self.name@,
            size: self.size,
            cause: self.cause,
            records: file_infos_view(self.records@),
            fault: self.fault,
        }
    }
}

impl DirExtraction {
    /// An extraction of the container at `file_path` into the directory at
    /// `target_dir_path` that has not begun. Without `flags` the sink
    /// preserves time, permissions, access control lists and file system
    /// flags.
    pub fn new(file_path: &str, target_dir_path: &str, flags: Option<i32>) -> (extraction:
        DirExtraction)
        ensures
            extraction@ == DirModel::initial(
                file_path.spec_bytes(),
                target_dir_path.spec_bytes(),
                flags,
            ),
    {
        let mut source: Vec<u8> = Vec::new();
        append_bytes(&mut source, file_path.as_bytes());
        assert(source@ =~= file_path.spec_bytes());
        let mut target: Vec<u8> = Vec::new();
        append_bytes(&mut target, target_dir_path.as_bytes());
        assert(target@ =~= target_dir_path.spec_bytes());
        let records: Vec<FileInfo> = Vec::new();
        assert(file_infos_view(records@) =~= Seq::empty());
        DirExtraction {
            phase: DirPhase::Probe,
            source,
            target,
            flags: resolve_flags(flags),
            encoded: Vec::new(),
            block_size: 0,
            name: String::new(),
            size: 0,
            cause: None,
            records,
            fault: None,
        }
    }

    /// The first thing the driver is to do.
    pub fn start(&self) -> (action: Action)
        ensures
            action@ == ActionView::ProbeSource,
    {
        Action::ProbeSource
    }

    /// The phase the extraction is in.
    pub fn phase(&self) -> (phase: DirPhase)
        ensures
            phase == self@.phase,
    {
        self.phase
    }

    fn fail(&mut self, cause: LibArchiveError) -> (action: Action)
        ensures
            (final(self)@, action@) == old(self)@.fail(cause),
    {
        self.phase = DirPhase::Done;
        self.fault = Some(cause);
        Action::Finish
    }

    fn abort_reader(&mut self, cause: LibArchiveError) -> (action: Action)
        ensures
            (final(self)@, action@) == old(self)@.abort_reader(cause),
    {
        self.phase = DirPhase::Close;
        self.fault = Some(cause);
        Action::CloseReader
    }

    fn abort_both(&mut self, cause: LibArchiveError) -> (action: Action)
        ensures
            (final(self)@, action@) == old(self)@.abort_both(cause),
    {
        self.phase = DirPhase::CloseSink;
        self.fault = Some(cause);
        Action::CloseSink
    }

    fn fault_or(&self, cause: LibArchiveError) -> (fault: Option<LibArchiveError>)
        ensures
            fault == self@.fault_or(cause),
    {
        match self.fault {
            Some(first) => Some(first),
            None => Some(cause),
        }
    }

    fn settle(&mut self, cause: Option<LibArchiveError>) -> (action: Action)
        ensures
            (final(self)@, action@) == old(self)@.settle(cause),
    {
        self.phase = DirPhase::FinishEntry;
        self.cause = cause;
        Action::FinishEntry
    }

    fn on_source(&mut self, probe: SourceProbe) -> (action: Action)
        ensures
            (final(self)@, action@) == old(self)@.after_source(probe),
    {
        match source_for_dir(probe) {
            Err(cause) => self.fail(cause),
            Ok(len) => {
                self.phase = DirPhase::Target;
                self.block_size = block_size(len);
                Action::ProbeTarget
            },
        }
    }

    fn with_target(&mut self) -> (action: Action)
        ensures
            (final(self)@, action@) == old(self)@.with_target(),
    {
        match nul_terminated(self.source.as_slice()) {
            None => self.fail(LibArchiveError::NulError),
            Some(encoded) => {
                self.phase = DirPhase::Create;
                self.encoded = encoded;
                Action::CreateReader
            },
        }
    }

    fn on_target(&mut self, probe: TargetProbe) -> (action: Action)
        ensures
            (final(self)@, action@) == old(self)@.after_target(probe),
    {
        match probe {
            TargetProbe::Missing => {
                self.phase = DirPhase::MakeTarget;
                Action::CreateTarget
            },
            TargetProbe::NotDir => self.fail(LibArchiveError::IsNotDir),
            TargetProbe::Dir => self.with_target(),
        }
    }

    fn on_target_created(&mut self, created: bool, is_dir: bool) -> (action: Action)
        ensures
            (final(self)@, action@) == old(self)@.after_target_created(created, is_dir),
    {
        if !created {
            self.fail(LibArchiveError::FailedCreateDirectory)
        } else if !is_dir {
            self.fail(LibArchiveError::IsNotDir)
        } else {
            self.with_target()
        }
    }

    fn on_handle(&mut self, allocated: bool) -> (action: Action)
        ensures
            (final(self)@, action@) == old(self)@.after_handle(allocated),
    {
        if allocated {
            self.phase = DirPhase::Filters;
            Action::EnableFilters
        } else {
            self.fail(LibArchiveError::FailedCreateArchive)
        }
    }

    fn on_filters(&mut self, code: i32) -> (action: Action)
        ensures
            (final(self)@, action@) == old(self)@.after_filters(code),
    {
        match check_status(code) {
            Ok(()) => {
                self.phase = DirPhase::Formats;
                Action::EnableFormats
            },
            Err(cause) => self.abort_reader(cause),
        }
    }

    fn on_formats(&mut self, code: i32) -> (action: Action)
        ensures
            (final(self)@, action@) == old(self)@.after_formats(code),
    {
        match check_status(code) {
            Ok(()) => {
                self.phase = DirPhase::Open;
                let mut path: Vec<u8> = Vec::new();
                append_bytes(&mut path, self.encoded.as_slice());
                assert(path@ =~= self.encoded@);
                Action::OpenReader { path, block_size: self.block_size }
            },
            Err(cause) => self.abort_reader(cause),
        }
    }

    fn on_open(&mut self, code: i32) -> (action: Action)
        ensures
            (final(self)@, action@) == old(self)@.after_open(code),
    {
        match check_status(code) {
            Ok(()) => {
                self.phase = DirPhase::CreateSink;
                Action::CreateSink
            },
            Err(cause) => self.abort_reader(cause),
        }
    }

    fn on_sink(&mut self, allocated: bool) -> (action: Action)
        ensures
            (final(self)@, action@) == old(self)@.after_sink(allocated),
    {
        if allocated {
            self.phase = DirPhase::ConfigureSink;
            Action::ConfigureSink { flags: self.flags }
        } else {
            self.abort_reader(LibArchiveError::FailedCreateArchive)
        }
    }

    fn on_configured(&mut self) -> (action: Action)
        ensures
            (final(self)@, action@) == old(self)@.after_configured(),
    {
        self.phase = DirPhase::Header;
        Action::NextHeader
    }

    fn on_header(&mut self, status: i32, pathname: Option<Vec<u8>>, size: i64) -> (action: Action)
        ensures
            (final(self)@, action@) == old(self)@.after_header(
                status,
                match pathname {
                    Some(bytes) => Some(bytes@),
                    None => None,
                },
                size,
            ),
    {
        if status == 1 {
            self.phase = DirPhase::CloseSink;
            Action::CloseSink
        } else if status != 0 {
            self.abort_both(LibArchiveError::internal(status))
        } else {
            match &pathname {
                None => {
                    self.name = String::new();
                    self.size = 0;
                    self.settle(Some(LibArchiveError::FailedGetPathNameFromEntry))
                },
                Some(raw) => match get_pathname_from_entry(Some(raw.as_slice())) {
                    Err(cause) => {
                        self.name = String::new();
                        self.size = 0;
                        self.settle(Some(cause))
                    },
                    Ok(name) => {
                        let destination = join_destination(self.target.as_slice(), raw.as_slice());
                        self.name = name;
                        match nul_terminated(destination.as_slice()) {
                            None => {
                                self.size = 0;
                                self.settle(Some(LibArchiveError::FailedGeneratePath))
                            },
                            Some(path) => {
                                self.phase = DirPhase::WriteHeader;
                                self.size = declared_size_to_count(size);
                                self.cause = None;
                                Action::WriteHeader { path }
                            },
                        }
                    },
                },
            }
        }
    }

    fn on_header_written(&mut self, code: i32) -> (action: Action)
        ensures
            (final(self)@, action@) == old(self)@.after_header_written(code),
    {
        if code != 0 {
            self.settle(Some(LibArchiveError::FailedWriteHeader))
        } else if self.size < 1 {
            self.settle(Some(LibArchiveError::EntrySizeLessThanOne))
        } else {
            self.phase = DirPhase::Data;
            Action::ReadBlock
        }
    }

    fn on_block(&mut self, status: i32, data: Vec<u8>, offset: i64) -> (action: Action)
        ensures
            (final(self)@, action@) == old(self)@.after_block(status, data@, offset),
    {
        if status == 0 {
            self.phase = DirPhase::Write;
            Action::WriteBlock { data, offset }
        } else if status == 1 {
            self.settle(None)
        } else {
            self.settle(Some(LibArchiveError::FailedUncompress))
        }
    }

    fn on_block_written(&mut self, code: i32) -> (action: Action)
        ensures
            (final(self)@, action@) == old(self)@.after_block_written(code),
    {
        if code < 0 {
            self.settle(Some(LibArchiveError::FailedWriteFile))
        } else {
            self.phase = DirPhase::Data;
            Action::ReadBlock
        }
    }

    fn on_finished(&mut self) -> (action: Action)
        ensures
            (final(self)@, action@) == old(self)@.after_finished(),
    {
        let mut name = String::new();
        core::mem::swap(&mut self.name, &mut name);
        let entry = match self.cause {
            Some(cause) => FileInfo::failure(name, cause),
            None => FileInfo::success(name, self.size),
        };
        proof {
            old(self).records@.lemma_push_map_commute(|r: FileInfo| r@, entry);
        }
        self.phase = DirPhase::Header;
        self.size = 0;
        self.cause = None;
        self.records.push(entry);
        Action::NextHeader
    }

    fn on_sink_closed(&mut self, code: i32) -> (action: Action)
        ensures
            (final(self)@, action@) == old(self)@.after_sink_closed(code),
    {
        if code == 0 {
            self.phase = DirPhase::FreeSink;
            Action::FreeSink
        } else {
            self.fault = self.fault_or(LibArchiveError::internal(code));
            self.phase = DirPhase::Close;
            Action::CloseReader
        }
    }

    fn on_sink_freed(&mut self, code: i32) -> (action: Action)
        ensures
            (final(self)@, action@) == old(self)@.after_sink_freed(code),
    {
        if code != 0 {
            self.fault = self.fault_or(LibArchiveError::internal(code));
        }
        self.phase = DirPhase::Close;
        Action::CloseReader
    }

    fn on_close(&mut self, code: i32) -> (action: Action)
        ensures
            (final(self)@, action@) == old(self)@.after_close(code),
    {
        if code == 0 {
            self.phase = DirPhase::Free;
            Action::FreeReader
        } else {
            self.fault = self.fault_or(LibArchiveError::FailedCloseReadArchive);
            self.phase = DirPhase::Done;
            Action::Finish
        }
    }

    fn on_free(&mut self, code: i32) -> (action: Action)
        ensures
            (final(self)@, action@) == old(self)@.after_free(code),
    {
        if code != 0 {
            self.fault = self.fault_or(LibArchiveError::FailedFreeArchive);
        }
        self.phase = DirPhase::Done;
        Action::Finish
    }

    /// Takes what the driver observed and says what it is to do next.
    pub fn step(&mut self, event: Event) -> (action: Action)
        ensures
            (final(self)@, action@) == old(self)@.step(event@),
    {
        match self.phase {
            DirPhase::Probe => match event {
                Event::Source(probe) => self.on_source(probe),
                _ => Action::Unexpected,
            },
            DirPhase::Target => match event {
                Event::Target(probe) => self.on_target(probe),
                _ => Action::Unexpected,
            },
            DirPhase::MakeTarget => match event {
                Event::TargetCreated { created, is_dir } => self.on_target_created(created, is_dir),
                _ => Action::Unexpected,
            },
            DirPhase::Create => match event {
                Event::Handle { allocated } => self.on_handle(allocated),
                _ => Action::Unexpected,
            },
            DirPhase::Filters => match event {
                Event::Status(code) => self.on_filters(code),
                _ => Action::Unexpected,
            },
            DirPhase::Formats => match event {
                Event::Status(code) => self.on_formats(code),
                _ => Action::Unexpected,
            },
            DirPhase::Open => match event {
                Event::Status(code) => self.on_open(code),
                _ => Action::Unexpected,
            },
            DirPhase::CreateSink => match event {
                Event::Handle { allocated } => self.on_sink(allocated),
                _ => Action::Unexpected,
            },
            DirPhase::ConfigureSink => match event {
                Event::Status(code) => self.on_configured(),
                _ => Action::Unexpected,
            },
            DirPhase::Header => match event {
                Event::Header { status, pathname, size } => self.on_header(status, pathname, size),
                _ => Action::Unexpected,
            },
            DirPhase::WriteHeader => match event {
                Event::Status(code) => self.on_header_written(code),
                _ => Action::Unexpected,
            },
            DirPhase::Data => match event {
                Event::Block { status, data, offset } => self.on_block(status, data, offset),
                _ => Action::Unexpected,
            },
            DirPhase::Write => match event {
                Event::Status(code) => self.on_block_written(code),
                _ => Action::Unexpected,
            },
            DirPhase::FinishEntry => match event {
                Event::Status(code) => self.on_finished(),
                _ => Action::Unexpected,
            },
            DirPhase::CloseSink => match event {
                Event::Status(code) => self.on_sink_closed(code),
                _ => Action::Unexpected,
            },
            DirPhase::FreeSink => match event {
                Event::Status(code) => self.on_sink_freed(code),
                _ => Action::Unexpected,
            },
            DirPhase::Close => match event {
                Event::Status(code) => self.on_close(code),
                _ => Action::Unexpected,
            },
            DirPhase::Free => match event {
                Event::Status(code) => self.on_free(code),
                _ => Action::Unexpected,
            },
            DirPhase::Done => Action::Unexpected,
        }
    }

    /// The result of the extraction, once nothing is left to do: the first
    /// failure that ended it, or the records of all entries in order.
    pub fn finish(self) -> (result: Option<LibArchiveResult<Vec<FileInfo>>>)
        ensures
            result is Some <==> self@.phase == DirPhase::Done,
            match result {
                Some(Ok(records)) => self@.outcome() == Ok::<Seq<FileInfoView>, LibArchiveError>(
                    file_infos_view(records@),
                ),
                Some(Err(cause)) => self@.outcome() == Err::<Seq<FileInfoView>, LibArchiveError>(
                    cause,
                ),
                None => true,
            },
    {
        match self.phase {
            DirPhase::Done => match self.fault {
                Some(cause) => Some(Err(cause)),
                None => Some(Ok(self.records)),
            },
            _ => None,
        }
    }
}

} // verus!
