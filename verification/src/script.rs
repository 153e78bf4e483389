//! What a container answers, written down as a script, and what an
//! extraction makes of it. The laws here speak of the models alone; the
//! executable extractions follow their models step by step.

use crate::error::LibArchiveError;
use crate::memory::{MemoryModel, MemoryPhase};
use crate::path::{decoded_text, terminated};
use crate::protocol::{ActionView, EventView, SourceProbe};
use crate::report::{declared_count, DecompressedDataView};
use vstd::prelude::*;

verus! {

/// One data block of an entry: its bytes and its offset in the entry.
pub struct BlockScript {
    pub data: Seq<u8>,
    pub offset: i64,
}

/// One entry of a container: the name and the size it declares, the blocks
/// that are pulled with success, and the status that ends the pulling.
pub struct EntryScript {
    pub pathname: Option<Seq<u8>>,
    pub size: i64,
    pub blocks: Seq<BlockScript>,
    pub end: i32,
}

/// The bytes of some blocks, one after the other in the order given.
pub open spec fn concat(blocks: Seq<BlockScript>) -> Seq<u8>
    decreases blocks.len(),
{
    if blocks.len() == 0 {
        Seq::empty()
    } else {
        blocks[0].data + concat(blocks.drop_first())
    }
}

/// The events of pulling some blocks with success.
pub open spec fn block_events(blocks: Seq<BlockScript>) -> Seq<EventView> {
    blocks.map_values(
        |b: BlockScript| EventView::Block { status: 0, data: b.data, offset: b.offset },
    )
}

impl EntryScript {
    /// The pulling of an entry's data ends with a status other than success.
    pub open spec fn well_formed(self) -> bool {
        self.end != 0
    }

    /// The entry has a name that is text.
    pub open spec fn named(self) -> bool {
        decoded_text(self.pathname) is Some
    }

    /// The name of the entry as it is reported: empty where it has none.
    pub open spec fn name(self) -> Seq<char> {
        match decoded_text(self.pathname) {
            Some(name) => name,
            None => Seq::empty(),
        }
    }

    /// All the bytes of the entry.
    pub open spec fn bytes(self) -> Seq<u8> {
        concat(self.blocks)
    }

    /// Nothing is wrong with the entry: it has a name, it declares a size of
    /// at least one, and its data ends with the end-of-data status.
    pub open spec fn clean(self) -> bool {
        self.named() && self.size >= 1 && self.end == 1
    }

    /// The event of the read session reaching this entry.
    pub open spec fn header(self) -> EventView {
        EventView::Header { status: 0, pathname: self.pathname, size: self.size }
    }

    /// The event that ends the pulling of this entry's data.
    pub open spec fn last_block(self) -> EventView {
        EventView::Block { status: self.end, data: Seq::empty(), offset: 0 }
    }

    /// What the driver observes of this entry in an extraction to memory:
    /// the header, and the blocks if the entry is one whose data is pulled.
    pub open spec fn memory_events(self) -> Seq<EventView> {
        if self.named() && self.size >= 1 {
            seq![self.header()] + block_events(self.blocks) + seq![self.last_block()]
        } else {
            seq![self.header()]
        }
    }

    /// What an extraction to memory reports of this entry.
    pub open spec fn memory_record(self) -> DecompressedDataView {
        if !self.named() {
            DecompressedDataView::failure(
                Seq::empty(),
                LibArchiveError::FailedGetPathNameFromEntry,
            )
        } else if self.size < 1 {
            DecompressedDataView::failure(self.name(), LibArchiveError::EntrySizeLessThanOne)
        } else if self.end == 1 {
            DecompressedDataView::success(self.name(), declared_count(self.size), self.bytes())
        } else {
            DecompressedDataView::failure(self.name(), LibArchiveError::FailedUncompress)
        }
    }
}

/// What the driver observes of some entries, one after the other, in an
/// extraction to memory.
pub open spec fn memory_entries_events(entries: Seq<EntryScript>) -> Seq<EventView>
    decreases entries.len(),
{
    if entries.len() == 0 {
        Seq::empty()
    } else {
        memory_entries_events(entries.drop_last()) + entries.last().memory_events()
    }
}

/// What the driver observes until a container of `len` bytes is open.
pub open spec fn opening_events(len: u64) -> Seq<EventView> {
    seq![
        EventView::Source(SourceProbe::File { len }),
        EventView::Handle { allocated: true },
        EventView::Status(0),
        EventView::Status(0),
        EventView::Status(0),
    ]
}

/// What the driver observes from the end of the archive on, when the read
/// session is released without trouble.
pub open spec fn closing_events() -> Seq<EventView> {
    seq![
        EventView::Header { status: 1, pathname: None, size: 0 },
        EventView::Status(0),
        EventView::Status(0),
    ]
}

/// Everything the driver observes in an extraction to memory of a container
/// of `len` bytes that holds these entries.
pub open spec fn memory_events(len: u64, entries: Seq<EntryScript>) -> Seq<EventView> {
    opening_events(len) + memory_entries_events(entries) + closing_events()
}

/// A run of events can be split anywhere: the second part goes on where the
/// first one left.
pub proof fn lemma_memory_run_split(s: MemoryModel, a: Seq<EventView>, b: Seq<EventView>)
    ensures
        s.run(a + b) == s.run(a).run(b),
    decreases a.len(),
{
    if a.len() == 0 {
        assert(a + b =~= b);
    } else {
        assert((a + b)[0] == a[0]);
        assert((a + b).drop_first() =~= a.drop_first() + b);
        lemma_memory_run_split(s.step(a[0]).0, a.drop_first(), b);
    }
}

/// One event is one step.
pub proof fn lemma_memory_run_one(s: MemoryModel, e: EventView)
    ensures
        s.run(seq![e]) == s.step(e).0,
{
    assert(seq![e].drop_first() =~= Seq::<EventView>::empty());
    assert(s.run(seq![e]) == s.step(e).0.run(seq![e].drop_first()));
}

/// Blocks that are pulled with success are appended in the order they come.
pub proof fn lemma_memory_run_blocks(s: MemoryModel, blocks: Seq<BlockScript>)
    requires
        s.phase == MemoryPhase::Data,
    ensures
        s.run(block_events(blocks)) == (MemoryModel { buffer: s.buffer + concat(blocks), ..s }),
    decreases blocks.len(),
{
    let events = block_events(blocks);
    if blocks.len() == 0 {
        assert(s.buffer + concat(blocks) =~= s.buffer);
    } else {
        let next = s.step(events[0]).0;
        assert(events.drop_first() =~= block_events(blocks.drop_first()));
        lemma_memory_run_blocks(next, blocks.drop_first());
        assert((s.buffer + blocks[0].data) + concat(blocks.drop_first()) =~= s.buffer + concat(
            blocks,
        ));
    }
}

/// Whatever an entry holds, an extraction to memory that stands before it
/// ends up before the next one, with one record more: the record of that
/// entry.
pub proof fn lemma_memory_run_entry(s: MemoryModel, entry: EntryScript)
    requires
        s.phase == MemoryPhase::Header,
        entry.well_formed(),
    ensures
        s.run(entry.memory_events()) == s.record(entry.memory_record()).0,
{
    let head = seq![entry.header()];
    lemma_memory_run_one(s, entry.header());
    if entry.named() && entry.size >= 1 {
        let pulling = s.step(entry.header()).0;
        let tail = seq![entry.last_block()];
        lemma_memory_run_split(s, head + block_events(entry.blocks), tail);
        lemma_memory_run_split(s, head, block_events(entry.blocks));
        lemma_memory_run_blocks(pulling, entry.blocks);
        let pulled = pulling.run(block_events(entry.blocks));
        lemma_memory_run_one(pulled, entry.last_block());
        assert(pulled.buffer =~= entry.bytes());
    }
}

/// The records of some entries, in order.
pub open spec fn memory_records(entries: Seq<EntryScript>) -> Seq<DecompressedDataView> {
    entries.map_values(|e: EntryScript| e.memory_record())
}

/// Entry after entry, an extraction to memory adds the record of each, and
/// no entry changes the record of another.
pub proof fn lemma_memory_run_entries(s: MemoryModel, entries: Seq<EntryScript>)
    requires
        s.phase == MemoryPhase::Header,
        s.name == Seq::<char>::empty(),
        s.size == 0,
        s.buffer == Seq::<u8>::empty(),
        forall|i: int| 0 <= i < entries.len() ==> (#[trigger] entries[i]).well_formed(),
    ensures
        s.run(memory_entries_events(entries)) == (MemoryModel {
            records: s.records + memory_records(entries),
            ..s
        }),
    decreases entries.len(),
{
    if entries.len() == 0 {
        assert(s.records + memory_records(entries) =~= s.records);
    } else {
        let front = entries.drop_last();
        let last = entries.last();
        lemma_memory_run_entries(s, front);
        lemma_memory_run_split(s, memory_entries_events(front), last.memory_events());
        let before = s.run(memory_entries_events(front));
        lemma_memory_run_entry(before, last);
        assert((s.records + memory_records(front)).push(last.memory_record()) =~= s.records
            + memory_records(entries));
    }
}

/// An extraction to memory of a container that can be opened reports one
/// record for each entry, in the order of the entries, and each record is
/// what its own entry alone makes it: an entry that fails takes no other
/// entry with it.
pub proof fn law_memory_report(source: Seq<u8>, len: u64, entries: Seq<EntryScript>)
    requires
        terminated(source) is Some,
        forall|i: int| 0 <= i < entries.len() ==> (#[trigger] entries[i]).well_formed(),
    ensures
        MemoryModel::initial(source).run(memory_events(len, entries)).phase == MemoryPhase::Done,
        MemoryModel::initial(source).run(memory_events(len, entries)).outcome() == Ok::<
            Seq<DecompressedDataView>,
            LibArchiveError,
        >(memory_records(entries)),
        memory_records(entries).len() == entries.len(),
        forall|i: int|
            0 <= i < entries.len() ==> (#[trigger] memory_records(entries)[i])
                == entries[i].memory_record(),
{
    let start = MemoryModel::initial(source);
    let opening = opening_events(len);
    let middle = memory_entries_events(entries);
    let closing = closing_events();
    lemma_memory_run_split(start, opening + middle, closing);
    lemma_memory_run_split(start, opening, middle);

    let s1 = start.step(opening[0]).0;
    let s2 = s1.step(opening[1]).0;
    let s3 = s2.step(opening[2]).0;
    let s4 = s3.step(opening[3]).0;
    let s5 = s4.step(opening[4]).0;
    assert(start.run(opening) == s5) by {
        let o1 = opening.drop_first();
        let o2 = o1.drop_first();
        let o3 = o2.drop_first();
        let o4 = o3.drop_first();
        let o5 = o4.drop_first();
        assert(o1[0] == opening[1]);
        assert(o2[0] == opening[2]);
        assert(o3[0] == opening[3]);
        assert(o4[0] == opening[4]);
        assert(o5.len() == 0);
        assert(start.run(opening) == s1.run(o1));
        assert(s1.run(o1) == s2.run(o2));
        assert(s2.run(o2) == s3.run(o3));
        assert(s3.run(o3) == s4.run(o4));
        assert(s4.run(o4) == s5.run(o5));
    }
    assert(s5.phase == MemoryPhase::Header);
    assert(s5.records =~= Seq::<DecompressedDataView>::empty());
    lemma_memory_run_entries(s5, entries);
    let s6 = s5.run(middle);
    assert(s6.records =~= memory_records(entries));

    let t1 = s6.step(closing[0]).0;
    let t2 = t1.step(closing[1]).0;
    let t3 = t2.step(closing[2]).0;
    assert(s6.run(closing) == t3) by {
        let c1 = closing.drop_first();
        let c2 = c1.drop_first();
        let c3 = c2.drop_first();
        assert(c1[0] == closing[1]);
        assert(c2[0] == closing[2]);
        assert(c3.len() == 0);
        assert(s6.run(closing) == t1.run(c1));
        assert(t1.run(c1) == t2.run(c2));
        assert(t2.run(c2) == t3.run(c3));
    }
}

/// From a container in which nothing is wrong, an extraction to memory
/// reports exactly one record for each entry, each one a success under the
/// entry's stored name, with all the bytes that were pulled for it; and
/// where an entry declares the size that its data has, the size reported is
/// the number of those bytes.
pub proof fn law_memory_clean_container(source: Seq<u8>, len: u64, entries: Seq<EntryScript>)
    requires
        terminated(source) is Some,
        forall|i: int| 0 <= i < entries.len() ==> (#[trigger] entries[i]).clean(),
    ensures
        MemoryModel::initial(source).run(memory_events(len, entries)).outcome() matches Ok(records)
            && records.len() == entries.len() && forall|i: int|
            0 <= i < entries.len() ==> {
                &&& (#[trigger] records[i]).file_info.is_success
                &&& records[i].file_info.error is None
                &&& Some(records[i].file_info.file_name) == decoded_text(entries[i].pathname)
                &&& records[i].value == entries[i].bytes()
                &&& records[i].file_info.size == declared_count(entries[i].size)
                &&& entries[i].size == entries[i].bytes().len() && entries[i].size <= usize::MAX
                    ==> records[i].file_info.size == records[i].value.len()
            },
{
    assert forall|i: int| 0 <= i < entries.len() implies (#[trigger] entries[i]).well_formed() by {
        assert(entries[i].clean());
    }
    law_memory_report(source, len, entries);
    let records = memory_records(entries);
    assert forall|i: int| 0 <= i < entries.len() implies {
        &&& (#[trigger] records[i]).file_info.is_success
        &&& records[i].file_info.error is None
        &&& Some(records[i].file_info.file_name) == decoded_text(entries[i].pathname)
        &&& records[i].value == entries[i].bytes()
        &&& records[i].file_info.size == declared_count(entries[i].size)
        &&& entries[i].size == entries[i].bytes().len() && entries[i].size <= usize::MAX
            ==> records[i].file_info.size == records[i].value.len()
    } by {
        assert(entries[i].clean());
        assert(records[i] == entries[i].memory_record());
    }
}

/// An extraction to memory is a function of what the driver observed: two
/// extractions of the same path that are handed the same events end in the
/// same state, with the same records in the same order.
pub proof fn law_memory_repeatable(source: Seq<u8>, first: Seq<EventView>, second: Seq<EventView>)
    requires
        first == second,
    ensures
        MemoryModel::initial(source).run(first) == MemoryModel::initial(source).run(second),
        MemoryModel::initial(source).run(first).outcome() == MemoryModel::initial(source).run(
            second,
        ).outcome(),
{
}

/// Where the container is not a regular file that can be read, an
/// extraction to memory ends with the first event: the driver is told to
/// do nothing but finish, and the failure says what was found.
pub proof fn law_memory_rejects_source(source: Seq<u8>, probe: SourceProbe)
    requires
        !(probe is File),
    ensures
        MemoryModel::initial(source).step(EventView::Source(probe)).1 == ActionView::Finish,
        MemoryModel::initial(source).step(EventView::Source(probe)).0.phase == MemoryPhase::Done,
        MemoryModel::initial(source).step(EventView::Source(probe)).0.outcome() == Err::<
            Seq<DecompressedDataView>,
            LibArchiveError,
        >(
            if probe is NotFile {
                LibArchiveError::IsNotFile
            } else {
                LibArchiveError::FailedGetMetaDataFromFile
            },
        ),
{
}

} // verus!
