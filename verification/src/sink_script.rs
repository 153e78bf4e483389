//! What an extraction to a directory makes of a container, entry by entry,
//! when the sink takes every block it is handed.

use crate::disk::{DirModel, DirPhase};
use crate::error::LibArchiveError;
use crate::path::{joined, terminated};
use crate::protocol::{ActionView, EventView, SourceProbe, TargetProbe};
use crate::report::{declared_count, FileInfoView};
use crate::script::{concat, BlockScript, EntryScript};
use vstd::prelude::*;

verus! {

/// One entry as the driver meets it in an extraction to a directory: the
/// entry, what the sink answers when the header is written to it, and what
/// it answers when the entry is finished.
pub struct SinkEntryScript {
    pub entry: EntryScript,
    pub header: i32,
    pub finish: i32,
}

/// The events of pulling some blocks with success and writing each of them
/// to a sink that takes it.
pub open spec fn write_events(blocks: Seq<BlockScript>) -> Seq<EventView>
    decreases blocks.len(),
{
    if blocks.len() == 0 {
        Seq::empty()
    } else {
        seq![
            EventView::Block { status: 0, data: blocks[0].data, offset: blocks[0].offset },
            EventView::Status(0),
        ] + write_events(blocks.drop_first())
    }
}

/// The blocks that a run of actions hands to the sink, in order.
pub open spec fn written(actions: Seq<ActionView>) -> Seq<BlockScript>
    decreases actions.len(),
{
    if actions.len() == 0 {
        Seq::empty()
    } else {
        match actions[0] {
            ActionView::WriteBlock { data, offset } => seq![BlockScript { data, offset }] + written(
                actions.drop_first(),
            ),
            _ => written(actions.drop_first()),
        }
    }
}

/// How often a run of actions finishes an entry on the sink.
pub open spec fn finished(actions: Seq<ActionView>) -> nat
    decreases actions.len(),
{
    if actions.len() == 0 {
        0
    } else if actions[0] is FinishEntry {
        1 + finished(actions.drop_first())
    } else {
        finished(actions.drop_first())
    }
}

impl SinkEntryScript {
    /// The entry has a name, and its destination below `target` can be
    /// handed to the codec.
    pub open spec fn placed(self, target: Seq<u8>) -> bool {
        self.entry.named() && terminated(joined(target, self.entry.pathname->0)) is Some
    }

    /// The data of the entry is pulled: it is placed, the sink took its
    /// header, and it declares a size of at least one.
    pub open spec fn streamed(self, target: Seq<u8>) -> bool {
        self.placed(target) && self.header == 0 && self.entry.size >= 1
    }

    /// What the driver observes of this entry.
    pub open spec fn events(self, target: Seq<u8>) -> Seq<EventView> {
        if !self.placed(target) {
            seq![self.entry.header(), EventView::Status(self.finish)]
        } else if !self.streamed(target) {
            seq![self.entry.header(), EventView::Status(self.header), EventView::Status(self.finish)]
        } else {
            seq![self.entry.header(), EventView::Status(self.header)] + write_events(
                self.entry.blocks,
            ) + seq![self.entry.last_block(), EventView::Status(self.finish)]
        }
    }

    /// What an extraction to a directory reports of this entry.
    pub open spec fn record(self, target: Seq<u8>) -> FileInfoView {
        if !self.entry.named() {
            FileInfoView::failure(Seq::empty(), LibArchiveError::FailedGetPathNameFromEntry)
        } else if !self.placed(target) {
            FileInfoView::failure(self.entry.name(), LibArchiveError::FailedGeneratePath)
        } else if self.header != 0 {
            FileInfoView::failure(self.entry.name(), LibArchiveError::FailedWriteHeader)
        } else if self.entry.size < 1 {
            FileInfoView::failure(self.entry.name(), LibArchiveError::EntrySizeLessThanOne)
        } else if self.entry.end == 1 {
            FileInfoView::success(self.entry.name(), declared_count(self.entry.size))
        } else {
            FileInfoView::failure(self.entry.name(), LibArchiveError::FailedUncompress)
        }
    }

    /// The blocks of this entry that reach the sink: all that were pulled,
    /// if its data is pulled at all.
    pub open spec fn writes(self, target: Seq<u8>) -> Seq<BlockScript> {
        if self.streamed(target) {
            self.entry.blocks
        } else {
            Seq::empty()
        }
    }
}

/// What the driver observes of some entries, one after the other.
pub open spec fn entries_events(target: Seq<u8>, entries: Seq<SinkEntryScript>) -> Seq<EventView>
    decreases entries.len(),
{
    if entries.len() == 0 {
        Seq::empty()
    } else {
        entries_events(target, entries.drop_last()) + entries.last().events(target)
    }
}

/// The blocks of some entries that reach the sink, entry after entry.
pub open spec fn entries_writes(target: Seq<u8>, entries: Seq<SinkEntryScript>) -> Seq<BlockScript>
    decreases entries.len(),
{
    if entries.len() == 0 {
        Seq::empty()
    } else {
        entries_writes(target, entries.drop_last()) + entries.last().writes(target)
    }
}

/// The records of some entries, in order.
pub open spec fn records(target: Seq<u8>, entries: Seq<SinkEntryScript>) -> Seq<FileInfoView> {
    entries.map_values(|e: SinkEntryScript| e.record(target))
}

/// What the driver observes until a container of `len` bytes is open and
/// the sink is ready, where the target directory exists.
pub open spec fn opening_events(len: u64, configured: i32) -> Seq<EventView> {
    seq![
        EventView::Source(SourceProbe::File { len }),
        EventView::Target(TargetProbe::Dir),
        EventView::Handle { allocated: true },
        EventView::Status(0),
        EventView::Status(0),
        EventView::Status(0),
        EventView::Handle { allocated: true },
        EventView::Status(configured),
    ]
}

/// What the driver observes from the end of the archive on, when both
/// sessions are released without trouble.
pub open spec fn closing_events() -> Seq<EventView> {
    seq![
        EventView::Header { status: 1, pathname: None, size: 0 },
        EventView::Status(0),
        EventView::Status(0),
        EventView::Status(0),
        EventView::Status(0),
    ]
}

/// Everything the driver observes in an extraction to an existing directory.
pub open spec fn dir_events(
    target: Seq<u8>,
    len: u64,
    configured: i32,
    entries: Seq<SinkEntryScript>,
) -> Seq<EventView> {
    opening_events(len, configured) + entries_events(target, entries) + closing_events()
}

/// A run of events can be split anywhere: the second part goes on where the
/// first one left, and so does what the driver is told.
pub proof fn lemma_dir_run_split(s: DirModel, a: Seq<EventView>, b: Seq<EventView>)
    ensures
        s.run(a + b) == s.run(a).run(b),
        s.trace(a + b) == s.trace(a) + s.run(a).trace(b),
    decreases a.len(),
{
    if a.len() == 0 {
        assert(a + b =~= b);
        assert(s.trace(a) + s.run(a).trace(b) =~= s.trace(b));
    } else {
        assert((a + b)[0] == a[0]);
        assert((a + b).drop_first() =~= a.drop_first() + b);
        let next = s.step(a[0]).0;
        lemma_dir_run_split(next, a.drop_first(), b);
        assert(seq![s.step(a[0]).1] + (next.trace(a.drop_first()) + next.run(a.drop_first()).trace(
            b,
        )) =~= s.trace(a) + s.run(a).trace(b));
    }
}

/// One event is one step.
pub proof fn lemma_dir_run_one(s: DirModel, e: EventView)
    ensures
        s.run(seq![e]) == s.step(e).0,
        s.trace(seq![e]) == seq![s.step(e).1],
{
    assert(seq![e].drop_first() =~= Seq::<EventView>::empty());
    assert(s.run(seq![e]) == s.step(e).0.run(seq![e].drop_first()));
    assert(s.step(e).0.trace(seq![e].drop_first()) =~= Seq::<ActionView>::empty());
    assert(s.trace(seq![e]) == seq![s.step(seq![e][0]).1] + s.step(seq![e][0]).0.trace(
        seq![e].drop_first(),
    ));
    assert(s.trace(seq![e]) =~= seq![s.step(e).1]);
}

/// Two events are two steps.
pub proof fn lemma_dir_run_two(s: DirModel, e1: EventView, e2: EventView)
    ensures
        s.run(seq![e1, e2]) == s.step(e1).0.step(e2).0,
        s.trace(seq![e1, e2]) == seq![s.step(e1).1, s.step(e1).0.step(e2).1],
{
    assert(seq![e1, e2] =~= seq![e1] + seq![e2]);
    lemma_dir_run_split(s, seq![e1], seq![e2]);
    lemma_dir_run_one(s, e1);
    lemma_dir_run_one(s.step(e1).0, e2);
    assert(seq![s.step(e1).1] + seq![s.step(e1).0.step(e2).1] =~= seq![
        s.step(e1).1,
        s.step(e1).0.step(e2).1,
    ]);
}

/// What reaches the sink in two runs of actions, one after the other.
pub proof fn lemma_written_split(a: Seq<ActionView>, b: Seq<ActionView>)
    ensures
        written(a + b) == written(a) + written(b),
    decreases a.len(),
{
    if a.len() == 0 {
        assert(a + b =~= b);
        assert(written(a) + written(b) =~= written(b));
    } else {
        assert((a + b)[0] == a[0]);
        assert((a + b).drop_first() =~= a.drop_first() + b);
        lemma_written_split(a.drop_first(), b);
        match a[0] {
            ActionView::WriteBlock { data, offset } => {
                assert(seq![BlockScript { data, offset }] + (written(a.drop_first()) + written(b))
                    =~= written(a) + written(b));
            },
            _ => {},
        }
    }
}

/// How often entries are finished in two runs of actions, one after the
/// other.
pub proof fn lemma_finished_split(a: Seq<ActionView>, b: Seq<ActionView>)
    ensures
        finished(a + b) == finished(a) + finished(b),
    decreases a.len(),
{
    if a.len() == 0 {
        assert(a + b =~= b);
    } else {
        assert((a + b)[0] == a[0]);
        assert((a + b).drop_first() =~= a.drop_first() + b);
        lemma_finished_split(a.drop_first(), b);
    }
}

/// How often one or two actions finish an entry.
pub proof fn lemma_finished_few(a: ActionView, b: ActionView)
    ensures
        finished(seq![a]) == (if a is FinishEntry { 1nat } else { 0nat }),
        finished(seq![a, b]) == (if a is FinishEntry { 1nat } else { 0nat }) + (if b is FinishEntry {
            1nat
        } else {
            0nat
        }),
{
    let none = Seq::<ActionView>::empty();
    assert(finished(none) == 0);
    assert(seq![a].drop_first() =~= none);
    assert(seq![b].drop_first() =~= none);
    assert(seq![a, b].drop_first() =~= seq![b]);
    assert(seq![a][0] == a && seq![b][0] == b && seq![a, b][0] == a);
    assert(finished(seq![b]) == (if b is FinishEntry { 1nat } else { 0nat })) by {
        reveal_with_fuel(finished, 2);
    }
    assert(finished(seq![a]) == (if a is FinishEntry { 1nat } else { 0nat })) by {
        reveal_with_fuel(finished, 2);
    }
}

/// Each block that is pulled with success goes to the sink as it came, in
/// the order it came, and the extraction is where it was.
pub proof fn lemma_dir_run_writes(s: DirModel, blocks: Seq<BlockScript>)
    requires
        s.phase == DirPhase::Data,
    ensures
        s.run(write_events(blocks)) == s,
        written(s.trace(write_events(blocks))) == blocks,
        finished(s.trace(write_events(blocks))) == 0,
    decreases blocks.len(),
{
    if blocks.len() == 0 {
        assert(written(s.trace(write_events(blocks))) =~= blocks);
    } else {
        lemma_finished_few(
            ActionView::WriteBlock { data: blocks[0].data, offset: blocks[0].offset },
            ActionView::ReadBlock,
        );
        let pull = EventView::Block { status: 0, data: blocks[0].data, offset: blocks[0].offset };
        let head = seq![pull, EventView::Status(0)];
        let rest = write_events(blocks.drop_first());
        lemma_dir_run_split(s, head, rest);
        lemma_dir_run_two(s, pull, EventView::Status(0));
        assert(s.run(head) == s);
        lemma_dir_run_writes(s, blocks.drop_first());
        lemma_written_split(s.trace(head), s.trace(rest));
        lemma_finished_split(s.trace(head), s.trace(rest));
        let first = seq![
            ActionView::WriteBlock { data: blocks[0].data, offset: blocks[0].offset },
            ActionView::ReadBlock,
        ];
        assert(s.trace(head) == first);
        assert(written(first) =~= seq![blocks[0]]) by {
            assert(first.drop_first() =~= seq![ActionView::ReadBlock]);
            assert(first.drop_first().drop_first() =~= Seq::<ActionView>::empty());
            assert(written(first.drop_first().drop_first()) =~= Seq::<BlockScript>::empty());
            assert(written(first.drop_first()) =~= Seq::<BlockScript>::empty());
        }
        assert(seq![blocks[0]] + blocks.drop_first() =~= blocks);
    }
}

/// Actions that write no block hand nothing to the sink.
pub proof fn lemma_written_none(actions: Seq<ActionView>)
    requires
        forall|i: int| 0 <= i < actions.len() ==> !((#[trigger] actions[i]) is WriteBlock),
    ensures
        written(actions) == Seq::<BlockScript>::empty(),
    decreases actions.len(),
{
    if actions.len() > 0 {
        assert(!(actions[0] is WriteBlock));
        assert forall|i: int| 0 <= i < actions.drop_first().len() implies !((
        #[trigger] actions.drop_first()[i]) is WriteBlock) by {
            assert(actions.drop_first()[i] == actions[i + 1]);
        }
        lemma_written_none(actions.drop_first());
    }
}

/// The state before the next entry, once the entry at hand is recorded.
pub open spec fn recorded(s: DirModel, record: FileInfoView) -> DirModel {
    DirModel {
        phase: DirPhase::Header,
        name: Seq::empty(),
        size: 0,
        cause: None,
        records: s.records.push(record),
        ..s
    }
}

/// Whatever an entry holds and whatever the sink says to its header, an
/// extraction to a directory that stands before the entry ends up before
/// the next one, with one record more, and the sink has been handed the
/// blocks of that entry and no others.
pub proof fn lemma_dir_run_entry(s: DirModel, entry: SinkEntryScript)
    requires
        s.phase == DirPhase::Header,
        entry.entry.well_formed(),
    ensures
        s.run(entry.events(s.target)) == recorded(s, entry.record(s.target)),
        written(s.trace(entry.events(s.target))) == entry.writes(s.target),
        finished(s.trace(entry.events(s.target))) == 1,
{
    let target = s.target;
    let header = entry.entry.header();
    let finish = EventView::Status(entry.finish);
    let answer = EventView::Status(entry.header);
    if !entry.placed(target) {
        lemma_dir_run_two(s, header, finish);
        lemma_written_none(s.trace(entry.events(target)));
        lemma_finished_few(ActionView::FinishEntry, ActionView::NextHeader);
    } else if !entry.streamed(target) {
        assert(entry.events(target) =~= seq![header, answer] + seq![finish]);
        lemma_dir_run_split(s, seq![header, answer], seq![finish]);
        lemma_dir_run_two(s, header, answer);
        let s2 = s.run(seq![header, answer]);
        lemma_dir_run_one(s2, finish);
        lemma_written_split(s.trace(seq![header, answer]), s2.trace(seq![finish]));
        lemma_written_none(s.trace(seq![header, answer]));
        lemma_written_none(s2.trace(seq![finish]));
        assert(written(s.trace(entry.events(target))) =~= Seq::<BlockScript>::empty());
        lemma_finished_split(s.trace(seq![header, answer]), s2.trace(seq![finish]));
        lemma_finished_few(s.step(header).1, ActionView::FinishEntry);
        lemma_finished_few(ActionView::NextHeader, ActionView::NextHeader);
    } else {
        let head = seq![header, answer];
        let middle = write_events(entry.entry.blocks);
        let last = entry.entry.last_block();
        let tail = seq![last, finish];
        lemma_dir_run_split(s, head + middle, tail);
        lemma_dir_run_split(s, head, middle);
        lemma_dir_run_two(s, header, answer);
        let s2 = s.run(head);
        assert(s2.phase == DirPhase::Data);
        lemma_dir_run_writes(s2, entry.entry.blocks);
        lemma_dir_run_two(s2, last, finish);
        lemma_written_split(s.trace(head) + s2.trace(middle), s2.trace(tail));
        lemma_written_split(s.trace(head), s2.trace(middle));
        lemma_written_none(s.trace(head));
        lemma_written_none(s2.trace(tail));
        assert(written(s.trace(entry.events(target))) =~= entry.entry.blocks);
        lemma_finished_split(s.trace(head) + s2.trace(middle), s2.trace(tail));
        lemma_finished_split(s.trace(head), s2.trace(middle));
        lemma_finished_few(s.step(header).1, ActionView::ReadBlock);
        lemma_finished_few(ActionView::FinishEntry, ActionView::NextHeader);
    }
}

/// Entry after entry, an extraction to a directory adds the record of each,
/// and hands the sink the blocks of each in turn.
pub proof fn lemma_dir_run_entries(s: DirModel, entries: Seq<SinkEntryScript>)
    requires
        s.phase == DirPhase::Header,
        s.name == Seq::<char>::empty(),
        s.size == 0,
        s.cause is None,
        forall|i: int| 0 <= i < entries.len() ==> (#[trigger] entries[i]).entry.well_formed(),
    ensures
        s.run(entries_events(s.target, entries)) == (DirModel {
            records: s.records + records(s.target, entries),
            ..s
        }),
        written(s.trace(entries_events(s.target, entries))) == entries_writes(s.target, entries),
        finished(s.trace(entries_events(s.target, entries))) == entries.len(),
    decreases entries.len(),
{
    let target = s.target;
    if entries.len() == 0 {
        assert(s.records + records(target, entries) =~= s.records);
    } else {
        let front = entries.drop_last();
        let last = entries.last();
        lemma_dir_run_entries(s, front);
        lemma_dir_run_split(s, entries_events(target, front), last.events(target));
        let before = s.run(entries_events(target, front));
        lemma_dir_run_entry(before, last);
        lemma_written_split(s.trace(entries_events(target, front)), before.trace(last.events(target)));
        lemma_finished_split(s.trace(entries_events(target, front)), before.trace(last.events(target)));
        assert((s.records + records(target, front)).push(last.record(target)) =~= s.records
            + records(target, entries));
    }
}

/// An extraction to an existing directory, from a container that can be
/// opened and with a sink that takes every block, reports one record for
/// each entry in the order of the entries, each record being what its own
/// entry alone makes it; and the sink is handed exactly the blocks of the
/// entries whose header it took, each block with its bytes and its offset,
/// in the order they were pulled. Every entry, whatever became of it, is
/// finished on the sink exactly once.
pub proof fn law_dir_report(
    source: Seq<u8>,
    target: Seq<u8>,
    flags: Option<i32>,
    len: u64,
    configured: i32,
    entries: Seq<SinkEntryScript>,
)
    requires
        terminated(source) is Some,
        forall|i: int| 0 <= i < entries.len() ==> (#[trigger] entries[i]).entry.well_formed(),
    ensures
        DirModel::initial(source, target, flags).run(
            dir_events(target, len, configured, entries),
        ).phase == DirPhase::Done,
        DirModel::initial(source, target, flags).run(
            dir_events(target, len, configured, entries),
        ).outcome() == Ok::<Seq<FileInfoView>, LibArchiveError>(records(target, entries)),
        records(target, entries).len() == entries.len(),
        forall|i: int|
            0 <= i < entries.len() ==> (#[trigger] records(target, entries)[i]) == entries[i].record(
                target,
            ),
        written(
            DirModel::initial(source, target, flags).trace(
                dir_events(target, len, configured, entries),
            ),
        ) == entries_writes(target, entries),
        finished(
            DirModel::initial(source, target, flags).trace(
                dir_events(target, len, configured, entries),
            ),
        ) == entries.len(),
{
    let start = DirModel::initial(source, target, flags);
    let opening = opening_events(len, configured);
    let middle = entries_events(target, entries);
    let closing = closing_events();
    lemma_dir_run_split(start, opening + middle, closing);
    lemma_dir_run_split(start, opening, middle);

    let o1 = seq![opening[0], opening[1]];
    let o2 = seq![opening[2], opening[3]];
    let o3 = seq![opening[4], opening[5]];
    let o4 = seq![opening[6], opening[7]];
    assert(opening =~= o1 + o2 + o3 + o4);
    lemma_dir_run_split(start, o1 + o2 + o3, o4);
    lemma_dir_run_split(start, o1 + o2, o3);
    lemma_dir_run_split(start, o1, o2);
    lemma_dir_run_two(start, opening[0], opening[1]);
    let s1 = start.run(o1);
    lemma_dir_run_two(s1, opening[2], opening[3]);
    let s2 = s1.run(o2);
    lemma_dir_run_two(s2, opening[4], opening[5]);
    let s3 = s2.run(o3);
    lemma_dir_run_two(s3, opening[6], opening[7]);
    let s4 = s3.run(o4);
    assert(start.run(opening) == s4);
    assert(s4.phase == DirPhase::Header);
    assert(s4.target == target);
    assert(s4.records =~= Seq::<FileInfoView>::empty());
    assert(written(start.trace(opening)) == Seq::<BlockScript>::empty()) by {
        lemma_written_split(start.trace(o1) + s1.trace(o2) + s2.trace(o3), s3.trace(o4));
        lemma_written_split(start.trace(o1) + s1.trace(o2), s2.trace(o3));
        lemma_written_split(start.trace(o1), s1.trace(o2));
        lemma_written_none(start.trace(o1));
        lemma_written_none(s1.trace(o2));
        lemma_written_none(s2.trace(o3));
        lemma_written_none(s3.trace(o4));
    }
    assert(finished(start.trace(opening)) == 0) by {
        lemma_finished_split(start.trace(o1) + s1.trace(o2) + s2.trace(o3), s3.trace(o4));
        lemma_finished_split(start.trace(o1) + s1.trace(o2), s2.trace(o3));
        lemma_finished_split(start.trace(o1), s1.trace(o2));
        lemma_finished_few(start.trace(o1)[0], start.trace(o1)[1]);
        lemma_finished_few(s1.trace(o2)[0], s1.trace(o2)[1]);
        lemma_finished_few(s2.trace(o3)[0], s2.trace(o3)[1]);
        lemma_finished_few(s3.trace(o4)[0], s3.trace(o4)[1]);
    }

    lemma_dir_run_entries(s4, entries);
    let s5 = s4.run(middle);
    assert(s5.records =~= records(target, entries));

    let c1 = seq![closing[0], closing[1]];
    let c2 = seq![closing[2], closing[3]];
    let c3 = seq![closing[4]];
    assert(closing =~= c1 + c2 + c3);
    lemma_dir_run_split(s5, c1 + c2, c3);
    lemma_dir_run_split(s5, c1, c2);
    lemma_dir_run_two(s5, closing[0], closing[1]);
    let t1 = s5.run(c1);
    lemma_dir_run_two(t1, closing[2], closing[3]);
    let t2 = t1.run(c2);
    lemma_dir_run_one(t2, closing[4]);
    assert(written(s5.trace(closing)) == Seq::<BlockScript>::empty()) by {
        lemma_written_split(s5.trace(c1) + t1.trace(c2), t2.trace(c3));
        lemma_written_split(s5.trace(c1), t1.trace(c2));
        lemma_written_none(s5.trace(c1));
        lemma_written_none(t1.trace(c2));
        lemma_written_none(t2.trace(c3));
    }
    assert(finished(s5.trace(closing)) == 0) by {
        lemma_finished_split(s5.trace(c1) + t1.trace(c2), t2.trace(c3));
        lemma_finished_split(s5.trace(c1), t1.trace(c2));
        lemma_finished_few(s5.trace(c1)[0], s5.trace(c1)[1]);
        lemma_finished_few(t1.trace(c2)[0], t1.trace(c2)[1]);
        lemma_finished_few(t2.trace(c3)[0], t2.trace(c3)[0]);
    }
    lemma_finished_split(start.trace(opening) + s4.trace(middle), s5.trace(closing));
    lemma_finished_split(start.trace(opening), s4.trace(middle));
    lemma_written_split(start.trace(opening) + s4.trace(middle), s5.trace(closing));
    lemma_written_split(start.trace(opening), s4.trace(middle));
    assert(written(start.trace(dir_events(target, len, configured, entries))) =~= entries_writes(
        target,
        entries,
    ));
}

/// The two extractions agree on the bytes of an entry: where nothing is
/// wrong with an entry and the sink takes its header, the bytes that the
/// sink is handed for it, block after block, are the bytes that an
/// extraction to memory reports for it.
pub proof fn law_sink_receives_what_memory_reports(target: Seq<u8>, entry: SinkEntryScript)
    requires
        entry.entry.clean(),
        entry.placed(target),
        entry.header == 0,
    ensures
        entry.writes(target) == entry.entry.blocks,
        concat(entry.writes(target)) == entry.entry.memory_record().value,
        entry.record(target).is_success,
        entry.entry.memory_record().file_info == entry.record(target),
{
}

/// Where the container is not a regular file that can be read, an
/// extraction to a directory ends with the first event: the driver is told
/// to do nothing but finish, so that nothing is created or written, and the
/// failure says what was found.
pub proof fn law_dir_rejects_source(source: Seq<u8>, target: Seq<u8>, flags: Option<i32>, probe: SourceProbe)
    requires
        !(probe is File),
    ensures
        DirModel::initial(source, target, flags).step(EventView::Source(probe)).1
            == ActionView::Finish,
        DirModel::initial(source, target, flags).step(EventView::Source(probe)).0.phase
            == DirPhase::Done,
        DirModel::initial(source, target, flags).step(EventView::Source(probe)).0.outcome() == Err::<
            Seq<FileInfoView>,
            LibArchiveError,
        >(
            match probe {
                SourceProbe::Missing => LibArchiveError::IsNotExists,
                SourceProbe::NotFile => LibArchiveError::IsNotFile,
                _ => LibArchiveError::FailedGetMetaDataFromFile,
            },
        ),
{
}

/// A target directory that is missing is created before anything else is
/// asked of the codec: after the two looks at the paths the driver is told
/// to create it, and only when it is there is the read session allocated.
pub proof fn law_missing_target_is_created_first(
    source: Seq<u8>,
    target: Seq<u8>,
    flags: Option<i32>,
    len: u64,
)
    requires
        terminated(source) is Some,
    ensures
        DirModel::initial(source, target, flags).trace(
            seq![
                EventView::Source(SourceProbe::File { len }),
                EventView::Target(TargetProbe::Missing),
                EventView::TargetCreated { created: true, is_dir: true },
            ],
        ) == seq![ActionView::ProbeTarget, ActionView::CreateTarget, ActionView::CreateReader],
{
    let start = DirModel::initial(source, target, flags);
    let e1 = EventView::Source(SourceProbe::File { len });
    let e2 = EventView::Target(TargetProbe::Missing);
    let e3 = EventView::TargetCreated { created: true, is_dir: true };
    assert(seq![e1, e2, e3] =~= seq![e1, e2] + seq![e3]);
    lemma_dir_run_split(start, seq![e1, e2], seq![e3]);
    lemma_dir_run_two(start, e1, e2);
    lemma_dir_run_one(start.run(seq![e1, e2]), e3);
    assert(start.trace(seq![e1, e2, e3]) =~= seq![
        ActionView::ProbeTarget,
        ActionView::CreateTarget,
        ActionView::CreateReader,
    ]);
}

/// A target that is there and is no directory ends the extraction before
/// anything is asked of the codec or written: the driver is told to look at
/// the target and then to finish, and the failure is that it is no
/// directory.
pub proof fn law_target_must_be_a_directory(
    source: Seq<u8>,
    target: Seq<u8>,
    flags: Option<i32>,
    len: u64,
)
    ensures
        DirModel::initial(source, target, flags).trace(
            seq![EventView::Source(SourceProbe::File { len }), EventView::Target(TargetProbe::NotDir)],
        ) == seq![ActionView::ProbeTarget, ActionView::Finish],
        DirModel::initial(source, target, flags).run(
            seq![EventView::Source(SourceProbe::File { len }), EventView::Target(TargetProbe::NotDir)],
        ).outcome() == Err::<Seq<FileInfoView>, LibArchiveError>(LibArchiveError::IsNotDir),
{
    let start = DirModel::initial(source, target, flags);
    lemma_dir_run_two(
        start,
        EventView::Source(SourceProbe::File { len }),
        EventView::Target(TargetProbe::NotDir),
    );
}

} // verus!
