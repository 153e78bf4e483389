//! What holds of an extraction in every state and after every run of
//! events, whatever the driver hands it.

use crate::disk::{DirModel, DirPhase};
use crate::memory::{MemoryModel, MemoryPhase};
use crate::protocol::{ActionView, EventView};
use crate::report::{DecompressedDataView, FileInfoView};
use vstd::prelude::*;

verus! {

/// Every record of a list is well formed.
pub open spec fn all_entries_well_formed(records: Seq<DecompressedDataView>) -> bool {
    forall|i: int| 0 <= i < records.len() ==> (#[trigger] records[i]).well_formed()
}

/// Every record of a list is well formed.
pub open spec fn all_records_well_formed(records: Seq<FileInfoView>) -> bool {
    forall|i: int| 0 <= i < records.len() ==> (#[trigger] records[i]).well_formed()
}

/// The read session is being released, or is gone.
pub open spec fn memory_releasing(phase: MemoryPhase) -> bool {
    phase == MemoryPhase::Close || phase == MemoryPhase::Free || phase == MemoryPhase::Done
}

/// An action that uses neither session any more, but to release it.
pub open spec fn releases_only(action: ActionView) -> bool {
    action is CloseSink || action is FreeSink || action is CloseReader || action is FreeReader
        || action is Finish || action is Unexpected
}

/// The sessions are being released, or are gone.
pub open spec fn dir_releasing(phase: DirPhase) -> bool {
    phase == DirPhase::CloseSink || phase == DirPhase::FreeSink || phase == DirPhase::Close || phase
        == DirPhase::Free || phase == DirPhase::Done
}

/// One step of an extraction to memory leaves every record as it is and
/// adds at most one, which is well formed.
pub proof fn lemma_memory_step_records(s: MemoryModel, event: EventView)
    ensures
        s.step(event).0.records == s.records || (exists|entry: DecompressedDataView|
            entry.well_formed() && s.step(event).0.records == #[trigger] s.records.push(entry)),
{
    let after = s.step(event).0;
    if after.records != s.records {
        let entry = after.records.last();
        assert(after.records == s.records.push(entry));
        assert(entry.well_formed());
    }
}

/// Records are never changed once they are made, and never dropped while
/// the extraction runs: what was recorded before a run of events is the
/// beginning of what is recorded after it.
pub proof fn law_memory_records_only_grow(s: MemoryModel, events: Seq<EventView>)
    ensures
        s.records.len() <= s.run(events).records.len(),
        s.run(events).records.take(s.records.len() as int) == s.records,
    decreases events.len(),
{
    if events.len() == 0 {
        assert(s.records.take(s.records.len() as int) =~= s.records);
    } else {
        let next = s.step(events[0]).0;
        lemma_memory_step_records(s, events[0]);
        law_memory_records_only_grow(next, events.drop_first());
        let end = s.run(events);
        assert(end.records.take(s.records.len() as int) =~= end.records.take(
            next.records.len() as int,
        ).take(s.records.len() as int));
        assert(next.records.take(s.records.len() as int) =~= s.records);
    }
}

/// Every record of an extraction to memory is tagged as a success exactly
/// when it carries no cause, and a failed one holds no bytes and no size:
/// if that holds before a run of events, it holds after it.
pub proof fn law_memory_records_well_formed(s: MemoryModel, events: Seq<EventView>)
    requires
        all_entries_well_formed(s.records),
    ensures
        all_entries_well_formed(s.run(events).records),
    decreases events.len(),
{
    if events.len() > 0 {
        lemma_memory_step_records(s, events[0]);
        law_memory_records_well_formed(s.step(events[0]).0, events.drop_first());
    }
}

/// A read session that was freed is not freed again.
pub proof fn lemma_memory_freed_once(s: MemoryModel, events: Seq<EventView>)
    requires
        s.phase == MemoryPhase::Free || s.phase == MemoryPhase::Done,
    ensures
        forall|i: int| 0 <= i < s.trace(events).len() ==> !((#[trigger] s.trace(events)[i]) is FreeReader),
    decreases events.len(),
{
    if events.len() > 0 {
        let next = s.step(events[0]).0;
        lemma_memory_freed_once(next, events.drop_first());
        let rest = next.trace(events.drop_first());
        assert forall|i: int| 0 <= i < s.trace(events).len() implies !((
        #[trigger] s.trace(events)[i]) is FreeReader) by {
            if i > 0 {
                assert(s.trace(events)[i] == rest[i - 1]);
            }
        }
    }
}

/// What the driver is told holds one action for each event.
pub proof fn lemma_memory_trace_len(s: MemoryModel, events: Seq<EventView>)
    ensures
        s.trace(events).len() == events.len(),
    decreases events.len(),
{
    if events.len() > 0 {
        lemma_memory_trace_len(s.step(events[0]).0, events.drop_first());
    }
}

/// Once the read session is being closed it is never used again: whatever
/// events follow, the driver is told only to close it, to free it, or to
/// finish. It is told to free it only in answer to a close that returned
/// zero, and at most once.
pub proof fn law_memory_closed_session_is_left_alone(s: MemoryModel, events: Seq<EventView>)
    requires
        memory_releasing(s.phase),
    ensures
        memory_releasing(s.run(events).phase),
        s.trace(events).len() == events.len(),
        forall|i: int|
            0 <= i < s.trace(events).len() ==> releases_only(#[trigger] s.trace(events)[i]),
        forall|i: int|
            0 <= i < s.trace(events).len() && (#[trigger] s.trace(events)[i]) is FreeReader
                ==> events[i] == EventView::Status(0),
        forall|i: int, j: int|
            0 <= i < j < s.trace(events).len() ==> !((#[trigger] s.trace(events)[i]) is FreeReader && (
            #[trigger] s.trace(events)[j]) is FreeReader),
    decreases events.len(),
{
    lemma_memory_trace_len(s, events);
    if events.len() > 0 {
        let next = s.step(events[0]).0;
        let tail = events.drop_first();
        law_memory_closed_session_is_left_alone(next, tail);
        let rest = next.trace(tail);
        let all = s.trace(events);
        assert forall|i: int| 0 <= i < all.len() implies releases_only(#[trigger] all[i]) by {
            if i > 0 {
                assert(all[i] == rest[i - 1]);
            }
        }
        assert forall|i: int| 0 <= i < all.len() && (#[trigger] all[i]) is FreeReader implies events[i]
            == EventView::Status(0) by {
            if i > 0 {
                assert(all[i] == rest[i - 1]);
                assert(tail[i - 1] == events[i]);
            }
        }
        assert forall|i: int, j: int| 0 <= i < j < all.len() implies !((#[trigger] all[i]) is FreeReader
            && (#[trigger] all[j]) is FreeReader) by {
            assert(all[j] == rest[j - 1]);
            if i > 0 {
                assert(all[i] == rest[i - 1]);
            } else if all[0] is FreeReader {
                lemma_memory_freed_once(next, tail);
            }
        }
    }
}

/// An extraction to memory that is done stays as it is.
pub proof fn law_memory_done_is_final(s: MemoryModel, events: Seq<EventView>)
    requires
        s.phase == MemoryPhase::Done,
    ensures
        s.run(events) == s,
    decreases events.len(),
{
    if events.len() > 0 {
        law_memory_done_is_final(s, events.drop_first());
    }
}

/// One step of an extraction to a directory leaves every record as it is
/// and adds at most one, which is well formed.
pub proof fn lemma_dir_step_records(s: DirModel, event: EventView)
    ensures
        s.step(event).0.records == s.records || (exists|entry: FileInfoView|
            entry.well_formed() && s.step(event).0.records == #[trigger] s.records.push(entry)),
{
    let after = s.step(event).0;
    if after.records != s.records {
        let entry = after.records.last();
        assert(after.records == s.records.push(entry));
        assert(entry == s.pending());
        assert(entry.well_formed());
    }
}

/// Records are never changed once they are made, and never dropped while
/// the extraction runs: what was recorded before a run of events is the
/// beginning of what is recorded after it.
pub proof fn law_dir_records_only_grow(s: DirModel, events: Seq<EventView>)
    ensures
        s.records.len() <= s.run(events).records.len(),
        s.run(events).records.take(s.records.len() as int) == s.records,
    decreases events.len(),
{
    if events.len() == 0 {
        assert(s.records.take(s.records.len() as int) =~= s.records);
    } else {
        let next = s.step(events[0]).0;
        lemma_dir_step_records(s, events[0]);
        law_dir_records_only_grow(next, events.drop_first());
        let end = s.run(events);
        assert(end.records.take(s.records.len() as int) =~= end.records.take(
            next.records.len() as int,
        ).take(s.records.len() as int));
        assert(next.records.take(s.records.len() as int) =~= s.records);
    }
}

/// Every record of an extraction to a directory is tagged as a success
/// exactly when it carries no cause, and a failed one reports no size: if
/// that holds before a run of events, it holds after it.
pub proof fn law_dir_records_well_formed(s: DirModel, events: Seq<EventView>)
    requires
        all_records_well_formed(s.records),
    ensures
        all_records_well_formed(s.run(events).records),
    decreases events.len(),
{
    if events.len() > 0 {
        lemma_dir_step_records(s, events[0]);
        law_dir_records_well_formed(s.step(events[0]).0, events.drop_first());
    }
}

/// Once the sink is being closed, neither session is used again: whatever
/// events follow, the driver is told only to close and free what is left,
/// or to finish.
pub proof fn law_dir_closed_sessions_are_left_alone(s: DirModel, events: Seq<EventView>)
    requires
        dir_releasing(s.phase),
    ensures
        dir_releasing(s.run(events).phase),
        forall|i: int|
            0 <= i < s.trace(events).len() ==> releases_only(#[trigger] s.trace(events)[i]),
    decreases events.len(),
{
    if events.len() > 0 {
        let next = s.step(events[0]).0;
        law_dir_closed_sessions_are_left_alone(next, events.drop_first());
        let rest = next.trace(events.drop_first());
        assert forall|i: int| 0 <= i < s.trace(events).len() implies releases_only(
            #[trigger] s.trace(events)[i],
        ) by {
            if i > 0 {
                assert(s.trace(events)[i] == rest[i - 1]);
            }
        }
    }
}

/// A session is freed only after it was closed with success: the driver is
/// told to free the sink only in answer to a sink close that returned
/// zero, and to free the read session only in answer to a close of it that
/// returned zero.
pub proof fn law_dir_free_follows_close(s: DirModel, event: EventView)
    ensures
        s.step(event).1 is FreeSink ==> s.phase == DirPhase::CloseSink && event
            == EventView::Status(0),
        s.step(event).1 is FreeReader ==> s.phase == DirPhase::Close && event == EventView::Status(0),
{
}

/// An extraction to a directory that is done stays as it is.
pub proof fn law_dir_done_is_final(s: DirModel, events: Seq<EventView>)
    requires
        s.phase == DirPhase::Done,
    ensures
        s.run(events) == s,
    decreases events.len(),
{
    if events.len() > 0 {
        law_dir_done_is_final(s, events.drop_first());
    }
}

} // verus!
