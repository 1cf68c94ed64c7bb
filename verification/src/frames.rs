//! The stack of open call frames, as a sequence of events: a call pushes
//! the execution id of the step recorded before it, a return pops. The base
//! marker 0 stands for "no caller" and is never popped.

use vstd::prelude::*;

verus! {

/// What happens to the frame stack.
pub enum FrameEvent {
    /// Control enters a new frame; `eid` is the execution id of the step
    /// recorded last.
    Call { eid: u64 },
    /// Control leaves the innermost frame.
    Return,
}

/// The number of frames that the first `k` events have left open: calls
/// less returns.
pub open spec fn depth(events: Seq<FrameEvent>, k: int) -> int
    decreases k,
{
    if k <= 0 {
        0
    } else {
        depth(events, k - 1) + match events[k - 1] {
            FrameEvent::Call { .. } => 1int,
            FrameEvent::Return => -1int,
        }
    }
}

/// What one event makes of the frame stack `frames`.
pub open spec fn frame_step(frames: Seq<u64>, event: FrameEvent) -> Seq<u64> {
    match event {
        FrameEvent::Call { eid } => frames.push(eid),
        FrameEvent::Return => frames.drop_last(),
    }
}

/// The frame stack after the first `k` events, from the base marker up.
pub open spec fn frames_after(events: Seq<FrameEvent>, k: int) -> Seq<u64>
    decreases k,
{
    if k <= 0 {
        seq![0u64]
    } else {
        frame_step(frames_after(events, k - 1), events[k - 1])
    }
}

/// Calls and returns nest: no return comes without a call that it closes.
pub open spec fn well_nested(events: Seq<FrameEvent>) -> bool {
    forall|j: int| 0 <= j <= events.len() ==> #[trigger] depth(events, j) >= 0
}

/// Whether the event at `call` is a call whose frame is still open after
/// the first `k` events: since the call, the depth has never come back to
/// what it was before it.
pub open spec fn still_open(events: Seq<FrameEvent>, call: int, k: int) -> bool {
    &&& 0 <= call < k
    &&& events[call] is Call
    &&& forall|j: int| call < j <= k ==> #[trigger] depth(events, j) > depth(events, call)
}

/// Whether, after the first `k` events, a frame is open at the level
/// `level` of the stack, the base marker being level 0.
pub open spec fn open_at_level(events: Seq<FrameEvent>, k: int, level: int) -> bool {
    exists|call: int| #[trigger] still_open(events, call, k) && depth(events, call) + 1 == level
}

/// Whether the event at `call` is the last call whose frame is still open
/// after all the events.
pub open spec fn most_recent_open(events: Seq<FrameEvent>, call: int) -> bool {
    &&& still_open(events, call, events.len() as int)
    &&& forall|later: int|
        call < later < events.len() ==> !#[trigger] still_open(events, later, events.len() as int)
}

/// Above the base marker the stack holds, level by level, the tags of the
/// calls whose frames are still open, and every level has such a call.
proof fn frames_hold_open_calls(events: Seq<FrameEvent>, k: int)
    requires
        0 <= k <= events.len(),
        well_nested(events),
    ensures
        frames_after(events, k).len() == depth(events, k) + 1,
        frames_after(events, k)[0] == 0,
        forall|call: int| #[trigger]
            still_open(events, call, k) ==> frames_after(events, k)[depth(events, call) + 1]
                == events[call]->eid,
        forall|level: int|
            1 <= level <= depth(events, k) ==> #[trigger] open_at_level(events, k, level),
    decreases k,
{
    if k > 0 {
        frames_hold_open_calls(events, k - 1);
        assert(depth(events, k) >= 0);
        assert forall|call: int| #[trigger] still_open(events, call, k) implies frames_after(events, k)[depth(
            events,
            call,
        ) + 1] == events[call]->eid by {
            if call < k - 1 {
                assert(still_open(events, call, k - 1));
            }
        }
        assert forall|level: int| 1 <= level <= depth(events, k) implies #[trigger] open_at_level(
            events,
            k,
            level,
        ) by {
            if level <= depth(events, k - 1) {
                assert(open_at_level(events, k - 1, level));
                let call = choose|call: int| #[trigger]
                    still_open(events, call, k - 1) && depth(events, call) + 1 == level;
                assert(still_open(events, call, k));
            } else {
                assert(still_open(events, k - 1, k));
            }
        }
    }
}

/// Whatever calls and returns came, so long as they nest: the stack is
/// never empty, its top is the tag of the last call whose frame is still
/// open, and it is the base marker 0 where no frame is open.
pub proof fn top_is_most_recent_open_call(events: Seq<FrameEvent>)
    requires
        well_nested(events),
    ensures
        frames_after(events, events.len() as int).len() >= 1,
        forall|call: int| #[trigger]
            most_recent_open(events, call) ==> frames_after(events, events.len() as int).last()
                == events[call]->eid,
        (forall|call: int| !#[trigger] still_open(events, call, events.len() as int))
            ==> frames_after(events, events.len() as int).last() == 0,
{
    let n = events.len() as int;
    frames_hold_open_calls(events, n);
    assert forall|call: int| #[trigger] most_recent_open(events, call) implies frames_after(
        events,
        n,
    ).last() == events[call]->eid by {
        assert(open_at_level(events, n, depth(events, n)));
    }
    if depth(events, n) >= 1 {
        assert(open_at_level(events, n, depth(events, n)));
    }
}

} // verus!
