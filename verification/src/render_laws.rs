//! What holds of every render cycle.
use vstd::prelude::*;

use crate::event::PluginNoteEvent;
use crate::queue::ScheduledParameterChange;
use crate::render::{
    accurate_steps, apply_all, block, block_end, events_before, lemma_block_start_is,
    lemma_events_before_zero, plan_events, plan_steps, RenderStep,
};
use crate::sort::sorted_by_time;
use crate::sort::Timed;

verus! {

/// The blocks among `steps` cover the samples from `start` to `end` without gap or overlap, none
/// of them empty, and together they get the events from `first` to `last`, each once.
pub open spec fn blocks_tile(
    steps: Seq<RenderStep>,
    start: int,
    end: int,
    first: int,
    last: int,
) -> bool
    decreases steps.len(),
{
    if steps.len() == 0 {
        start == end && first == last
    } else {
        match steps[0] {
            RenderStep::ApplyParameter(_) => blocks_tile(
                steps.drop_first(),
                start,
                end,
                first,
                last,
            ),
            RenderStep::ProcessBlock { sample_offset, block_len, first_event, end_event } => {
                &&& sample_offset == start
                &&& block_len > 0
                &&& start + block_len <= end
                &&& first_event == first
                &&& first_event <= end_event
                &&& blocks_tile(
                    steps.drop_first(),
                    start + block_len,
                    end,
                    end_event as int,
                    last,
                )
            },
        }
    }
}

/// The parameter changes that the steps apply, in their order.
pub open spec fn applied_changes(steps: Seq<RenderStep>) -> Seq<ScheduledParameterChange>
    decreases steps.len(),
{
    if steps.len() == 0 {
        seq![]
    } else {
        let rest = applied_changes(steps.drop_first());
        match steps[0] {
            RenderStep::ApplyParameter(change) => seq![change] + rest,
            RenderStep::ProcessBlock { .. } => rest,
        }
    }
}

proof fn lemma_events_before_monotone(events: Seq<PluginNoteEvent>, s: int, t: int)
    requires
        s <= t,
    ensures
        0 <= events_before(events, s) <= events_before(events, t) <= events.len(),
    decreases events.len(),
{
    if events.len() > 0 {
        lemma_events_before_monotone(events.drop_last(), s, t);
    }
}

proof fn lemma_apply_all(changes: Seq<ScheduledParameterChange>, at: int, event: int)
    ensures
        blocks_tile(apply_all(changes), at, at, event, event),
        applied_changes(apply_all(changes)) == changes,
    decreases changes.len(),
{
    if changes.len() > 0 {
        lemma_apply_all(changes.drop_first(), at, event);
        assert(apply_all(changes).drop_first() =~= apply_all(changes.drop_first()));
        assert(seq![changes[0]] + changes.drop_first() =~= changes);
    } else {
        assert(apply_all(changes).len() == 0);
        assert(changes =~= seq![]);
    }
}

proof fn lemma_accurate_steps(
    changes: Seq<ScheduledParameterChange>,
    events: Seq<PluginNoteEvent>,
    offset: int,
    num_frames: u32,
)
    requires
        0 <= offset <= num_frames,
        events.len() <= usize::MAX,
    ensures
        ({
            let steps = accurate_steps(changes, events, offset, num_frames as int);
            &&& blocks_tile(
                steps,
                offset,
                num_frames as int,
                events_before(events, offset),
                events_before(events, num_frames as int),
            )
            &&& applied_changes(steps) == changes
        }),
    decreases num_frames - offset, changes.len(),
{
    let steps = accurate_steps(changes, events, offset, num_frames as int);
    if offset >= num_frames {
        lemma_apply_all(changes, offset, events_before(events, offset));
    } else if changes.len() > 0 && changes[0].sample_offset <= offset {
        let rest = accurate_steps(changes.drop_first(), events, offset, num_frames as int);
        lemma_accurate_steps(changes.drop_first(), events, offset, num_frames);
        assert(steps.drop_first() =~= rest);
        assert(seq![changes[0]] + changes.drop_first() =~= changes);
    } else {
        let end = block_end(changes, num_frames as int);
        let rest = accurate_steps(changes, events, end, num_frames as int);
        lemma_accurate_steps(changes, events, end, num_frames);
        lemma_events_before_monotone(events, offset, end);
        assert(steps.drop_first() =~= rest);
    }
}

proof fn lemma_steps_concat(
    a: Seq<ScheduledParameterChange>,
    tail: Seq<RenderStep>,
    start: int,
    end: int,
    first: int,
    last: int,
)
    requires
        blocks_tile(tail, start, end, first, last),
    ensures
        blocks_tile(apply_all(a) + tail, start, end, first, last),
        applied_changes(apply_all(a) + tail) == a + applied_changes(tail),
    decreases a.len(),
{
    if a.len() > 0 {
        lemma_steps_concat(a.drop_first(), tail, start, end, first, last);
        assert((apply_all(a) + tail).drop_first() =~= apply_all(a.drop_first()) + tail);
        assert((apply_all(a) + tail)[0] == RenderStep::ApplyParameter(a[0]));
        assert(seq![a[0]] + (a.drop_first() + applied_changes(tail)) =~= a + applied_changes(tail));
    } else {
        assert(apply_all(a) + tail =~= tail);
        assert(a + applied_changes(tail) =~= applied_changes(tail));
    }
}

proof fn lemma_all_events_are_before(events: Seq<PluginNoteEvent>, time: int)
    requires
        forall|i: int| 0 <= i < events.len() ==> (#[trigger] events[i]).time() < time,
    ensures
        events_before(events, time) == events.len(),
    decreases events.len(),
{
    if events.len() > 0 {
        lemma_all_events_are_before(events.drop_last(), time);
    }
}

/// The blocks of a cycle process each sample exactly once, in order, and the events that lie
/// within the cycle are handed out exactly once.
pub proof fn every_sample_is_processed_once(
    changes: Seq<ScheduledParameterChange>,
    events: Seq<PluginNoteEvent>,
    num_frames: u32,
    sample_accurate: bool,
)
    requires
        events.len() <= usize::MAX,
        forall|i: int| 0 <= i < events.len() ==> (#[trigger] events[i]).time() < num_frames,
    ensures
        blocks_tile(
            plan_steps(changes, events, num_frames, sample_accurate),
            0,
            num_frames as int,
            0,
            events.len() as int,
        ),
{
    lemma_plan(changes, events, num_frames, sample_accurate);
    lemma_all_events_are_before(events, num_frames as int);
}

proof fn lemma_plan(
    changes: Seq<ScheduledParameterChange>,
    events: Seq<PluginNoteEvent>,
    num_frames: u32,
    sample_accurate: bool,
)
    requires
        events.len() <= usize::MAX,
    ensures
        blocks_tile(
            plan_steps(changes, events, num_frames, sample_accurate),
            0,
            num_frames as int,
            0,
            events_before(events, num_frames as int),
        ),
        applied_changes(plan_steps(changes, events, num_frames, sample_accurate)) == changes,
{
    lemma_events_before_zero(events);
    if sample_accurate {
        lemma_accurate_steps(changes, events, 0, num_frames);
    } else if num_frames == 0 {
        lemma_apply_all(changes, 0, 0);
    } else {
        let one = seq![block(events, 0, num_frames as int)];
        let end = events_before(events, num_frames as int);
        lemma_events_before_monotone(events, 0, num_frames as int);
        assert(one.drop_first() =~= seq![]);
        assert(blocks_tile(one.drop_first(), num_frames as int, num_frames as int, end, end));
        assert(blocks_tile(one, 0, num_frames as int, 0, end));
        lemma_steps_concat(changes, one, 0, num_frames as int, 0, end);
        assert(applied_changes(one.drop_first()) =~= seq![]);
        assert(changes + applied_changes(one) =~= changes);
    }
}

/// A cycle applies each parameter change that came in for it exactly once, by offset.
pub proof fn every_change_is_applied_once(
    changes: Seq<ScheduledParameterChange>,
    events: Seq<PluginNoteEvent>,
    num_frames: u32,
    sample_accurate: bool,
)
    requires
        events.len() <= usize::MAX,
    ensures
        applied_changes(plan_steps(changes, events, num_frames, sample_accurate)) == changes,
{
    lemma_plan(changes, events, num_frames, sample_accurate);
}

/// Whether step `i` of `steps` applies a change at the right place: every block before it ends
/// at or before the change's offset, and every block behind it starts at that offset or later.
pub open spec fn takes_effect_at_its_offset(steps: Seq<RenderStep>, i: int) -> bool {
    steps[i] matches RenderStep::ApplyParameter(change) ==> {
        &&& forall|j: int|
            0 <= j < i ==> ((#[trigger] steps[j]) matches RenderStep::ProcessBlock {
                sample_offset,
                block_len,
                ..
            } ==> sample_offset + block_len <= change.sample_offset)
        &&& forall|j: int|
            i < j < steps.len() ==> ((#[trigger] steps[j]) matches RenderStep::ProcessBlock {
                sample_offset,
                ..
            } ==> change.sample_offset <= sample_offset)
    }
}

proof fn lemma_apply_all_steps(changes: Seq<ScheduledParameterChange>)
    ensures
        forall|i: int|
            0 <= i < apply_all(changes).len() ==> #[trigger] apply_all(changes)[i]
                == RenderStep::ApplyParameter(changes[i]),
{
}

/// All changes that the steps apply have an offset of at least `offset`, or come before the first
/// block; all blocks start at `offset` or later.
proof fn lemma_accurate_order(
    changes: Seq<ScheduledParameterChange>,
    events: Seq<PluginNoteEvent>,
    offset: int,
    num_frames: u32,
)
    requires
        0 <= offset <= num_frames,
        sorted_by_time(changes),
    ensures
        ({
            let steps = accurate_steps(changes, events, offset, num_frames as int);
            &&& forall|i: int|
                0 <= i < steps.len() ==> ((#[trigger] steps[i]) matches RenderStep::ProcessBlock {
                    sample_offset,
                    ..
                } ==> offset <= sample_offset)
            &&& forall|i: int|
                0 <= i < steps.len() ==> ((
                #[trigger] steps[i]) matches RenderStep::ApplyParameter(change) ==> changes.contains(
                    change,
                ))
            &&& forall|i: int| 0 <= i < steps.len() ==> #[trigger] takes_effect_at_its_offset(steps, i)
        }),
    decreases num_frames - offset, changes.len(),
{
    let steps = accurate_steps(changes, events, offset, num_frames as int);
    if offset >= num_frames {
        lemma_apply_all_steps(changes);
        assert forall|i: int| 0 <= i < steps.len() implies ((
        #[trigger] steps[i]) matches RenderStep::ApplyParameter(change) ==> changes.contains(
            change,
        )) by {
            assert(changes.contains(changes[i]));
        }
    } else if changes.len() > 0 && changes[0].sample_offset <= offset {
        let fewer = changes.drop_first();
        let rest = accurate_steps(fewer, events, offset, num_frames as int);
        assert forall|i: int, j: int| 0 <= i <= j < fewer.len() implies (
        #[trigger] fewer[i]).sample_time() <= (#[trigger] fewer[j]).sample_time() by {
            assert(changes[i + 1].sample_time() <= changes[j + 1].sample_time());
        }
        lemma_accurate_order(fewer, events, offset, num_frames);
        assert(steps.len() == rest.len() + 1);
        assert forall|i: int| 1 <= i < steps.len() implies #[trigger] steps[i] == rest[i - 1] by {}
        assert forall|i: int| 0 <= i < steps.len() implies ((
        #[trigger] steps[i]) matches RenderStep::ApplyParameter(change) ==> changes.contains(
            change,
        )) by {
            if i > 0 {
                if let RenderStep::ApplyParameter(change) = rest[i - 1] {
                    assert(fewer.contains(change));
                    let k = choose|k: int| 0 <= k < fewer.len() && fewer[k] == change;
                    assert(changes[k + 1] == change);
                }
            } else {
                assert(changes.contains(changes[0]));
            }
        }
        assert forall|i: int| 0 <= i < steps.len() implies #[trigger] takes_effect_at_its_offset(
            steps,
            i,
        ) by {
            if i > 0 {
                assert(takes_effect_at_its_offset(rest, i - 1));
                if let RenderStep::ApplyParameter(change) = steps[i] {
                    assert forall|j: int| 0 <= j < i implies ((
                    #[trigger] steps[j]) matches RenderStep::ProcessBlock {
                        sample_offset,
                        block_len,
                        ..
                    } ==> sample_offset + block_len <= change.sample_offset) by {
                        if j > 0 {
                            assert(steps[j] == rest[j - 1]);
                        }
                    }
                    assert forall|j: int| i < j < steps.len() implies ((
                    #[trigger] steps[j]) matches RenderStep::ProcessBlock { sample_offset, .. }
                        ==> change.sample_offset <= sample_offset) by {
                        assert(steps[j] == rest[j - 1]);
                    }
                }
            }
        }
    } else {
        let end = block_end(changes, num_frames as int);
        let rest = accurate_steps(changes, events, end, num_frames as int);
        lemma_accurate_order(changes, events, end, num_frames);
        assert(steps.len() == rest.len() + 1);
        assert forall|i: int| 1 <= i < steps.len() implies #[trigger] steps[i] == rest[i - 1] by {}
        assert forall|i: int| 0 <= i < steps.len() implies #[trigger] takes_effect_at_its_offset(
            steps,
            i,
        ) by {
            if i > 0 {
                assert(takes_effect_at_its_offset(rest, i - 1));
                if let RenderStep::ApplyParameter(change) = steps[i] {
                    assert(steps[i] == rest[i - 1]);
                    assert(changes.contains(change));
                    let k = choose|k: int| 0 <= k < changes.len() && changes[k] == change;
                    assert(changes[0].sample_time() <= changes[k].sample_time());
                    assert(end <= change.sample_offset);
                    assert forall|j: int| 0 <= j < i implies ((
                    #[trigger] steps[j]) matches RenderStep::ProcessBlock {
                        sample_offset,
                        block_len,
                        ..
                    } ==> sample_offset + block_len <= change.sample_offset) by {
                        if j > 0 {
                            assert(steps[j] == rest[j - 1]);
                        }
                    }
                    assert forall|j: int| i < j < steps.len() implies ((
                    #[trigger] steps[j]) matches RenderStep::ProcessBlock { sample_offset, .. }
                        ==> change.sample_offset <= sample_offset) by {
                        assert(steps[j] == rest[j - 1]);
                    }
                }
            }
        }
    }
}

/// With sample accurate automation a change is in effect for exactly the samples from its offset
/// on.
pub proof fn changes_are_sample_accurate(
    changes: Seq<ScheduledParameterChange>,
    events: Seq<PluginNoteEvent>,
    num_frames: u32,
    i: int,
)
    requires
        sorted_by_time(changes),
        0 <= i < plan_steps(changes, events, num_frames, true).len(),
    ensures
        takes_effect_at_its_offset(plan_steps(changes, events, num_frames, true), i),
{
    lemma_accurate_order(changes, events, 0, num_frames);
}

/// Whether the events that a block gets lie within it, each with the offset that it has there.
pub open spec fn block_events_fit(
    step: RenderStep,
    events: Seq<PluginNoteEvent>,
    planned: Seq<PluginNoteEvent>,
) -> bool {
    step matches RenderStep::ProcessBlock { sample_offset, block_len, first_event, end_event }
        ==> forall|i: int|
        first_event <= i < end_event ==> {
            &&& sample_offset <= events[i].time() < sample_offset + block_len
            &&& #[trigger] planned[i] == events[i].at((events[i].time() - sample_offset) as u32)
        }
}

proof fn lemma_event_is_before(events: Seq<PluginNoteEvent>, time: int, i: int)
    requires
        sorted_by_time(events),
        0 <= i < events.len(),
    ensures
        i < events_before(events, time) <==> events[i].time() < time,
    decreases events.len(),
{
    let fewer = events.drop_last();
    lemma_events_before_monotone(fewer, time, time);
    assert(events[i].sample_time() <= events[events.len() - 1].sample_time());
    if events.last().time() < time {
        assert forall|k: int| 0 <= k < events.len() implies (#[trigger] events[k]).time() < time by {
            assert(events[k].sample_time() <= events[events.len() - 1].sample_time());
        }
        lemma_all_events_are_before(events, time);
    } else if i < events.len() - 1 {
        assert forall|k: int, l: int| 0 <= k <= l < fewer.len() implies (
        #[trigger] fewer[k]).sample_time() <= (#[trigger] fewer[l]).sample_time() by {
            assert(events[k].sample_time() <= events[l].sample_time());
        }
        lemma_event_is_before(fewer, time, i);
    }
}

proof fn lemma_accurate_events(
    changes: Seq<ScheduledParameterChange>,
    k: int,
    events: Seq<PluginNoteEvent>,
    offset: int,
    num_frames: u32,
)
    requires
        sorted_by_time(changes),
        sorted_by_time(events),
        events.len() <= usize::MAX,
        0 <= k <= changes.len(),
        0 <= offset <= num_frames,
        forall|i: int| 0 <= i < k ==> (#[trigger] changes[i]).sample_offset <= offset,
        offset > 0 && offset < num_frames ==> exists|i: int|
            0 <= i < changes.len() && (#[trigger] changes[i]).sample_offset == offset,
    ensures
        ({
            let steps = accurate_steps(changes.skip(k), events, offset, num_frames as int);
            let planned = plan_events(changes, events, true);
            forall|s: int|
                0 <= s < steps.len() ==> block_events_fit(#[trigger] steps[s], events, planned)
        }),
    decreases num_frames - offset, changes.len() - k,
{
    let left = changes.skip(k);
    let steps = accurate_steps(left, events, offset, num_frames as int);
    let planned = plan_events(changes, events, true);
    if offset >= num_frames {
        lemma_apply_all_steps(left);
    } else if left.len() > 0 && left[0].sample_offset <= offset {
        assert(left.drop_first() =~= changes.skip(k + 1));
        assert(left[0] == changes[k]);
        lemma_accurate_events(changes, k + 1, events, offset, num_frames);
        let rest = accurate_steps(changes.skip(k + 1), events, offset, num_frames as int);
        assert forall|s: int| 0 <= s < steps.len() implies block_events_fit(
            #[trigger] steps[s],
            events,
            planned,
        ) by {
            if s > 0 {
                assert(steps[s] == rest[s - 1]);
            }
        }
    } else {
        let end = block_end(left, num_frames as int);
        let rest = accurate_steps(left, events, end, num_frames as int);
        if left.len() > 0 {
            assert(left[0] == changes[k]);
            if end < num_frames {
                assert(changes[k].sample_offset == end);
            }
        }
        lemma_accurate_events(changes, k, events, end, num_frames);
        lemma_events_before_monotone(events, offset, end);
        assert forall|i: int| k <= i < changes.len() implies (
        #[trigger] changes[i]).sample_offset >= end && changes[i].sample_offset > offset by {
            assert(changes[k].sample_time() <= changes[i].sample_time());
        }
        assert forall|i: int|
            events_before(events, offset) <= i < events_before(events, end) implies {
            &&& offset <= events[i].time() < end
            &&& #[trigger] planned[i] == events[i].at((events[i].time() - offset) as u32)
        } by {
            lemma_event_is_before(events, offset, i);
            lemma_event_is_before(events, end, i);
            let time = events[i].time();
            lemma_block_start_is(changes, time, k);
            if offset > 0 {
                let m = choose|m: int|
                    0 <= m < changes.len() && (#[trigger] changes[m]).sample_offset == offset;
                assert(m < k);
                assert(changes[m].sample_time() <= changes[k - 1].sample_time());
            }
        }
        assert forall|s: int| 0 <= s < steps.len() implies block_events_fit(
            #[trigger] steps[s],
            events,
            planned,
        ) by {
            if s > 0 {
                assert(steps[s] == rest[s - 1]);
            }
        }
    }
}

/// The plugin gets each event in the block in which it happens, with its offset within that
/// block.
pub proof fn events_arrive_in_their_block(
    changes: Seq<ScheduledParameterChange>,
    events: Seq<PluginNoteEvent>,
    num_frames: u32,
    sample_accurate: bool,
    s: int,
)
    requires
        sorted_by_time(changes),
        sorted_by_time(events),
        events.len() <= usize::MAX,
        0 <= s < plan_steps(changes, events, num_frames, sample_accurate).len(),
    ensures
        block_events_fit(
            plan_steps(changes, events, num_frames, sample_accurate)[s],
            events,
            plan_events(changes, events, sample_accurate),
        ),
{
    let steps = plan_steps(changes, events, num_frames, sample_accurate);
    let planned = plan_events(changes, events, sample_accurate);
    if sample_accurate {
        assert(changes.skip(0) =~= changes);
        lemma_accurate_events(changes, 0, events, 0, num_frames);
    } else {
        lemma_apply_all_steps(changes);
        if s == changes.len() {
            lemma_events_before_zero(events);
            lemma_events_before_monotone(events, 0, num_frames as int);
            assert forall|i: int| 0 <= i < events_before(events, num_frames as int) implies {
                &&& events[i].time() < num_frames
                &&& #[trigger] planned[i] == events[i].at(events[i].time())
            } by {
                lemma_event_is_before(events, num_frames as int, i);
            }
        }
    }
}

/// With sample accurate automation blocks are as long as they can be: a block that does not reach
/// the end of the cycle ends at the offset of the change that follows it.
pub proof fn blocks_end_where_a_change_takes_effect(
    changes: Seq<ScheduledParameterChange>,
    events: Seq<PluginNoteEvent>,
    num_frames: u32,
    i: int,
)
    requires
        0 <= i < plan_steps(changes, events, num_frames, true).len() - 1,
    ensures
        ({
            let steps = plan_steps(changes, events, num_frames, true);
            steps[i] matches RenderStep::ProcessBlock { sample_offset, block_len, .. }
                ==> sample_offset + block_len < num_frames ==> (
            steps[i + 1] matches RenderStep::ApplyParameter(change) && change.sample_offset
                == sample_offset + block_len)
        }),
{
    lemma_blocks_end_at_changes(changes, events, 0, num_frames, i);
}

proof fn lemma_blocks_end_at_changes(
    changes: Seq<ScheduledParameterChange>,
    events: Seq<PluginNoteEvent>,
    offset: int,
    num_frames: u32,
    i: int,
)
    requires
        0 <= offset,
        0 <= i < accurate_steps(changes, events, offset, num_frames as int).len() - 1,
    ensures
        ({
            let steps = accurate_steps(changes, events, offset, num_frames as int);
            steps[i] matches RenderStep::ProcessBlock { sample_offset, block_len, .. }
                ==> sample_offset + block_len < num_frames ==> (
            steps[i + 1] matches RenderStep::ApplyParameter(change) && change.sample_offset
                == sample_offset + block_len)
        }),
    decreases num_frames - offset, changes.len(),
{
    let frames = num_frames as int;
    let steps = accurate_steps(changes, events, offset, frames);
    if offset >= frames {
        assert(steps == apply_all(changes));
    } else if changes.len() > 0 && changes[0].sample_offset <= offset {
        let rest = accurate_steps(changes.drop_first(), events, offset, frames);
        assert(steps == seq![RenderStep::ApplyParameter(changes[0])] + rest);
        if i > 0 {
            lemma_blocks_end_at_changes(
                changes.drop_first(),
                events,
                offset,
                num_frames,
                i - 1,
            );
            assert(steps[i] == rest[i - 1]);
            assert(steps[i + 1] == rest[i]);
        }
    } else {
        let end = block_end(changes, frames);
        let rest = accurate_steps(changes, events, end, frames);
        assert(steps == seq![block(events, offset, end)] + rest);
        assert(steps[i + 1] == rest[i]);
        if i > 0 {
            lemma_blocks_end_at_changes(changes, events, end, num_frames, i - 1);
            assert(steps[i] == rest[i - 1]);
        } else if end < frames {
            assert(rest[0] == RenderStep::ApplyParameter(changes[0]));
        }
    }
}

} // verus!
