//! Render cycles: which calls belong to one cycle, and how a cycle is split into blocks.
use vstd::prelude::*;

use crate::event::PluginNoteEvent;
use crate::host::{AudioTimeStamp, K_AUDIO_UNIT_SCOPE_OUTPUT};
use crate::layout::{bus_count_for_layout, AudioIOLayout};
use crate::queue::ScheduledParameterChange;
use crate::sort::sorted_by_time;
use crate::sort::Timed;

verus! {

/// What the calls of one render cycle have in common. A host renders each output bus with a call
/// of its own.
#[derive(Clone, Copy, Debug, PartialEq, Eq, Structural)]
pub struct RenderCycleKey {
    /// The bits of the sample time, where the host gave one.
    pub sample_time_bits: Option<u64>,
    pub host_time: u64,
    pub num_frames: u32,
}

/// The key of a render call.
pub open spec fn cycle_key(time_stamp: Option<AudioTimeStamp>, num_frames: u32) -> RenderCycleKey {
    match time_stamp {
        Some(stamp) => RenderCycleKey {
            sample_time_bits: if stamp.sample_time_is_valid() {
                Some(stamp.mSampleTime)
            } else {
                None
            },
            host_time: stamp.mHostTime,
            num_frames,
        },
        None => RenderCycleKey { sample_time_bits: None, host_time: 0, num_frames },
    }
}

/// The key of a render call.
pub fn render_cycle_key(time_stamp: Option<AudioTimeStamp>, num_frames: u32) -> (key:
    RenderCycleKey)
    ensures
        key == cycle_key(time_stamp, num_frames),
{
    match time_stamp {
        Some(stamp) => RenderCycleKey {
            sample_time_bits: if stamp.has_sample_time() {
                Some(stamp.mSampleTime)
            } else {
                None
            },
            host_time: stamp.mHostTime,
            num_frames,
        },
        None => RenderCycleKey { sample_time_bits: None, host_time: 0, num_frames },
    }
}

impl RenderCycleKey {
    /// Whether calls of two cycles can have this key, because it says nothing about the time.
    pub open spec fn is_ambiguous(self) -> bool {
        self.sample_time_bits is None && self.host_time == 0
    }
}

/// Whether the key says nothing about the time.
pub fn cycle_key_is_ambiguous(key: RenderCycleKey) -> (ambiguous: bool)
    ensures
        ambiguous == key.is_ambiguous(),
{
    key.sample_time_bits.is_none() && key.host_time == 0
}

/// The last cycle that was processed, and the output buses that the host took from it.
pub struct RenderState {
    pub last_cycle_key: Option<RenderCycleKey>,
    pub rendered_output_buses: Vec<bool>,
}

impl RenderState {
    /// Whether bus `bus` was taken from the last cycle.
    pub open spec fn is_rendered(self, bus: int) -> bool {
        0 <= bus < self.rendered_output_buses@.len() && self.rendered_output_buses@[bus]
    }

    /// Whether a call with `key` for output bus `bus` belongs to the cycle that was processed
    /// last. Where the key says nothing about the time, a second call for the same bus starts a
    /// new cycle.
    pub open spec fn covers(self, key: RenderCycleKey, bus: u32) -> bool {
        &&& self.last_cycle_key == Some(key)
        &&& !key.is_ambiguous() || !self.is_rendered(bus as int)
    }

    /// The state after the host took bus `bus`. A bus that does not exist is ignored.
    pub open spec fn takes(self, before: Self, bus: int) -> bool {
        &&& self.last_cycle_key == before.last_cycle_key
        &&& self.rendered_output_buses@ == if 0 <= bus < before.rendered_output_buses@.len() {
            before.rendered_output_buses@.update(bus, true)
        } else {
            before.rendered_output_buses@
        }
    }

    /// The state before the first cycle of a unit with a layout.
    pub open spec fn is_new(self, layout: AudioIOLayout) -> bool {
        &&& self.last_cycle_key is None
        &&& self.rendered_output_buses@ == Seq::new(
            layout.buses(K_AUDIO_UNIT_SCOPE_OUTPUT).len(),
            |i: int| false,
        )
    }

    /// The state before the first cycle of a unit with a layout.
    pub fn new(layout: AudioIOLayout) -> (state: Self)
        requires
            layout.is_numbered(),
        ensures
            state.is_new(layout),
    {
        let count = bus_count_for_layout(layout, K_AUDIO_UNIT_SCOPE_OUTPUT);
        let state = Self {
            last_cycle_key: None,
            rendered_output_buses: vec![false; count as usize],
        };
        assert(state.rendered_output_buses@ =~= Seq::new(count as nat, |i: int| false));
        state
    }

    /// Notes that the host took bus `bus_idx`. A bus that does not exist is ignored.
    pub fn mark_rendered(&mut self, bus_idx: usize)
        ensures
            final(self).takes(*old(self), bus_idx as int),
    {
        if bus_idx < self.rendered_output_buses.len() {
            self.rendered_output_buses[bus_idx] = true;
        }
    }

    /// Whether the call needs no processing, because its cycle was processed already.
    pub fn is_processed(&self, key: RenderCycleKey, bus: u32) -> (processed: bool)
        ensures
            processed == self.covers(key, bus),
    {
        let same = match self.last_cycle_key {
            Some(last) => last == key,
            None => false,
        };
        let rendered = (bus as usize) < self.rendered_output_buses.len()
            && self.rendered_output_buses[bus as usize];
        same && (!cycle_key_is_ambiguous(key) || !rendered)
    }

    /// Notes that the cycle with `key` was processed and that no bus was taken from it yet.
    pub fn start_cycle(&mut self, key: RenderCycleKey, output_bus_count: u32)
        ensures
            final(self).last_cycle_key == Some(key),
            final(self).rendered_output_buses@ == Seq::new(
                if output_bus_count == 0 {
                    1
                } else {
                    output_bus_count as nat
                },
                |i: int| false,
            ),
    {
        let count: usize = if output_bus_count == 0 {
            1
        } else {
            output_bus_count as usize
        };
        self.last_cycle_key = Some(key);
        self.rendered_output_buses = vec![false; count];
        assert(self.rendered_output_buses@ =~= Seq::new(count as nat, |i: int| false));
    }
}

/// One step of processing a cycle.
#[derive(Clone, Copy, Debug, PartialEq, Eq, Structural)]
pub enum RenderStep {
    /// A parameter takes a new value.
    ApplyParameter(ScheduledParameterChange),
    /// The plugin processes `block_len` samples from `sample_offset` on. It gets the events of
    /// the plan from `first_event` up to, but without, `end_event`.
    ProcessBlock { sample_offset: u32, block_len: u32, first_event: usize, end_event: usize },
}

impl RenderStep {
    /// A block lies within a cycle of `num_frames` samples, and its events are among the first
    /// `num_events`.
    pub open spec fn lies_within(self, num_frames: int, num_events: int) -> bool {
        self matches RenderStep::ProcessBlock { sample_offset, block_len, first_event, end_event }
            ==> sample_offset + block_len <= num_frames && first_event <= end_event <= num_events
    }
}

/// How a cycle is processed.
pub struct RenderPlan {
    pub steps: Vec<RenderStep>,
    /// The input events by time, each with its offset within its block.
    pub events: Vec<PluginNoteEvent>,
}

/// How many of the events happen before `time`.
pub open spec fn events_before(events: Seq<PluginNoteEvent>, time: int) -> int
    decreases events.len(),
{
    if events.len() == 0 {
        0
    } else {
        events_before(events.drop_last(), time) + if events.last().time() < time {
            1int
        } else {
            0
        }
    }
}

/// The block from `start` to `end`, with the events that fall into it.
pub open spec fn block(events: Seq<PluginNoteEvent>, start: int, end: int) -> RenderStep {
    RenderStep::ProcessBlock {
        sample_offset: start as u32,
        block_len: (end - start) as u32,
        first_event: events_before(events, start) as usize,
        end_event: events_before(events, end) as usize,
    }
}

/// The steps that apply the changes, one after the other.
pub open spec fn apply_all(changes: Seq<ScheduledParameterChange>) -> Seq<RenderStep> {
    changes.map_values(|change: ScheduledParameterChange| RenderStep::ApplyParameter(change))
}

/// Where a block ends: at the offset of the next change, or at the end of the cycle.
pub open spec fn block_end(changes: Seq<ScheduledParameterChange>, num_frames: int) -> int {
    if changes.len() > 0 && changes[0].sample_offset < num_frames {
        changes[0].sample_offset as int
    } else {
        num_frames
    }
}

/// The steps for the samples from `offset` to `num_frames`. `changes` are those that were not
/// applied yet, by offset: a change takes effect where a block starts that is not before its
/// offset, and no block reaches over the offset of the next change. What is left at the end is
/// applied behind the last block.
pub open spec fn accurate_steps(
    changes: Seq<ScheduledParameterChange>,
    events: Seq<PluginNoteEvent>,
    offset: int,
    num_frames: int,
) -> Seq<RenderStep>
    decreases num_frames - offset, changes.len(),
{
    if offset >= num_frames {
        apply_all(changes)
    } else if changes.len() > 0 && changes[0].sample_offset <= offset {
        seq![RenderStep::ApplyParameter(changes[0])] + accurate_steps(
            changes.drop_first(),
            events,
            offset,
            num_frames,
        )
    } else {
        let end = block_end(changes, num_frames);
        seq![block(events, offset, end)] + accurate_steps(changes, events, end, num_frames)
    }
}

/// The steps of a cycle. Without sample accurate automation all changes are applied first, and
/// the plugin processes all samples in one block.
pub open spec fn plan_steps(
    changes: Seq<ScheduledParameterChange>,
    events: Seq<PluginNoteEvent>,
    num_frames: u32,
    sample_accurate: bool,
) -> Seq<RenderStep> {
    if sample_accurate {
        accurate_steps(changes, events, 0, num_frames as int)
    } else if num_frames == 0 {
        apply_all(changes)
    } else {
        apply_all(changes) + seq![block(events, 0, num_frames as int)]
    }
}

/// Where the block starts that holds sample `time`: at the last change that is not behind it.
pub open spec fn block_start(
    changes: Seq<ScheduledParameterChange>,
    time: u32,
    sample_accurate: bool,
) -> u32
    decreases changes.len(),
{
    if !sample_accurate || changes.len() == 0 {
        0
    } else if changes.last().sample_offset <= time {
        changes.last().sample_offset
    } else {
        block_start(changes.drop_last(), time, sample_accurate)
    }
}

/// An event as the plugin gets it: with its offset within its block.
pub open spec fn rebased(
    event: PluginNoteEvent,
    changes: Seq<ScheduledParameterChange>,
    sample_accurate: bool,
) -> PluginNoteEvent {
    event.at((event.time() - block_start(changes, event.time(), sample_accurate)) as u32)
}

/// The events as the plugin gets them.
pub open spec fn plan_events(
    changes: Seq<ScheduledParameterChange>,
    events: Seq<PluginNoteEvent>,
    sample_accurate: bool,
) -> Seq<PluginNoteEvent> {
    events.map_values(|event: PluginNoteEvent| rebased(event, changes, sample_accurate))
}

pub(crate) proof fn lemma_events_before_is(events: Seq<PluginNoteEvent>, time: int, k: int)
    requires
        0 <= k <= events.len(),
        forall|i: int| 0 <= i < k ==> (#[trigger] events[i]).time() < time,
        forall|i: int| k <= i < events.len() ==> (#[trigger] events[i]).time() >= time,
    ensures
        events_before(events, time) == k,
    decreases events.len(),
{
    if events.len() > 0 {
        if k == events.len() {
            lemma_events_before_is(events.drop_last(), time, k - 1);
        } else {
            lemma_events_before_is(events.drop_last(), time, k);
        }
    }
}

pub(crate) proof fn lemma_block_start_is(changes: Seq<ScheduledParameterChange>, time: u32, k: int)
    requires
        0 <= k <= changes.len(),
        forall|i: int| 0 <= i < k ==> (#[trigger] changes[i]).sample_offset <= time,
        forall|i: int| k <= i < changes.len() ==> (#[trigger] changes[i]).sample_offset > time,
    ensures
        block_start(changes, time, true) == if k > 0 {
            changes[k - 1].sample_offset
        } else {
            0
        },
    decreases changes.len(),
{
    if changes.len() > k {
        lemma_block_start_is(changes.drop_last(), time, k);
    }
}

/// How many of the events happen before `time`, counted from the first `from` on, which do.
fn count_events_before(events: &Vec<PluginNoteEvent>, from: usize, time: u32) -> (count: usize)
    requires
        sorted_by_time(events@),
        from <= events@.len(),
        forall|i: int| 0 <= i < from ==> (#[trigger] events@[i]).time() < time,
    ensures
        from <= count <= events@.len(),
        count == events_before(events@, time as int),
        forall|i: int| 0 <= i < count ==> (#[trigger] events@[i]).time() < time,
{
    let mut count: usize = from;
    while count < events.len() && events[count].timing() < time
        invariant
            from <= count <= events@.len(),
            forall|i: int| 0 <= i < count ==> (#[trigger] events@[i]).time() < time,
        decreases events@.len() - count,
    {
        count += 1;
    }
    proof {
        assert forall|i: int| count <= i < events@.len() implies (
        #[trigger] events@[i]).time() >= time by {
            assert(events@[count as int].sample_time() <= events@[i].sample_time());
        }
        lemma_events_before_is(events@, time as int, count as int);
    }
    count
}

fn plan_block_events(
    changes: &Vec<ScheduledParameterChange>,
    events: &Vec<PluginNoteEvent>,
    sample_accurate: bool,
) -> (planned: Vec<PluginNoteEvent>)
    requires
        sorted_by_time(changes@),
        sorted_by_time(events@),
    ensures
        planned@ == plan_events(changes@, events@, sample_accurate),
{
    let mut planned: Vec<PluginNoteEvent> = Vec::new();
    let mut passed: usize = 0;
    let mut i: usize = 0;
    while i < events.len()
        invariant
            i <= events@.len(),
            passed <= changes@.len(),
            sorted_by_time(changes@),
            sorted_by_time(events@),
            forall|j: int|
                0 <= j < passed ==> i < events@.len() ==> (
                #[trigger] changes@[j]).sample_offset <= events@[i as int].time(),
            planned@ == plan_events(changes@, events@, sample_accurate).take(i as int),
        decreases events@.len() - i,
    {
        let mut event = events[i];
        let time = event.timing();
        while passed < changes.len() && changes[passed].sample_offset <= time
            invariant
                passed <= changes@.len(),
                forall|j: int| 0 <= j < passed ==> (#[trigger] changes@[j]).sample_offset <= time,
            decreases changes@.len() - passed,
        {
            passed += 1;
        }
        proof {
            assert forall|j: int| passed <= j < changes@.len() implies (
            #[trigger] changes@[j]).sample_offset > time by {
                assert(changes@[passed as int].sample_time() <= changes@[j].sample_time());
            }
            lemma_block_start_is(changes@, time, passed as int);
        }
        if sample_accurate && passed > 0 {
            event.subtract_timing(changes[passed - 1].sample_offset);
        }
        assert(event == rebased(events@[i as int], changes@, sample_accurate));
        planned.push(event);
        i += 1;
        proof {
            let all = plan_events(changes@, events@, sample_accurate);
            assert(all.take(i as int) =~= all.take(i - 1).push(all[i - 1]));
            if i < events@.len() {
                assert(events@[i - 1].sample_time() <= events@[i as int].sample_time());
            }
        }
    }
    assert(planned@ =~= plan_events(changes@, events@, sample_accurate));
    planned
}

fn push_changes(
    steps: &mut Vec<RenderStep>,
    changes: &Vec<ScheduledParameterChange>,
    from: usize,
)
    requires
        from <= changes@.len(),
    ensures
        final(steps)@ == old(steps)@ + apply_all(changes@.skip(from as int)),
{
    let mut i: usize = from;
    let ghost applied = apply_all(changes@.skip(from as int));
    assert(steps@ =~= steps@ + applied.take(0));
    while i < changes.len()
        invariant
            from <= i <= changes@.len(),
            applied == apply_all(changes@.skip(from as int)),
            steps@ == old(steps)@ + applied.take(i - from),
        decreases changes@.len() - i,
    {
        steps.push(RenderStep::ApplyParameter(changes[i]));
        i += 1;
        assert(applied[i - from - 1] == RenderStep::ApplyParameter(changes@[i - 1]));
        assert(old(steps)@ + applied.take(i - from) =~= (old(steps)@ + applied.take(
            i - from - 1,
        )).push(applied[i - from - 1]));
    }
    assert(applied.take(i - from) =~= applied);
}

/// Splits a cycle of `num_frames` samples into blocks. The changes and the events are those that
/// came in for the cycle, by offset.
pub fn plan_render_cycle(
    changes: &Vec<ScheduledParameterChange>,
    events: &Vec<PluginNoteEvent>,
    num_frames: u32,
    sample_accurate: bool,
) -> (plan: RenderPlan)
    requires
        sorted_by_time(changes@),
        sorted_by_time(events@),
    ensures
        plan.steps@ == plan_steps(changes@, events@, num_frames, sample_accurate),
        plan.events@ == plan_events(changes@, events@, sample_accurate),
        forall|i: int|
            0 <= i < plan.steps@.len() ==> (#[trigger] plan.steps@[i]).lies_within(
                num_frames as int,
                plan.events@.len() as int,
            ),
{
    let planned = plan_block_events(changes, events, sample_accurate);
    let mut steps: Vec<RenderStep> = Vec::new();
    if !sample_accurate {
        push_changes(&mut steps, changes, 0);
        assert(changes@.skip(0) =~= changes@);
        assert(steps@ =~= apply_all(changes@));
        if num_frames > 0 {
            proof {
                lemma_events_before_zero(events@);
            }
            let end_event = count_events_before(events, 0, num_frames);
            steps.push(
                RenderStep::ProcessBlock {
                    sample_offset: 0,
                    block_len: num_frames,
                    first_event: 0,
                    end_event,
                },
            );
            assert(steps@ =~= apply_all(changes@) + seq![block(events@, 0, num_frames as int)]);
        }
        return RenderPlan { steps, events: planned };
    }
    let ghost all = accurate_steps(changes@, events@, 0, num_frames as int);
    let mut offset: u32 = 0;
    let mut next: usize = 0;
    let mut first_event: usize = 0;
    assert(changes@.skip(0) =~= changes@);
    proof {
        lemma_events_before_zero(events@);
    }
    assert(steps@ + accurate_steps(changes@.skip(0), events@, 0, num_frames as int) =~= all);
    while offset < num_frames
        invariant
            sorted_by_time(events@),
            offset <= num_frames,
            next <= changes@.len(),
            first_event <= events@.len(),
            first_event == events_before(events@, offset as int),
            forall|i: int| 0 <= i < first_event ==> (#[trigger] events@[i]).time() < offset,
            forall|i: int|
                0 <= i < steps@.len() ==> (#[trigger] steps@[i]).lies_within(
                    num_frames as int,
                    events@.len() as int,
                ),
            steps@ + accurate_steps(
                changes@.skip(next as int),
                events@,
                offset as int,
                num_frames as int,
            ) == all,
        decreases num_frames - offset,
    {
        while next < changes.len() && changes[next].sample_offset <= offset
            invariant
                offset < num_frames,
                next <= changes@.len(),
                forall|i: int|
                    0 <= i < steps@.len() ==> (#[trigger] steps@[i]).lies_within(
                        num_frames as int,
                        events@.len() as int,
                    ),
                steps@ + accurate_steps(
                    changes@.skip(next as int),
                    events@,
                    offset as int,
                    num_frames as int,
                ) == all,
            decreases changes@.len() - next,
        {
            let ghost rest = changes@.skip(next as int);
            let ghost before = steps@;
            assert(rest[0] == changes@[next as int]);
            assert(rest.drop_first() =~= changes@.skip(next + 1));
            steps.push(RenderStep::ApplyParameter(changes[next]));
            next += 1;
            assert(steps@ + accurate_steps(
                rest.drop_first(),
                events@,
                offset as int,
                num_frames as int,
            ) =~= before + accurate_steps(rest, events@, offset as int, num_frames as int));
        }
        let ghost rest = changes@.skip(next as int);
        let ghost before = steps@;
        assert(next < changes@.len() ==> rest[0] == changes@[next as int]);
        let end: u32 = if next < changes.len() && changes[next].sample_offset < num_frames {
            changes[next].sample_offset
        } else {
            num_frames
        };
        assert(end == block_end(rest, num_frames as int));
        let end_event = count_events_before(events, first_event, end);
        steps.push(
            RenderStep::ProcessBlock {
                sample_offset: offset,
                block_len: end - offset,
                first_event,
                end_event,
            },
        );
        assert(steps@ + accurate_steps(rest, events@, end as int, num_frames as int) =~= before
            + accurate_steps(rest, events@, offset as int, num_frames as int));
        offset = end;
        first_event = end_event;
    }
    push_changes(&mut steps, changes, next);
    RenderPlan { steps, events: planned }
}

pub(crate) proof fn lemma_events_before_zero(events: Seq<PluginNoteEvent>)
    ensures
        events_before(events, 0) == 0,
    decreases events.len(),
{
    if events.len() > 0 {
        lemma_events_before_zero(events.drop_last());
    }
}

/// Calls belong to one cycle where they have as many samples, the same host time, and the same
/// sample time where their time stamps say that they have one. A call without a time stamp is like
/// one whose time stamp says nothing.
pub proof fn same_times_make_one_cycle(
    a: AudioTimeStamp,
    b: AudioTimeStamp,
    frames_a: u32,
    frames_b: u32,
)
    ensures
        cycle_key(Some(a), frames_a) == cycle_key(Some(b), frames_b) <==> {
            &&& frames_a == frames_b
            &&& a.mHostTime == b.mHostTime
            &&& (a.mFlags % 2 == 1) == (b.mFlags % 2 == 1)
            &&& a.mFlags % 2 == 1 ==> a.mSampleTime == b.mSampleTime
        },
        cycle_key(None, frames_a) == cycle_key(Some(b), frames_b) <==> frames_a == frames_b
            && b.mHostTime == 0 && b.mFlags % 2 == 0,
        cycle_key(None, frames_a).is_ambiguous(),
        cycle_key(Some(a), frames_a).is_ambiguous() <==> a.mHostTime == 0 && a.mFlags % 2 == 0,
        cycle_key(Some(a), frames_a).num_frames == frames_a,
{
}

/// Before the first cycle no call belongs to one, and no bus was taken.
pub proof fn new_unit_has_no_cycle(
    state: RenderState,
    layout: AudioIOLayout,
    key: RenderCycleKey,
    bus: u32,
)
    requires
        state.is_new(layout),
    ensures
        !state.covers(key, bus),
        state.rendered_output_buses@.len() == layout.buses(2).len(),
        bus < layout.buses(2).len() ==> !state.rendered_output_buses@[bus as int],
{
}

/// An event that a plugin gets in a block and sends on at once keeps its place in the cycle: what
/// was taken off its offset for the block is what is added to it again.
pub proof fn event_keeps_its_place_in_the_cycle(
    event: PluginNoteEvent,
    changes: Seq<ScheduledParameterChange>,
    sample_accurate: bool,
)
    ensures
        ({
            let start = block_start(changes, event.time(), sample_accurate);
            let planned = rebased(event, changes, sample_accurate);
            &&& start <= event.time()
            &&& planned.time() + start == event.time()
            &&& planned.at(event.time()) == event
            &&& !sample_accurate ==> planned == event
        }),
    decreases changes.len(),
{
    if sample_accurate && changes.len() > 0 && changes.last().sample_offset > event.time() {
        event_keeps_its_place_in_the_cycle(event, changes.drop_last(), sample_accurate);
    }
}

/// Without sample accurate automation all changes come first, in their order, and one block with
/// all samples follows, where there are any.
pub proof fn one_block_follows_the_changes(
    changes: Seq<ScheduledParameterChange>,
    events: Seq<PluginNoteEvent>,
    num_frames: u32,
    i: int,
)
    ensures
        ({
            let steps = plan_steps(changes, events, num_frames, false);
            &&& steps.len() == changes.len() + if num_frames > 0 {
                1int
            } else {
                0
            }
            &&& 0 <= i < changes.len() ==> steps[i] == RenderStep::ApplyParameter(changes[i])
            &&& num_frames > 0 ==> (
            steps[changes.len() as int] matches RenderStep::ProcessBlock {
                sample_offset,
                block_len,
                first_event,
                end_event,
            } && sample_offset == 0 && block_len == num_frames && first_event == 0)
        }),
{
    lemma_events_before_zero(events);
}

} // verus!
