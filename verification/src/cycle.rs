//! Processing a render cycle, and handing its samples to the host.
//!
//! Samples, transport positions and MIDI go between the unit, its host and its plugin in steps: a
//! cycle asks for one action at a time and goes on with what came of it.
use vstd::prelude::*;

use crate::buffers::{
    common_main_channels, copy_effect, copy_result, input_source, main_input_copied,
    AudioBufferList, IOBuffers, InputRequest,
};
use crate::event::{clamp_input_event_timing, clamped_timing, set_event_timing, PluginNoteEvent};
use crate::format::SAMPLE_SIZE;
use crate::host::{
    AudioTimeStamp, OSStatus, K_AUDIO_UNIT_ERR_CANNOT_DO_IN_CURRENT_CONTEXT,
    K_AUDIO_UNIT_ERR_INVALID_ELEMENT, K_AUDIO_UNIT_ERR_TOO_MANY_FRAMES_TO_PROCESS,
    K_AUDIO_UNIT_ERR_UNINITIALIZED, K_AUDIO_UNIT_RENDER_ACTION_OUTPUT_IS_SILENCE,
    K_AUDIO_UNIT_SCOPE_INPUT, K_AUDIO_UNIT_SCOPE_OUTPUT, MAX_AUDIO_CHANNELS, NO_ERR,
};
use crate::layout::{is_supported, AudioIOLayout};
use crate::plugin::{Auv2Plugin, MidiConfig};
use crate::queue::ScheduledParameterChange;
use crate::render::{
    cycle_key, plan_events, plan_render_cycle, plan_steps, render_cycle_key, RenderCycleKey,
    RenderStep,
};
use crate::sort::{by_time, sort_by_time};
use crate::transport::{
    build_transport, cycle_transport, queries_for, transport_queries, unknown_transport, Transport,
    TransportQueries, TransportReplies,
};
use crate::wrapper::Wrapper;

verus! {

/// What a cycle waits for.
#[derive(Clone, Copy, Debug, PartialEq, Eq, Structural)]
pub enum CyclePhase {
    /// The samples of an input bus.
    Input { bus: u32, request: InputRequest },
    /// What the host says about the transport.
    Transport,
    /// The step with this index.
    Step(usize),
    /// The host taking the MIDI events.
    Flush,
    Finished,
}

/// What is to be done next for a cycle.
#[derive(Clone, Copy, Debug, PartialEq, Eq, Structural)]
pub enum CycleAction {
    /// Get the samples of an input bus from their source.
    PullInput { bus: u32, request: InputRequest },
    /// Ask the host about the transport.
    AskTransport(TransportQueries),
    /// Give a parameter its new value.
    ApplyParameter(ScheduledParameterChange),
    /// Process a block, as `start_block` says. It has the events of the cycle from `first_event`
    /// up to, but without, `end_event`.
    ProcessBlock { sample_offset: u32, block_len: u32, first_event: usize, end_event: usize },
    /// Hand the MIDI events that the plugin sent to the host.
    FlushMidi { proc: usize, user_data: usize },
    /// The cycle was processed.
    Done,
    /// The call ends with an error.
    Fail(OSStatus),
}

/// What came of the last action.
#[derive(Clone, Copy, Debug, PartialEq, Eq, Structural)]
pub enum CycleEvent {
    /// The source of the input bus answered with this status.
    InputFilled(OSStatus),
    /// The host answered. `stamp_samples` is the sample time of the time stamp, rounded to a whole
    /// sample.
    TransportKnown { stamp_samples: i64, replies: TransportReplies },
    ParameterApplied,
    /// The block was processed, or the plugin answered with an error.
    BlockProcessed { failed: bool },
    /// The host took the MIDI events, or answered with an error status.
    Flushed(OSStatus),
}

/// What becomes of a block.
pub enum BlockCall {
    /// The plugin is switched off and is not called: the main input goes through.
    PassThrough,
    /// The plugin processes the samples from `start` up to, but without, `end`.
    Process { start: usize, end: usize, events: Vec<PluginNoteEvent> },
}

/// A cycle that is being processed.
pub struct RenderCycle {
    pub key: RenderCycleKey,
    pub time_stamp: Option<AudioTimeStamp>,
    pub num_frames: u32,
    pub phase: CyclePhase,
    pub steps: Vec<RenderStep>,
    /// The host is asked about the transport before the step with this index.
    pub transport_step: usize,
    /// The input events by time, each with its offset within its block.
    pub events: Vec<PluginNoteEvent>,
    /// The transport at the start of the cycle.
    pub transport: Transport,
}

/// The events that a cycle of `num_frames` samples gets: none of them is behind its end.
pub open spec fn clamped_events(events: Seq<PluginNoteEvent>, num_frames: u32) -> Seq<
    PluginNoteEvent,
> {
    events.map_values(
        |event: PluginNoteEvent| event.at(clamped_timing(event.time(), num_frames)),
    )
}

/// The steps of a cycle, from the changes and the events that waited for it.
pub open spec fn steps_for(
    changes: Seq<ScheduledParameterChange>,
    events: Seq<PluginNoteEvent>,
    num_frames: u32,
    sample_accurate: bool,
) -> Seq<RenderStep> {
    plan_steps(
        by_time(changes),
        by_time(clamped_events(events, num_frames)),
        num_frames,
        sample_accurate,
    )
}

/// Before which step the host is asked about the transport: without sample accurate automation
/// behind all changes, otherwise first of all.
pub open spec fn transport_step_for(
    changes: Seq<ScheduledParameterChange>,
    sample_accurate: bool,
) -> int {
    if sample_accurate {
        0
    } else {
        changes.len() as int
    }
}

/// The events of a cycle, as the plugin gets them.
pub open spec fn events_for(
    changes: Seq<ScheduledParameterChange>,
    events: Seq<PluginNoteEvent>,
    num_frames: u32,
    sample_accurate: bool,
) -> Seq<PluginNoteEvent> {
    plan_events(by_time(changes), by_time(clamped_events(events, num_frames)), sample_accurate)
}

fn clamp_events(events: &Vec<PluginNoteEvent>, num_frames: u32) -> (clamped: Vec<PluginNoteEvent>)
    ensures
        clamped@ == clamped_events(events@, num_frames),
{
    let mut clamped: Vec<PluginNoteEvent> = Vec::new();
    let mut i: usize = 0;
    while i < events.len()
        invariant
            i <= events@.len(),
            clamped@ == clamped_events(events@, num_frames).take(i as int),
        decreases events@.len() - i,
    {
        let mut event = events[i];
        let timing = clamp_input_event_timing(event.timing(), num_frames);
        set_event_timing(&mut event, timing);
        clamped.push(event);
        i += 1;
        let ghost all = clamped_events(events@, num_frames);
        assert(all.take(i as int) =~= all.take(i - 1).push(all[i - 1]));
    }
    assert(clamped@ =~= clamped_events(events@, num_frames));
    clamped
}

fn events_between(events: &Vec<PluginNoteEvent>, first: usize, end: usize) -> (between: Vec<
    PluginNoteEvent,
>)
    requires
        first <= end <= events@.len(),
    ensures
        between@ == events@.subrange(first as int, end as int),
{
    let mut between: Vec<PluginNoteEvent> = Vec::new();
    let mut i: usize = first;
    while i < end
        invariant
            first <= i <= end <= events@.len(),
            between@ == events@.subrange(first as int, i as int),
        decreases end - i,
    {
        between.push(events[i]);
        i += 1;
        assert(events@.subrange(first as int, i as int) =~= events@.subrange(
            first as int,
            i - 1,
        ).push(events@[i - 1]));
    }
    between
}

proof fn lemma_fits_can_hold(buffers: IOBuffers, layout: AudioIOLayout, max_frames: int, frames: int)
    requires
        buffers.fits(layout, max_frames),
        frames <= max_frames,
    ensures
        buffers.can_hold(frames),
{
    assert forall|b: int, c: int|
        0 <= b < buffers.input_busses@.len() && 0 <= c
            < buffers.input_busses@[b].storage@.len() implies frames <= (
    #[trigger] buffers.input_busses@[b].storage@[c])@.len() by {
        assert(buffers.input_busses@[b].has_room(
            layout.buses(K_AUDIO_UNIT_SCOPE_INPUT)[b] as int,
            max_frames,
        ));
    }
    assert forall|b: int, c: int|
        0 <= b < buffers.output_busses@.len() && 0 <= c
            < buffers.output_busses@[b].storage@.len() implies frames <= (
    #[trigger] buffers.output_busses@[b].storage@[c])@.len() by {
        assert(buffers.output_busses@[b].has_room(
            layout.buses(K_AUDIO_UNIT_SCOPE_OUTPUT)[b] as int,
            max_frames,
        ));
    }
}

/// The first `frames` samples of the output buses are silent, and everything else is as before.
pub open spec fn outputs_silenced(before: IOBuffers, after: IOBuffers, frames: int) -> bool {
    &&& after.input_busses == before.input_busses
    &&& after.output_busses@.len() == before.output_busses@.len()
    &&& forall|b: int|
        0 <= b < after.output_busses@.len() ==> (#[trigger] after.output_busses@[b]).is_silenced(
            before.output_busses@[b],
            frames,
        )
}

/// The first `frames` samples of input bus `bus` are silent, and everything else is as before.
pub open spec fn input_silenced(before: IOBuffers, after: IOBuffers, bus: int, frames: int) -> bool {
    &&& after.output_busses == before.output_busses
    &&& after.input_busses@.len() == before.input_busses@.len()
    &&& forall|b: int|
        0 <= b < after.input_busses@.len() && b != bus ==> (#[trigger] after.input_busses@[b])
            == before.input_busses@[b]
    &&& after.input_busses@[bus].is_silenced(before.input_busses@[bus], frames)
}

/// An action flag that says that all samples are silent, beside those that are there.
pub open spec fn with_silence_flag(flags: u32) -> u32 {
    if flags / 16 % 2 == 1 {
        flags
    } else {
        (flags + 16) as u32
    }
}

fn add_silence_flag(flags: u32) -> (marked: u32)
    ensures
        marked == with_silence_flag(flags),
{
    assert(flags | 16 == if flags / 16 % 2 == 1 {
        flags
    } else {
        (flags + 16) as u32
    }) by (bit_vector);
    flags | K_AUDIO_UNIT_RENDER_ACTION_OUTPUT_IS_SILENCE
}

impl RenderCycle {
    /// The cycle can go on: what it waits for exists, and so do the samples and the events of its
    /// blocks.
    pub open spec fn wf(self) -> bool {
        &&& self.num_frames * SAMPLE_SIZE <= u32::MAX
        &&& self.phase matches CyclePhase::Step(i) ==> i < self.steps@.len()
        &&& self.transport_step <= self.steps@.len()
        &&& forall|i: int|
            0 <= i < self.steps@.len() ==> (#[trigger] self.steps@[i]).lies_within(
                self.num_frames as int,
                self.events@.len() as int,
            )
    }

    /// Whether the cycle waits for a block.
    pub open spec fn is_at_block(self) -> bool {
        &&& self.phase is Step
        &&& self.steps@[self.phase->Step_0 as int] is ProcessBlock
    }

    /// Whether an event can come of the action that was asked for last.
    pub open spec fn expects(self, event: CycleEvent) -> bool {
        match event {
            CycleEvent::InputFilled(_) => self.phase is Input,
            CycleEvent::TransportKnown { .. } => self.phase is Transport,
            CycleEvent::ParameterApplied => self.phase is Step
                && self.steps@[self.phase->Step_0 as int] is ApplyParameter,
            CycleEvent::BlockProcessed { .. } => self.is_at_block(),
            CycleEvent::Flushed(_) => self.phase is Flush,
        }
    }

    /// The action that takes a step.
    pub open spec fn step_action(step: RenderStep) -> CycleAction {
        match step {
            RenderStep::ApplyParameter(change) => CycleAction::ApplyParameter(change),
            RenderStep::ProcessBlock {
                sample_offset,
                block_len,
                first_event,
                end_event,
            } => CycleAction::ProcessBlock { sample_offset, block_len, first_event, end_event },
        }
    }
}

impl<P: Auv2Plugin> Wrapper<P> {
    /// The plugin is initialized, and a cycle has no more samples than there is room for.
    pub open spec fn can_render(self, num_frames: u32) -> bool {
        &&& self.wf()
        &&& self.state.current_buffer_config is Some
        &&& num_frames <= self.state.maximum_frames_per_slice
        &&& num_frames * SAMPLE_SIZE <= u32::MAX
    }

    /// What is asked for to fill an input bus, or why it cannot be filled.
    pub open spec fn request_for(self, bus: u32, num_frames: u32) -> Result<InputRequest, OSStatus> {
        match input_source(self.input_callbacks@[bus as int], self.input_connections@[bus as int]) {
            Ok(source) => Ok(
                InputRequest {
                    source,
                    number_buffers: self.layout().buses(K_AUDIO_UNIT_SCOPE_INPUT)[bus as int],
                    byte_size: (num_frames * SAMPLE_SIZE) as u32,
                },
            ),
            Err(status) => Err(status),
        }
    }

    /// Where the MIDI events go that the plugin sends, where they go anywhere.
    pub open spec fn midi_target(self) -> Option<(usize, usize)> {
        if P::MIDI_OUTPUT == MidiConfig::Disabled {
            None
        } else {
            match self.state.midi_output_callback {
                Some(callback) => match callback.midiOutputCallback {
                    Some(proc) => Some((proc, callback.userData)),
                    None => None,
                },
                None => None,
            }
        }
    }

    /// The cycle ends: a later call with its key belongs to it, and no bus was taken from it yet.
    pub open spec fn ends_cycle(self, before: Self, cycle: RenderCycle, after: RenderCycle) -> bool {
        &&& self == (Wrapper { render_state: self.render_state, ..before })
        &&& self.render_state.last_cycle_key == Some(cycle.key)
        &&& self.render_state.rendered_output_buses@ == Seq::new(
            if before.layout().buses(K_AUDIO_UNIT_SCOPE_OUTPUT).len() == 0 {
                1
            } else {
                before.layout().buses(K_AUDIO_UNIT_SCOPE_OUTPUT).len()
            },
            |i: int| false,
        )
        &&& after == (RenderCycle { phase: CyclePhase::Finished, ..cycle })
    }

    /// The cycle goes on with step `i`, or behind the last step with the MIDI events, or ends.
    pub open spec fn goes_to_step(
        self,
        before: Self,
        cycle: RenderCycle,
        after: RenderCycle,
        action: CycleAction,
        i: int,
    ) -> bool {
        if i < cycle.steps@.len() {
            &&& self == before
            &&& after == (RenderCycle { phase: CyclePhase::Step(i as usize), ..cycle })
            &&& action == RenderCycle::step_action(cycle.steps@[i])
        } else {
            match before.midi_target() {
                Some((proc, user_data)) => {
                    &&& self == before
                    &&& after == (RenderCycle { phase: CyclePhase::Flush, ..cycle })
                    &&& action == CycleAction::FlushMidi { proc, user_data }
                },
                None => {
                    &&& self.ends_cycle(before, cycle, after)
                    &&& action == CycleAction::Done
                },
            }
        }
    }

    /// The cycle comes to step `i`, and asks about the transport where it is to do so there.
    pub open spec fn comes_to_step(
        self,
        before: Self,
        cycle: RenderCycle,
        after: RenderCycle,
        action: CycleAction,
        i: int,
    ) -> bool {
        if i == cycle.transport_step {
            &&& self == before
            &&& after == (RenderCycle { phase: CyclePhase::Transport, ..cycle })
            &&& action == CycleAction::AskTransport(queries_for(before.state.host_callbacks))
        } else {
            self.goes_to_step(before, cycle, after, action, i)
        }
    }

    /// The cycle goes on with input bus `bus`. Behind the last one it takes everything that waits
    /// for it and comes to the first step.
    pub open spec fn goes_to_input(
        self,
        before: Self,
        cycle: RenderCycle,
        after: RenderCycle,
        action: CycleAction,
        bus: u32,
    ) -> bool {
        if bus < before.layout().buses(K_AUDIO_UNIT_SCOPE_INPUT).len() {
            &&& self == before
            &&& match before.request_for(bus, cycle.num_frames) {
                Ok(request) => {
                    &&& after == (RenderCycle {
                        phase: CyclePhase::Input { bus, request },
                        ..cycle
                    })
                    &&& action == CycleAction::PullInput { bus, request }
                },
                Err(status) => {
                    &&& after == (RenderCycle { phase: CyclePhase::Finished, ..cycle })
                    &&& action == CycleAction::Fail(status)
                },
            }
        } else {
            let taken = Wrapper {
                pending_parameter_changes: self.pending_parameter_changes,
                pending_input_events: self.pending_input_events,
                ..before
            };
            let planned = RenderCycle {
                steps: after.steps,
                transport_step: after.transport_step,
                events: after.events,
                ..cycle
            };
            &&& self == taken
            &&& self.pending_parameter_changes@.len() == 0
            &&& self.pending_input_events@.len() == 0
            &&& after.steps@ == steps_for(
                before.pending_parameter_changes@,
                before.pending_input_events@,
                cycle.num_frames,
                P::SAMPLE_ACCURATE_AUTOMATION,
            )
            &&& after.events@ == events_for(
                before.pending_parameter_changes@,
                before.pending_input_events@,
                cycle.num_frames,
                P::SAMPLE_ACCURATE_AUTOMATION,
            )
            &&& after.transport_step == transport_step_for(
                before.pending_parameter_changes@,
                P::SAMPLE_ACCURATE_AUTOMATION,
            )
            &&& self.comes_to_step(taken, planned, after, action, 0)
        }
    }

    /// The cycle goes on after an event.
    pub open spec fn goes_on(
        self,
        before: Self,
        cycle: RenderCycle,
        after: RenderCycle,
        event: CycleEvent,
        action: CycleAction,
    ) -> bool {
        let failed = RenderCycle { phase: CyclePhase::Finished, ..cycle };
        match event {
            CycleEvent::InputFilled(status) => {
                let bus = cycle.phase->Input_bus;
                let filled = Wrapper { io_buffers: self.io_buffers, ..before };
                if cycle.phase->Input_request.source is Silence {
                    &&& input_silenced(
                        before.io_buffers,
                        self.io_buffers,
                        bus as int,
                        cycle.num_frames as int,
                    )
                    &&& self.goes_to_input(filled, cycle, after, action, (bus + 1) as u32)
                } else if status == 0 {
                    &&& self.io_buffers == before.io_buffers
                    &&& self.goes_to_input(filled, cycle, after, action, (bus + 1) as u32)
                } else {
                    &&& self == before
                    &&& after == failed
                    &&& action == CycleAction::Fail(status)
                }
            },
            CycleEvent::TransportKnown { stamp_samples, replies } => {
                let transport = cycle_transport(
                    before.state.sample_rate,
                    cycle.time_stamp,
                    stamp_samples,
                    replies,
                );
                self.goes_to_step(
                    before,
                    RenderCycle { transport, ..cycle },
                    after,
                    action,
                    cycle.transport_step as int,
                )
            },
            CycleEvent::ParameterApplied => self.comes_to_step(
                before,
                cycle,
                after,
                action,
                cycle.phase->Step_0 + 1,
            ),
            CycleEvent::BlockProcessed { failed: plugin_failed } => if plugin_failed {
                &&& self == before
                &&& after == failed
                &&& action == CycleAction::Fail(K_AUDIO_UNIT_ERR_CANNOT_DO_IN_CURRENT_CONTEXT)
            } else {
                self.comes_to_step(before, cycle, after, action, cycle.phase->Step_0 + 1)
            },
            CycleEvent::Flushed(status) => if status != 0 {
                &&& self == before
                &&& after == failed
                &&& action == CycleAction::Fail(status)
            } else {
                &&& self.ends_cycle(before, cycle, after)
                &&& action == CycleAction::Done
            },
        }
    }

    fn silence_outputs(&mut self, num_frames: u32)
        requires
            old(self).can_render(num_frames),
        ensures
            final(self).can_render(num_frames),
            *final(self) == (Wrapper { io_buffers: final(self).io_buffers, ..*old(self) }),
            outputs_silenced(old(self).io_buffers, final(self).io_buffers, num_frames as int),
    {
        let ghost before = *self;
        let ghost max_frames = self.state.maximum_frames_per_slice as int;
        let ghost counts = self.layout().buses(K_AUDIO_UNIT_SCOPE_OUTPUT);
        let buses: usize = self.io_buffers.output_busses.len();
        let mut bus: usize = 0;
        while bus < buses
            invariant
                bus <= buses,
                before == *old(self),
                before.can_render(num_frames),
                *self == (Wrapper { io_buffers: self.io_buffers, ..before }),
                max_frames == before.state.maximum_frames_per_slice,
                self.io_buffers.fits(before.layout(), max_frames),
                buses == before.io_buffers.output_busses@.len(),
                self.io_buffers.output_busses@.len() == buses,
                self.io_buffers.input_busses == before.io_buffers.input_busses,
                forall|b: int|
                    0 <= b < bus ==> (#[trigger] self.io_buffers.output_busses@[b]).is_silenced(
                        before.io_buffers.output_busses@[b],
                        num_frames as int,
                    ),
                forall|b: int|
                    bus <= b < buses ==> (#[trigger] self.io_buffers.output_busses@[b])
                        == before.io_buffers.output_busses@[b],
            decreases buses - bus,
        {
            proof {
                lemma_fits_can_hold(
                    self.io_buffers,
                    before.layout(),
                    max_frames,
                    num_frames as int,
                );
            }
            let ghost earlier = self.io_buffers;
            let _ = self.io_buffers.output_bus_pointers(bus, num_frames as usize);
            proof {
                lemma_silenced_output_fits(
                    earlier,
                    self.io_buffers,
                    before.layout(),
                    bus as int,
                    max_frames,
                    num_frames as int,
                );
            }
            bus += 1;
        }
    }

    fn finish_cycle(&mut self, cycle: &mut RenderCycle) -> (action: CycleAction)
        requires
            old(self).wf(),
            old(cycle).wf(),
        ensures
            final(self).wf(),
            final(cycle).wf(),
            final(self).ends_cycle(*old(self), *old(cycle), *final(cycle)),
            action == CycleAction::Done,
    {
        let output_buses = self.bus_count(K_AUDIO_UNIT_SCOPE_OUTPUT);
        self.render_state.start_cycle(cycle.key, output_buses);
        cycle.phase = CyclePhase::Finished;
        CycleAction::Done
    }

    fn go_to_step(&mut self, cycle: &mut RenderCycle, i: usize) -> (action: CycleAction)
        requires
            old(self).wf(),
            old(cycle).wf(),
            i <= old(cycle).steps@.len(),
        ensures
            final(self).wf(),
            final(cycle).wf(),
            final(self).goes_to_step(*old(self), *old(cycle), *final(cycle), action, i as int),
    {
        if i < cycle.steps.len() {
            cycle.phase = CyclePhase::Step(i);
            return match cycle.steps[i] {
                RenderStep::ApplyParameter(change) => CycleAction::ApplyParameter(change),
                RenderStep::ProcessBlock {
                    sample_offset,
                    block_len,
                    first_event,
                    end_event,
                } => CycleAction::ProcessBlock { sample_offset, block_len, first_event, end_event },
            };
        }
        if P::MIDI_OUTPUT != MidiConfig::Disabled {
            if let Some(callback) = self.state.midi_output_callback {
                if let Some(proc) = callback.midiOutputCallback {
                    cycle.phase = CyclePhase::Flush;
                    return CycleAction::FlushMidi { proc, user_data: callback.userData };
                }
            }
        }
        self.finish_cycle(cycle)
    }

    fn come_to_step(&mut self, cycle: &mut RenderCycle, i: usize) -> (action: CycleAction)
        requires
            old(self).wf(),
            old(cycle).wf(),
            i <= old(cycle).steps@.len(),
        ensures
            final(self).wf(),
            final(cycle).wf(),
            final(self).comes_to_step(*old(self), *old(cycle), *final(cycle), action, i as int),
    {
        if i == cycle.transport_step {
            cycle.phase = CyclePhase::Transport;
            return CycleAction::AskTransport(transport_queries(self.state.host_callbacks));
        }
        self.go_to_step(cycle, i)
    }

    fn go_to_input(&mut self, cycle: &mut RenderCycle, bus: u32) -> (action: CycleAction)
        requires
            old(self).can_render(old(cycle).num_frames),
            old(cycle).wf(),
        ensures
            final(self).can_render(old(cycle).num_frames),
            final(cycle).wf(),
            final(self).goes_to_input(*old(self), *old(cycle), *final(cycle), action, bus),
    {
        proof {
            self.layout_in_use_is_served();
        }
        let num_frames = cycle.num_frames;
        match self.bus_channels(K_AUDIO_UNIT_SCOPE_INPUT, bus) {
            Some(channels) => {
                proof {
                    assert(self.io_buffers.input_busses@[bus as int].has_room(
                        channels as int,
                        self.state.maximum_frames_per_slice as int,
                    ));
                    lemma_bus_is_small(self.layout(), bus as int);
                }
                let request = self.io_buffers.pull_input(
                    bus,
                    self.input_callbacks[bus as usize],
                    self.input_connections[bus as usize],
                    channels as usize,
                    num_frames,
                );
                match request {
                    Ok(request) => {
                        cycle.phase = CyclePhase::Input { bus, request };
                        CycleAction::PullInput { bus, request }
                    },
                    Err(status) => {
                        cycle.phase = CyclePhase::Finished;
                        CycleAction::Fail(status)
                    },
                }
            },
            None => {
                let drained_changes = self.pending_parameter_changes.drain();
                let drained_events = self.pending_input_events.drain();
                let changes = sort_by_time(&drained_changes);
                let events = sort_by_time(&clamp_events(&drained_events, num_frames));
                let plan = plan_render_cycle(
                    &changes,
                    &events,
                    num_frames,
                    P::SAMPLE_ACCURATE_AUTOMATION,
                );
                cycle.steps = plan.steps;
                cycle.transport_step = if P::SAMPLE_ACCURATE_AUTOMATION {
                    0
                } else {
                    changes.len()
                };
                cycle.events = plan.events;
                cycle.phase = CyclePhase::Finished;
                self.come_to_step(cycle, 0)
            },
        }
    }

    /// Why a render call is refused, where it is.
    pub open spec fn render_refusal(self, bus: u32, num_frames: u32) -> Option<OSStatus> {
        let output_buses = self.layout().buses(K_AUDIO_UNIT_SCOPE_OUTPUT).len();
        if !self.state.is_initialized {
            Some(K_AUDIO_UNIT_ERR_UNINITIALIZED)
        } else if output_buses > 0 && bus >= output_buses {
            Some(K_AUDIO_UNIT_ERR_INVALID_ELEMENT)
        } else if num_frames > self.state.maximum_frames_per_slice {
            Some(K_AUDIO_UNIT_ERR_TOO_MANY_FRAMES_TO_PROCESS)
        } else {
            None
        }
    }

    /// A render call turns the unit `before` into this one and starts with a cycle and an action.
    pub open spec fn begins(
        self,
        before: Self,
        time_stamp: Option<AudioTimeStamp>,
        bus: u32,
        num_frames: u32,
        started: (Option<RenderCycle>, CycleAction),
    ) -> bool {
        match before.render_refusal(bus, num_frames) {
            Some(status) => {
                &&& started.0 is None
                &&& started.1 == CycleAction::Fail(status)
                &&& self == before
            },
            None => if before.render_state.covers(cycle_key(time_stamp, num_frames), bus) {
                &&& started.0 is None
                &&& started.1 == CycleAction::Done
                &&& self == before
            } else {
                &&& started.0 is Some
                &&& started.0->Some_0.wf()
                &&& self.can_render(num_frames)
                &&& outputs_silenced(before.io_buffers, self.io_buffers, num_frames as int)
                &&& exists|cycle: RenderCycle| #[trigger]
                    cycle.is_new(time_stamp, num_frames, before.state.sample_rate)
                        && self.goes_to_input(
                        (Wrapper { io_buffers: self.io_buffers, ..before }),
                        cycle,
                        started.0->Some_0,
                        started.1,
                        0,
                    )
            },
        }
    }

    /// Starts a render call. The call needs no processing where an earlier call processed its
    /// cycle; otherwise the output buses become silent, and processing starts with the first input
    /// bus. When the result is `Done`, the samples can be taken.
    pub fn begin_render(
        &mut self,
        time_stamp: Option<AudioTimeStamp>,
        bus: u32,
        num_frames: u32,
    ) -> (started: (Option<RenderCycle>, CycleAction))
        requires
            old(self).wf(),
            !old(self).is_initializing(),
            num_frames <= old(self).state.maximum_frames_per_slice ==> num_frames * SAMPLE_SIZE
                <= u32::MAX,
        ensures
            final(self).wf(),
            final(self).begins(*old(self), time_stamp, bus, num_frames, started),
    {
        if !self.state.is_initialized {
            return (None, CycleAction::Fail(K_AUDIO_UNIT_ERR_UNINITIALIZED));
        }
        let output_buses = self.bus_count(K_AUDIO_UNIT_SCOPE_OUTPUT);
        if output_buses > 0 && bus >= output_buses {
            return (None, CycleAction::Fail(K_AUDIO_UNIT_ERR_INVALID_ELEMENT));
        }
        if num_frames > self.state.maximum_frames_per_slice {
            return (None, CycleAction::Fail(K_AUDIO_UNIT_ERR_TOO_MANY_FRAMES_TO_PROCESS));
        }
        let key = render_cycle_key(time_stamp, num_frames);
        if self.render_state.is_processed(key, bus) {
            return (None, CycleAction::Done);
        }
        self.silence_outputs(num_frames);
        let mut cycle = RenderCycle {
            key,
            time_stamp,
            num_frames,
            phase: CyclePhase::Finished,
            steps: Vec::new(),
            transport_step: 0,
            events: Vec::new(),
            transport: Transport::new(self.state.sample_rate),
        };
        let ghost new = cycle;
        assert(new.is_new(time_stamp, num_frames, old(self).state.sample_rate));
        let ghost silenced = *self;
        let action = self.go_to_input(&mut cycle, 0);
        assert(silenced == (Wrapper { io_buffers: self.io_buffers, ..*old(self) }));
        (Some(cycle), action)
    }

    /// Goes on with a cycle after what came of the last action.
    pub fn ensure_render_cycle_processed(
        &mut self,
        cycle: &mut RenderCycle,
        event: CycleEvent,
    ) -> (action: CycleAction)
        requires
            old(self).can_render(old(cycle).num_frames),
            old(cycle).wf(),
            old(cycle).expects(event),
            old(cycle).phase matches CyclePhase::Input { bus, .. } ==> bus
                < old(self).layout().buses(K_AUDIO_UNIT_SCOPE_INPUT).len(),
        ensures
            final(self).can_render(old(cycle).num_frames),
            final(cycle).wf(),
            final(self).goes_on(*old(self), *old(cycle), *final(cycle), event, action),
    {
        let ghost count: usize = cycle.steps.len();
        match event {
            CycleEvent::InputFilled(status) => {
                match cycle.phase {
                    CyclePhase::Input { bus, request } => {
                        let ghost before = *self;
                        let ghost max_frames = self.state.maximum_frames_per_slice as int;
                        let num_frames = cycle.num_frames;
                        proof {
                            self.layout_in_use_is_served();
                            lemma_fits_can_hold(
                                self.io_buffers,
                                self.layout(),
                                max_frames,
                                num_frames as int,
                            );
                        }
                        let filled = self.io_buffers.finish_input(bus, request, status, num_frames);
                        proof {
                            if request.source is Silence {
                                lemma_silenced_input_fits(
                                    before.io_buffers,
                                    self.io_buffers,
                                    before.layout(),
                                    bus as int,
                                    max_frames,
                                    num_frames as int,
                                );
                            }
                        }
                        match filled {
                            Ok(_) => self.go_to_input(cycle, bus + 1),
                            Err(status) => {
                                cycle.phase = CyclePhase::Finished;
                                CycleAction::Fail(status)
                            },
                        }
                    },
                    _ => CycleAction::Done,
                }
            },
            CycleEvent::TransportKnown { stamp_samples, replies } => {
                cycle.transport =
                build_transport(self.state.sample_rate, cycle.time_stamp, stamp_samples, &replies);
                self.go_to_step(cycle, cycle.transport_step)
            },
            CycleEvent::ParameterApplied => match cycle.phase {
                CyclePhase::Step(i) => self.come_to_step(cycle, i + 1),
                _ => CycleAction::Done,
            },
            CycleEvent::BlockProcessed { failed } => {
                if failed {
                    cycle.phase = CyclePhase::Finished;
                    return CycleAction::Fail(K_AUDIO_UNIT_ERR_CANNOT_DO_IN_CURRENT_CONTEXT);
                }
                match cycle.phase {
                    CyclePhase::Step(i) => self.come_to_step(cycle, i + 1),
                    _ => CycleAction::Done,
                }
            },
            CycleEvent::Flushed(status) => {
                if status != 0 {
                    cycle.phase = CyclePhase::Finished;
                    return CycleAction::Fail(status);
                }
                self.finish_cycle(cycle)
            },
        }
    }

    /// Starting the block for which a cycle waits turns the unit `before` into this one and leads to
    /// a call.
    pub open spec fn starts_block(
        self,
        before: Self,
        cycle: RenderCycle,
        bypass_value: u32,
        call: BlockCall,
    ) -> bool {
        &&& self == (Wrapper { io_buffers: self.io_buffers, ..before })
        &&& cycle.steps@[cycle.phase->Step_0 as int] matches RenderStep::ProcessBlock {
            sample_offset,
            block_len,
            first_event,
            end_event,
        } && {
            &&& main_input_copied(
                before.io_buffers,
                self.io_buffers,
                before.layout(),
                sample_offset as int,
                sample_offset + block_len,
            )
            &&& match call {
                BlockCall::PassThrough => before.bypassed(bypass_value),
                BlockCall::Process { start, end, events } => {
                    &&& !before.bypassed(bypass_value)
                    &&& start == sample_offset
                    &&& end == sample_offset + block_len
                    &&& events@ == cycle.events@.subrange(first_event as int, end_event as int)
                },
            }
        }
    }

    /// Starts the block for which a cycle waits. The main output gets the samples of the main
    /// input, and the plugin processes them with the events of the block, unless it is switched
    /// off. `bypass_value` is the bits of the bypass parameter's value, where there is such a
    /// parameter.
    pub fn start_block(&mut self, cycle: &RenderCycle, bypass_value: u32) -> (call: BlockCall)
        requires
            old(self).can_render(cycle.num_frames),
            cycle.wf(),
            cycle.is_at_block(),
        ensures
            final(self).can_render(cycle.num_frames),
            final(self).starts_block(*old(self), *cycle, bypass_value, call),
    {
        if let CyclePhase::Step(i) = cycle.phase {
            if let RenderStep::ProcessBlock { sample_offset, block_len, first_event, end_event } =
                cycle.steps[i] {
                assert(cycle.steps@[i as int].lies_within(
                    cycle.num_frames as int,
                    cycle.events@.len() as int,
                ));
                let start: usize = sample_offset as usize;
                let end: usize = (sample_offset + block_len) as usize;
                let layout = self.state.current_audio_io_layout;
                let ghost max_frames = self.state.maximum_frames_per_slice as int;
                assert(self.io_buffers.fits(layout, max_frames) && end <= max_frames);
                self.io_buffers.copy_main_input(layout, start, end);
                proof {
                    lemma_copied_main_fits(
                        old(self).io_buffers,
                        self.io_buffers,
                        layout,
                        max_frames,
                        start as int,
                        end as int,
                    );
                }
                if self.is_bypassed(bypass_value) {
                    return BlockCall::PassThrough;
                }
                let events = events_between(&cycle.events, first_event, end_event);
                return BlockCall::Process { start, end, events };
            }
        }
        BlockCall::PassThrough
    }

    /// Whether a bus stays as it is while the plugin is switched off, because its input goes
    /// through: only the main output has such an input.
    pub open spec fn has_matching_input(self, bus: u32) -> bool {
        &&& self.layout().main_output_channels is Some
        &&& bus == 0
        &&& self.layout().main_input_channels is Some
    }

    /// The action flags after a render call, where the host gave any.
    pub open spec fn flags_after(self, flags: Option<u32>, bus: u32, bypass_value: u32) -> Option<u32> {
        match flags {
            Some(flags) => if self.bypassed(bypass_value) && !self.has_matching_input(bus) {
                Some(with_silence_flag(flags))
            } else {
                Some(flags)
            },
            None => None,
        }
    }

    /// Ending a render call turns the unit `before` into this one and the host's buffers `given` into
    /// `filled`, and answers with a status and the action flags.
    pub open spec fn hands_out(
        self,
        before: Self,
        io_action_flags: Option<u32>,
        bus: u32,
        num_frames: u32,
        given: Option<AudioBufferList>,
        filled: Option<AudioBufferList>,
        bypass_value: u32,
        rendered: (OSStatus, Option<u32>),
    ) -> bool {
        if before.layout().buses(K_AUDIO_UNIT_SCOPE_OUTPUT).len() == 0 {
            &&& rendered == (NO_ERR, io_action_flags)
            &&& self == before
            &&& filled == given
        } else {
            let channels = before.layout().buses(K_AUDIO_UNIT_SCOPE_OUTPUT)[bus as int];
            let copied = copy_result(
                match given {
                    Some(list) => Some(list.mBuffers@),
                    None => None,
                },
                true,
                channels as int,
                num_frames as int,
            );
            &&& given matches Some(list) ==> copy_effect(
                list.mBuffers@,
                filled->Some_0.mBuffers@,
                before.io_buffers.output_busses@[bus as int].storage@,
                bus as usize,
                channels as int,
                num_frames as int,
            )
            &&& match copied {
                Ok(_) => {
                    &&& rendered == (
                        NO_ERR,
                        before.flags_after(io_action_flags, bus, bypass_value),
                    )
                    &&& self == (Wrapper { render_state: self.render_state, ..before })
                    &&& self.render_state.takes(before.render_state, bus as int)
                },
                Err(status) => {
                    &&& rendered == (status, io_action_flags)
                    &&& self == before
                },
            }
        }
    }

    /// Ends a render call whose cycle was processed: copies the samples of the bus to the host and
    /// notes that it took them. The result is the status and the action flags.
    pub fn render_inner(
        &mut self,
        io_action_flags: Option<u32>,
        bus: u32,
        num_frames: u32,
        io_data: &mut Option<AudioBufferList>,
        bypass_value: u32,
    ) -> (rendered: (OSStatus, Option<u32>))
        requires
            old(self).can_render(num_frames),
            old(self).render_refusal(bus, num_frames) is None,
            *old(io_data) matches Some(list) ==> list.wf(),
        ensures
            final(self).wf(),
            *final(io_data) is Some == *old(io_data) is Some,
            final(self).hands_out(
                *old(self),
                io_action_flags,
                bus,
                num_frames,
                *old(io_data),
                *final(io_data),
                bypass_value,
                rendered,
            ),
    {
        let output_buses = self.bus_count(K_AUDIO_UNIT_SCOPE_OUTPUT);
        if output_buses == 0 {
            return (NO_ERR, io_action_flags);
        }
        proof {
            self.layout_in_use_is_served();
            lemma_fits_can_hold(
                self.io_buffers,
                self.layout(),
                self.state.maximum_frames_per_slice as int,
                num_frames as int,
            );
            assert(self.io_buffers.output_busses@[bus as int].has_room(
                self.layout().buses(K_AUDIO_UNIT_SCOPE_OUTPUT)[bus as int] as int,
                self.state.maximum_frames_per_slice as int,
            ));
        }
        let channels: u32 = self.bus_channels(K_AUDIO_UNIT_SCOPE_OUTPUT, bus).unwrap_or(0);
        let copied = self.io_buffers.copy_output_bus_to_host(
            bus as usize,
            io_data,
            channels as usize,
            num_frames as usize,
        );
        if let Err(status) = copied {
            return (status, io_action_flags);
        }
        self.render_state.mark_rendered(bus as usize);
        let flags = match io_action_flags {
            Some(flags) => {
                let layout = self.state.current_audio_io_layout;
                let has_matching_input = layout.main_output_channels.is_some() && bus == 0
                    && layout.main_input_channels.is_some();
                if self.is_bypassed(bypass_value) && !has_matching_input {
                    Some(add_silence_flag(flags))
                } else {
                    Some(flags)
                }
            },
            None => None,
        };
        (NO_ERR, flags)
    }
}

impl RenderCycle {
    /// A cycle of which nothing was processed yet.
    pub open spec fn is_new(
        self,
        time_stamp: Option<AudioTimeStamp>,
        num_frames: u32,
        sample_rate: u64,
    ) -> bool {
        &&& self.key == cycle_key(time_stamp, num_frames)
        &&& self.time_stamp == time_stamp
        &&& self.num_frames == num_frames
        &&& self.steps@.len() == 0
        &&& self.transport_step == 0
        &&& self.events@.len() == 0
        &&& self.transport == unknown_transport(sample_rate)
    }
}

proof fn lemma_bus_is_small(layout: AudioIOLayout, bus: int)
    requires
        is_supported(layout),
        0 <= bus < layout.buses(K_AUDIO_UNIT_SCOPE_INPUT).len(),
    ensures
        layout.buses(K_AUDIO_UNIT_SCOPE_INPUT)[bus] <= MAX_AUDIO_CHANNELS,
{
    match layout.main_input_channels {
        Some(channels) => {
            if bus > 0 {
                assert(layout.aux_input_ports@[bus - 1] <= MAX_AUDIO_CHANNELS);
            }
        },
        None => {
            assert(layout.aux_input_ports@[bus] <= MAX_AUDIO_CHANNELS);
        },
    }
}

proof fn lemma_copied_main_fits(
    before: IOBuffers,
    after: IOBuffers,
    layout: AudioIOLayout,
    max_frames: int,
    start: int,
    end: int,
)
    requires
        before.fits(layout, max_frames),
        0 <= start <= end <= max_frames,
        main_input_copied(before, after, layout, start, end),
    ensures
        after.fits(layout, max_frames),
{
    let counts = layout.buses(K_AUDIO_UNIT_SCOPE_OUTPUT);
    if common_main_channels(layout) > 0 {
        assert forall|b: int| 0 <= b < after.output_busses@.len() implies (
        #[trigger] after.output_busses@[b]).has_room(counts[b] as int, max_frames) by {
            assert(before.output_busses@[b].has_room(counts[b] as int, max_frames));
            if b == 0 {
                assert(before.input_busses@[0].has_room(
                    layout.buses(K_AUDIO_UNIT_SCOPE_INPUT)[0] as int,
                    max_frames,
                ));
                assert forall|c: int| 0 <= c < counts[b] implies (
                #[trigger] after.output_busses@[b].storage@[c])@.len() == max_frames by {
                    assert(before.output_busses@[b].storage@[c]@.len() == max_frames);
                    if c < common_main_channels(layout) {
                        assert(before.input_busses@[0].storage@[c]@.len() == max_frames);
                    }
                }
            }
        }
    }
}

proof fn lemma_silenced_output_fits(
    before: IOBuffers,
    after: IOBuffers,
    layout: AudioIOLayout,
    bus: int,
    max_frames: int,
    frames: int,
)
    requires
        before.fits(layout, max_frames),
        0 <= frames <= max_frames,
        after.input_busses == before.input_busses,
        after.output_busses@.len() == before.output_busses@.len(),
        0 <= bus < before.output_busses@.len(),
        forall|b: int|
            0 <= b < before.output_busses@.len() && b != bus ==> (#[trigger] after.output_busses@[b])
                == before.output_busses@[b],
        after.output_busses@[bus].is_silenced(before.output_busses@[bus], frames),
    ensures
        after.fits(layout, max_frames),
{
    let counts = layout.buses(K_AUDIO_UNIT_SCOPE_OUTPUT);
    assert forall|b: int| 0 <= b < after.output_busses@.len() implies (
    #[trigger] after.output_busses@[b]).has_room(counts[b] as int, max_frames) by {
        assert(before.output_busses@[b].has_room(counts[b] as int, max_frames));
        if b == bus {
            assert forall|c: int| 0 <= c < counts[b] implies (
            #[trigger] after.output_busses@[b].storage@[c])@.len() == max_frames by {
                assert(before.output_busses@[b].storage@[c]@.len() == max_frames);
            }
        }
    }
}

proof fn lemma_silenced_input_fits(
    before: IOBuffers,
    after: IOBuffers,
    layout: AudioIOLayout,
    bus: int,
    max_frames: int,
    frames: int,
)
    requires
        before.fits(layout, max_frames),
        0 <= frames <= max_frames,
        0 <= bus < before.input_busses@.len(),
        input_silenced(before, after, bus, frames),
    ensures
        after.fits(layout, max_frames),
{
    let counts = layout.buses(K_AUDIO_UNIT_SCOPE_INPUT);
    assert forall|b: int| 0 <= b < after.input_busses@.len() implies (
    #[trigger] after.input_busses@[b]).has_room(counts[b] as int, max_frames) by {
        assert(before.input_busses@[b].has_room(counts[b] as int, max_frames));
        if b == bus {
            assert forall|c: int| 0 <= c < counts[b] implies (
            #[trigger] after.input_busses@[b].storage@[c])@.len() == max_frames by {
                assert(before.input_busses@[b].storage@[c]@.len() == max_frames);
            }
        }
    }
}

} // verus!
