//! What holds of every render cycle.
use vstd::prelude::*;

use crate::buffers::{
    copy_effect, copy_result, main_input_copied, silenced_samples_are_zero, AudioBufferList,
    IOBuffers, InputRequest, InputSource,
};
use crate::cycle::{
    clamped_events, events_for, input_silenced, outputs_silenced, steps_for, transport_step_for,
    with_silence_flag, BlockCall, CycleAction, CycleEvent, CyclePhase, RenderCycle,
};
use crate::event::PluginNoteEvent;
use crate::host::{
    AudioTimeStamp, K_AUDIO_UNIT_ERR_CANNOT_DO_IN_CURRENT_CONTEXT,
    K_AUDIO_UNIT_ERR_INVALID_ELEMENT, K_AUDIO_UNIT_ERR_INVALID_PROPERTY_VALUE,
    K_AUDIO_UNIT_ERR_NO_CONNECTION, K_AUDIO_UNIT_ERR_TOO_MANY_FRAMES_TO_PROCESS,
    K_AUDIO_UNIT_ERR_UNINITIALIZED,
};
use crate::layout::channels_of;
use crate::plugin::{Auv2Plugin, MidiConfig};
use crate::property::{PropertyQuery, PropertyValue};
use crate::queue::ScheduledParameterChange;
use crate::render::{cycle_key, RenderCycleKey, RenderState, RenderStep};
use crate::render_laws::{
    applied_changes, block_events_fit, blocks_tile, changes_are_sample_accurate,
    events_arrive_in_their_block, every_change_is_applied_once, every_sample_is_processed_once,
    takes_effect_at_its_offset,
};
use crate::sort::{by_time, sorting_keeps_all_items, sorting_keeps_bounds, Timed};
use crate::transport::{StateReply, TransportReplies};
use crate::wrapper::Wrapper;

verus! {

/// A cycle that was just processed is not processed again: a call with its key belongs to it,
/// whatever its bus.
pub proof fn processed_cycle_covers_all_buses(state: RenderState, key: RenderCycleKey, bus: u32)
    requires
        state.last_cycle_key == Some(key),
        forall|b: int|
            0 <= b < state.rendered_output_buses@.len() ==> !(
            #[trigger] state.rendered_output_buses@[b]),
    ensures
        state.covers(key, bus),
{
}

/// A call with another key starts a new cycle.
pub proof fn other_key_starts_a_new_cycle(
    state: RenderState,
    key: RenderCycleKey,
    other: RenderCycleKey,
    bus: u32,
)
    requires
        state.last_cycle_key == Some(key),
        other != key,
    ensures
        !state.covers(other, bus),
{
}

/// Where the key tells the time, a host can take a bus as often as it likes. Where it does not,
/// taking a bus a second time starts a new cycle, and the other buses stay as they were.
pub proof fn taking_a_bus_twice(
    before: RenderState,
    after: RenderState,
    key: RenderCycleKey,
    bus: u32,
    other: u32,
)
    requires
        before.covers(key, bus),
        after.takes(before, bus as int),
        bus < before.rendered_output_buses@.len(),
    ensures
        after.covers(key, bus) == !key.is_ambiguous(),
        other != bus ==> after.covers(key, other) == before.covers(key, other),
{
}

/// The steps of a cycle serve everything that waited for it: the plugin processes every sample
/// once, every parameter change is applied once and in the order of the offsets, and every event
/// arrives in the block that holds its sample. A cycle without samples has no block, and its
/// events go to none.
pub proof fn cycle_serves_what_waits(
    changes: Seq<ScheduledParameterChange>,
    events: Seq<PluginNoteEvent>,
    num_frames: u32,
    sample_accurate: bool,
    step: int,
)
    requires
        events.len() <= usize::MAX,
        num_frames > 0,
        0 <= step < steps_for(changes, events, num_frames, sample_accurate).len(),
    ensures
        blocks_tile(
            steps_for(changes, events, num_frames, sample_accurate),
            0,
            num_frames as int,
            0,
            events.len() as int,
        ),
        applied_changes(steps_for(changes, events, num_frames, sample_accurate)) == by_time(
            changes,
        ),
        sample_accurate ==> takes_effect_at_its_offset(
            steps_for(changes, events, num_frames, sample_accurate),
            step,
        ),
        block_events_fit(
            steps_for(changes, events, num_frames, sample_accurate)[step],
            by_time(clamped_events(events, num_frames)),
            events_for(changes, events, num_frames, sample_accurate),
        ),
{
    let clamped = clamped_events(events, num_frames);
    sorting_keeps_all_items(changes);
    sorting_keeps_all_items(clamped);
    assert forall|i: int| 0 <= i < clamped.len() implies (#[trigger] clamped[i]).sample_time()
        < num_frames by {
        assert(clamped[i].time() < num_frames);
    }
    sorting_keeps_bounds(clamped, num_frames as int);
    let sorted = by_time(clamped);
    assert forall|i: int| 0 <= i < sorted.len() implies (#[trigger] sorted[i]).time()
        < num_frames by {
        assert(sorted[i].sample_time() < num_frames);
    }
    every_sample_is_processed_once(by_time(changes), sorted, num_frames, sample_accurate);
    every_change_is_applied_once(by_time(changes), sorted, num_frames, sample_accurate);
    events_arrive_in_their_block(by_time(changes), sorted, num_frames, sample_accurate, step);
    if sample_accurate {
        changes_are_sample_accurate(by_time(changes), sorted, num_frames, step);
    }
}

/// The host is asked about the transport before the first block, and without sample accurate
/// automation when all changes are applied already.
pub proof fn transport_is_known_in_every_block(
    changes: Seq<ScheduledParameterChange>,
    events: Seq<PluginNoteEvent>,
    num_frames: u32,
    sample_accurate: bool,
    step: int,
)
    requires
        0 <= step < steps_for(changes, events, num_frames, sample_accurate).len(),
    ensures
        steps_for(changes, events, num_frames, sample_accurate)[step] is ProcessBlock
            ==> transport_step_for(changes, sample_accurate) <= step,
        !sample_accurate && steps_for(
            changes,
            events,
            num_frames,
            sample_accurate,
        )[step] is ApplyParameter ==> step < transport_step_for(changes, sample_accurate),
{
    sorting_keeps_all_items(changes);
}

/// A cycle gets every event that waits for it, each with all that it says: one within the cycle at
/// its own sample, and one behind its end at the last sample.
pub proof fn every_event_reaches_its_cycle(
    events: Seq<PluginNoteEvent>,
    num_frames: u32,
    i: int,
)
    requires
        0 <= i < events.len(),
    ensures
        clamped_events(events, num_frames).len() == events.len(),
        events[i].time() < num_frames ==> clamped_events(events, num_frames)[i] == events[i],
        0 < num_frames <= events[i].time() ==> clamped_events(events, num_frames)[i].time()
            == num_frames - 1,
        clamped_events(events, num_frames)[i].at(events[i].time()) == events[i],
{
}

/// Saying that the output is silent sets one flag, and leaves the others as they are.
pub proof fn silence_is_one_flag(flags: u32)
    ensures
        with_silence_flag(flags) == flags | 16,
{
    assert(flags | 16 == if flags / 16 % 2 == 1 {
        flags
    } else {
        (flags + 16) as u32
    }) by (bit_vector);
}

/// At the start of a cycle the output is silent as far as the cycle goes, and nothing else changes.
pub proof fn outputs_start_silent(
    before: IOBuffers,
    after: IOBuffers,
    frames: int,
    bus: int,
    channel: int,
    i: int,
)
    requires
        outputs_silenced(before, after, frames),
        0 <= bus < before.output_busses@.len(),
        0 <= channel < before.output_busses@[bus].storage@.len(),
        0 <= frames <= before.output_busses@[bus].storage@[channel]@.len(),
        0 <= i < before.output_busses@[bus].storage@[channel]@.len(),
    ensures
        after.input_busses == before.input_busses,
        after.output_busses@.len() == before.output_busses@.len(),
        i < frames ==> after.output_busses@[bus].storage@[channel]@[i] == 0,
        i >= frames ==> after.output_busses@[bus].storage@[channel]@[i]
            == before.output_busses@[bus].storage@[channel]@[i],
{
    silenced_samples_are_zero(
        before.output_busses@[bus],
        after.output_busses@[bus],
        frames,
        channel,
        i,
    );
}

/// An input bus without a source is silent as far as the cycle goes, and the other buses stay.
pub proof fn missing_input_is_silent(
    before: IOBuffers,
    after: IOBuffers,
    bus: int,
    frames: int,
    other: int,
    channel: int,
    i: int,
)
    requires
        input_silenced(before, after, bus, frames),
        0 <= bus < before.input_busses@.len(),
        0 <= other < before.input_busses@.len(),
        0 <= channel < before.input_busses@[bus].storage@.len(),
        0 <= frames <= before.input_busses@[bus].storage@[channel]@.len(),
        0 <= i < before.input_busses@[bus].storage@[channel]@.len(),
    ensures
        after.output_busses == before.output_busses,
        other != bus ==> after.input_busses@[other] == before.input_busses@[other],
        i < frames ==> after.input_busses@[bus].storage@[channel]@[i] == 0,
        i >= frames ==> after.input_busses@[bus].storage@[channel]@[i]
            == before.input_busses@[bus].storage@[channel]@[i],
{
    silenced_samples_are_zero(
        before.input_busses@[bus],
        after.input_busses@[bus],
        frames,
        channel,
        i,
    );
}

impl<P: Auv2Plugin> Wrapper<P> {
    /// A call is rendered where the unit is initialized, the bus is there, and there are no more
    /// samples than the host said. A unit without outputs can be rendered on any bus.
    pub proof fn refused_calls_say_why(self, bus: u32, num_frames: u32)
        ensures
            self.render_refusal(bus, num_frames) is None <==> self.state.is_initialized && (
            channels_of(self.layout(), 2, bus) is Some || self.layout().buses(2).len() == 0)
                && num_frames <= self.state.maximum_frames_per_slice,
            !self.state.is_initialized ==> self.render_refusal(bus, num_frames) == Some(
                K_AUDIO_UNIT_ERR_UNINITIALIZED,
            ),
            self.state.is_initialized && self.layout().buses(2).len() > 0 && channels_of(
                self.layout(),
                2,
                bus,
            ) is None ==> self.render_refusal(bus, num_frames) == Some(
                K_AUDIO_UNIT_ERR_INVALID_ELEMENT,
            ),
            self.state.is_initialized && channels_of(self.layout(), 2, bus) is Some && num_frames
                > self.state.maximum_frames_per_slice ==> self.render_refusal(bus, num_frames)
                == Some(K_AUDIO_UNIT_ERR_TOO_MANY_FRAMES_TO_PROCESS),
    {
    }

    /// A source is asked for a buffer for each channel of its bus, with room for the samples of the
    /// cycle, and the source is the one that the host gave to that bus.
    pub proof fn source_is_asked_for_its_bus(self, bus: u32, num_frames: u32)
        requires
            num_frames <= 0x3FFF_FFFF,
            channels_of(self.layout(), 1, bus) is Some,
            bus < self.input_connections@.len(),
            bus < self.input_callbacks@.len(),
        ensures
            self.request_for(bus, num_frames) matches Ok(request) ==> {
                &&& Some(request.number_buffers) == channels_of(self.layout(), 1, bus)
                &&& request.byte_size == 4 * num_frames
                &&& self.input_connections@[bus as int] matches Some(connection) ==> request.source
                    == InputSource::Connection(connection)
                &&& self.input_connections@[bus as int] is None
                    && self.input_callbacks@[bus as int] is None ==> request.source
                    == InputSource::Silence
                &&& self.input_connections@[bus as int] is None ==> (
                self.input_callbacks@[bus as int] matches Some(callback) ==> (
                request.source matches InputSource::Callback { proc, user_data } && Some(proc)
                    == callback.inputProc && user_data == callback.inputProcRefCon))
            },
            self.request_for(bus, num_frames) matches Err(status) ==> status
                == K_AUDIO_UNIT_ERR_NO_CONNECTION,
            (self.input_connections@[bus as int] matches Some(connection)
                && connection.sourceAudioUnit != 0) ==> self.request_for(bus, num_frames) is Ok,
            self.input_connections@[bus as int] is None && self.input_callbacks@[bus as int] is None
                ==> self.request_for(bus, num_frames) is Ok,
    {
    }

    /// The events that a plugin sends go to the function that the host gave for them, with the
    /// address that it gave, and nowhere where it gave none or the plugin sends none.
    pub proof fn host_function_gets_the_events(self)
        ensures
            P::MIDI_OUTPUT == MidiConfig::Disabled ==> self.midi_target() is None,
            self.state.midi_output_callback is None ==> self.midi_target() is None,
            P::MIDI_OUTPUT != MidiConfig::Disabled ==> (
            self.state.midi_output_callback matches Some(callback) ==> {
                &&& callback.midiOutputCallback is None ==> self.midi_target() is None
                &&& callback.midiOutputCallback matches Some(proc) ==> self.midi_target() == Some(
                    (proc, callback.userData),
                )
            }),
    {
    }

    /// While a plugin is switched off, a host is told that a bus is silent, unless the input of the
    /// unit goes through to it: to the main output of a unit with a main input. Otherwise a host is
    /// told nothing new.
    pub proof fn silence_is_told_where_nothing_goes_through(
        self,
        flags: u32,
        bus: u32,
        bypass_value: u32,
    )
        ensures
            self.flags_after(None, bus, bypass_value) is None,
            !self.bypassed(bypass_value) ==> self.flags_after(Some(flags), bus, bypass_value)
                == Some(flags),
            bus == 0 && self.layout().main_output_channels is Some
                && self.layout().main_input_channels is Some ==> self.flags_after(
                Some(flags),
                bus,
                bypass_value,
            ) == Some(flags),
            self.bypassed(bypass_value) && (bus > 0 || self.layout().main_output_channels is None
                || self.layout().main_input_channels is None) ==> self.flags_after(
                Some(flags),
                bus,
                bypass_value,
            ) == Some(flags | 16),
    {
        silence_is_one_flag(flags);
    }

    /// Input buses are filled one after the other: behind one that was filled comes the next one,
    /// where there is one, or the cycle fails with the reason why that one has no source.
    pub proof fn inputs_are_filled_in_order(
        self,
        before: Self,
        cycle: RenderCycle,
        after: RenderCycle,
        action: CycleAction,
        bus: u32,
        request: InputRequest,
    )
        requires
            cycle.phase == (CyclePhase::Input { bus, request }),
            bus < 0xFFFF_FFFF,
            channels_of(before.layout(), 1, (bus + 1) as u32) is Some,
            self.goes_on(before, cycle, after, CycleEvent::InputFilled(0), action),
        ensures
            match before.request_for((bus + 1) as u32, cycle.num_frames) {
                Ok(next) => {
                    &&& action == (CycleAction::PullInput { bus: (bus + 1) as u32, request: next })
                    &&& after.phase == (CyclePhase::Input { bus: (bus + 1) as u32, request: next })
                },
                Err(status) => action == CycleAction::Fail(status),
            },
            self.pending_parameter_changes == before.pending_parameter_changes,
            self.pending_input_events == before.pending_input_events,
    {
    }

    /// Behind the last input bus a cycle takes everything that waits, and starts with its steps.
    pub proof fn cycle_takes_what_waits(
        self,
        before: Self,
        cycle: RenderCycle,
        after: RenderCycle,
        action: CycleAction,
        bus: u32,
        request: InputRequest,
    )
        requires
            cycle.phase == (CyclePhase::Input { bus, request }),
            bus < 0xFFFF_FFFF,
            channels_of(before.layout(), 1, (bus + 1) as u32) is None,
            self.goes_on(before, cycle, after, CycleEvent::InputFilled(0), action),
        ensures
            self.pending_parameter_changes@.len() == 0,
            self.pending_input_events@.len() == 0,
            after.steps@ == steps_for(
                before.pending_parameter_changes@,
                before.pending_input_events@,
                cycle.num_frames,
                P::SAMPLE_ACCURATE_AUTOMATION,
            ),
            after.events@ == events_for(
                before.pending_parameter_changes@,
                before.pending_input_events@,
                cycle.num_frames,
                P::SAMPLE_ACCURATE_AUTOMATION,
            ),
            P::SAMPLE_ACCURATE_AUTOMATION || before.pending_parameter_changes@.len() == 0
                ==> action is AskTransport,
            !P::SAMPLE_ACCURATE_AUTOMATION && before.pending_parameter_changes@.len() > 0
                ==> action == CycleAction::ApplyParameter(
                by_time(before.pending_parameter_changes@)[0],
            ),
            after.key == cycle.key,
            after.num_frames == cycle.num_frames,
    {
        sorting_keeps_all_items(before.pending_parameter_changes@);
    }

    /// Steps are taken one after the other, and the action is that of the step. The host is asked
    /// about the transport exactly once, at its place among them.
    pub proof fn steps_are_taken_in_order(
        self,
        before: Self,
        cycle: RenderCycle,
        after: RenderCycle,
        action: CycleAction,
        event: CycleEvent,
        i: usize,
    )
        requires
            cycle.wf(),
            cycle.phase == CyclePhase::Step(i),
            cycle.expects(event),
            i + 1 < cycle.steps@.len(),
            event != (CycleEvent::BlockProcessed { failed: true }),
            self.goes_on(before, cycle, after, event, action),
        ensures
            self == before,
            after.steps == cycle.steps,
            after.events == cycle.events,
            after.transport == cycle.transport,
            cycle.transport_step == i + 1 ==> action is AskTransport && after.phase
                == CyclePhase::Transport,
            cycle.transport_step != i + 1 ==> after.phase == CyclePhase::Step((i + 1) as usize),
            cycle.transport_step != i + 1 ==> match cycle.steps@[i + 1] {
                RenderStep::ApplyParameter(change) => action == CycleAction::ApplyParameter(change),
                RenderStep::ProcessBlock { sample_offset, block_len, first_event, end_event } => {
                    action == (CycleAction::ProcessBlock {
                        sample_offset,
                        block_len,
                        first_event,
                        end_event,
                    })
                },
            },
    {
    }

    /// What the host says about the transport is kept for all blocks, and the step at which it was
    /// asked follows.
    pub proof fn transport_is_kept_for_the_blocks(
        self,
        before: Self,
        cycle: RenderCycle,
        after: RenderCycle,
        action: CycleAction,
        stamp_samples: i64,
        state: StateReply,
    )
        requires
            cycle.wf(),
            cycle.phase == CyclePhase::Transport,
            cycle.transport_step < cycle.steps@.len(),
            state.status == 0,
            self.goes_on(
                before,
                cycle,
                after,
                CycleEvent::TransportKnown {
                    stamp_samples,
                    replies: TransportReplies {
                        state: Some(state),
                        beat_and_tempo: None,
                        musical_time_location: None,
                    },
                },
                action,
            ),
        ensures
            after.transport.playing <==> state.is_playing != 0,
            after.transport.pos_samples == Some(state.current_sample),
            after.transport.sample_rate == before.state.sample_rate,
            after.phase == CyclePhase::Step(cycle.transport_step),
    {
    }

    /// Behind the last step the events go to the host where it takes them, and the cycle is over
    /// otherwise. It is over when the host has taken them.
    pub proof fn events_go_out_behind_the_last_step(
        self,
        before: Self,
        cycle: RenderCycle,
        after: RenderCycle,
        action: CycleAction,
        event: CycleEvent,
        i: usize,
    )
        requires
            cycle.wf(),
            cycle.phase == CyclePhase::Step(i),
            cycle.expects(event),
            i + 1 == cycle.steps@.len(),
            cycle.transport_step <= i,
            event != (CycleEvent::BlockProcessed { failed: true }),
            self.goes_on(before, cycle, after, event, action),
        ensures
            before.midi_target() matches Some(target) ==> action == (CycleAction::FlushMidi {
                proc: target.0,
                user_data: target.1,
            }),
            before.midi_target() is None ==> action == CycleAction::Done,
    {
    }

    /// A plugin that fails, a source that fails and a host that does not take the events end the
    /// cycle, each with its own status.
    pub proof fn failures_end_the_cycle(
        self,
        before: Self,
        cycle: RenderCycle,
        after: RenderCycle,
        action: CycleAction,
        status: i32,
    )
        requires
            status != 0,
        ensures
            cycle.is_at_block() && self.goes_on(
                before,
                cycle,
                after,
                CycleEvent::BlockProcessed { failed: true },
                action,
            ) ==> action == CycleAction::Fail(K_AUDIO_UNIT_ERR_CANNOT_DO_IN_CURRENT_CONTEXT) && self
                == before,
            cycle.phase is Input && !(cycle.phase->Input_request.source is Silence) && self.goes_on(
                before,
                cycle,
                after,
                CycleEvent::InputFilled(status),
                action,
            ) ==> action == CycleAction::Fail(status) && self == before,
            cycle.phase is Flush && self.goes_on(
                before,
                cycle,
                after,
                CycleEvent::Flushed(status),
                action,
            ) ==> action == CycleAction::Fail(status) && self == before,
            cycle.phase is Flush && self.goes_on(
                before,
                cycle,
                after,
                CycleEvent::Flushed(0),
                action,
            ) ==> action == CycleAction::Done,
    {
    }

    /// A cycle that was processed is remembered with its key, and all output buses can be taken from
    /// it. A unit without outputs counts as one with a single bus.
    pub proof fn processed_cycle_is_remembered(
        self,
        before: Self,
        cycle: RenderCycle,
        after: RenderCycle,
        bus: u32,
    )
        requires
            self.ends_cycle(before, cycle, after),
        ensures
            self.render_state.last_cycle_key == Some(cycle.key),
            before.layout().buses(2).len() > 0 ==> self.render_state.rendered_output_buses@.len()
                == before.layout().buses(2).len(),
            before.layout().buses(2).len() == 0 ==> self.render_state.rendered_output_buses@.len()
                == 1,
            self.render_state.covers(cycle.key, bus),
            self.state == before.state,
            self.io_buffers == before.io_buffers,
            after.phase is Finished,
    {
    }

    /// A call that is refused, and one whose cycle was processed already, leave the unit as it is:
    /// the first ends with the reason, and the second can take its samples at once.
    pub proof fn refused_and_processed_calls_change_nothing(
        self,
        before: Self,
        time_stamp: Option<AudioTimeStamp>,
        bus: u32,
        num_frames: u32,
        started: (Option<RenderCycle>, CycleAction),
    )
        requires
            self.begins(before, time_stamp, bus, num_frames, started),
        ensures
            !before.state.is_initialized ==> started.1 == CycleAction::Fail(
                K_AUDIO_UNIT_ERR_UNINITIALIZED,
            ) && self == before,
            before.render_refusal(bus, num_frames) matches Some(status) ==> started.1
                == CycleAction::Fail(status) && self == before && started.0 is None,
            before.render_refusal(bus, num_frames) is None && before.render_state.last_cycle_key
                == Some(cycle_key(time_stamp, num_frames)) && (time_stamp matches Some(stamp)
                && stamp.mHostTime != 0) ==> started.1 == CycleAction::Done && self == before,
            before.render_refusal(bus, num_frames) is None && before.render_state.last_cycle_key
                != Some(cycle_key(time_stamp, num_frames)) ==> started.0 is Some,
    {
    }

    /// A new cycle has the key, the time stamp and the number of samples of its call. It starts with
    /// silent outputs, and with the first input bus where there is one; without input buses it takes
    /// what waits at once.
    pub proof fn new_cycle_starts_with_the_first_input(
        self,
        before: Self,
        time_stamp: Option<AudioTimeStamp>,
        bus: u32,
        num_frames: u32,
        started: (Option<RenderCycle>, CycleAction),
    )
        requires
            self.begins(before, time_stamp, bus, num_frames, started),
            started.0 is Some,
        ensures
            started.0->Some_0.key == cycle_key(time_stamp, num_frames),
            started.0->Some_0.time_stamp == time_stamp,
            started.0->Some_0.num_frames == num_frames,
            outputs_silenced(before.io_buffers, self.io_buffers, num_frames as int),
            self.state == before.state,
            self.render_state == before.render_state,
            channels_of(before.layout(), 1, 0) is Some ==> match before.request_for(0, num_frames) {
                Ok(request) => {
                    &&& started.1 == (CycleAction::PullInput { bus: 0, request })
                    &&& started.0->Some_0.steps@.len() == 0
                    &&& started.0->Some_0.events@.len() == 0
                    &&& !started.0->Some_0.transport.playing
                    &&& started.0->Some_0.transport.sample_rate == before.state.sample_rate
                },
                Err(status) => started.1 == CycleAction::Fail(status),
            },
            channels_of(before.layout(), 1, 0) is None ==> {
                &&& self.pending_parameter_changes@.len() == 0
                &&& self.pending_input_events@.len() == 0
                &&& started.1 is AskTransport || started.1 is ApplyParameter
            },
    {
        sorting_keeps_all_items(before.pending_parameter_changes@);
        let cycle = choose|cycle: RenderCycle| #[trigger]
            cycle.is_new(time_stamp, num_frames, before.state.sample_rate) && self.goes_to_input(
                (Wrapper { io_buffers: self.io_buffers, ..before }),
                cycle,
                started.0->Some_0,
                started.1,
                0,
            );
        assert(cycle.is_new(time_stamp, num_frames, before.state.sample_rate));
    }

    /// A block passes by the plugin exactly where a host reads that the plugin is bypassed, with the
    /// same value of the bypass parameter. Otherwise the plugin gets the samples of the block and
    /// those events of the cycle that belong to it, in their order. In both cases the output starts
    /// as the input.
    pub proof fn block_passes_by_a_bypassed_plugin(
        self,
        before: Self,
        cycle: RenderCycle,
        bypass_value: u32,
        call: BlockCall,
        query: PropertyQuery,
        i: usize,
        sample_offset: u32,
        block_len: u32,
        first_event: usize,
        end_event: usize,
        k: int,
    )
        requires
            cycle.wf(),
            cycle.phase == CyclePhase::Step(i),
            cycle.steps@[i as int] == (RenderStep::ProcessBlock {
                sample_offset,
                block_len,
                first_event,
                end_event,
            }),
            self.starts_block(before, cycle, bypass_value, call),
        ensures
            call is PassThrough <==> before.is_value(
                PropertyValue::UInt32(1),
                21,
                0,
                0,
                query,
                bypass_value,
            ),
            call is Process <==> before.is_value(
                PropertyValue::UInt32(0),
                21,
                0,
                0,
                query,
                bypass_value,
            ),
            call matches BlockCall::Process { start, end, events } ==> {
                &&& start == sample_offset
                &&& end - start == block_len
                &&& events@.len() == end_event - first_event
                &&& 0 <= k < events@.len() ==> events@[k] == cycle.events@[first_event + k]
            },
            main_input_copied(
                before.io_buffers,
                self.io_buffers,
                before.layout(),
                sample_offset as int,
                sample_offset + block_len,
            ),
            self.state == before.state,
            self.render_state == before.render_state,
    {
        assert(cycle.steps@[i as int].lies_within(
            cycle.num_frames as int,
            cycle.events@.len() as int,
        ));
    }

    /// A host that gives room for the samples of a bus gets them, and the bus counts as taken. One
    /// that does not gets an error, and may try again. Either way the unit plays on as before.
    pub proof fn taken_bus_counts_as_taken(
        self,
        before: Self,
        flags: Option<u32>,
        bus: u32,
        num_frames: u32,
        given: Option<AudioBufferList>,
        filled: Option<AudioBufferList>,
        bypass_value: u32,
        rendered: (i32, Option<u32>),
    )
        requires
            before.render_refusal(bus, num_frames) is None,
            before.layout().buses(2).len() > 0,
            channels_of(before.layout(), 2, bus) matches Some(channels) && channels > 0,
            self.hands_out(
                before,
                flags,
                bus,
                num_frames,
                given,
                filled,
                bypass_value,
                rendered,
            ),
        ensures
            given is None ==> rendered == (K_AUDIO_UNIT_ERR_INVALID_PROPERTY_VALUE, flags) && self
                == before,
            given matches Some(list) ==> {
                let channels = channels_of(before.layout(), 2, bus)->Some_0 as int;
                let copied = copy_result(Some(list.mBuffers@), true, channels, num_frames as int);
                &&& copied is Ok ==> rendered.0 == 0 && rendered.1 == before.flags_after(
                    flags,
                    bus,
                    bypass_value,
                ) && self.render_state.takes(before.render_state, bus as int)
                &&& copied is Err ==> rendered == (K_AUDIO_UNIT_ERR_INVALID_PROPERTY_VALUE, flags)
                    && self == before
                &&& copy_effect(
                    list.mBuffers@,
                    filled->Some_0.mBuffers@,
                    before.io_buffers.output_busses@[bus as int].storage@,
                    bus as usize,
                    channels,
                    num_frames as int,
                )
            },
            self.state == before.state,
            self.io_buffers == before.io_buffers,
    {
    }

    /// Where the host says nothing about its state, a cycle is where its time stamp says.
    pub proof fn time_stamp_is_kept_for_the_blocks(
        self,
        before: Self,
        cycle: RenderCycle,
        after: RenderCycle,
        action: CycleAction,
        stamp_samples: i64,
        stamp: AudioTimeStamp,
    )
        requires
            cycle.wf(),
            cycle.phase == CyclePhase::Transport,
            cycle.time_stamp == Some(stamp),
            stamp.mFlags % 2 == 1,
            self.goes_on(
                before,
                cycle,
                after,
                CycleEvent::TransportKnown {
                    stamp_samples,
                    replies: TransportReplies {
                        state: None,
                        beat_and_tempo: None,
                        musical_time_location: None,
                    },
                },
                action,
            ),
        ensures
            after.transport.pos_samples == Some(stamp_samples),
            !after.transport.playing,
            after.transport.sample_rate == before.state.sample_rate,
    {
    }

    /// A cycle ends well only behind its last step, and then a later call with its key belongs to
    /// it.
    pub proof fn done_means_every_step_was_taken(
        self,
        before: Self,
        cycle: RenderCycle,
        after: RenderCycle,
        event: CycleEvent,
    )
        requires
            cycle.wf(),
            cycle.expects(event),
            self.goes_on(before, cycle, after, event, CycleAction::Done),
        ensures
            cycle.phase matches CyclePhase::Step(i) ==> i == cycle.steps@.len() - 1,
            cycle.phase is Transport ==> cycle.transport_step == cycle.steps@.len(),
            !(cycle.phase is Input),
            forall|bus: u32| self.render_state.covers(cycle.key, bus),
    {
        sorting_keeps_all_items(before.pending_parameter_changes@);
    }

    /// A cycle that fails is not remembered: the next call with its key processes it anew.
    pub proof fn failed_cycle_is_not_remembered(
        self,
        before: Self,
        cycle: RenderCycle,
        after: RenderCycle,
        event: CycleEvent,
        status: i32,
    )
        requires
            cycle.expects(event),
            self.goes_on(before, cycle, after, event, CycleAction::Fail(status)),
        ensures
            self.render_state == before.render_state,
            after.phase is Finished,
            status != 0,
    {
    }

    /// What the plugin does to its input changes neither the host's settings nor what waits for
    /// the next cycle, except that a cycle takes what waits once all of its input is there.
    pub proof fn cycle_keeps_the_host_settings(
        self,
        before: Self,
        cycle: RenderCycle,
        after: RenderCycle,
        event: CycleEvent,
        action: CycleAction,
    )
        requires
            cycle.expects(event),
            self.goes_on(before, cycle, after, event, action),
        ensures
            self.state == before.state,
            self.params == before.params,
            self.input_callbacks == before.input_callbacks,
            self.input_connections == before.input_connections,
            self.property_listeners == before.property_listeners,
            !(cycle.phase is Input) || action is PullInput || action is Fail
                ==> self.pending_parameter_changes == before.pending_parameter_changes
                && self.pending_input_events == before.pending_input_events,
    {
    }
}

} // verus!
