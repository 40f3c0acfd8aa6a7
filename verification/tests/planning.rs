use nih_plug_auv2::event::{
    add_event_timing, clamp_input_event_timing, clamp_output_event_timing, set_event_timing,
    NoteEvent, PluginNoteEvent, SysExHandle,
};
use nih_plug_auv2::host::{AudioTimeStamp, SMPTETime};
use nih_plug_auv2::layout::AudioIOLayout;
use nih_plug_auv2::queue::{EventQueue, ParameterQueue, ScheduledParameterChange};
use nih_plug_auv2::render::{
    cycle_key_is_ambiguous, plan_render_cycle, render_cycle_key, RenderState, RenderStep,
};
use nih_plug_auv2::sort::sort_by_time;

const TWO_OUTPUTS: AudioIOLayout = AudioIOLayout {
    main_input_channels: None,
    main_output_channels: Some(2),
    aux_input_ports: &[],
    aux_output_ports: &[1],
};

const NO_OUTPUT: AudioIOLayout =
    AudioIOLayout { main_output_channels: None, aux_output_ports: &[], ..TWO_OUTPUTS };

fn change(param_hash: u32, sample_offset: u32) -> ScheduledParameterChange {
    ScheduledParameterChange { param_hash, sample_offset, normalized_value: 0.25_f32.to_bits() }
}

fn cc(timing: u32, cc: u8) -> PluginNoteEvent {
    NoteEvent::MidiCC { timing, channel: 0, cc, value: 1.0_f32.to_bits() }
}

fn block(sample_offset: u32, block_len: u32, first_event: usize, end_event: usize) -> RenderStep {
    RenderStep::ProcessBlock { sample_offset, block_len, first_event, end_event }
}

fn stamp(sample_time: f64, host_time: u64, flags: u32) -> AudioTimeStamp {
    AudioTimeStamp {
        mSampleTime: sample_time.to_bits(),
        mHostTime: host_time,
        mRateScalar: 1.0_f64.to_bits(),
        mWordClockTime: 0,
        mSMPTETime: SMPTETime {
            mSubframes: 0,
            mSubframeDivisor: 0,
            mCounter: 0,
            mType: 0,
            mFlags: 0,
            mHours: 0,
            mMinutes: 0,
            mSeconds: 0,
            mFrames: 0,
        },
        mFlags: flags,
        mReserved: 0,
    }
}

#[test]
fn moving_an_event_keeps_its_content() {
    let mut event: PluginNoteEvent =
        NoteEvent::NoteOn { timing: 3, voice_id: Some(-1), channel: 2, note: 60, velocity: 7 };
    set_event_timing(&mut event, 9);
    assert_eq!(
        event,
        NoteEvent::NoteOn { timing: 9, voice_id: Some(-1), channel: 2, note: 60, velocity: 7 }
    );
    event.subtract_timing(4);
    assert_eq!(event.timing(), 5);
    set_event_timing(&mut event, 3);
    assert_eq!(
        event,
        NoteEvent::NoteOn { timing: 3, voice_id: Some(-1), channel: 2, note: 60, velocity: 7 }
    );
}

#[test]
fn every_kind_of_event_moves() {
    let events: Vec<PluginNoteEvent> = vec![
        NoteEvent::NoteOn { timing: 1, voice_id: None, channel: 0, note: 1, velocity: 2 },
        NoteEvent::NoteOff { timing: 1, voice_id: None, channel: 0, note: 1, velocity: 2 },
        NoteEvent::Choke { timing: 1, voice_id: None, channel: 0, note: 1 },
        NoteEvent::VoiceTerminated { timing: 1, voice_id: None, channel: 0, note: 1 },
        NoteEvent::PolyModulation { timing: 1, voice_id: 1, poly_modulation_id: 2, normalized_offset: 3 },
        NoteEvent::MonoAutomation { timing: 1, poly_modulation_id: 2, normalized_value: 3 },
        NoteEvent::PolyPressure { timing: 1, voice_id: None, channel: 0, note: 1, pressure: 2 },
        NoteEvent::PolyVolume { timing: 1, voice_id: None, channel: 0, note: 1, gain: 2 },
        NoteEvent::PolyPan { timing: 1, voice_id: None, channel: 0, note: 1, pan: 2 },
        NoteEvent::PolyTuning { timing: 1, voice_id: None, channel: 0, note: 1, tuning: 2 },
        NoteEvent::PolyVibrato { timing: 1, voice_id: None, channel: 0, note: 1, vibrato: 2 },
        NoteEvent::PolyExpression { timing: 1, voice_id: None, channel: 0, note: 1, expression: 2 },
        NoteEvent::PolyBrightness { timing: 1, voice_id: None, channel: 0, note: 1, brightness: 2 },
        NoteEvent::MidiChannelPressure { timing: 1, channel: 0, pressure: 2 },
        NoteEvent::MidiPitchBend { timing: 1, channel: 0, value: 2 },
        cc(1, 4),
        NoteEvent::MidiProgramChange { timing: 1, channel: 0, program: 2 },
        NoteEvent::MidiSysEx { timing: 1, message: SysExHandle { id: 8 } },
    ];
    for event in events {
        let mut moved = event;
        add_event_timing(&mut moved, 10);
        assert_eq!(moved.timing(), 11);
        assert_ne!(moved, event);
        set_event_timing(&mut moved, 1);
        assert_eq!(moved, event);
    }
}

#[test]
fn adding_to_a_timing_saturates() {
    let mut event = cc(u32::MAX - 1, 0);
    add_event_timing(&mut event, 5);
    assert_eq!(event.timing(), u32::MAX);
}

#[test]
fn late_events_happen_at_the_last_sample() {
    assert_eq!(clamp_input_event_timing(3, 4), 3);
    assert_eq!(clamp_input_event_timing(4, 4), 3);
    assert_eq!(clamp_input_event_timing(4, 0), 0);
    assert_eq!(clamp_output_event_timing(100, 64), 63);
    assert_eq!(clamp_output_event_timing(0, 64), 0);
}

#[test]
fn sorting_is_stable() {
    let sorted = sort_by_time(&vec![cc(5, 1), cc(2, 2), cc(5, 3), cc(0, 4), cc(2, 5)]);
    assert_eq!(sorted, vec![cc(0, 4), cc(2, 2), cc(2, 5), cc(5, 1), cc(5, 3)]);
    let none: Vec<ScheduledParameterChange> = sort_by_time(&Vec::new());
    assert!(none.is_empty());
}

#[test]
fn queues_give_back_in_order() {
    let mut changes = ParameterQueue::new();
    assert!(changes.drain().is_empty());
    assert!(changes.push(change(1, 9)));
    assert!(changes.push(change(2, 3)));
    assert_eq!(changes.drain(), vec![change(1, 9), change(2, 3)]);
    assert!(changes.drain().is_empty());

    let mut events = EventQueue::new();
    assert!(events.push(cc(4, 1)));
    assert!(events.push(cc(1, 2)));
    assert_eq!(events.drain(), vec![cc(4, 1), cc(1, 2)]);
}

#[test]
fn full_queues_drop_what_comes() {
    let mut changes = ParameterQueue::new();
    for i in 0..2048 {
        assert!(changes.push(change(i, 0)));
    }
    assert!(!changes.push(change(9999, 0)));
    let drained = changes.drain();
    assert_eq!(drained.len(), 2048);
    assert_eq!(drained[2047], change(2047, 0));
    assert!(changes.push(change(1, 1)));

    let mut events = EventQueue::new();
    for i in 0..2048 {
        assert!(events.push(cc(i, 0)));
    }
    assert!(!events.push(cc(1, 1)));
    assert_eq!(events.drain().len(), 2048);
}

#[test]
fn changes_split_the_cycle() {
    let changes = vec![change(1, 0), change(2, 10), change(3, 10), change(4, 40), change(5, 64), change(6, 99)];
    let events = vec![cc(0, 0), cc(9, 1), cc(10, 2), cc(39, 3), cc(40, 4), cc(63, 5)];
    let plan = plan_render_cycle(&changes, &events, 64, true);
    assert_eq!(
        plan.steps,
        vec![
            RenderStep::ApplyParameter(change(1, 0)),
            block(0, 10, 0, 2),
            RenderStep::ApplyParameter(change(2, 10)),
            RenderStep::ApplyParameter(change(3, 10)),
            block(10, 30, 2, 4),
            RenderStep::ApplyParameter(change(4, 40)),
            block(40, 24, 4, 6),
            RenderStep::ApplyParameter(change(5, 64)),
            RenderStep::ApplyParameter(change(6, 99)),
        ]
    );
    assert_eq!(plan.events, vec![cc(0, 0), cc(9, 1), cc(0, 2), cc(29, 3), cc(0, 4), cc(23, 5)]);
}

#[test]
fn cycle_stays_whole_without_sample_accuracy() {
    let changes = vec![change(1, 5), change(2, 50)];
    let events = vec![cc(4, 0), cc(60, 1)];
    let plan = plan_render_cycle(&changes, &events, 64, false);
    assert_eq!(
        plan.steps,
        vec![
            RenderStep::ApplyParameter(change(1, 5)),
            RenderStep::ApplyParameter(change(2, 50)),
            block(0, 64, 0, 2),
        ]
    );
    assert_eq!(plan.events, events);
}

#[test]
fn empty_cycle_only_applies_changes() {
    for sample_accurate in [false, true] {
        let plan = plan_render_cycle(&vec![change(1, 5)], &vec![cc(0, 0)], 0, sample_accurate);
        assert_eq!(plan.steps, vec![RenderStep::ApplyParameter(change(1, 5))]);
    }
}

#[test]
fn cycle_without_changes_is_one_block() {
    let plan = plan_render_cycle(&Vec::new(), &vec![cc(7, 0)], 16, true);
    assert_eq!(plan.steps, vec![block(0, 16, 0, 1)]);
    assert_eq!(plan.events, vec![cc(7, 0)]);
}

#[test]
fn cycle_keys_take_the_valid_times() {
    let key = render_cycle_key(Some(stamp(128.0, 7, 1)), 64);
    assert_eq!(key.sample_time_bits, Some(128.0_f64.to_bits()));
    assert_eq!(key.host_time, 7);
    assert_eq!(key.num_frames, 64);
    assert!(!cycle_key_is_ambiguous(key));

    let host_only = render_cycle_key(Some(stamp(128.0, 7, 2)), 64);
    assert_eq!(host_only.sample_time_bits, None);
    assert!(!cycle_key_is_ambiguous(host_only));

    assert!(cycle_key_is_ambiguous(render_cycle_key(Some(stamp(128.0, 0, 2)), 64)));
    assert!(cycle_key_is_ambiguous(render_cycle_key(None, 64)));
    assert!(!cycle_key_is_ambiguous(render_cycle_key(Some(stamp(0.0, 0, 1)), 64)));
}

#[test]
fn timed_cycle_is_processed_once() {
    let key = render_cycle_key(Some(stamp(128.0, 7, 1)), 64);
    let mut state = RenderState::new(TWO_OUTPUTS);
    assert!(!state.is_processed(key, 0));
    state.start_cycle(key, 2);
    assert!(state.is_processed(key, 0));
    assert!(state.is_processed(key, 1));
    state.mark_rendered(0);
    assert!(state.is_processed(key, 0));
    assert!(!state.is_processed(render_cycle_key(Some(stamp(192.0, 8, 1)), 64), 0));
    assert!(!state.is_processed(render_cycle_key(Some(stamp(128.0, 7, 1)), 32), 0));
}

#[test]
fn untimed_cycle_ends_when_a_bus_is_taken_twice() {
    let key = render_cycle_key(None, 64);
    let mut state = RenderState::new(TWO_OUTPUTS);
    state.start_cycle(key, 2);
    state.mark_rendered(0);
    assert!(!state.is_processed(key, 0));
    assert!(state.is_processed(key, 1));
    state.mark_rendered(17);
    assert_eq!(state.rendered_output_buses, vec![true, false]);
}

#[test]
fn unit_without_outputs_still_has_one_mark() {
    let key = render_cycle_key(None, 64);
    let mut state = RenderState::new(NO_OUTPUT);
    assert!(state.rendered_output_buses.is_empty());
    state.start_cycle(key, 0);
    assert_eq!(state.rendered_output_buses, vec![false]);
}
