use nih_plug_auv2::buffers::{AudioBuffer, AudioBufferList, BufferMemory, InputSource};
use nih_plug_auv2::cycle::{BlockCall, CycleAction, CycleEvent, RenderCycle};
use nih_plug_auv2::event::{NoteEvent, PluginNoteEvent};
use nih_plug_auv2::host::{
    AUMIDIOutputCallbackStruct, AURenderCallbackStruct, AudioUnitConnection,
    K_AUDIO_UNIT_ERR_CANNOT_DO_IN_CURRENT_CONTEXT, K_AUDIO_UNIT_ERR_INVALID_ELEMENT,
    K_AUDIO_UNIT_ERR_INVALID_PROPERTY_VALUE, K_AUDIO_UNIT_ERR_NO_CONNECTION,
    K_AUDIO_UNIT_ERR_TOO_MANY_FRAMES_TO_PROCESS, K_AUDIO_UNIT_ERR_UNINITIALIZED,
};
use nih_plug_auv2::layout::AudioIOLayout;
use nih_plug_auv2::plugin::{Auv2Plugin, MidiConfig, Plugin};
use nih_plug_auv2::queue::ScheduledParameterChange;
use nih_plug_auv2::transport::{StateReply, TransportReplies};
use nih_plug_auv2::wrapper::{InitializeEnd, Wrapper};

struct Effect;

impl Plugin for Effect {
    const NAME: &'static str = "Effect";
    const VENDOR: &'static str = "";
    const VERSION: &'static str = "1.0.0";
    const AUDIO_IO_LAYOUTS: &'static [AudioIOLayout] = &[AudioIOLayout {
        main_input_channels: Some(1),
        main_output_channels: Some(1),
        aux_input_ports: &[1],
        aux_output_ports: &[1],
    }];
    const MIDI_OUTPUT: MidiConfig = MidiConfig::Basic;
    const SAMPLE_ACCURATE_AUTOMATION: bool = true;
}

impl Auv2Plugin for Effect {
    const AUV2_SUBTYPE: [u8; 4] = *b"Efct";
    const AUV2_MANUFACTURER: [u8; 4] = *b"Mois";
}

struct Meter;

impl Plugin for Meter {
    const NAME: &'static str = "Meter";
    const VENDOR: &'static str = "";
    const VERSION: &'static str = "1.0.0";
    const AUDIO_IO_LAYOUTS: &'static [AudioIOLayout] = &[];
}

impl Auv2Plugin for Meter {
    const AUV2_SUBTYPE: [u8; 4] = *b"Metr";
    const AUV2_MANUFACTURER: [u8; 4] = *b"Mois";
}

fn running<P: Auv2Plugin>() -> Wrapper<P> {
    let mut unit = Wrapper::<P>::new(Vec::new(), false, false).unwrap();
    unit.state.maximum_frames_per_slice = 8;
    unit.initialize_inner().unwrap();
    assert_eq!(unit.finish_initialize(true), InitializeEnd { status: 0, reset: true });
    unit
}

fn no_replies() -> CycleEvent {
    CycleEvent::TransportKnown {
        stamp_samples: 0,
        replies: TransportReplies { state: None, beat_and_tempo: None, musical_time_location: None },
    }
}

fn change(sample_offset: u32) -> ScheduledParameterChange {
    ScheduledParameterChange { param_hash: 1, sample_offset, normalized_value: 0 }
}

fn program(timing: u32, program: u8) -> PluginNoteEvent {
    NoteEvent::MidiProgramChange { timing, channel: 0, program }
}

fn block(sample_offset: u32, block_len: u32, first_event: usize, end_event: usize) -> CycleAction {
    CycleAction::ProcessBlock { sample_offset, block_len, first_event, end_event }
}

fn finish(unit: &mut Wrapper<Effect>, started: (Option<RenderCycle>, CycleAction)) -> CycleAction {
    let (cycle, mut action) = started;
    let Some(mut cycle) = cycle else {
        return action;
    };
    loop {
        let event = match action {
            CycleAction::PullInput { .. } => CycleEvent::InputFilled(0),
            CycleAction::AskTransport(_) => no_replies(),
            CycleAction::ApplyParameter(_) => CycleEvent::ParameterApplied,
            CycleAction::ProcessBlock { .. } => CycleEvent::BlockProcessed { failed: false },
            CycleAction::FlushMidi { .. } => CycleEvent::Flushed(0),
            CycleAction::Done | CycleAction::Fail(_) => return action,
        };
        action = unit.ensure_render_cycle_processed(&mut cycle, event);
    }
}

fn one_buffer() -> Option<AudioBufferList> {
    Some(AudioBufferList {
        mBuffers: vec![AudioBuffer {
            mNumberChannels: 1,
            mDataByteSize: 32,
            mData: BufferMemory::Host(vec![99; 8]),
        }],
    })
}

#[test]
fn render_calls_are_checked() {
    let mut unit = Wrapper::<Effect>::new(Vec::new(), false, false).unwrap();
    assert_eq!(unit.begin_render(None, 0, 8).1, CycleAction::Fail(K_AUDIO_UNIT_ERR_UNINITIALIZED));
    let mut unit = running::<Effect>();
    assert_eq!(unit.begin_render(None, 2, 8).1, CycleAction::Fail(K_AUDIO_UNIT_ERR_INVALID_ELEMENT));
    assert_eq!(
        unit.begin_render(None, 0, 9).1,
        CycleAction::Fail(K_AUDIO_UNIT_ERR_TOO_MANY_FRAMES_TO_PROCESS)
    );
    assert_eq!(
        unit.begin_render(None, 0, u32::MAX).1,
        CycleAction::Fail(K_AUDIO_UNIT_ERR_TOO_MANY_FRAMES_TO_PROCESS)
    );
}

#[test]
fn cycle_takes_its_steps_in_order() {
    let mut unit = running::<Effect>();
    unit.input_callbacks[1] = Some(AURenderCallbackStruct { inputProc: Some(7), inputProcRefCon: 8 });
    unit.state.midi_output_callback =
        Some(AUMIDIOutputCallbackStruct { midiOutputCallback: Some(3), userData: 4 });
    unit.push_parameter_change(change(5));
    unit.push_parameter_change(change(2));
    unit.queue_input_event(program(99, 1));
    unit.queue_input_event(program(3, 2));
    unit.io_buffers.output_busses[1].storage[0] = vec![5; 8];
    unit.io_buffers.input_busses[0].storage[0] = vec![6; 8];

    let (cycle, action) = unit.begin_render(None, 0, 8);
    let mut cycle = cycle.unwrap();
    assert!(matches!(action, CycleAction::PullInput { bus: 0, request } if request.source == InputSource::Silence && request.byte_size == 32));
    assert_eq!(unit.io_buffers.output_busses[1].storage[0], vec![0; 8]);
    let action = unit.ensure_render_cycle_processed(&mut cycle, CycleEvent::InputFilled(0));
    assert_eq!(unit.io_buffers.input_busses[0].storage[0], vec![0; 8]);
    assert!(matches!(action, CycleAction::PullInput { bus: 1, request } if request.source == InputSource::Callback { proc: 7, user_data: 8 }));
    let action = unit.ensure_render_cycle_processed(&mut cycle, CycleEvent::InputFilled(0));
    assert!(matches!(action, CycleAction::AskTransport(_)));
    assert!(unit.pending_parameter_changes.drain().is_empty());
    assert!(unit.pending_input_events.drain().is_empty());
    let replies = TransportReplies {
        state: Some(StateReply {
            status: 0,
            is_playing: 1,
            is_recording: None,
            current_sample: 640,
            is_cycling: 0,
            cycle_start: 0,
            cycle_end: 0,
        }),
        beat_and_tempo: None,
        musical_time_location: None,
    };
    let event = CycleEvent::TransportKnown { stamp_samples: 0, replies };
    assert_eq!(unit.ensure_render_cycle_processed(&mut cycle, event), block(0, 2, 0, 0));
    assert_eq!(cycle.transport.pos_samples, Some(640));
    let processed = CycleEvent::BlockProcessed { failed: false };
    assert_eq!(
        unit.ensure_render_cycle_processed(&mut cycle, processed),
        CycleAction::ApplyParameter(change(2))
    );
    assert_eq!(
        unit.ensure_render_cycle_processed(&mut cycle, CycleEvent::ParameterApplied),
        block(2, 3, 0, 1)
    );
    assert_eq!(
        unit.ensure_render_cycle_processed(&mut cycle, processed),
        CycleAction::ApplyParameter(change(5))
    );
    assert_eq!(
        unit.ensure_render_cycle_processed(&mut cycle, CycleEvent::ParameterApplied),
        block(5, 3, 1, 2)
    );
    assert_eq!(cycle.events, vec![program(1, 2), program(2, 1)]);
    assert_eq!(
        unit.ensure_render_cycle_processed(&mut cycle, processed),
        CycleAction::FlushMidi { proc: 3, user_data: 4 }
    );
    assert_eq!(
        unit.ensure_render_cycle_processed(&mut cycle, CycleEvent::Flushed(0)),
        CycleAction::Done
    );
}

fn started_block(unit: &mut Wrapper<Effect>) -> RenderCycle {
    unit.push_parameter_change(change(3));
    unit.queue_input_event(program(1, 4));
    unit.queue_input_event(program(5, 6));
    let mut cycle = unit.begin_render(None, 0, 8).0.unwrap();
    unit.ensure_render_cycle_processed(&mut cycle, CycleEvent::InputFilled(0));
    unit.ensure_render_cycle_processed(&mut cycle, CycleEvent::InputFilled(0));
    unit.io_buffers.input_busses[0].storage[0] = vec![1, 2, 3, 4, 5, 6, 7, 8];
    unit.io_buffers.input_busses[1].storage[0] = vec![9; 8];
    assert_eq!(unit.ensure_render_cycle_processed(&mut cycle, no_replies()), block(0, 3, 0, 1));
    cycle
}

#[test]
fn blocks_start_with_the_main_input() {
    let mut unit = running::<Effect>();
    let mut cycle = started_block(&mut unit);
    match unit.start_block(&cycle, 0) {
        BlockCall::Process { start, end, events } => {
            assert_eq!((start, end), (0, 3));
            assert_eq!(events, vec![program(1, 4)]);
        }
        BlockCall::PassThrough => panic!("the plugin is not switched off"),
    }
    assert_eq!(unit.io_buffers.output_busses[0].storage[0], vec![1, 2, 3, 0, 0, 0, 0, 0]);
    assert_eq!(unit.io_buffers.output_busses[1].storage[0], vec![0; 8]);

    let processed = CycleEvent::BlockProcessed { failed: false };
    unit.ensure_render_cycle_processed(&mut cycle, processed);
    unit.ensure_render_cycle_processed(&mut cycle, CycleEvent::ParameterApplied);
    unit.io_buffers.output_busses[0].storage[0][0] = 77;
    match unit.start_block(&cycle, 0) {
        BlockCall::Process { start, end, events } => {
            assert_eq!((start, end), (3, 8));
            assert_eq!(events, vec![program(2, 6)]);
        }
        BlockCall::PassThrough => panic!("the plugin is not switched off"),
    }
    assert_eq!(unit.io_buffers.output_busses[0].storage[0], vec![77, 2, 3, 4, 5, 6, 7, 8]);
}

#[test]
fn switched_off_plugin_is_passed_by() {
    let mut unit = running::<Effect>();
    unit.state.bypass_enabled = true;
    let cycle = started_block(&mut unit);
    assert!(matches!(unit.start_block(&cycle, 0), BlockCall::PassThrough));
    assert_eq!(unit.io_buffers.output_busses[0].storage[0], vec![1, 2, 3, 0, 0, 0, 0, 0]);
}

#[test]
fn transport_is_asked_behind_changes_that_are_not_accurate() {
    let mut unit = running::<Meter>();
    unit.push_parameter_change(change(2));
    unit.push_parameter_change(change(1));
    let (cycle, action) = unit.begin_render(None, 0, 4);
    let mut cycle = cycle.unwrap();
    assert_eq!(action, CycleAction::ApplyParameter(change(1)));
    let applied = CycleEvent::ParameterApplied;
    assert_eq!(
        unit.ensure_render_cycle_processed(&mut cycle, applied),
        CycleAction::ApplyParameter(change(2))
    );
    let action = unit.ensure_render_cycle_processed(&mut cycle, applied);
    assert!(matches!(action, CycleAction::AskTransport(_)));
    assert_eq!(unit.ensure_render_cycle_processed(&mut cycle, no_replies()), block(0, 4, 0, 0));
}

#[test]
fn cycle_without_samples_still_asks_about_the_transport() {
    let mut unit = running::<Meter>();
    unit.push_parameter_change(change(0));
    let (cycle, action) = unit.begin_render(None, 0, 0);
    let mut cycle = cycle.unwrap();
    assert_eq!(action, CycleAction::ApplyParameter(change(0)));
    let action = unit.ensure_render_cycle_processed(&mut cycle, CycleEvent::ParameterApplied);
    assert!(matches!(action, CycleAction::AskTransport(_)));
    assert_eq!(
        unit.ensure_render_cycle_processed(&mut cycle, no_replies()),
        CycleAction::Done
    );
}

#[test]
fn second_bus_needs_no_processing() {
    let mut unit = running::<Effect>();
    let started = unit.begin_render(None, 0, 8);
    assert_eq!(finish(&mut unit, started), CycleAction::Done);
    let mut list = one_buffer();
    assert_eq!(unit.render_inner(None, 0, 8, &mut list, 0), (0, None));
    let (cycle, action) = unit.begin_render(None, 1, 8);
    assert!(cycle.is_none());
    assert_eq!(action, CycleAction::Done);
    assert!(unit.begin_render(None, 0, 8).0.is_some());
}

#[test]
fn missing_source_ends_the_cycle() {
    let mut unit = running::<Effect>();
    unit.input_connections[0] =
        Some(AudioUnitConnection { sourceAudioUnit: 0, sourceOutputNumber: 0, destInputNumber: 0 });
    let started = unit.begin_render(None, 0, 8);
    assert_eq!(finish(&mut unit, started), CycleAction::Fail(K_AUDIO_UNIT_ERR_NO_CONNECTION));
    assert!(unit.render_state.last_cycle_key.is_none());
}

#[test]
fn failed_source_ends_the_cycle() {
    let mut unit = running::<Effect>();
    unit.input_connections[0] =
        Some(AudioUnitConnection { sourceAudioUnit: 6, sourceOutputNumber: 0, destInputNumber: 0 });
    unit.push_parameter_change(change(2));
    let (cycle, _) = unit.begin_render(None, 0, 8);
    let mut cycle = cycle.unwrap();
    assert_eq!(
        unit.ensure_render_cycle_processed(&mut cycle, CycleEvent::InputFilled(-7)),
        CycleAction::Fail(-7)
    );
    assert_eq!(unit.pending_parameter_changes.drain(), vec![change(2)]);
    assert!(unit.begin_render(None, 0, 8).0.is_some());
}

#[test]
fn failed_plugin_ends_the_cycle() {
    let mut unit = running::<Effect>();
    let (cycle, _) = unit.begin_render(None, 0, 8);
    let mut cycle = cycle.unwrap();
    unit.ensure_render_cycle_processed(&mut cycle, CycleEvent::InputFilled(0));
    unit.ensure_render_cycle_processed(&mut cycle, CycleEvent::InputFilled(0));
    unit.ensure_render_cycle_processed(&mut cycle, no_replies());
    assert_eq!(
        unit.ensure_render_cycle_processed(&mut cycle, CycleEvent::BlockProcessed { failed: true }),
        CycleAction::Fail(K_AUDIO_UNIT_ERR_CANNOT_DO_IN_CURRENT_CONTEXT)
    );
    assert!(unit.render_state.last_cycle_key.is_none());
}

#[test]
fn failed_flush_ends_the_cycle() {
    let mut unit = running::<Effect>();
    unit.state.midi_output_callback =
        Some(AUMIDIOutputCallbackStruct { midiOutputCallback: Some(3), userData: 4 });
    let (cycle, _) = unit.begin_render(None, 0, 0);
    let mut cycle = cycle.unwrap();
    unit.ensure_render_cycle_processed(&mut cycle, CycleEvent::InputFilled(0));
    unit.ensure_render_cycle_processed(&mut cycle, CycleEvent::InputFilled(0));
    assert_eq!(
        unit.ensure_render_cycle_processed(&mut cycle, no_replies()),
        CycleAction::FlushMidi { proc: 3, user_data: 4 }
    );
    assert_eq!(
        unit.ensure_render_cycle_processed(&mut cycle, CycleEvent::Flushed(-3)),
        CycleAction::Fail(-3)
    );
}

#[test]
fn samples_go_to_the_host() {
    let mut unit = running::<Effect>();
    let started = unit.begin_render(None, 0, 4);
    assert_eq!(finish(&mut unit, started), CycleAction::Done);
    unit.io_buffers.output_busses[0].storage[0] = vec![1, 2, 3, 4, 5, 6, 7, 8];
    let mut list = one_buffer();
    assert_eq!(unit.render_inner(Some(2), 0, 4, &mut list, 0), (0, Some(2)));
    match &list.unwrap().mBuffers[0].mData {
        BufferMemory::Host(samples) => assert_eq!(samples, &vec![1, 2, 3, 4, 99, 99, 99, 99]),
        _ => panic!("no memory of the host"),
    }
    assert_eq!(unit.render_state.rendered_output_buses, vec![true, false]);
}

#[test]
fn refused_copy_marks_nothing() {
    let mut unit = running::<Effect>();
    let started = unit.begin_render(None, 0, 4);
    assert_eq!(finish(&mut unit, started), CycleAction::Done);
    let mut none: Option<AudioBufferList> = None;
    assert_eq!(
        unit.render_inner(Some(2), 0, 4, &mut none, 0),
        (K_AUDIO_UNIT_ERR_INVALID_PROPERTY_VALUE, Some(2))
    );
    assert_eq!(unit.render_state.rendered_output_buses, vec![false, false]);
}

#[test]
fn bypassed_buses_without_input_are_silent() {
    let mut unit = running::<Effect>();
    unit.state.bypass_enabled = true;
    let started = unit.begin_render(None, 0, 4);
    assert_eq!(finish(&mut unit, started), CycleAction::Done);
    assert_eq!(unit.render_inner(Some(2), 0, 4, &mut one_buffer(), 0), (0, Some(2)));
    assert_eq!(unit.render_inner(Some(2), 1, 4, &mut one_buffer(), 0), (0, Some(18)));
    assert_eq!(unit.render_inner(Some(16), 1, 4, &mut one_buffer(), 0), (0, Some(16)));
    assert_eq!(unit.render_inner(None, 1, 4, &mut one_buffer(), 0), (0, None));
}

#[test]
fn unit_without_outputs_copies_nothing() {
    let mut unit = running::<Meter>();
    let (cycle, action) = unit.begin_render(None, 5, 4);
    let mut cycle = cycle.unwrap();
    assert!(matches!(action, CycleAction::AskTransport(_)));
    assert_eq!(unit.ensure_render_cycle_processed(&mut cycle, no_replies()), block(0, 4, 0, 0));
    assert_eq!(
        unit.ensure_render_cycle_processed(&mut cycle, CycleEvent::BlockProcessed { failed: false }),
        CycleAction::Done
    );
    let mut none: Option<AudioBufferList> = None;
    assert_eq!(unit.render_inner(Some(1), 5, 4, &mut none, 0), (0, Some(1)));
}
