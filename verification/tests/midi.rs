use nih_plug_auv2::context::WrapperProcessContext;
use nih_plug_auv2::event::{NoteEvent, PluginNoteEvent};
use nih_plug_auv2::host::{
    K_AUDIO_UNIT_ERR_CANNOT_DO_IN_CURRENT_CONTEXT, K_AUDIO_UNIT_ERR_INVALID_PARAMETER,
    K_AUDIO_UNIT_ERR_INVALID_PROPERTY, K_AUDIO_UNIT_ERR_INVALID_PROPERTY_VALUE,
};
use nih_plug_auv2::layout::AudioIOLayout;
use nih_plug_auv2::midi::{
    midi_packets, music_device_midi_event, music_device_sysex, FlushAction, FlushEvent, MIDIPacket,
    MidiFlush, MidiResult, OutputMessage,
};
use nih_plug_auv2::plugin::{Auv2Plugin, MidiConfig, Plugin};
use nih_plug_auv2::transport::Transport;

struct Silent;

impl Plugin for Silent {
    const NAME: &'static str = "Silent";
    const VENDOR: &'static str = "";
    const VERSION: &'static str = "0";
    const AUDIO_IO_LAYOUTS: &'static [AudioIOLayout] = &[];
}

impl Auv2Plugin for Silent {
    const AUV2_SUBTYPE: [u8; 4] = *b"Slnt";
    const AUV2_MANUFACTURER: [u8; 4] = *b"Mois";
}

struct Arpeggiator;

impl Plugin for Arpeggiator {
    const NAME: &'static str = "Arpeggiator";
    const VENDOR: &'static str = "";
    const VERSION: &'static str = "0";
    const AUDIO_IO_LAYOUTS: &'static [AudioIOLayout] = &[];
    const MIDI_INPUT: MidiConfig = MidiConfig::MidiCCs;
    const MIDI_OUTPUT: MidiConfig = MidiConfig::Basic;
}

impl Auv2Plugin for Arpeggiator {
    const AUV2_SUBTYPE: [u8; 4] = *b"Arpg";
    const AUV2_MANUFACTURER: [u8; 4] = *b"Mois";
}

fn bytes(packet: &MIDIPacket) -> Vec<u8> {
    packet.data[..packet.length as usize].to_vec()
}

fn program(timing: u32, program: u8) -> PluginNoteEvent {
    NoteEvent::MidiProgramChange { timing, channel: 0, program }
}

#[test]
fn channel_messages_have_their_lengths() {
    let message = |status| music_device_midi_event::<Arpeggiator>(status, 60, 100);
    assert_eq!(message(0x90), Ok(vec![0x90, 60, 100]));
    assert_eq!(message(0x8F), Ok(vec![0x8F, 60, 100]));
    assert_eq!(message(0xB0), Ok(vec![0xB0, 60, 100]));
    assert_eq!(message(0xC3), Ok(vec![0xC3, 60]));
    assert_eq!(message(0xDF), Ok(vec![0xDF, 60]));
    assert_eq!(message(0xE0), Ok(vec![0xE0, 60, 100]));
    assert_eq!(message(0x12), Ok(vec![0x12, 60, 100]));
}

#[test]
fn system_messages_have_their_lengths() {
    let length = |status| music_device_midi_event::<Arpeggiator>(status, 1, 2).map(|bytes| bytes.len());
    assert_eq!(length(0xF1), Ok(2));
    assert_eq!(length(0xF2), Ok(3));
    assert_eq!(length(0xF3), Ok(2));
    for status in [0xF6, 0xF8, 0xFA, 0xFB, 0xFC, 0xFE, 0xFF] {
        assert_eq!(length(status), Ok(1));
    }
    for status in [0xF0, 0xF4, 0xF5, 0xF7, 0xF9, 0xFD] {
        assert_eq!(length(status), Err(K_AUDIO_UNIT_ERR_INVALID_PARAMETER));
    }
}

#[test]
fn message_numbers_are_masked() {
    assert_eq!(
        music_device_midi_event::<Arpeggiator>(0x1_2390, 0xFF, 0x1_0081),
        Ok(vec![0x90, 0x7F, 0x01])
    );
}

#[test]
fn plugins_without_midi_input_take_no_messages() {
    assert_eq!(
        music_device_midi_event::<Silent>(0x90, 1, 2),
        Err(K_AUDIO_UNIT_ERR_INVALID_PROPERTY)
    );
    assert_eq!(music_device_sysex::<Silent>(true, 5), Err(K_AUDIO_UNIT_ERR_INVALID_PROPERTY));
}

#[test]
fn sysex_needs_bytes() {
    assert_eq!(music_device_sysex::<Arpeggiator>(false, 5), Ok(()));
    assert_eq!(music_device_sysex::<Arpeggiator>(true, 0), Ok(()));
    assert_eq!(
        music_device_sysex::<Arpeggiator>(true, 5),
        Err(K_AUDIO_UNIT_ERR_INVALID_PROPERTY_VALUE)
    );
}

#[test]
fn short_messages_are_one_packet_each() {
    let packets = midi_packets(
        &vec![
            OutputMessage { timing: 3, midi: Some(MidiResult::Basic([0x90, 1, 2])) },
            OutputMessage { timing: 4, midi: None },
            OutputMessage { timing: 500, midi: Some(MidiResult::Basic([0x80, 3, 4])) },
        ],
        64,
    );
    assert_eq!(packets.len(), 2);
    assert_eq!(packets[0].timeStamp, 3);
    assert_eq!(bytes(&packets[0]), vec![0x90, 1, 2]);
    assert_eq!(packets[1].timeStamp, 63);
    assert_eq!(bytes(&packets[1]), vec![0x80, 3, 4]);
}

#[test]
fn long_messages_are_cut() {
    let message: Vec<u8> = (0..700_usize).map(|i| (i % 251) as u8).collect();
    let packets = midi_packets(
        &vec![OutputMessage { timing: 1, midi: Some(MidiResult::SysEx(message.clone(), 600)) }],
        64,
    );
    let lengths: Vec<u16> = packets.iter().map(|packet| packet.length).collect();
    assert_eq!(lengths, vec![256, 256, 88]);
    let joined: Vec<u8> = packets.iter().flat_map(bytes).collect();
    assert_eq!(joined, message[..600].to_vec());
    assert!(packets.iter().all(|packet| packet.timeStamp == 1));
}

#[test]
fn message_of_one_packet_is_not_cut() {
    let packets = midi_packets(
        &vec![
            OutputMessage { timing: 0, midi: Some(MidiResult::SysEx(vec![5; 256], 256)) },
            OutputMessage { timing: 0, midi: Some(MidiResult::SysEx(vec![5; 9], 0)) },
        ],
        64,
    );
    assert_eq!(packets.len(), 1);
    assert_eq!(packets[0].length, 256);
}

#[test]
fn nothing_is_flushed_without_events() {
    let (_, action) = MidiFlush::flush_output_events(0, 0);
    assert_eq!(action, FlushAction::Done);
}

#[test]
fn events_without_packets_send_no_list() {
    let (mut flush, action) = MidiFlush::flush_output_events(3, 0);
    assert_eq!(action, FlushAction::InitList);
    assert_eq!(flush.add_midi_packet(FlushEvent::ListReady), FlushAction::Done);
}

#[test]
fn packets_go_out_in_one_list() {
    let (mut flush, action) = MidiFlush::flush_output_events(1, 2);
    assert_eq!(action, FlushAction::InitList);
    assert_eq!(flush.add_midi_packet(FlushEvent::ListReady), FlushAction::AddPacket(0));
    assert_eq!(
        flush.add_midi_packet(FlushEvent::Added { num_packets: 1 }),
        FlushAction::AddPacket(1)
    );
    assert_eq!(flush.add_midi_packet(FlushEvent::Added { num_packets: 2 }), FlushAction::SendList);
    assert_eq!(flush.add_midi_packet(FlushEvent::Sent(0)), FlushAction::Done);
    assert_eq!(flush.next, 2);
}

#[test]
fn full_list_goes_out_first() {
    let (mut flush, _) = MidiFlush::flush_output_events(1, 2);
    flush.add_midi_packet(FlushEvent::ListReady);
    flush.add_midi_packet(FlushEvent::Added { num_packets: 1 });
    assert_eq!(flush.add_midi_packet(FlushEvent::Full { num_packets: 1 }), FlushAction::SendList);
    assert_eq!(flush.add_midi_packet(FlushEvent::Sent(0)), FlushAction::InitList);
    assert_eq!(flush.add_midi_packet(FlushEvent::ListReady), FlushAction::AddPacket(1));
    assert_eq!(flush.add_midi_packet(FlushEvent::Added { num_packets: 1 }), FlushAction::SendList);
    assert_eq!(flush.add_midi_packet(FlushEvent::Sent(-9)), FlushAction::Fail(-9));
}

#[test]
fn packet_that_fits_nowhere_is_an_error() {
    let (mut flush, _) = MidiFlush::flush_output_events(1, 1);
    flush.add_midi_packet(FlushEvent::ListReady);
    assert_eq!(flush.add_midi_packet(FlushEvent::Full { num_packets: 0 }), FlushAction::InitList);
    assert_eq!(flush.add_midi_packet(FlushEvent::ListReady), FlushAction::AddPacket(0));
    assert_eq!(
        flush.add_midi_packet(FlushEvent::Full { num_packets: 0 }),
        FlushAction::Fail(K_AUDIO_UNIT_ERR_CANNOT_DO_IN_CURRENT_CONTEXT)
    );
}

#[test]
fn refused_list_ends_the_flush() {
    let (mut flush, _) = MidiFlush::flush_output_events(1, 2);
    flush.add_midi_packet(FlushEvent::ListReady);
    flush.add_midi_packet(FlushEvent::Added { num_packets: 1 });
    flush.add_midi_packet(FlushEvent::Full { num_packets: 1 });
    assert_eq!(flush.add_midi_packet(FlushEvent::Sent(-4)), FlushAction::Fail(-4));
}

#[test]
fn context_hands_out_events_once() {
    let mut context = WrapperProcessContext::make_process_context::<Arpeggiator>(
        vec![program(1, 5), program(2, 6)],
        Vec::new(),
        32,
        Transport::new(9),
    );
    assert_eq!(context.transport().sample_rate, 9);
    assert_eq!(context.next_event(), Some(program(1, 5)));
    assert_eq!(context.next_event(), Some(program(2, 6)));
    assert_eq!(context.next_event(), None);
    assert_eq!(context.next_event(), None);
}

#[test]
fn sent_events_count_from_the_cycle() {
    let mut context = WrapperProcessContext::make_process_context::<Arpeggiator>(
        Vec::new(),
        vec![program(0, 1)],
        32,
        Transport::new(9),
    );
    context.send_event(program(4, 2));
    context.send_event(program(u32::MAX, 3));
    assert_eq!(context.output_events, vec![program(0, 1), program(36, 2), program(u32::MAX, 3)]);
}

#[test]
fn plugins_without_midi_output_send_nothing() {
    let mut context = WrapperProcessContext::make_process_context::<Silent>(
        Vec::new(),
        Vec::new(),
        32,
        Transport::new(9),
    );
    context.send_event(program(4, 2));
    assert!(context.output_events.is_empty());
}
