use nih_plug_auv2::buffers::{
    AudioBuffer, AudioBufferList, BufferMemory, IOBuffers, InputSource,
};
use nih_plug_auv2::host::{
    AURenderCallbackStruct, AudioUnitConnection, HostCallbackInfo, K_AUDIO_UNIT_ERR_INVALID_ELEMENT,
    K_AUDIO_UNIT_ERR_INVALID_PROPERTY_VALUE, K_AUDIO_UNIT_ERR_NO_CONNECTION,
};
use nih_plug_auv2::layout::AudioIOLayout;
use nih_plug_auv2::transport::{
    build_transport, transport_for_block, transport_queries, BeatReply, LocationReply, Positions,
    StateQuery, StateReply, Transport, TransportReplies,
};

const STEREO: AudioIOLayout = AudioIOLayout {
    main_input_channels: Some(2),
    main_output_channels: Some(2),
    aux_input_ports: &[1],
    aux_output_ports: &[3],
};

fn rendered() -> IOBuffers {
    let mut buffers = IOBuffers::new(4, STEREO);
    for channel in 0..2_u32 {
        for frame in 0..4_u32 {
            buffers.output_busses[0].storage[channel as usize][frame as usize] = 10 * channel + frame;
        }
    }
    buffers
}

fn host_buffer(channels: u32, bytes: u32, samples: usize) -> AudioBuffer {
    AudioBuffer {
        mNumberChannels: channels,
        mDataByteSize: bytes,
        mData: BufferMemory::Host(vec![99; samples]),
    }
}

fn null_buffer() -> AudioBuffer {
    AudioBuffer { mNumberChannels: 7, mDataByteSize: 0, mData: BufferMemory::Null }
}

fn samples(buffer: &AudioBuffer) -> Vec<u32> {
    match &buffer.mData {
        BufferMemory::Host(samples) => samples.clone(),
        _ => panic!("no memory of the host"),
    }
}

#[test]
fn memory_has_the_shape_of_the_layout() {
    let buffers = IOBuffers::new(5, STEREO);
    let shape = |buses: &Vec<nih_plug_auv2::buffers::BusBuffers>| -> Vec<Vec<usize>> {
        buses.iter().map(|bus| bus.storage.iter().map(|channel| channel.len()).collect()).collect()
    };
    assert_eq!(shape(&buffers.input_busses), vec![vec![5, 5], vec![5]]);
    assert_eq!(shape(&buffers.output_busses), vec![vec![5, 5], vec![5, 5, 5]]);
    assert!(buffers.output_busses[1].storage[2].iter().all(|sample| *sample == 0));
}

#[test]
fn output_buses_start_silent() {
    let mut buffers = rendered();
    assert_eq!(buffers.output_bus_pointers(0, 3), Ok(2));
    assert_eq!(buffers.output_busses[0].storage[1], vec![0, 0, 0, 13]);
    assert_eq!(buffers.output_bus_pointers(2, 3), Err(K_AUDIO_UNIT_ERR_INVALID_ELEMENT));
    buffers.output_busses[1].storage.clear();
    assert_eq!(buffers.output_bus_pointers(1, 3), Err(K_AUDIO_UNIT_ERR_INVALID_ELEMENT));
}

#[test]
fn channels_go_to_their_own_buffers() {
    let buffers = rendered();
    let mut list = Some(AudioBufferList {
        mBuffers: vec![host_buffer(1, 12, 4), host_buffer(1, 16, 4), host_buffer(1, 16, 4)],
    });
    assert_eq!(buffers.copy_output_bus_to_host(0, &mut list, 2, 3), Ok(()));
    let list = list.unwrap();
    assert_eq!(samples(&list.mBuffers[0]), vec![0, 1, 2, 99]);
    assert_eq!(samples(&list.mBuffers[1]), vec![10, 11, 12, 99]);
    assert_eq!(samples(&list.mBuffers[2]), vec![99; 4]);
}

#[test]
fn null_buffers_get_the_memory_of_the_bus() {
    let buffers = rendered();
    let mut list = Some(AudioBufferList { mBuffers: vec![host_buffer(1, 16, 4), null_buffer()] });
    assert_eq!(buffers.copy_output_bus_to_host(0, &mut list, 2, 4), Ok(()));
    let list = list.unwrap();
    assert_eq!(samples(&list.mBuffers[0]), vec![0, 1, 2, 3]);
    assert_eq!(list.mBuffers[1].mNumberChannels, 1);
    assert_eq!(list.mBuffers[1].mDataByteSize, 16);
    assert!(matches!(list.mBuffers[1].mData, BufferMemory::Output { bus: 0, channel: 1 }));
}

#[test]
fn short_buffer_stops_the_copy() {
    let buffers = rendered();
    let mut list = Some(AudioBufferList { mBuffers: vec![host_buffer(1, 16, 4), host_buffer(1, 15, 4)] });
    assert_eq!(
        buffers.copy_output_bus_to_host(0, &mut list, 2, 4),
        Err(K_AUDIO_UNIT_ERR_INVALID_PROPERTY_VALUE)
    );
    let list = list.unwrap();
    assert_eq!(samples(&list.mBuffers[0]), vec![0, 1, 2, 3]);
    assert_eq!(samples(&list.mBuffers[1]), vec![99; 4]);
}

#[test]
fn single_buffer_is_interleaved() {
    let buffers = rendered();
    let mut list = Some(AudioBufferList { mBuffers: vec![host_buffer(2, 24, 7)] });
    assert_eq!(buffers.copy_output_bus_to_host(0, &mut list, 2, 3), Ok(()));
    assert_eq!(samples(&list.unwrap().mBuffers[0]), vec![0, 10, 1, 11, 2, 12, 99]);
}

#[test]
fn unfit_single_buffers_are_refused() {
    let buffers = rendered();
    for buffer in [host_buffer(1, 24, 6), host_buffer(2, 23, 6), null_buffer()] {
        let mut list = Some(AudioBufferList { mBuffers: vec![buffer] });
        assert_eq!(
            buffers.copy_output_bus_to_host(0, &mut list, 2, 3),
            Err(K_AUDIO_UNIT_ERR_INVALID_PROPERTY_VALUE)
        );
    }
    let mut list = Some(AudioBufferList { mBuffers: vec![] });
    assert_eq!(
        buffers.copy_output_bus_to_host(0, &mut list, 2, 3),
        Err(K_AUDIO_UNIT_ERR_INVALID_PROPERTY_VALUE)
    );
}

#[test]
fn copying_needs_a_bus_and_a_list() {
    let buffers = rendered();
    let mut none: Option<AudioBufferList> = None;
    assert_eq!(
        buffers.copy_output_bus_to_host(0, &mut none, 2, 4),
        Err(K_AUDIO_UNIT_ERR_INVALID_PROPERTY_VALUE)
    );
    assert_eq!(
        buffers.copy_output_bus_to_host(0, &mut none, 0, 4),
        Err(K_AUDIO_UNIT_ERR_INVALID_ELEMENT)
    );
    let mut list = Some(AudioBufferList { mBuffers: vec![host_buffer(1, 16, 4)] });
    assert_eq!(
        buffers.copy_output_bus_to_host(9, &mut list, 1, 4),
        Err(K_AUDIO_UNIT_ERR_INVALID_ELEMENT)
    );
}

#[test]
fn connection_goes_before_callback() {
    let buffers = rendered();
    let connection =
        AudioUnitConnection { sourceAudioUnit: 5, sourceOutputNumber: 1, destInputNumber: 0 };
    let callback = AURenderCallbackStruct { inputProc: Some(8), inputProcRefCon: 9 };
    let request = buffers.pull_input(0, Some(callback), Some(connection), 2, 4).unwrap();
    assert_eq!(request.source, InputSource::Connection(connection));
    assert_eq!(request.number_buffers, 2);
    assert_eq!(request.byte_size, 16);
    let request = buffers.pull_input(0, Some(callback), None, 2, 4).unwrap();
    assert_eq!(request.source, InputSource::Callback { proc: 8, user_data: 9 });
    let request = buffers.pull_input(1, None, None, 1, 4).unwrap();
    assert_eq!(request.source, InputSource::Silence);
}

#[test]
fn input_needs_a_bus_and_a_source() {
    let buffers = rendered();
    let null_connection =
        AudioUnitConnection { sourceAudioUnit: 0, sourceOutputNumber: 0, destInputNumber: 0 };
    let null_callback = AURenderCallbackStruct { inputProc: None, inputProcRefCon: 9 };
    assert_eq!(buffers.pull_input(2, None, None, 1, 4), Err(K_AUDIO_UNIT_ERR_INVALID_ELEMENT));
    assert_eq!(buffers.pull_input(0, None, None, 0, 4), Err(K_AUDIO_UNIT_ERR_INVALID_ELEMENT));
    assert_eq!(
        buffers.pull_input(0, None, None, 3, 4),
        Err(K_AUDIO_UNIT_ERR_INVALID_PROPERTY_VALUE)
    );
    assert_eq!(
        buffers.pull_input(0, None, None, 100, 4),
        Err(K_AUDIO_UNIT_ERR_INVALID_PROPERTY_VALUE)
    );
    assert_eq!(
        buffers.pull_input(0, None, Some(null_connection), 2, 4),
        Err(K_AUDIO_UNIT_ERR_NO_CONNECTION)
    );
    assert_eq!(
        buffers.pull_input(0, Some(null_callback), None, 2, 4),
        Err(K_AUDIO_UNIT_ERR_NO_CONNECTION)
    );
}

#[test]
fn main_output_starts_as_the_main_input() {
    let mut buffers = rendered();
    buffers.input_busses[0].storage[0] = vec![50, 51, 52, 53];
    buffers.input_busses[0].storage[1] = vec![60, 61, 62, 63];
    buffers.copy_main_input(STEREO, 1, 3);
    assert_eq!(buffers.output_busses[0].storage[0], vec![0, 51, 52, 3]);
    assert_eq!(buffers.output_busses[0].storage[1], vec![10, 61, 62, 13]);

    let narrow = AudioIOLayout { main_input_channels: Some(1), ..STEREO };
    let mut buffers = IOBuffers::new(4, narrow);
    buffers.input_busses[0].storage[0] = vec![50; 4];
    buffers.output_busses[0].storage[1] = vec![7; 4];
    buffers.copy_main_input(narrow, 0, 4);
    assert_eq!(buffers.output_busses[0].storage[0], vec![50; 4]);
    assert_eq!(buffers.output_busses[0].storage[1], vec![7; 4]);

    let generator = AudioIOLayout { main_input_channels: None, ..STEREO };
    let mut buffers = IOBuffers::new(4, generator);
    buffers.input_busses[0].storage[0] = vec![50; 4];
    buffers.copy_main_input(generator, 0, 4);
    assert_eq!(buffers.output_busses[0].storage[0], vec![0; 4]);
}

#[test]
fn input_without_source_is_silent() {
    let mut buffers = rendered();
    buffers.input_busses[0].storage[1] = vec![1, 2, 3, 4];
    let request = buffers.pull_input(0, None, None, 2, 3).unwrap();
    assert_eq!(buffers.finish_input(0, request, 0, 3), Ok(2));
    assert_eq!(buffers.input_busses[0].storage[1], vec![0, 0, 0, 4]);
}

#[test]
fn input_of_a_source_is_kept() {
    let mut buffers = rendered();
    let callback = AURenderCallbackStruct { inputProc: Some(8), inputProcRefCon: 9 };
    let request = buffers.pull_input(0, Some(callback), None, 2, 3).unwrap();
    buffers.input_busses[0].storage[1] = vec![1, 2, 3, 4];
    assert_eq!(buffers.finish_input(0, request, 0, 3), Ok(2));
    assert_eq!(buffers.input_busses[0].storage[1], vec![1, 2, 3, 4]);
    assert_eq!(buffers.finish_input(0, request, -50, 3), Err(-50));
}

fn no_replies() -> TransportReplies {
    TransportReplies { state: None, beat_and_tempo: None, musical_time_location: None }
}

#[test]
fn newer_transport_function_is_asked() {
    let callbacks = HostCallbackInfo {
        hostUserData: 1,
        beatAndTempoProc: Some(2),
        musicalTimeLocationProc: None,
        transportStateProc: Some(3),
        transportStateProc2: Some(4),
    };
    let queries = transport_queries(Some(callbacks));
    assert_eq!(queries.user_data, 1);
    assert_eq!(queries.state, StateQuery::TransportState2(4));
    assert_eq!(queries.beat_and_tempo, Some(2));
    assert_eq!(queries.musical_time_location, None);
    let queries =
        transport_queries(Some(HostCallbackInfo { transportStateProc2: None, ..callbacks }));
    assert_eq!(queries.state, StateQuery::TransportState(3));
    assert_eq!(transport_queries(None).state, StateQuery::Nothing);
}

#[test]
fn transport_without_answers_is_unknown() {
    let rate = 48_000.0_f64.to_bits();
    let transport = build_transport(rate, None, 77, &no_replies());
    assert_eq!(transport, Transport::new(rate));
    assert_eq!(transport.pos_samples, None);
    assert!(!transport.playing);
}

#[test]
fn transport_takes_the_answers() {
    let rate = 48_000.0_f64.to_bits();
    let replies = TransportReplies {
        state: Some(StateReply {
            status: 0,
            is_playing: 1,
            is_recording: Some(2),
            current_sample: -480,
            is_cycling: 1,
            cycle_start: 4.0_f64.to_bits(),
            cycle_end: 8.0_f64.to_bits(),
        }),
        beat_and_tempo: Some(BeatReply {
            status: 0,
            current_beat: 1.5_f64.to_bits(),
            current_tempo: 120.0_f64.to_bits(),
        }),
        musical_time_location: Some(LocationReply {
            status: 0,
            numerator: 7,
            denominator: 8,
            measure_downbeat: 1.0_f64.to_bits(),
        }),
    };
    let transport = build_transport(rate, None, 77, &replies);
    assert!(transport.playing);
    assert!(transport.recording);
    assert_eq!(transport.pos_samples, Some(-480));
    assert_eq!(transport.loop_range_beats, Some((4.0_f64.to_bits(), 8.0_f64.to_bits())));
    assert_eq!(transport.pos_beats, Some(1.5_f64.to_bits()));
    assert_eq!(transport.tempo, Some(120.0_f64.to_bits()));
    assert_eq!(transport.time_sig_numerator, Some(7));
    assert_eq!(transport.time_sig_denominator, Some(8));
    assert_eq!(transport.bar_start_pos_beats, Some(1.0_f64.to_bits()));
}

#[test]
fn failed_answers_are_ignored() {
    let replies = TransportReplies {
        state: Some(StateReply {
            status: -1,
            is_playing: 1,
            is_recording: None,
            current_sample: 5,
            is_cycling: 1,
            cycle_start: 0,
            cycle_end: 0,
        }),
        beat_and_tempo: Some(BeatReply { status: -1, current_beat: 1, current_tempo: 2 }),
        musical_time_location: Some(LocationReply {
            status: -1,
            numerator: 3,
            denominator: 4,
            measure_downbeat: 5,
        }),
    };
    assert_eq!(build_transport(9, None, 77, &replies), Transport::new(9));
}

#[test]
fn blocks_move_the_transport_on() {
    let mut transport = Transport::new(9);
    transport.playing = true;
    transport.tempo = Some(1);
    transport.pos_samples = Some(1000);
    transport.bar_start_pos_beats = Some(3);
    let positions = Positions { cycle_samples: Some(1000), block_seconds: Some(5), block_beats: Some(6) };
    let moved = transport_for_block(&transport, 24, positions);
    assert_eq!(moved.pos_samples, Some(1024));
    assert_eq!(moved.pos_seconds, Some(5));
    assert_eq!(moved.pos_beats, Some(6));
    assert_eq!(moved.bar_start_pos_beats, None);
    assert!(moved.playing);
    let first = transport_for_block(&transport, 0, positions);
    assert_eq!(first.pos_samples, transport.pos_samples);
    transport.tempo = None;
    assert_eq!(transport_for_block(&transport, 24, positions).pos_beats, None);
}
