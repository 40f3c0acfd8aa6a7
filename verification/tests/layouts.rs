use nih_plug_auv2::format::{
    is_at_least_half, is_at_most_zero, make_stream_format, stream_format_is_supported,
};
use nih_plug_auv2::host::{AUChannelInfo, K_AUDIO_UNIT_SCOPE_GLOBAL, K_AUDIO_UNIT_SCOPE_INPUT, K_AUDIO_UNIT_SCOPE_OUTPUT};
use nih_plug_auv2::layout::{
    bus_channel_counts_for_layout, bus_channels_for_layout, bus_count_for_layout,
    can_process_in_place, match_audio_io_layout_by_busses,
    match_audio_io_layout_for_stream_format, supported_audio_io_layouts, supported_channel_infos,
    AudioIOLayout,
};

const STEREO: AudioIOLayout = AudioIOLayout {
    main_input_channels: Some(2),
    main_output_channels: Some(2),
    aux_input_ports: &[1, 4],
    aux_output_ports: &[],
};

const MONO: AudioIOLayout = AudioIOLayout {
    main_input_channels: Some(1),
    main_output_channels: Some(1),
    aux_input_ports: &[1, 4],
    aux_output_ports: &[],
};

const NO_MAIN: AudioIOLayout = AudioIOLayout {
    main_input_channels: None,
    main_output_channels: None,
    aux_input_ports: &[3],
    aux_output_ports: &[5, 6],
};

fn channels(layout: &AudioIOLayout) -> (Option<u32>, Option<u32>) {
    (layout.main_input_channels, layout.main_output_channels)
}

#[test]
fn buses_are_counted() {
    assert_eq!(bus_count_for_layout(STEREO, K_AUDIO_UNIT_SCOPE_INPUT), 3);
    assert_eq!(bus_count_for_layout(STEREO, K_AUDIO_UNIT_SCOPE_OUTPUT), 1);
    assert_eq!(bus_count_for_layout(STEREO, K_AUDIO_UNIT_SCOPE_GLOBAL), 0);
    assert_eq!(bus_count_for_layout(NO_MAIN, K_AUDIO_UNIT_SCOPE_OUTPUT), 2);
}

#[test]
fn main_bus_comes_first() {
    assert_eq!(bus_channels_for_layout(STEREO, K_AUDIO_UNIT_SCOPE_INPUT, 0), Some(2));
    assert_eq!(bus_channels_for_layout(STEREO, K_AUDIO_UNIT_SCOPE_INPUT, 2), Some(4));
    assert_eq!(bus_channels_for_layout(STEREO, K_AUDIO_UNIT_SCOPE_INPUT, 3), None);
    assert_eq!(bus_channels_for_layout(NO_MAIN, K_AUDIO_UNIT_SCOPE_OUTPUT, 0), Some(5));
    assert_eq!(bus_channels_for_layout(NO_MAIN, K_AUDIO_UNIT_SCOPE_OUTPUT, u32::MAX), None);
    assert_eq!(bus_channels_for_layout(STEREO, K_AUDIO_UNIT_SCOPE_GLOBAL, 0), None);
}

#[test]
fn channel_counts_are_listed() {
    assert_eq!(bus_channel_counts_for_layout(STEREO, K_AUDIO_UNIT_SCOPE_INPUT), vec![2, 1, 4]);
    assert_eq!(bus_channel_counts_for_layout(NO_MAIN, K_AUDIO_UNIT_SCOPE_INPUT), vec![3]);
    assert!(bus_channel_counts_for_layout(STEREO, 3).is_empty());
}

#[test]
fn processing_is_never_in_place() {
    assert!(!can_process_in_place(STEREO));
}

#[test]
fn plugin_without_layouts_has_no_buses() {
    let layouts = supported_audio_io_layouts(&[]).unwrap();
    assert_eq!(layouts.len(), 1);
    assert_eq!(bus_count_for_layout(layouts[0], K_AUDIO_UNIT_SCOPE_INPUT), 0);
    assert_eq!(bus_count_for_layout(layouts[0], K_AUDIO_UNIT_SCOPE_OUTPUT), 0);
}

#[test]
fn unservable_layouts_are_left_out() {
    let wide_input = AudioIOLayout { main_input_channels: Some(4), ..STEREO };
    let too_wide = AudioIOLayout {
        main_input_channels: Some(65),
        main_output_channels: Some(65),
        ..STEREO
    };
    let wide_aux = AudioIOLayout { aux_input_ports: &[65], ..STEREO };
    let wide_aux_output = AudioIOLayout { aux_output_ports: &[64, 65], ..STEREO };
    let widest = AudioIOLayout {
        main_input_channels: Some(64),
        main_output_channels: Some(64),
        ..STEREO
    };
    let layouts =
        supported_audio_io_layouts(&[wide_input, STEREO, too_wide, wide_aux, wide_aux_output, widest, MONO])
            .unwrap();
    let kept: Vec<_> = layouts.iter().map(channels).collect();
    assert_eq!(kept, vec![(Some(2), Some(2)), (Some(64), Some(64)), (Some(1), Some(1))]);
}

#[test]
fn buses_without_channels_are_left_out() {
    let no_channel = AudioIOLayout { main_input_channels: Some(0), ..STEREO };
    let no_aux_channel = AudioIOLayout { aux_input_ports: &[1, 0], ..STEREO };
    let layouts = supported_audio_io_layouts(&[no_channel, no_aux_channel, MONO]).unwrap();
    assert_eq!(layouts.len(), 1);
    assert_eq!(channels(&layouts[0]), (Some(1), Some(1)));
}

#[test]
fn input_without_main_output_is_served() {
    let analyzer = AudioIOLayout { main_output_channels: None, ..STEREO };
    assert_eq!(supported_audio_io_layouts(&[analyzer]).unwrap().len(), 1);
}

#[test]
fn no_offer_without_a_servable_layout() {
    assert!(supported_audio_io_layouts(&[AudioIOLayout { main_input_channels: Some(3), ..STEREO }]).is_none());
}

#[test]
fn no_offer_where_main_buses_disagree() {
    let synth = AudioIOLayout { main_input_channels: None, ..STEREO };
    assert!(supported_audio_io_layouts(&[STEREO, synth]).is_none());
    let sink = AudioIOLayout { main_output_channels: None, ..STEREO };
    assert!(supported_audio_io_layouts(&[STEREO, sink]).is_none());
}

#[test]
fn channel_infos_are_sorted_and_unique() {
    let generator = AudioIOLayout { main_input_channels: None, ..STEREO };
    let upmix = AudioIOLayout { main_input_channels: Some(1), ..STEREO };
    let infos = supported_channel_infos(&vec![STEREO, upmix, MONO, STEREO, generator]);
    let pair = |inChannels, outChannels| AUChannelInfo { inChannels, outChannels };
    assert_eq!(infos, vec![pair(0, 2), pair(1, 1), pair(1, 2), pair(2, 2)]);
}

#[test]
fn layouts_are_matched_by_all_buses() {
    let layouts = vec![STEREO, MONO];
    let found = match_audio_io_layout_by_busses(&layouts, &vec![1, 1, 4], &vec![1]).unwrap();
    assert_eq!(channels(&found), (Some(1), Some(1)));
    assert!(match_audio_io_layout_by_busses(&layouts, &vec![1, 1, 4], &vec![2]).is_none());
}

#[test]
fn changed_side_decides_where_both_do_not_match() {
    let layouts = vec![STEREO, MONO];
    let find = |scope, input: &[u32], output: &[u32]| {
        match_audio_io_layout_for_stream_format(&layouts, scope, &input.to_vec(), &output.to_vec())
            .map(|layout| channels(&layout))
    };
    assert_eq!(find(K_AUDIO_UNIT_SCOPE_INPUT, &[1, 1, 4], &[2]), Some((Some(1), Some(1))));
    assert_eq!(find(K_AUDIO_UNIT_SCOPE_OUTPUT, &[1, 1, 4], &[2]), Some((Some(2), Some(2))));
    assert_eq!(find(K_AUDIO_UNIT_SCOPE_GLOBAL, &[1, 1, 4], &[2]), None);
    assert_eq!(find(K_AUDIO_UNIT_SCOPE_INPUT, &[3, 1, 4], &[2]), None);
}

#[test]
fn stream_format_is_packed_float() {
    let format = make_stream_format(48_000.0_f64.to_bits(), 2, false);
    assert_eq!(format.mSampleRate, 48_000.0_f64.to_bits());
    assert_eq!(format.mFormatID, u32::from_be_bytes(*b"lpcm"));
    assert_eq!(format.mFormatFlags, 1 | 8 | 32);
    assert_eq!(format.mBytesPerPacket, 4);
    assert_eq!(format.mFramesPerPacket, 1);
    assert_eq!(format.mBytesPerFrame, 4);
    assert_eq!(format.mChannelsPerFrame, 2);
    assert_eq!(format.mBitsPerChannel, 32);
    assert_eq!(format.mReserved, 0);
    assert!(stream_format_is_supported(&format, false));
}

#[test]
fn stream_format_has_the_byte_order_of_the_machine() {
    let little = make_stream_format(48_000.0_f64.to_bits(), 2, false);
    let big = make_stream_format(48_000.0_f64.to_bits(), 2, true);
    assert_eq!(big.mFormatFlags, 1 | 2 | 8 | 32);
    assert!(stream_format_is_supported(&big, true));
    assert!(!stream_format_is_supported(&big, false));
    assert!(!stream_format_is_supported(&little, true));
}

#[test]
fn other_stream_formats_are_refused() {
    let format = make_stream_format(48_000.0_f64.to_bits(), 2, false);
    let mut reserved = format;
    reserved.mReserved = 5;
    assert!(stream_format_is_supported(&reserved, false));
    let mut other = format;
    other.mFormatID = 0;
    assert!(!stream_format_is_supported(&other, false));
    other = format;
    other.mFormatFlags = 9;
    assert!(!stream_format_is_supported(&other, false));
    other = format;
    other.mFramesPerPacket = 2;
    assert!(!stream_format_is_supported(&other, false));
    other = format;
    other.mBytesPerPacket = 8;
    assert!(!stream_format_is_supported(&other, false));
    other = format;
    other.mBytesPerFrame = 8;
    assert!(!stream_format_is_supported(&other, false));
    other = format;
    other.mBitsPerChannel = 24;
    assert!(!stream_format_is_supported(&other, false));
    other = format;
    other.mChannelsPerFrame = 0;
    assert!(!stream_format_is_supported(&other, false));
}

#[test]
fn bits_are_compared_as_floats() {
    for value in [0.0, -0.0, -1.0, f64::MIN, f64::NEG_INFINITY, 1.0, f64::MIN_POSITIVE, f64::INFINITY, f64::NAN, -f64::NAN] {
        assert_eq!(is_at_most_zero(value.to_bits()), value <= 0.0);
    }
    for value in [0.0_f32, 0.5, 0.499_999_97, 1.0, -1.0, f32::INFINITY, f32::NAN, -f32::NAN, f32::NEG_INFINITY] {
        assert_eq!(is_at_least_half(value.to_bits()), value >= 0.5);
    }
}
