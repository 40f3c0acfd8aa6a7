use nih_plug_auv2::automation::{
    AudioUnitParameterEvent, ChangeEffects, NormalizedEvent, ParameterAction, StateStep, Task,
};
use nih_plug_auv2::editor::{EditorCall, EditorChange};
use nih_plug_auv2::event::{NoteEvent, PluginNoteEvent};
use nih_plug_auv2::format::make_stream_format;
use nih_plug_auv2::host::{
    AUChannelInfo, AUMIDIOutputCallbackStruct, AURenderCallbackStruct, AudioUnitConnection,
    AudioUnitEvent, AudioUnitParameter, HostCallbackInfo,
    K_AUDIO_UNIT_ERR_CANNOT_DO_IN_CURRENT_CONTEXT, K_AUDIO_UNIT_ERR_FAILED_INITIALIZATION,
    K_AUDIO_UNIT_ERR_FORMAT_NOT_SUPPORTED, K_AUDIO_UNIT_ERR_INITIALIZED,
    K_AUDIO_UNIT_ERR_INVALID_ELEMENT, K_AUDIO_UNIT_ERR_INVALID_PARAMETER,
    K_AUDIO_UNIT_ERR_INVALID_PROPERTY, K_AUDIO_UNIT_ERR_INVALID_PROPERTY_VALUE,
    K_AUDIO_UNIT_ERR_INVALID_SCOPE, K_AUDIO_UNIT_ERR_PROPERTY_NOT_WRITABLE,
};
use nih_plug_auv2::layout::AudioIOLayout;
use nih_plug_auv2::params::{ParamEntry, ParamPtr};
use nih_plug_auv2::plugin::{Auv2Plugin, MidiConfig, Plugin};
use nih_plug_auv2::property::{
    cocoa_view_status, state_status, value_from_string, PropertyInfo, PropertyInput, PropertyQuery,
    PropertyValue, SetAction,
};
use nih_plug_auv2::queue::ScheduledParameterChange;
use nih_plug_auv2::wrapper::{BufferConfig, InitializeEnd, ProcessMode, Wrapper};

const GLOBAL: u32 = 0;
const INPUT: u32 = 1;
const OUTPUT: u32 = 2;
const POINTER: u32 = (usize::BITS / 8) as u32;

struct Compressor;

impl Plugin for Compressor {
    const NAME: &'static str = "Compressor";
    const VENDOR: &'static str = "";
    const VERSION: &'static str = "1.0.0";
    const AUDIO_IO_LAYOUTS: &'static [AudioIOLayout] = &[
        AudioIOLayout {
            main_input_channels: Some(2),
            main_output_channels: Some(2),
            aux_input_ports: &[2],
            aux_output_ports: &[],
        },
        AudioIOLayout {
            main_input_channels: Some(1),
            main_output_channels: Some(1),
            aux_input_ports: &[1],
            aux_output_ports: &[],
        },
    ];
    const MIDI_INPUT: MidiConfig = MidiConfig::Basic;
    const MIDI_OUTPUT: MidiConfig = MidiConfig::Basic;
    const SAMPLE_ACCURATE_AUTOMATION: bool = true;
}

impl Auv2Plugin for Compressor {
    const AUV2_SUBTYPE: [u8; 4] = *b"Comp";
    const AUV2_MANUFACTURER: [u8; 4] = *b"Mois";
}

struct Meter;

impl Plugin for Meter {
    const NAME: &'static str = "Meter";
    const VENDOR: &'static str = "";
    const VERSION: &'static str = "1.0.0";
    const AUDIO_IO_LAYOUTS: &'static [AudioIOLayout] = &[];
}

impl Auv2Plugin for Meter {
    const AUV2_SUBTYPE: [u8; 4] = *b"Metr";
    const AUV2_MANUFACTURER: [u8; 4] = *b"Mois";
}

struct Broken;

impl Plugin for Broken {
    const NAME: &'static str = "Broken";
    const VENDOR: &'static str = "";
    const VERSION: &'static str = "1.0.0";
    const AUDIO_IO_LAYOUTS: &'static [AudioIOLayout] = &[AudioIOLayout {
        main_input_channels: Some(2),
        main_output_channels: Some(1),
        aux_input_ports: &[],
        aux_output_ports: &[],
    }];
}

impl Auv2Plugin for Broken {
    const AUV2_SUBTYPE: [u8; 4] = *b"Brkn";
    const AUV2_MANUFACTURER: [u8; 4] = *b"Mois";
}

const GAIN: ParamPtr = ParamPtr::FloatParam(0x10);
const MODE: ParamPtr = ParamPtr::EnumParam(0x20);
const BYPASS: ParamPtr = ParamPtr::BoolParam(0x30);

fn param(id: &str, hash: u32, ptr: ParamPtr, step_count: Option<usize>) -> ParamEntry {
    ParamEntry {
        id: id.to_owned(),
        hash,
        ptr,
        name: id.to_uppercase(),
        unit: String::new(),
        is_bypass: ptr == BYPASS,
        is_non_automatable: false,
        step_count,
        min_value: 0,
        max_value: 1.0_f32.to_bits(),
        default_value: 0,
    }
}

fn compressor() -> Wrapper<Compressor> {
    Wrapper::new(vec![param("gain", 11, GAIN, None), param("mode", 22, MODE, Some(2))], true, false).unwrap()
}

fn with_bypass() -> Wrapper<Compressor> {
    Wrapper::new(vec![param("bypass", 33, BYPASS, Some(1))], false, false).unwrap()
}

fn running() -> Wrapper<Compressor> {
    let mut unit = compressor();
    unit.initialize_inner().unwrap();
    assert_eq!(unit.finish_initialize(true), InitializeEnd { status: 0, reset: true });
    unit
}

fn query() -> PropertyQuery {
    PropertyQuery {
        out_data_is_null: false,
        io_data_size_is_null: false,
        param_id: 11,
        desired_length: -1,
    }
}

fn get<P: Auv2Plugin>(unit: &Wrapper<P>, id: u32, scope: u32, element: u32) -> Result<(PropertyValue, u32), i32> {
    unit.get_property(id, scope, element, query(), 0).map(|answer| (answer.value, answer.size))
}

fn error<P: Auv2Plugin>(unit: &Wrapper<P>, id: u32, scope: u32, element: u32) -> Option<i32> {
    get(unit, id, scope, element).err()
}

fn info<P: Auv2Plugin>(unit: &Wrapper<P>, id: u32, scope: u32, element: u32) -> Result<(u32, bool), i32> {
    unit.get_property_info(id, scope, element).map(|info: PropertyInfo| (info.size, info.writable))
}

fn status(action: SetAction) -> i32 {
    match action {
        SetAction::Return(status) => status,
        _ => panic!("more than a status"),
    }
}

fn change(param_hash: u32, sample_offset: u32, normalized_value: u32) -> ScheduledParameterChange {
    ScheduledParameterChange { param_hash, sample_offset, normalized_value }
}

#[test]
fn new_unit_has_the_defaults() {
    let unit = compressor();
    assert_eq!(f64::from_bits(unit.state.sample_rate), 44_100.0);
    assert_eq!(unit.state.maximum_frames_per_slice, 512);
    assert!(!unit.state.is_initialized);
    assert_eq!(unit.bus_count(INPUT), 2);
    assert_eq!(unit.bus_count(OUTPUT), 1);
    assert_eq!(unit.bus_channels(INPUT, 1), Some(2));
    assert_eq!(unit.input_callbacks.len(), 2);
    assert_eq!(unit.input_connections.len(), 2);
    assert_eq!(
        unit.supported_channel_infos,
        vec![
            AUChannelInfo { inChannels: 1, outChannels: 1 },
            AUChannelInfo { inChannels: 2, outChannels: 2 },
        ]
    );
}

#[test]
fn unservable_plugin_has_no_unit() {
    assert!(Wrapper::<Broken>::new(Vec::new(), false, false).is_none());
    assert!(Wrapper::<Meter>::new(Vec::new(), false, false).is_some());
}

#[test]
fn initializing_gives_the_settings() {
    let mut unit = compressor();
    let start = unit.initialize_inner().unwrap();
    assert_eq!(start.params, vec![GAIN, MODE]);
    assert_eq!(start.layout.main_output_channels, Some(2));
    assert_eq!(
        start.config,
        BufferConfig {
            sample_rate: 44_100.0_f64.to_bits(),
            min_buffer_size: None,
            max_buffer_size: 512,
            process_mode: ProcessMode::Realtime,
        }
    );
    assert_eq!(unit.initialize_inner().err(), Some(K_AUDIO_UNIT_ERR_INITIALIZED));
    assert_eq!(unit.finish_initialize(true), InitializeEnd { status: 0, reset: true });
    assert_eq!(unit.state.current_buffer_config, Some(start.config));
    assert_eq!(unit.io_buffers.input_busses[1].storage[1], vec![0; 512]);
}

#[test]
fn refused_initialization_can_be_tried_again() {
    let mut unit = compressor();
    unit.initialize_inner().unwrap();
    assert_eq!(
        unit.finish_initialize(false),
        InitializeEnd { status: K_AUDIO_UNIT_ERR_FAILED_INITIALIZATION, reset: false }
    );
    assert!(!unit.state.is_initialized);
    assert!(unit.initialize_inner().is_ok());
}

#[test]
fn uninitializing_undoes_initializing() {
    let mut unit = running();
    assert!(unit.uninitialize_inner());
    assert!(!unit.state.is_initialized);
    assert_eq!(unit.state.current_buffer_config, None);
    assert!(!unit.uninitialize_inner());
    assert!(unit.initialize_inner().is_ok());
}

#[test]
fn reset_checks_the_scope() {
    let unit = compressor();
    assert_eq!(unit.reset_inner(GLOBAL, 0), 0);
    assert_eq!(unit.reset_inner(GLOBAL, 1), K_AUDIO_UNIT_ERR_INVALID_SCOPE);
    assert_eq!(unit.reset_inner(INPUT, 1), 0);
    assert_eq!(unit.reset_inner(INPUT, 2), K_AUDIO_UNIT_ERR_INVALID_ELEMENT);
    assert_eq!(unit.reset_inner(OUTPUT, 1), K_AUDIO_UNIT_ERR_INVALID_ELEMENT);
    assert_eq!(unit.reset_inner(3, 0), K_AUDIO_UNIT_ERR_INVALID_SCOPE);
}

#[test]
fn bypass_follows_parameter_or_switch() {
    let mut unit = compressor();
    assert!(!unit.is_bypassed(1.0_f32.to_bits()));
    unit.state.bypass_enabled = true;
    assert!(unit.is_bypassed(0));
    let unit = with_bypass();
    assert!(unit.is_bypassed(0.5_f32.to_bits()));
    assert!(!unit.is_bypassed(0.25_f32.to_bits()));
}

#[test]
fn format_change_moves_both_sides() {
    let mut unit = compressor();
    let mut mono = make_stream_format(96_000.0_f64.to_bits(), 1, false);
    mono.mReserved = 3;
    assert_eq!(unit.set_stream_format(OUTPUT, 0, &mono), 0);
    assert_eq!(unit.bus_channels(INPUT, 0), Some(1));
    mono.mReserved = 0;
    assert_eq!(unit.current_stream_format(OUTPUT, 0), Ok(mono));
    assert_eq!(unit.current_stream_format(OUTPUT, 1), Err(K_AUDIO_UNIT_ERR_INVALID_ELEMENT));
    assert_eq!(unit.set_stream_format(OUTPUT, 0, &mono), 0);
    assert_eq!(unit.current_stream_format(OUTPUT, 0), Ok(mono));
}

#[test]
fn format_change_reports_its_errors() {
    let mut unit = compressor();
    let stereo = make_stream_format(96_000.0_f64.to_bits(), 2, false);
    let wide = make_stream_format(96_000.0_f64.to_bits(), 6, false);
    let mut integer = stereo;
    integer.mFormatFlags = 4;
    assert_eq!(unit.set_stream_format(INPUT, 0, &wide), K_AUDIO_UNIT_ERR_FORMAT_NOT_SUPPORTED);
    assert_eq!(unit.set_stream_format(INPUT, 0, &integer), K_AUDIO_UNIT_ERR_FORMAT_NOT_SUPPORTED);
    assert_eq!(unit.set_stream_format(INPUT, 2, &stereo), K_AUDIO_UNIT_ERR_INVALID_ELEMENT);
    assert_eq!(unit.set_stream_format(OUTPUT, 1, &stereo), K_AUDIO_UNIT_ERR_INVALID_ELEMENT);
    assert_eq!(unit.set_stream_format(GLOBAL, 0, &stereo), K_AUDIO_UNIT_ERR_INVALID_SCOPE);
    assert_eq!(unit.state.sample_rate, 44_100.0_f64.to_bits());
    let mut unit = running();
    assert_eq!(unit.set_stream_format(INPUT, 0, &stereo), K_AUDIO_UNIT_ERR_INITIALIZED);
}

#[test]
fn property_sizes_are_those_of_the_types() {
    let unit = compressor();
    assert_eq!(info(&unit, 0, GLOBAL, 0), Ok((POINTER, true)));
    assert_eq!(info(&unit, 1, INPUT, 1), Ok((POINTER + 8, true)));
    assert_eq!(info(&unit, 2, OUTPUT, 0), Ok((8, true)));
    assert_eq!(info(&unit, 3, GLOBAL, 5), Ok((8, false)));
    assert_eq!(info(&unit, 4, GLOBAL, 11), Ok((if POINTER == 8 { 104 } else { 84 }, false)));
    assert_eq!(info(&unit, 8, INPUT, 0), Ok((40, true)));
    assert_eq!(info(&unit, 11, GLOBAL, 9), Ok((4, false)));
    assert_eq!(info(&unit, 12, GLOBAL, 0), Ok((8, false)));
    assert_eq!(info(&unit, 13, GLOBAL, 0), Ok((8, false)));
    assert_eq!(info(&unit, 14, GLOBAL, 0), Ok((4, true)));
    assert_eq!(info(&unit, 16, GLOBAL, 22), Ok((POINTER, false)));
    assert_eq!(info(&unit, 20, GLOBAL, 0), Ok((8, false)));
    assert_eq!(info(&unit, 21, GLOBAL, 0), Ok((4, true)));
    assert_eq!(info(&unit, 23, INPUT, 0), Ok((2 * POINTER, true)));
    assert_eq!(info(&unit, 27, GLOBAL, 0), Ok((5 * POINTER, true)));
    assert_eq!(info(&unit, 28, GLOBAL, 0), Ok((2 * POINTER, false)));
    assert_eq!(info(&unit, 29, GLOBAL, 0), Ok((4, true)));
    assert_eq!(info(&unit, 31, GLOBAL, 0), Ok((2 * POINTER, false)));
    assert_eq!(info(&unit, 33, GLOBAL, 7), Ok((3 * POINTER, false)));
    assert_eq!(info(&unit, 34, GLOBAL, 11), Ok((POINTER + 8, false)));
    assert_eq!(info(&unit, 36, GLOBAL, 0), Ok((2 * POINTER, false)));
    assert_eq!(info(&unit, 38, GLOBAL, 7), Ok((3 * POINTER, false)));
    assert_eq!(info(&unit, 47, GLOBAL, 0), Ok((POINTER, false)));
    assert_eq!(info(&unit, 48, GLOBAL, 0), Ok((2 * POINTER, true)));
}

#[test]
fn missing_properties_are_reported() {
    let unit = compressor();
    let property = Err(K_AUDIO_UNIT_ERR_INVALID_PROPERTY);
    let parameter = Err(K_AUDIO_UNIT_ERR_INVALID_PARAMETER);
    assert_eq!(info(&unit, 0, INPUT, 0), property);
    assert_eq!(info(&unit, 0, GLOBAL, 1), property);
    assert_eq!(info(&unit, 2, GLOBAL, 0), property);
    assert_eq!(info(&unit, 8, OUTPUT, 1), property);
    assert_eq!(info(&unit, 1, OUTPUT, 0), property);
    assert_eq!(info(&unit, 11, 3, 0), property);
    assert_eq!(info(&unit, 28, INPUT, 0), property);
    assert_eq!(info(&unit, 999, GLOBAL, 0), property);
    assert_eq!(info(&unit, 4, GLOBAL, 12), parameter);
    assert_eq!(info(&unit, 4, INPUT, 11), parameter);
    assert_eq!(info(&unit, 16, GLOBAL, 11), parameter);
    assert_eq!(info(&unit, 33, INPUT, 0), parameter);
    assert_eq!(info(&unit, 34, GLOBAL, 12), parameter);
    assert_eq!(info(&unit, 38, OUTPUT, 0), parameter);
    let meter = Wrapper::<Meter>::new(Vec::new(), false, false).unwrap();
    assert_eq!(info(&meter, 31, GLOBAL, 0), property);
    assert_eq!(info(&meter, 47, GLOBAL, 0), property);
    assert_eq!(info(&meter, 48, GLOBAL, 0), property);
    assert_eq!(info(&meter, 3, GLOBAL, 0), Ok((0, false)));
}

#[test]
fn properties_have_their_values() {
    let mut unit = compressor();
    unit.set_latency_samples(64);
    assert!(matches!(get(&unit, 0, GLOBAL, 0), Ok((PropertyValue::ClassInfo, size)) if size == POINTER));
    assert!(matches!(get(&unit, 2, INPUT, 1), Ok((PropertyValue::Double(bits), 8)) if bits == 44_100.0_f64.to_bits()));
    assert!(matches!(get(&unit, 3, GLOBAL, 0), Ok((PropertyValue::ParameterList(list), 8)) if list == vec![11, 22]));
    assert!(matches!(get(&unit, 4, GLOBAL, 22), Ok((PropertyValue::ParameterInfo(info), _)) if info.cfNameString == "MODE"));
    assert!(matches!(get(&unit, 8, INPUT, 0), Ok((PropertyValue::StreamFormat(format), 40)) if format == make_stream_format(44_100.0_f64.to_bits(), 2, false)));
    assert!(matches!(get(&unit, 11, GLOBAL, 0), Ok((PropertyValue::UInt32(1), 4))));
    assert!(matches!(get(&unit, 11, INPUT, 0), Ok((PropertyValue::UInt32(2), 4))));
    assert!(matches!(get(&unit, 11, OUTPUT, 0), Ok((PropertyValue::UInt32(1), 4))));
    assert!(matches!(get(&unit, 12, GLOBAL, 0), Ok((PropertyValue::Latency { samples: 64, .. }, 8))));
    assert!(matches!(get(&unit, 13, GLOBAL, 0), Ok((PropertyValue::ChannelInfos(infos), 8)) if infos.len() == 2));
    assert!(matches!(get(&unit, 14, GLOBAL, 0), Ok((PropertyValue::UInt32(512), 4))));
    assert!(matches!(get(&unit, 16, GLOBAL, 22), Ok((PropertyValue::ValueStrings { param: MODE, step_count: 2 }, _))));
    assert!(matches!(get(&unit, 20, GLOBAL, 0), Ok((PropertyValue::Double(0), 8))));
    assert!(matches!(get(&unit, 21, GLOBAL, 0), Ok((PropertyValue::UInt32(0), 4))));
    assert!(matches!(get(&unit, 29, GLOBAL, 0), Ok((PropertyValue::UInt32(0), 4))));
    assert!(matches!(get(&unit, 31, GLOBAL, 0), Ok((PropertyValue::CocoaView, _))));
    assert!(matches!(get(&unit, 28, GLOBAL, 0), Ok((PropertyValue::Preset { number: 0, name: "Default" }, _))));
    assert!(matches!(get(&unit, 36, GLOBAL, 0), Ok((PropertyValue::Preset { number: 0, name: "Default" }, _))));
    assert!(matches!(get(&unit, 33, GLOBAL, 0), Ok((PropertyValue::StringFromValue { param: GAIN, with_unit: true }, _))));
    assert!(matches!(get(&unit, 38, GLOBAL, 0), Ok((PropertyValue::ValueFromString { param: GAIN }, _))));
    assert!(matches!(get(&unit, 34, GLOBAL, 11), Ok((PropertyValue::Name(name), _)) if name == "GAIN"));
    assert!(matches!(get(&unit, 47, GLOBAL, 0), Ok((PropertyValue::MidiOutputNames("MIDI Output"), _))));
}

#[test]
fn readable_properties_are_announced() {
    let unit = compressor();
    for id in 0..64 {
        for scope in 0..4 {
            for element in [0, 1, 2, 11, 22, 33] {
                if let Ok((_, size)) = get(&unit, id, scope, element) {
                    assert_eq!(info(&unit, id, scope, element).map(|(size, _)| size), Ok(size));
                }
            }
        }
    }
}

#[test]
fn announced_properties_can_be_written() {
    for id in 0..64 {
        for scope in 0..4 {
            for element in [0, 1, 2, 11, 22, 33] {
                let mut unit = compressor();
                if let Ok((size, true)) = info(&unit, id, scope, element) {
                    let action = unit.set_property(id, scope, element, PropertyInput::Null, size);
                    assert_eq!(status(action), K_AUDIO_UNIT_ERR_INVALID_PROPERTY_VALUE);
                    let input = PropertyInput::Unread;
                    let action = unit.set_property(id, scope, element, input, size + 1);
                    assert_eq!(status(action), K_AUDIO_UNIT_ERR_INVALID_PROPERTY_VALUE);
                }
            }
        }
    }
}

#[test]
fn refused_bypass_needs_no_hash() {
    let hidden = param("bypass", 33, BYPASS, Some(1));
    let mut unit: Wrapper<Compressor> =
        Wrapper::new(vec![hidden, param("gain", 33, GAIN, None)], false, false).unwrap();
    assert_eq!(unit.params.bypass_param, Some(BYPASS));
    assert_eq!(unit.params.hash_leading_to(BYPASS), None);
    let action = unit.set_property(21, GLOBAL, 0, PropertyInput::Null, 4);
    assert_eq!(status(action), K_AUDIO_UNIT_ERR_INVALID_PROPERTY_VALUE);
    let action = unit.set_property(21, INPUT, 0, PropertyInput::UInt32(1), 4);
    assert_eq!(status(action), K_AUDIO_UNIT_ERR_PROPERTY_NOT_WRITABLE);
}

#[test]
fn refused_name_can_have_any_length() {
    let mut long = param("gain", 11, GAIN, None);
    long.name = String::from("\u{e9}\u{e9}");
    let unit: Wrapper<Compressor> = Wrapper::new(vec![long], false, false).unwrap();
    let null = PropertyQuery { desired_length: 1, out_data_is_null: true, ..query() };
    assert_eq!(
        unit.get_property(34, GLOBAL, 11, null, 0).err(),
        Some(K_AUDIO_UNIT_ERR_INVALID_PROPERTY_VALUE)
    );
}

#[test]
fn samples_are_never_processed_in_place() {
    let mut unit = compressor();
    let action = unit.set_property(29, GLOBAL, 0, PropertyInput::UInt32(1), 4);
    assert_eq!(status(action), 0);
    assert!(matches!(get(&unit, 29, GLOBAL, 0), Ok((PropertyValue::UInt32(0), 4))));
    let mono = make_stream_format(96_000.0_f64.to_bits(), 1, false);
    assert_eq!(unit.set_stream_format(OUTPUT, 0, &mono), 0);
    assert!(matches!(get(&unit, 29, GLOBAL, 0), Ok((PropertyValue::UInt32(0), 4))));
}

#[test]
fn stepped_values_have_no_unit() {
    let unit = compressor();
    let answer = unit.get_property(33, GLOBAL, 0, PropertyQuery { param_id: 22, ..query() }, 0);
    assert!(matches!(
        answer.map(|answer| answer.value),
        Ok(PropertyValue::StringFromValue { param: MODE, with_unit: false })
    ));
    let answer = unit.get_property(34, GLOBAL, 22, PropertyQuery { desired_length: 2, ..query() }, 0);
    assert!(matches!(answer.map(|answer| answer.value), Ok(PropertyValue::Name(name)) if name == "MO"));
}

#[test]
fn reading_reports_its_errors() {
    let unit = compressor();
    let null = PropertyQuery { out_data_is_null: true, ..query() };
    assert_eq!(
        unit.get_property(14, GLOBAL, 0, null, 0).err(),
        Some(K_AUDIO_UNIT_ERR_INVALID_PROPERTY_VALUE)
    );
    let no_size = PropertyQuery { io_data_size_is_null: true, ..query() };
    assert_eq!(
        unit.get_property(33, GLOBAL, 0, no_size, 0).err(),
        Some(K_AUDIO_UNIT_ERR_INVALID_PROPERTY_VALUE)
    );
    assert!(unit.get_property(14, GLOBAL, 0, no_size, 0).is_ok());
    let unknown = PropertyQuery { param_id: 12, ..query() };
    assert_eq!(
        unit.get_property(38, GLOBAL, 0, unknown, 0).err(),
        Some(K_AUDIO_UNIT_ERR_INVALID_PARAMETER)
    );
    assert_eq!(error(&unit, 4, GLOBAL, 12), Some(K_AUDIO_UNIT_ERR_INVALID_PARAMETER));
    assert_eq!(error(&unit, 16, GLOBAL, 11), Some(K_AUDIO_UNIT_ERR_INVALID_PARAMETER));
    assert_eq!(error(&unit, 34, GLOBAL, 12), Some(K_AUDIO_UNIT_ERR_INVALID_PARAMETER));
    assert_eq!(error(&unit, 4, INPUT, 11), Some(K_AUDIO_UNIT_ERR_INVALID_PROPERTY));
    assert_eq!(error(&unit, 27, GLOBAL, 0), Some(K_AUDIO_UNIT_ERR_INVALID_PROPERTY));
    assert_eq!(error(&unit, 8, INPUT, 2), Some(K_AUDIO_UNIT_ERR_INVALID_PROPERTY));
    assert_eq!(error(&unit, 999, GLOBAL, 0), Some(K_AUDIO_UNIT_ERR_INVALID_PROPERTY));
}

#[test]
fn written_sample_rate_is_read_back() {
    let mut unit = compressor();
    let rate = 96_000.0_f64.to_bits();
    assert_eq!(status(unit.set_property(2, OUTPUT, 0, PropertyInput::Double(rate), 8)), 0);
    assert!(matches!(get(&unit, 2, INPUT, 0), Ok((PropertyValue::Double(bits), 8)) if bits == rate));
    for rate in [0.0_f64, -1.0, -0.0] {
        assert_eq!(
            status(unit.set_property(2, OUTPUT, 0, PropertyInput::Double(rate.to_bits()), 8)),
            K_AUDIO_UNIT_ERR_INVALID_PROPERTY_VALUE
        );
    }
    let mut unit = running();
    assert_eq!(
        status(unit.set_property(2, OUTPUT, 0, PropertyInput::Double(rate), 8)),
        K_AUDIO_UNIT_ERR_INITIALIZED
    );
}

#[test]
fn written_block_size_is_read_back() {
    let mut unit = compressor();
    unit.property_listeners.add_property_listener(14, Some(5), 6);
    unit.property_listeners.add_property_listener(2, Some(7), 8);
    match unit.set_property(14, GLOBAL, 0, PropertyInput::UInt32(1024), 4) {
        SetAction::NotifyListeners(called) => {
            assert_eq!(called.len(), 1);
            assert_eq!(called[0].proc, 5);
        }
        _ => panic!("no listener is called"),
    }
    assert!(matches!(get(&unit, 14, GLOBAL, 0), Ok((PropertyValue::UInt32(1024), 4))));
    assert_eq!(status(unit.set_property(14, GLOBAL, 0, PropertyInput::UInt32(1024), 4)), 0);
    let mut unit = running();
    assert_eq!(
        status(unit.set_property(14, GLOBAL, 0, PropertyInput::UInt32(64), 4)),
        K_AUDIO_UNIT_ERR_INITIALIZED
    );
}

#[test]
fn written_format_is_read_back() {
    let mut unit = compressor();
    let mono = make_stream_format(48_000.0_f64.to_bits(), 1, false);
    assert_eq!(status(unit.set_property(8, OUTPUT, 0, PropertyInput::StreamFormat(mono), 40)), 0);
    assert!(matches!(get(&unit, 8, INPUT, 0), Ok((PropertyValue::StreamFormat(format), 40)) if format == mono));
    assert!(matches!(get(&unit, 8, OUTPUT, 0), Ok((PropertyValue::StreamFormat(format), 40)) if format == mono));
}

#[test]
fn written_sources_are_read_back() {
    let mut unit = compressor();
    let none = AudioUnitConnection { sourceAudioUnit: 0, sourceOutputNumber: 0, destInputNumber: 1 };
    assert!(matches!(get(&unit, 1, INPUT, 1), Ok((PropertyValue::Connection(read), _)) if read == none));
    let connection =
        AudioUnitConnection { sourceAudioUnit: 4, sourceOutputNumber: 2, destInputNumber: 1 };
    let size = POINTER + 8;
    assert_eq!(status(unit.set_property(1, INPUT, 1, PropertyInput::Connection(connection), size)), 0);
    assert!(matches!(get(&unit, 1, INPUT, 1), Ok((PropertyValue::Connection(read), _)) if read == connection));
    let null = AudioUnitConnection { sourceAudioUnit: 0, ..connection };
    assert_eq!(status(unit.set_property(1, INPUT, 1, PropertyInput::Connection(null), size)), 0);
    assert!(matches!(get(&unit, 1, INPUT, 1), Ok((PropertyValue::Connection(read), _)) if read == none));

    let callback = AURenderCallbackStruct { inputProc: Some(4), inputProcRefCon: 5 };
    assert_eq!(status(unit.set_property(23, INPUT, 0, PropertyInput::RenderCallback(callback), 2 * POINTER)), 0);
    assert!(matches!(get(&unit, 23, INPUT, 0), Ok((PropertyValue::RenderCallback(read), _)) if read == callback));
    assert_eq!(unit.input_callbacks[1], None);
    let null = AURenderCallbackStruct { inputProc: None, inputProcRefCon: 5 };
    assert_eq!(status(unit.set_property(23, INPUT, 0, PropertyInput::RenderCallback(null), 2 * POINTER)), 0);
    assert_eq!(unit.input_callbacks[0], None);
}

#[test]
fn written_callbacks_are_kept() {
    let mut unit = compressor();
    let callbacks = HostCallbackInfo {
        hostUserData: 1,
        beatAndTempoProc: Some(2),
        musicalTimeLocationProc: None,
        transportStateProc: None,
        transportStateProc2: None,
    };
    assert_eq!(status(unit.set_property(27, GLOBAL, 0, PropertyInput::HostCallbacks(callbacks), 5 * POINTER)), 0);
    assert_eq!(unit.state.host_callbacks, Some(callbacks));
    let callback = AUMIDIOutputCallbackStruct { midiOutputCallback: Some(3), userData: 4 };
    assert_eq!(status(unit.set_property(48, GLOBAL, 0, PropertyInput::MidiOutputCallback(callback), 2 * POINTER)), 0);
    assert!(matches!(get(&unit, 48, GLOBAL, 0), Ok((PropertyValue::MidiOutputCallback(read), _)) if read == callback));
}

#[test]
fn in_place_processing_stays_off() {
    let mut unit = compressor();
    assert_eq!(status(unit.set_property(29, GLOBAL, 0, PropertyInput::UInt32(1), 4)), 0);
    assert!(matches!(get(&unit, 29, GLOBAL, 0), Ok((PropertyValue::UInt32(0), 4))));
}

#[test]
fn bypass_is_a_switch_without_a_parameter() {
    let mut unit = compressor();
    assert_eq!(status(unit.set_property(21, GLOBAL, 0, PropertyInput::UInt32(7), 4)), 0);
    assert!(matches!(get(&unit, 21, GLOBAL, 0), Ok((PropertyValue::UInt32(1), 4))));
    assert_eq!(status(unit.set_property(21, GLOBAL, 0, PropertyInput::UInt32(0), 4)), 0);
    assert!(matches!(get(&unit, 21, GLOBAL, 0), Ok((PropertyValue::UInt32(0), 4))));
}

#[test]
fn bypass_moves_its_parameter() {
    let mut unit = with_bypass();
    match unit.set_property(21, GLOBAL, 0, PropertyInput::UInt32(1), 4) {
        SetAction::ApplyParameter { param, hash, normalized_value } => {
            assert_eq!(param, BYPASS);
            assert_eq!(hash, 33);
            assert_eq!(f32::from_bits(normalized_value), 1.0);
        }
        _ => panic!("the parameter does not move"),
    }
    assert!(matches!(
        unit.set_property(21, GLOBAL, 0, PropertyInput::UInt32(0), 4),
        SetAction::ApplyParameter { normalized_value: 0, .. }
    ));
    assert!(!unit.state.bypass_enabled);
}

#[test]
fn state_and_presets_lead_to_actions() {
    let mut unit = compressor();
    assert!(matches!(
        unit.set_property(0, GLOBAL, 0, PropertyInput::Pointer(0x88), POINTER),
        SetAction::RestoreState { dictionary: 0x88 }
    ));
    assert_eq!(
        status(unit.set_property(0, GLOBAL, 0, PropertyInput::Pointer(0), POINTER)),
        K_AUDIO_UNIT_ERR_INVALID_PROPERTY_VALUE
    );
    for id in [28, 36] {
        assert!(matches!(
            unit.set_property(id, GLOBAL, 0, PropertyInput::Preset, 2 * POINTER),
            SetAction::RestoreDefaults
        ));
    }
}

#[test]
fn writing_reports_its_errors() {
    let mut unit = compressor();
    let read_only = K_AUDIO_UNIT_ERR_PROPERTY_NOT_WRITABLE;
    let value = K_AUDIO_UNIT_ERR_INVALID_PROPERTY_VALUE;
    assert_eq!(status(unit.set_property(3, GLOBAL, 0, PropertyInput::UInt32(1), 4)), read_only);
    assert_eq!(status(unit.set_property(14, INPUT, 0, PropertyInput::UInt32(1), 4)), read_only);
    assert_eq!(status(unit.set_property(1, INPUT, 2, PropertyInput::Null, 16)), read_only);
    assert_eq!(status(unit.set_property(14, GLOBAL, 0, PropertyInput::Null, 4)), value);
    assert_eq!(status(unit.set_property(14, GLOBAL, 0, PropertyInput::Unread, 8)), value);
    assert_eq!(status(unit.set_property(8, INPUT, 0, PropertyInput::Unread, 39)), value);
    let mut meter = Wrapper::<Meter>::new(Vec::new(), false, false).unwrap();
    assert_eq!(status(meter.set_property(48, GLOBAL, 0, PropertyInput::Null, 16)), read_only);
}

#[test]
fn outside_results_become_statuses() {
    assert_eq!(state_status(Some(StateStep::Restored { reset: true })), 0);
    assert_eq!(state_status(Some(StateStep::Rejected)), K_AUDIO_UNIT_ERR_INVALID_PROPERTY_VALUE);
    assert_eq!(state_status(None), K_AUDIO_UNIT_ERR_INVALID_PROPERTY_VALUE);
    assert_eq!(cocoa_view_status(0), K_AUDIO_UNIT_ERR_CANNOT_DO_IN_CURRENT_CONTEXT);
    assert_eq!(cocoa_view_status(5), 0);
    assert_eq!(value_from_string(Some(5)), Ok(5));
    assert_eq!(value_from_string(None), Err(K_AUDIO_UNIT_ERR_INVALID_PROPERTY_VALUE));
}

#[test]
fn state_is_taken_over() {
    let unit = compressor();
    assert!(matches!(unit.set_state_inner(false), StateStep::Rejected));
    assert!(matches!(unit.set_state_inner(true), StateStep::Restored { reset: false }));
    let unit = running();
    assert!(matches!(
        unit.set_state_inner(true),
        StateStep::Reinitialize { config, .. } if config.max_buffer_size == 512
    ));
    assert!(matches!(Wrapper::<Meter>::finish_set_state(true), StateStep::Restored { reset: true }));
    assert!(matches!(Wrapper::<Meter>::finish_set_state(false), StateStep::Rejected));
}

#[test]
fn defaults_are_restored_for_all_parameters() {
    let (params, config) = compressor().restore_defaults();
    assert_eq!(params, vec![GAIN, MODE]);
    assert_eq!(config, None);
    assert!(running().restore_defaults().1.is_some());
}

#[test]
fn changed_parameters_tell_the_editor() {
    let unit = running();
    let effects = unit.parameter_changed(11, 5, true);
    assert_eq!(effects.update_smoother, unit.state.current_buffer_config);
    assert_eq!(effects.task, Some(Task::ParameterValueChanged(11, 5)));
    assert_eq!(
        unit.parameter_changed(11, 5, false),
        ChangeEffects { update_smoother: None, task: None }
    );
    assert_eq!(unit.apply_parameter_change(11), Ok(GAIN));
    assert_eq!(unit.apply_parameter_change(12), Err(K_AUDIO_UNIT_ERR_INVALID_PARAMETER));
}

#[test]
fn parameters_are_set_now_or_later() {
    let mut unit = compressor();
    assert_eq!(
        unit.set_parameter(11, GLOBAL, 0, 5, 0),
        ParameterAction::Apply { param: GAIN, hash: 11, normalized_value: 5 }
    );
    assert!(unit.pending_parameter_changes.drain().is_empty());
    assert_eq!(unit.set_parameter(11, GLOBAL, 0, 5, 7), ParameterAction::Queued);
    assert_eq!(unit.pending_parameter_changes.drain(), vec![change(11, 7, 5)]);
    assert_eq!(
        unit.set_parameter(12, GLOBAL, 0, 5, 7),
        ParameterAction::Refuse(K_AUDIO_UNIT_ERR_INVALID_PARAMETER)
    );
    assert_eq!(
        unit.set_parameter(11, INPUT, 0, 5, 7),
        ParameterAction::Refuse(K_AUDIO_UNIT_ERR_INVALID_SCOPE)
    );
    assert_eq!(
        unit.set_parameter(11, GLOBAL, 1, 5, 7),
        ParameterAction::Refuse(K_AUDIO_UNIT_ERR_INVALID_SCOPE)
    );
    assert!(unit.pending_parameter_changes.drain().is_empty());
}

#[test]
fn parameters_are_read_in_their_scope() {
    let unit = compressor();
    assert_eq!(unit.get_parameter(22, GLOBAL, 0, false), Ok(MODE));
    assert_eq!(
        unit.get_parameter(22, GLOBAL, 0, true),
        Err(K_AUDIO_UNIT_ERR_INVALID_PROPERTY_VALUE)
    );
    assert_eq!(unit.get_parameter(22, OUTPUT, 0, false), Err(K_AUDIO_UNIT_ERR_INVALID_SCOPE));
    assert_eq!(unit.get_parameter(22, GLOBAL, 1, false), Err(K_AUDIO_UNIT_ERR_INVALID_SCOPE));
    assert_eq!(unit.get_parameter(23, GLOBAL, 0, false), Err(K_AUDIO_UNIT_ERR_INVALID_PARAMETER));
}

fn immediate(parameter: u32, offset: u32) -> NormalizedEvent {
    NormalizedEvent {
        event: AudioUnitParameterEvent {
            scope: GLOBAL,
            element: 0,
            parameter,
            eventType: 1,
            word0: offset,
            word1: 99,
            word2: 0,
            word3: 0,
        },
        start: 5,
        end: 6,
    }
}

fn ramp(parameter: u32, offset: i32, duration: u32) -> NormalizedEvent {
    let mut given = immediate(parameter, offset as u32);
    given.event.eventType = 2;
    given.event.word1 = duration;
    given
}

#[test]
fn ramps_have_a_start_and_an_end() {
    let mut unit = compressor();
    assert_eq!(unit.queue_parameter_event(&ramp(11, 4, 10)), ParameterAction::Queued);
    assert_eq!(
        unit.pending_parameter_changes.drain(),
        vec![change(11, 4, 5), change(11, 14, 6)]
    );
    assert_eq!(
        unit.queue_parameter_event(&ramp(11, -4, 10)),
        ParameterAction::Apply { param: GAIN, hash: 11, normalized_value: 5 }
    );
    assert_eq!(unit.pending_parameter_changes.drain(), vec![change(11, 10, 6)]);
    assert_eq!(unit.queue_parameter_event(&ramp(11, 3, 0)), ParameterAction::Queued);
    assert_eq!(unit.pending_parameter_changes.drain(), vec![change(11, 3, 5)]);
    unit.queue_parameter_event(&ramp(11, 3, u32::MAX));
    assert_eq!(unit.pending_parameter_changes.drain()[1], change(11, u32::MAX, 6));
}

#[test]
fn scheduled_events_stop_at_an_error() {
    let mut unit = compressor();
    let events = vec![immediate(11, 0), immediate(22, 3), immediate(12, 0), immediate(22, 9)];
    let (status, applied) = unit.schedule_parameters(Some(&events), 4);
    assert_eq!(status, K_AUDIO_UNIT_ERR_INVALID_PARAMETER);
    assert_eq!(
        applied,
        vec![ParameterAction::Apply { param: GAIN, hash: 11, normalized_value: 5 }]
    );
    assert_eq!(unit.pending_parameter_changes.drain(), vec![change(22, 3, 5)]);
    let (status, applied) = unit.schedule_parameters(Some(&vec![immediate(22, 3)]), 1);
    assert_eq!(status, 0);
    assert!(applied.is_empty());
}

#[test]
fn scheduling_reports_its_errors() {
    let mut unit = compressor();
    assert_eq!(unit.schedule_parameters(None, 1).0, K_AUDIO_UNIT_ERR_INVALID_PROPERTY_VALUE);
    assert_eq!(unit.schedule_parameters(None, 0).0, 0);
    let mut scoped = immediate(11, 0);
    scoped.event.scope = INPUT;
    assert_eq!(
        unit.queue_parameter_event(&scoped),
        ParameterAction::Refuse(K_AUDIO_UNIT_ERR_INVALID_SCOPE)
    );
    let mut unknown = immediate(11, 0);
    unknown.event.eventType = 3;
    assert_eq!(
        unit.queue_parameter_event(&unknown),
        ParameterAction::Refuse(K_AUDIO_UNIT_ERR_INVALID_PARAMETER)
    );
    assert_eq!(
        unit.queue_parameter_event(&ramp(12, 0, 5)),
        ParameterAction::Refuse(K_AUDIO_UNIT_ERR_INVALID_PARAMETER)
    );
    assert!(unit.pending_parameter_changes.drain().is_empty());
}

#[test]
fn midi_messages_wait_for_the_cycle() {
    let event: PluginNoteEvent = NoteEvent::MidiProgramChange { timing: 3, channel: 0, program: 4 };
    let mut unit = compressor();
    assert_eq!(unit.queue_midi_message(Some(event)), 0);
    assert_eq!(unit.queue_midi_message(None), K_AUDIO_UNIT_ERR_INVALID_PARAMETER);
    assert_eq!(unit.pending_input_events.drain(), vec![event]);
    let mut meter = Wrapper::<Meter>::new(Vec::new(), false, false).unwrap();
    assert_eq!(meter.queue_midi_message(Some(event)), K_AUDIO_UNIT_ERR_INVALID_PROPERTY);
    assert!(meter.pending_input_events.drain().is_empty());
}

#[test]
fn closing_a_view_undoes_opening_it() {
    let mut unit = compressor();
    assert!(unit.can_open_editor());
    unit.view_made(0x50);
    unit.editor_opened();
    assert_eq!(unit.state.open_editor_count, 1);
    assert_eq!(unit.request_resize(), Some(0x50));
    unit.view_made(0x60);
    unit.editor_opened();
    unit.editor_closed(0x50);
    assert_eq!(unit.request_resize(), Some(0x60));
    unit.editor_closed(0x60);
    assert_eq!(unit.state.open_editor_count, 0);
    assert_eq!(unit.request_resize(), None);
    assert!(!with_bypass().can_open_editor());
}

#[test]
fn open_editor_hears_of_changes() {
    let mut unit = compressor();
    assert!(matches!(unit.execute(Task::ParameterValuesChanged), EditorCall::Nothing));
    unit.view_made(0x50);
    unit.editor_opened();
    assert!(matches!(unit.execute(Task::ParameterValuesChanged), EditorCall::ValuesChanged));
    assert!(matches!(
        unit.execute(Task::ParameterValueChanged(22, 9)),
        EditorCall::ValueChanged { id, normalized_value: 9 } if id == "mode"
    ));
    assert!(matches!(unit.execute(Task::ParameterValueChanged(23, 9)), EditorCall::Nothing));
    let mut unit = with_bypass();
    unit.view_made(0x50);
    unit.editor_opened();
    assert!(matches!(unit.execute(Task::ParameterValuesChanged), EditorCall::Nothing));
    assert_eq!(unit.request_resize(), None);
}

#[test]
fn gestures_go_to_the_host() {
    let mut unit = compressor();
    assert_eq!(unit.raw_begin_set_parameter(GAIN), None);
    unit.state.component_instance = 5;
    let parameter = AudioUnitParameter { mAudioUnit: 5, mParameterID: 11, mScope: 0, mElement: 0 };
    assert_eq!(
        unit.raw_begin_set_parameter(GAIN),
        Some(AudioUnitEvent { mEventType: 1, mArgument: parameter })
    );
    assert_eq!(
        unit.raw_end_set_parameter(GAIN),
        Some(AudioUnitEvent { mEventType: 2, mArgument: parameter })
    );
    assert_eq!(unit.raw_end_set_parameter(BYPASS), None);
}

#[test]
fn editor_sets_through_the_host() {
    let mut unit = compressor();
    assert_eq!(unit.raw_set_parameter_normalized(GAIN), EditorChange::Apply { hash: 11 });
    assert_eq!(unit.raw_set_parameter_normalized(BYPASS), EditorChange::Ignore);
    unit.state.component_instance = 5;
    let parameter = AudioUnitParameter { mAudioUnit: 5, mParameterID: 22, mScope: 0, mElement: 0 };
    assert_eq!(unit.raw_set_parameter_normalized(MODE), EditorChange::SetOnHost { parameter });
    assert_eq!(Wrapper::<Meter>::host_set_parameter(parameter, 0), EditorChange::Ignore);
    assert_eq!(
        Wrapper::<Meter>::host_set_parameter(parameter, -1),
        EditorChange::Apply { hash: 22 }
    );
}
