use nih_plug_auv2::dispatch::{lookup, ComponentMethod};
use nih_plug_auv2::host::K_AUDIO_UNIT_ERR_INVALID_PROPERTY_VALUE;
use nih_plug_auv2::layout::AudioIOLayout;
use nih_plug_auv2::listeners::{PropertyListener, PropertyListeners};
use nih_plug_auv2::param_info::{parameter_info, parameter_unit, truncated_name};
use nih_plug_auv2::params::{ParamEntry, ParamPtr, ParamTable};
use nih_plug_auv2::plugin::{Auv2Plugin, Plugin};
use nih_plug_auv2::registry::{check_wrapper, InstanceRegistry};
use nih_plug_auv2::wrapper::Wrapper;

struct Gain;

impl Plugin for Gain {
    const NAME: &'static str = "Gain";
    const VENDOR: &'static str = "";
    const VERSION: &'static str = "1.0.0";
    const AUDIO_IO_LAYOUTS: &'static [AudioIOLayout] = &[];
}

impl Auv2Plugin for Gain {
    const AUV2_SUBTYPE: [u8; 4] = *b"Gain";
    const AUV2_MANUFACTURER: [u8; 4] = *b"Mois";
}

fn param(id: &str, hash: u32, ptr: ParamPtr) -> ParamEntry {
    ParamEntry {
        id: id.to_owned(),
        hash,
        ptr,
        name: "Output Gain".to_owned(),
        unit: " dB".to_owned(),
        is_bypass: false,
        is_non_automatable: false,
        step_count: None,
        min_value: (-30.0_f32).to_bits(),
        max_value: 30.0_f32.to_bits(),
        default_value: 0.0_f32.to_bits(),
    }
}

#[test]
fn selectors_lead_to_their_functions() {
    assert_eq!(lookup(0x0001), Some(ComponentMethod::Initialize));
    assert_eq!(lookup(0x0002), Some(ComponentMethod::Uninitialize));
    assert_eq!(lookup(0x0003), Some(ComponentMethod::GetPropertyInfo));
    assert_eq!(lookup(0x0004), Some(ComponentMethod::GetProperty));
    assert_eq!(lookup(0x0005), Some(ComponentMethod::SetProperty));
    assert_eq!(lookup(0x0006), Some(ComponentMethod::GetParameter));
    assert_eq!(lookup(0x0007), Some(ComponentMethod::SetParameter));
    assert_eq!(lookup(0x0009), Some(ComponentMethod::Reset));
    assert_eq!(lookup(0x000A), Some(ComponentMethod::AddPropertyListener));
    assert_eq!(lookup(0x000B), Some(ComponentMethod::RemovePropertyListener));
    assert_eq!(lookup(0x000E), Some(ComponentMethod::Render));
    assert_eq!(lookup(0x000F), Some(ComponentMethod::AddRenderNotify));
    assert_eq!(lookup(0x0010), Some(ComponentMethod::RemoveRenderNotify));
    assert_eq!(lookup(0x0011), Some(ComponentMethod::ScheduleParameters));
    assert_eq!(lookup(0x0012), Some(ComponentMethod::RemovePropertyListenerWithUserData));
    assert_eq!(lookup(0x0101), Some(ComponentMethod::MidiEvent));
    assert_eq!(lookup(0x0102), Some(ComponentMethod::SysEx));
}

#[test]
fn unknown_selectors_lead_nowhere() {
    for selector in [0, 0x0008, 0x000C, 0x000D, 0x0013, 0x0100, 0x0103, -1] {
        assert_eq!(lookup(selector), None);
    }
}

#[test]
fn listeners_are_called_in_order() {
    let mut listeners = PropertyListeners::new();
    assert_eq!(listeners.add_property_listener(14, Some(100), 1), 0);
    assert_eq!(listeners.add_property_listener(2, Some(100), 1), 0);
    assert_eq!(listeners.add_property_listener(14, Some(200), 2), 0);
    let called = listeners.listeners_of(14);
    assert_eq!(
        called,
        vec![
            PropertyListener { property_id: 14, proc: 100, user_data: 1 },
            PropertyListener { property_id: 14, proc: 200, user_data: 2 },
        ]
    );
    assert!(listeners.listeners_of(3).is_empty());
}

#[test]
fn listeners_need_a_function() {
    let mut listeners = PropertyListeners::new();
    let error = K_AUDIO_UNIT_ERR_INVALID_PROPERTY_VALUE;
    assert_eq!(listeners.add_property_listener(14, None, 1), error);
    assert_eq!(listeners.remove_property_listener(14, None), error);
    assert_eq!(listeners.remove_property_listener_with_user_data(14, None, 1), error);
    assert!(listeners.entries.is_empty());
}

#[test]
fn listeners_are_removed_by_function() {
    let mut listeners = PropertyListeners::new();
    listeners.add_property_listener(14, Some(100), 1);
    listeners.add_property_listener(14, Some(100), 2);
    listeners.add_property_listener(14, Some(200), 1);
    listeners.add_property_listener(2, Some(100), 1);
    assert_eq!(listeners.remove_property_listener(14, Some(100)), 0);
    assert_eq!(
        listeners.entries,
        vec![
            PropertyListener { property_id: 14, proc: 200, user_data: 1 },
            PropertyListener { property_id: 2, proc: 100, user_data: 1 },
        ]
    );
}

#[test]
fn listeners_are_removed_by_function_and_data() {
    let mut listeners = PropertyListeners::new();
    listeners.add_property_listener(14, Some(100), 1);
    listeners.add_property_listener(14, Some(100), 2);
    assert_eq!(listeners.remove_property_listener_with_user_data(14, Some(100), 1), 0);
    assert_eq!(listeners.entries, vec![PropertyListener { property_id: 14, proc: 100, user_data: 2 }]);
}

#[test]
fn opened_units_are_found() {
    let mut registry = InstanceRegistry::new();
    let mut wrapper = Wrapper::<Gain>::new(Vec::new(), false, false).unwrap();
    registry.register_audio_unit_instance(&mut wrapper, 0x1000, 77);
    assert_eq!(wrapper.state.component_instance, 77);
    assert_eq!(registry.wrapper_from_audio_unit_instance(77), Some(0x1000));
    assert_eq!(registry.wrapper_from_audio_unit_instance(78), None);
    registry.unregister_audio_unit_instance(&mut wrapper, 0x1000);
    assert_eq!(wrapper.state.component_instance, 0);
    assert_eq!(registry.wrapper_from_audio_unit_instance(77), None);
}

#[test]
fn null_addresses_open_nothing() {
    let mut registry = InstanceRegistry::new();
    let mut wrapper = Wrapper::<Gain>::new(Vec::new(), false, false).unwrap();
    registry.register_audio_unit_instance(&mut wrapper, 0, 77);
    registry.register_audio_unit_instance(&mut wrapper, 0x1000, 0);
    assert_eq!(wrapper.state.component_instance, 0);
    assert!(registry.wrappers.is_empty());
    registry.register_audio_unit_instance(&mut wrapper, 0x1000, 77);
    registry.unregister_audio_unit_instance(&mut wrapper, 0);
    assert_eq!(registry.wrapper_from_audio_unit_instance(77), Some(0x1000));
    assert_eq!(check_wrapper(0), K_AUDIO_UNIT_ERR_INVALID_PROPERTY_VALUE);
    assert_eq!(check_wrapper(0x1000), 0);
}

#[test]
fn parameters_are_found_by_hash() {
    let table = ParamTable::new(vec![
        param("gain", 11, ParamPtr::FloatParam(1)),
        param("mix", 22, ParamPtr::FloatParam(2)),
        param("other", 11, ParamPtr::IntParam(3)),
    ]);
    assert_eq!(table.param_hashes(), vec![11, 22, 11]);
    assert_eq!(table.param_by_hash(22), Some(ParamPtr::FloatParam(2)));
    assert_eq!(table.param_by_hash(11), Some(ParamPtr::IntParam(3)));
    assert_eq!(table.param_by_hash(33), None);
    assert_eq!(table.param_id_by_hash(11), Some("other"));
    assert_eq!(table.param_id_by_hash(33), None);
    assert_eq!(table.hash_of_param(ParamPtr::FloatParam(1)), Some(11));
    assert_eq!(table.hash_of_param(ParamPtr::FloatParam(3)), None);
    assert_eq!(table.hash_leading_to(ParamPtr::IntParam(3)), Some(11));
    assert_eq!(table.hash_leading_to(ParamPtr::FloatParam(1)), None);
    assert_eq!(
        table.reachable_params(),
        vec![ParamPtr::FloatParam(2), ParamPtr::IntParam(3)]
    );
    assert_eq!(table.bypass_param, None);
}

#[test]
fn first_bypass_parameter_counts() {
    let mut first = param("a", 1, ParamPtr::BoolParam(1));
    first.is_bypass = true;
    let mut second = param("b", 2, ParamPtr::BoolParam(2));
    second.is_bypass = true;
    let table = ParamTable::new(vec![param("c", 3, ParamPtr::FloatParam(3)), first, second]);
    assert_eq!(table.bypass_param, Some(ParamPtr::BoolParam(1)));
}

#[test]
fn units_are_recognized() {
    let float = ParamPtr::FloatParam(1);
    assert_eq!(parameter_unit(float, " % "), 3);
    assert_eq!(parameter_unit(float, "s"), 4);
    assert_eq!(parameter_unit(float, "Sec"), 4);
    assert_eq!(parameter_unit(float, "SECONDS"), 4);
    assert_eq!(parameter_unit(float, "ms"), 24);
    assert_eq!(parameter_unit(float, " Hz"), 8);
    assert_eq!(parameter_unit(float, "\u{a0}dB\t"), 13);
    assert_eq!(parameter_unit(float, "gain"), 14);
    assert_eq!(parameter_unit(float, "BPM"), 22);
    assert_eq!(parameter_unit(float, "semitones"), 0);
    assert_eq!(parameter_unit(float, ""), 0);
    assert_eq!(parameter_unit(ParamPtr::BoolParam(1), "ms"), 2);
    assert_eq!(parameter_unit(ParamPtr::IntParam(1), "ms"), 1);
    assert_eq!(parameter_unit(ParamPtr::EnumParam(1), "ms"), 1);
}

#[test]
fn parameter_info_describes_a_parameter() {
    let info = parameter_info(&param("gain", 11, ParamPtr::FloatParam(1)));
    assert_eq!(&info.name[..12], b"Output Gain\0");
    assert!(info.name[12..].iter().all(|byte| *byte == 0));
    assert_eq!(info.cfNameString, "Output Gain");
    assert_eq!(info.unit, 13);
    assert_eq!(info.unitName, None);
    assert_eq!(info.clumpID, 0);
    assert_eq!(info.minValue, (-30.0_f32).to_bits());
    assert_eq!(info.maxValue, 30.0_f32.to_bits());
    assert_eq!(info.defaultValue, 0);
    assert_eq!(info.flags, 0xCA00_0011);
}

#[test]
fn parameter_flags_follow_the_parameter() {
    let mut stepped = param("mode", 1, ParamPtr::EnumParam(1));
    stepped.step_count = Some(3);
    assert_eq!(parameter_info(&stepped).flags, 0xC820_0011);
    let mut fixed = param("fixed", 1, ParamPtr::FloatParam(1));
    fixed.is_non_automatable = true;
    assert_eq!(parameter_info(&fixed).flags, 0xC800_0011);
}

#[test]
fn other_units_keep_their_names() {
    let mut tuned = param("tune", 1, ParamPtr::FloatParam(1));
    tuned.unit = "  semitones ".to_owned();
    assert_eq!(parameter_info(&tuned).unitName, Some("semitones".to_owned()));
    tuned.unit = "  ".to_owned();
    assert_eq!(parameter_info(&tuned).unitName, None);
}

#[test]
fn long_names_are_cut_in_the_field() {
    let mut long = param("long", 1, ParamPtr::FloatParam(1));
    long.name = "x".repeat(60);
    let info = parameter_info(&long);
    assert!(info.name[..51].iter().all(|byte| *byte == b'x'));
    assert_eq!(info.name[51], 0);
    assert_eq!(info.cfNameString.len(), 60);
}

#[test]
fn names_are_cut_to_the_asked_length() {
    assert_eq!(truncated_name("Output Gain", 6), "Output");
    assert_eq!(truncated_name("Output Gain", 0), "");
    assert_eq!(truncated_name("Output Gain", 11), "Output Gain");
    assert_eq!(truncated_name("Output Gain", 99), "Output Gain");
    assert_eq!(truncated_name("Output Gain", -1), "Output Gain");
    assert_eq!(truncated_name("\u{e4}b", 2), "\u{e4}");
}
