use nih_plug_auv2::class_info::{
    class_info_dictionary, deserialize_class_info, ClassInfoEntry, ClassInfoKey, ClassInfoValue,
};
use nih_plug_auv2::codes::{
    cocoa_class_suffix, cocoa_factory_class_name, cocoa_view_class_name, fourcc, fourcc_hex,
};
use nih_plug_auv2::host::K_AUDIO_UNIT_ERR_CANNOT_DO_IN_CURRENT_CONTEXT;
use nih_plug_auv2::layout::AudioIOLayout;
use nih_plug_auv2::metadata::{
    AudioComponentDescription, Auv2BundlerMetadata, Auv2BundlerMetadataList,
    NIH_AUV2_FACTORY_SYMBOL, NIH_AUV2_METADATA_SYMBOL,
};
use nih_plug_auv2::plugin::{Auv2Plugin, MidiConfig, Plugin};
use nih_plug_auv2::version::{pack_bcd_version, parse_auv2_version};

struct Gain;

impl Plugin for Gain {
    const NAME: &'static str = "Gain";
    const VENDOR: &'static str = "Moist Plugins GmbH";
    const VERSION: &'static str = "1.23.4-rc1";
    const AUDIO_IO_LAYOUTS: &'static [AudioIOLayout] = &[];
}

impl Auv2Plugin for Gain {
    const AUV2_SUBTYPE: [u8; 4] = *b"Gain";
    const AUV2_MANUFACTURER: [u8; 4] = *b"Mois";
}

struct Synth;

impl Plugin for Synth {
    const NAME: &'static str = "Synth";
    const VENDOR: &'static str = "Moist Plugins GmbH";
    const VERSION: &'static str = "0.1.0";
    const AUDIO_IO_LAYOUTS: &'static [AudioIOLayout] = &[];
    const MIDI_INPUT: MidiConfig = MidiConfig::Basic;
}

impl Auv2Plugin for Synth {
    const AUV2_TYPE: [u8; 4] = *b"aumu";
    const AUV2_SUBTYPE: [u8; 4] = *b"Synt";
    const AUV2_MANUFACTURER: [u8; 4] = [0xFF, 0x00, 0x80, 0x01];
    const AUV2_SANDBOX_SAFE: bool = false;
}

fn description(code: &[u8; 4], subtype: &[u8; 4], manufacturer: &[u8; 4]) -> AudioComponentDescription {
    AudioComponentDescription {
        componentType: fourcc(*code),
        componentSubType: fourcc(*subtype),
        componentManufacturer: fourcc(*manufacturer),
        componentFlags: 7,
        componentFlagsMask: 9,
    }
}

#[test]
fn fourcc_is_big_endian() {
    assert_eq!(fourcc(*b"aufx"), 0x6175_6678);
    assert_eq!(fourcc([0, 0, 0, 1]), 1);
    assert_eq!(fourcc([0xFF, 0xFF, 0xFF, 0xFF]), u32::MAX);
}

#[test]
fn fourcc_hex_has_eight_digits() {
    assert_eq!(fourcc_hex(*b"aufx"), "61756678");
    assert_eq!(fourcc_hex([0, 0, 0, 0xAB]), "000000AB");
    assert_eq!(fourcc_hex([0xFF, 0x0E, 0xDC, 0xBA]), "FF0EDCBA");
}

#[test]
fn class_names_hold_all_codes() {
    assert_eq!(cocoa_class_suffix::<Gain>(), "61756678_4761696E_4D6F6973");
    assert_eq!(cocoa_factory_class_name::<Gain>(), "NihAuv2Factory_61756678_4761696E_4D6F6973");
    assert_eq!(cocoa_view_class_name::<Gain>(), "NihAuv2View_61756678_4761696E_4D6F6973");
}

#[test]
fn class_names_differ_between_plugins() {
    assert_ne!(cocoa_class_suffix::<Gain>(), cocoa_class_suffix::<Synth>());
    assert_eq!(cocoa_class_suffix::<Synth>(), "61756D75_53796E74_FF008001");
}

#[test]
fn component_type_defaults_to_effect() {
    assert_eq!(Gain::AUV2_TYPE, *b"aufx");
    assert!(Gain::AUV2_SANDBOX_SAFE);
}

#[test]
fn metadata_comes_from_the_plugin() {
    let metadata = Auv2BundlerMetadata::for_plugin::<Synth>();
    assert_eq!(metadata.type_code, *b"aumu");
    assert_eq!(metadata.subtype_code, *b"Synt");
    assert_eq!(metadata.manufacturer_code, [0xFF, 0x00, 0x80, 0x01]);
    assert_eq!(metadata.name, "Synth");
    assert_eq!(metadata.vendor, "Moist Plugins GmbH");
    assert_eq!(metadata.version, "0.1.0");
    assert!(!metadata.sandbox_safe);
}

#[test]
fn metadata_matches_by_the_three_codes() {
    let metadata = Auv2BundlerMetadata::for_plugin::<Gain>();
    assert!(metadata.matches(&description(b"aufx", b"Gain", b"Mois")));
    assert!(!metadata.matches(&description(b"aumu", b"Gain", b"Mois")));
    assert!(!metadata.matches(&description(b"aufx", b"gain", b"Mois")));
    assert!(!metadata.matches(&description(b"aufx", b"Gain", b"Moit")));
}

#[test]
fn factory_takes_the_first_match() {
    let list = Auv2BundlerMetadataList {
        entries: vec![
            Auv2BundlerMetadata::for_plugin::<Synth>(),
            Auv2BundlerMetadata::for_plugin::<Gain>(),
            Auv2BundlerMetadata::for_plugin::<Gain>(),
        ],
    };
    assert_eq!(list.find(&description(b"aufx", b"Gain", b"Mois")), Some(1));
    assert_eq!(list.find(&description(b"aufx", b"Nope", b"Mois")), None);
}

#[test]
fn exported_symbols_have_their_names() {
    assert_eq!(NIH_AUV2_FACTORY_SYMBOL, "NihAudioUnitFactory");
    assert_eq!(NIH_AUV2_METADATA_SYMBOL, "NihAudioUnitBundlerMetadata");
}

#[test]
fn bcd_packs_the_lowest_digits() {
    assert_eq!(pack_bcd_version(1234, 4), 0x1234);
    assert_eq!(pack_bcd_version(1234, 2), 0x34);
    assert_eq!(pack_bcd_version(7, 0), 0);
    assert_eq!(pack_bcd_version(99_999_999, 8), 0x9999_9999);
}

#[test]
fn versions_are_packed() {
    assert_eq!(parse_auv2_version("1.2.3"), 0x0001_0203);
    assert_eq!(parse_auv2_version("1234.56.78"), 0x1234_5678);
    assert_eq!(parse_auv2_version("1.23.4-rc1"), 0x0001_2304);
    assert_eq!(parse_auv2_version("2"), 0x0002_0000);
    assert_eq!(parse_auv2_version("+3.1"), 0x0003_0100);
}

#[test]
fn broken_version_numbers_are_zero() {
    assert_eq!(parse_auv2_version(""), 0);
    assert_eq!(parse_auv2_version("-1.2.3"), 0);
    assert_eq!(parse_auv2_version("1..2"), 0x0001_0002);
    assert_eq!(parse_auv2_version("a.4294967296.5"), 0x5);
    assert_eq!(parse_auv2_version("12345.678.9.10"), 0x2345_7809);
}

fn number(entries: &Vec<ClassInfoEntry>, key: ClassInfoKey) -> i32 {
    for entry in entries {
        if entry.key == key {
            if let ClassInfoValue::Number(number) = entry.value {
                return number;
            }
        }
    }
    panic!("no number under the key")
}

#[test]
fn class_info_describes_the_plugin() {
    let entries = class_info_dictionary::<Synth>(Some(vec![1, 2, 3])).unwrap();
    assert_eq!(entries.len(), 7);
    assert_eq!(number(&entries, ClassInfoKey::Version), 0x0000_0100);
    assert_eq!(number(&entries, ClassInfoKey::Type), 0x6175_6D75);
    assert_eq!(number(&entries, ClassInfoKey::Subtype), 0x5379_6E74);
    assert_eq!(number(&entries, ClassInfoKey::Manufacturer), 0xFF00_8001_u32 as i32);
    assert_eq!(number(&entries, ClassInfoKey::PresetNumber), 0);
    assert!(matches!(entries[4].value, ClassInfoValue::Text("Synth")));
    let keys: Vec<&str> = entries.iter().map(|entry| entry.key.text()).collect();
    assert_eq!(
        keys,
        vec!["version", "type", "subtype", "manufacturer", "name", "preset-number", "data"]
    );
}

#[test]
fn class_info_gives_the_state_back() {
    let entries = class_info_dictionary::<Gain>(Some(vec![9, 8, 7, 0])).unwrap();
    assert_eq!(deserialize_class_info(&entries), Some(&vec![9, 8, 7, 0]));
}

#[test]
fn class_info_without_state_is_an_error() {
    assert_eq!(
        class_info_dictionary::<Gain>(None).err(),
        Some(K_AUDIO_UNIT_ERR_CANNOT_DO_IN_CURRENT_CONTEXT)
    );
    assert_eq!(deserialize_class_info(&Vec::new()), None);
    let entries = vec![ClassInfoEntry { key: ClassInfoKey::Data, value: ClassInfoValue::Other }];
    assert_eq!(deserialize_class_info(&entries), None);
}
