//! The dictionary in which a host keeps the state of a plugin.
use vstd::prelude::*;

use crate::codes::{first_character_is_the_highest_byte, fourcc, fourcc_value};
use crate::host::{OSStatus, K_AUDIO_UNIT_ERR_CANNOT_DO_IN_CURRENT_CONTEXT};
use crate::plugin::Auv2Plugin;
use crate::version::{packed_version, packed_version_tells_the_numbers, parse_auv2_version};

verus! {

pub const CLASS_INFO_VERSION_KEY: &'static str = "version";

pub const CLASS_INFO_TYPE_KEY: &'static str = "type";

pub const CLASS_INFO_SUBTYPE_KEY: &'static str = "subtype";

pub const CLASS_INFO_MANUFACTURER_KEY: &'static str = "manufacturer";

pub const CLASS_INFO_NAME_KEY: &'static str = "name";

pub const CLASS_INFO_PRESET_NUMBER_KEY: &'static str = "preset-number";

pub const CLASS_INFO_DATA_KEY: &'static str = "data";

/// The keys of the dictionary.
#[derive(Clone, Copy, Debug, PartialEq, Eq, Structural)]
pub enum ClassInfoKey {
    Version,
    Type,
    Subtype,
    Manufacturer,
    Name,
    PresetNumber,
    Data,
}

impl ClassInfoKey {
    /// The text of the key.
    pub open spec fn spelling(self) -> Seq<char> {
        match self {
            ClassInfoKey::Version => CLASS_INFO_VERSION_KEY@,
            ClassInfoKey::Type => CLASS_INFO_TYPE_KEY@,
            ClassInfoKey::Subtype => CLASS_INFO_SUBTYPE_KEY@,
            ClassInfoKey::Manufacturer => CLASS_INFO_MANUFACTURER_KEY@,
            ClassInfoKey::Name => CLASS_INFO_NAME_KEY@,
            ClassInfoKey::PresetNumber => CLASS_INFO_PRESET_NUMBER_KEY@,
            ClassInfoKey::Data => CLASS_INFO_DATA_KEY@,
        }
    }

    /// The text of the key.
    pub fn text(self) -> (text: &'static str)
        ensures
            text@ == self.spelling(),
    {
        match self {
            ClassInfoKey::Version => CLASS_INFO_VERSION_KEY,
            ClassInfoKey::Type => CLASS_INFO_TYPE_KEY,
            ClassInfoKey::Subtype => CLASS_INFO_SUBTYPE_KEY,
            ClassInfoKey::Manufacturer => CLASS_INFO_MANUFACTURER_KEY,
            ClassInfoKey::Name => CLASS_INFO_NAME_KEY,
            ClassInfoKey::PresetNumber => CLASS_INFO_PRESET_NUMBER_KEY,
            ClassInfoKey::Data => CLASS_INFO_DATA_KEY,
        }
    }
}

/// A value of the dictionary.
pub enum ClassInfoValue {
    Number(i32),
    Text(&'static str),
    Data(Vec<u8>),
    /// A value of a type that the wrapper does not write.
    Other,
}

/// A value of the dictionary, with text and data as sequences.
pub ghost enum ValueView {
    Number(i32),
    Text(Seq<char>),
    Data(Seq<u8>),
    Other,
}

impl View for ClassInfoValue {
    type V = ValueView;

    open spec fn view(&self) -> ValueView {
        match self {
            ClassInfoValue::Number(number) => ValueView::Number(*number),
            ClassInfoValue::Text(text) => ValueView::Text(text@),
            ClassInfoValue::Data(data) => ValueView::Data(data@),
            ClassInfoValue::Other => ValueView::Other,
        }
    }
}

/// A key of the dictionary with its value.
pub struct ClassInfoEntry {
    pub key: ClassInfoKey,
    pub value: ClassInfoValue,
}

/// A number of 32 bits, read with a sign.
pub open spec fn signed(code: int) -> i32 {
    if code < 0x8000_0000 {
        code as i32
    } else {
        (code - 0x1_0000_0000) as i32
    }
}

pub(crate) fn with_sign(code: u32) -> (number: i32)
    ensures
        number == signed(code as int),
{
    assert(code < 0x8000_0000 ==> code as i32 == code) by (bit_vector);
    assert(code >= 0x8000_0000 ==> code as i32 == code - 0x1_0000_0000) by (bit_vector);
    code as i32
}

/// The entries of the dictionary, for a plugin and its state as bytes.
pub open spec fn class_info<P: Auv2Plugin>(serialized_state: Seq<u8>) -> Seq<
    (ClassInfoKey, ValueView),
> {
    seq![
        (ClassInfoKey::Version, ValueView::Number(signed(packed_version(P::VERSION@)))),
        (ClassInfoKey::Type, ValueView::Number(signed(fourcc_value(P::AUV2_TYPE)))),
        (ClassInfoKey::Subtype, ValueView::Number(signed(fourcc_value(P::AUV2_SUBTYPE)))),
        (ClassInfoKey::Manufacturer, ValueView::Number(signed(fourcc_value(P::AUV2_MANUFACTURER)))),
        (ClassInfoKey::Name, ValueView::Text(P::NAME@)),
        (ClassInfoKey::PresetNumber, ValueView::Number(0)),
        (ClassInfoKey::Data, ValueView::Data(serialized_state)),
    ]
}

/// The entries, each by its key and what its value says.
pub open spec fn entry_views(entries: Seq<ClassInfoEntry>) -> Seq<(ClassInfoKey, ValueView)> {
    entries.map_values(|entry: ClassInfoEntry| (entry.key, entry.value@))
}

/// The entries of the dictionary for a plugin and its state. There is none where the state could
/// not be turned into bytes.
pub fn class_info_dictionary<P: Auv2Plugin>(serialized_state: Option<Vec<u8>>) -> (entries: Result<
    Vec<ClassInfoEntry>,
    OSStatus,
>)
    ensures
        match serialized_state {
            Some(state) => entries is Ok && entry_views(entries->Ok_0@) == class_info::<P>(state@),
            None => entries is Err && entries->Err_0
                == K_AUDIO_UNIT_ERR_CANNOT_DO_IN_CURRENT_CONTEXT,
        },
{
    match serialized_state {
        Some(state) => {
            let ghost bytes = state@;
            let version = with_sign(parse_auv2_version(P::VERSION));
            let type_code = with_sign(fourcc(P::AUV2_TYPE));
            let subtype_code = with_sign(fourcc(P::AUV2_SUBTYPE));
            let manufacturer_code = with_sign(fourcc(P::AUV2_MANUFACTURER));
            let mut entries: Vec<ClassInfoEntry> = Vec::new();
            entries.push(
                ClassInfoEntry {
                    key: ClassInfoKey::Version,
                    value: ClassInfoValue::Number(version),
                },
            );
            entries.push(
                ClassInfoEntry {
                    key: ClassInfoKey::Type,
                    value: ClassInfoValue::Number(type_code),
                },
            );
            entries.push(
                ClassInfoEntry {
                    key: ClassInfoKey::Subtype,
                    value: ClassInfoValue::Number(subtype_code),
                },
            );
            entries.push(
                ClassInfoEntry {
                    key: ClassInfoKey::Manufacturer,
                    value: ClassInfoValue::Number(manufacturer_code),
                },
            );
            entries.push(
                ClassInfoEntry { key: ClassInfoKey::Name, value: ClassInfoValue::Text(P::NAME) },
            );
            entries.push(
                ClassInfoEntry { key: ClassInfoKey::PresetNumber, value: ClassInfoValue::Number(0) },
            );
            entries.push(
                ClassInfoEntry { key: ClassInfoKey::Data, value: ClassInfoValue::Data(state) },
            );
            assert(entry_views(entries@) =~= class_info::<P>(bytes));
            Ok(entries)
        },
        None => Err(K_AUDIO_UNIT_ERR_CANNOT_DO_IN_CURRENT_CONTEXT),
    }
}

/// The bytes of a plugin's state: the value of the data key, where it holds bytes.
pub open spec fn state_bytes(entries: Seq<(ClassInfoKey, ValueView)>) -> Option<Seq<u8>>
    decreases entries.len(),
{
    if entries.len() == 0 {
        None
    } else if entries[0].0 == ClassInfoKey::Data {
        match entries[0].1 {
            ValueView::Data(data) => Some(data),
            _ => None,
        }
    } else {
        state_bytes(entries.drop_first())
    }
}

/// Where the bytes of a plugin's state stand in a dictionary.
pub fn deserialize_class_info(entries: &Vec<ClassInfoEntry>) -> (state: Option<&Vec<u8>>)
    ensures
        match state {
            Some(data) => state_bytes(entry_views(entries@)) == Some(data@),
            None => state_bytes(entry_views(entries@)) is None,
        },
{
    let ghost all = entry_views(entries@);
    let mut i: usize = 0;
    assert(all.skip(0) =~= all);
    while i < entries.len()
        invariant
            i <= entries@.len(),
            all == entry_views(entries@),
            state_bytes(all) == state_bytes(all.skip(i as int)),
        decreases entries@.len() - i,
    {
        assert(all.skip(i as int)[0] == (entries@[i as int].key, entries@[i as int].value@));
        assert(all.skip(i as int).drop_first() =~= all.skip(i + 1));
        if entries[i].key == ClassInfoKey::Data {
            match &entries[i].value {
                ClassInfoValue::Data(data) => {
                    return Some(data);
                },
                _ => {
                    return None;
                },
            }
        }
        i += 1;
    }
    None
}

/// What is read out of a dictionary is the state that it was made for.
pub proof fn state_is_read_back<P: Auv2Plugin>(serialized_state: Seq<u8>)
    ensures
        state_bytes(class_info::<P>(serialized_state)) == Some(serialized_state),
{
    let all = class_info::<P>(serialized_state);
    reveal_with_fuel(state_bytes, 7);
    assert(all.drop_first().drop_first().drop_first().drop_first().drop_first().drop_first()[0]
        == all[6]);
}

/// A number with a sign has the same 32 bits as the one without.
pub proof fn sign_keeps_the_bits(code: u32)
    ensures
        (signed(code as int) - code) % 0x1_0000_0000 == 0,
        signed(code as int) >= 0 <==> code <= 0x7FFF_FFFF,
{
}

/// A dictionary tells the version and the codes of its plugin, each under its own key and with
/// its own 32 bits, the name of the plugin, the first preset, and the state, and nothing else.
pub proof fn dictionary_tells_the_plugin<P: Auv2Plugin>(serialized_state: Seq<u8>)
    ensures
        ({
            let all = class_info::<P>(serialized_state);
            &&& all.len() == 7
            &&& all[0].0 == ClassInfoKey::Version
            &&& all[0].1 matches ValueView::Number(number) && (number - packed_version(P::VERSION@))
                % 0x1_0000_0000 == 0
            &&& all[1].0 == ClassInfoKey::Type
            &&& all[1].1 matches ValueView::Number(number) && (number - fourcc_value(P::AUV2_TYPE))
                % 0x1_0000_0000 == 0
            &&& all[2].0 == ClassInfoKey::Subtype
            &&& all[2].1 matches ValueView::Number(number) && (number - fourcc_value(
                P::AUV2_SUBTYPE,
            )) % 0x1_0000_0000 == 0
            &&& all[3].0 == ClassInfoKey::Manufacturer
            &&& all[3].1 matches ValueView::Number(number) && (number - fourcc_value(
                P::AUV2_MANUFACTURER,
            )) % 0x1_0000_0000 == 0
            &&& all[4] == (ClassInfoKey::Name, ValueView::Text(P::NAME@))
            &&& all[5] == (ClassInfoKey::PresetNumber, ValueView::Number(0))
            &&& all[6] == (ClassInfoKey::Data, ValueView::Data(serialized_state))
        }),
{
    packed_version_tells_the_numbers(P::VERSION@);
    first_character_is_the_highest_byte(P::AUV2_TYPE);
    first_character_is_the_highest_byte(P::AUV2_SUBTYPE);
    first_character_is_the_highest_byte(P::AUV2_MANUFACTURER);
}

/// What is read out of a dictionary is what stands under the first data key, whatever else stands
/// in front of it or behind it, and only where it is bytes.
pub proof fn first_data_key_holds_the_state(
    front: Seq<(ClassInfoKey, ValueView)>,
    value: ValueView,
    back: Seq<(ClassInfoKey, ValueView)>,
)
    requires
        forall|i: int| 0 <= i < front.len() ==> (#[trigger] front[i]).0 != ClassInfoKey::Data,
    ensures
        state_bytes(front) is None,
        state_bytes(front + seq![(ClassInfoKey::Data, value)] + back) == match value {
            ValueView::Data(data) => Some(data),
            _ => None,
        },
    decreases front.len(),
{
    let all = front + seq![(ClassInfoKey::Data, value)] + back;
    if front.len() == 0 {
        assert(all[0] == (ClassInfoKey::Data, value));
    } else {
        let rest = front.drop_first();
        assert forall|i: int| 0 <= i < rest.len() implies (
        #[trigger] rest[i]).0 != ClassInfoKey::Data by {
            assert(rest[i] == front[i + 1]);
        }
        first_data_key_holds_the_state(rest, value, back);
        assert(all[0] == front[0]);
        assert(all.drop_first() =~= rest + seq![(ClassInfoKey::Data, value)] + back);
    }
}

} // verus!
