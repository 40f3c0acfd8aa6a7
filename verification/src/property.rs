//! The properties of a unit: what a host can read and write.
use vstd::prelude::*;
use vstd::utf8::{encode_utf8, is_char_boundary};

use crate::automation::{step_after, StateStep};
use crate::format::{at_most_zero, is_at_most_zero, AudioStreamBasicDescription, ONE_BITS};
use crate::host::{
    AUChannelInfo, AUMIDIOutputCallbackStruct, AURenderCallbackStruct, AudioUnitConnection,
    AudioUnitElement, AudioUnitPropertyID, AudioUnitScope, HostCallbackInfo, OSStatus,
    K_AUDIO_UNIT_ERR_CANNOT_DO_IN_CURRENT_CONTEXT, K_AUDIO_UNIT_ERR_INITIALIZED,
    K_AUDIO_UNIT_ERR_INVALID_PARAMETER, K_AUDIO_UNIT_ERR_INVALID_PROPERTY,
    K_AUDIO_UNIT_ERR_INVALID_PROPERTY_VALUE, K_AUDIO_UNIT_ERR_PROPERTY_NOT_WRITABLE,
    K_AUDIO_UNIT_SCOPE_GLOBAL, K_AUDIO_UNIT_SCOPE_INPUT, K_AUDIO_UNIT_SCOPE_OUTPUT, NO_ERR,
};
use crate::layout::channels_of;
use crate::listeners::{listens_to, PropertyListener};
use crate::param_info::{describes, is_cut, parameter_info, truncated_name, AudioUnitParameterInfo};
use crate::params::{ParamEntry, ParamPtr};
use crate::plugin::{Auv2Plugin, MidiConfig};
use crate::wrapper::{UnitState, Wrapper};

verus! {

pub const K_AUDIO_UNIT_PROPERTY_CLASS_INFO: AudioUnitPropertyID = 0;

pub const K_AUDIO_UNIT_PROPERTY_MAKE_CONNECTION: AudioUnitPropertyID = 1;

pub const K_AUDIO_UNIT_PROPERTY_SAMPLE_RATE: AudioUnitPropertyID = 2;

pub const K_AUDIO_UNIT_PROPERTY_PARAMETER_LIST: AudioUnitPropertyID = 3;

pub const K_AUDIO_UNIT_PROPERTY_PARAMETER_INFO: AudioUnitPropertyID = 4;

pub const K_AUDIO_UNIT_PROPERTY_STREAM_FORMAT: AudioUnitPropertyID = 8;

pub const K_AUDIO_UNIT_PROPERTY_ELEMENT_COUNT: AudioUnitPropertyID = 11;

pub const K_AUDIO_UNIT_PROPERTY_LATENCY: AudioUnitPropertyID = 12;

pub const K_AUDIO_UNIT_PROPERTY_SUPPORTED_NUM_CHANNELS: AudioUnitPropertyID = 13;

pub const K_AUDIO_UNIT_PROPERTY_MAXIMUM_FRAMES_PER_SLICE: AudioUnitPropertyID = 14;

pub const K_AUDIO_UNIT_PROPERTY_PARAMETER_VALUE_STRINGS: AudioUnitPropertyID = 16;

pub const K_AUDIO_UNIT_PROPERTY_TAIL_TIME: AudioUnitPropertyID = 20;

pub const K_AUDIO_UNIT_PROPERTY_BYPASS_EFFECT: AudioUnitPropertyID = 21;

pub const K_AUDIO_UNIT_PROPERTY_SET_RENDER_CALLBACK: AudioUnitPropertyID = 23;

pub const K_AUDIO_UNIT_PROPERTY_HOST_CALLBACKS: AudioUnitPropertyID = 27;

pub const K_AUDIO_UNIT_PROPERTY_CURRENT_PRESET: AudioUnitPropertyID = 28;

pub const K_AUDIO_UNIT_PROPERTY_IN_PLACE_PROCESSING: AudioUnitPropertyID = 29;

pub const K_AUDIO_UNIT_PROPERTY_COCOA_UI: AudioUnitPropertyID = 31;

pub const K_AUDIO_UNIT_PROPERTY_PARAMETER_STRING_FROM_VALUE: AudioUnitPropertyID = 33;

pub const K_AUDIO_UNIT_PROPERTY_PARAMETER_ID_NAME: AudioUnitPropertyID = 34;

pub const K_AUDIO_UNIT_PROPERTY_PRESENT_PRESET: AudioUnitPropertyID = 36;

pub const K_AUDIO_UNIT_PROPERTY_PARAMETER_VALUE_FROM_STRING: AudioUnitPropertyID = 38;

pub const K_AUDIO_UNIT_PROPERTY_MIDI_OUTPUT_CALLBACK_INFO: AudioUnitPropertyID = 47;

pub const K_AUDIO_UNIT_PROPERTY_MIDI_OUTPUT_CALLBACK: AudioUnitPropertyID = 48;

/// The name of the only preset.
pub const DEFAULT_PRESET_NAME: &'static str = "Default";

/// The name of the only MIDI output.
pub const MIDI_OUTPUT_NAME: &'static str = "MIDI Output";

/// The C types that the values of properties have.
#[derive(Clone, Copy, Debug, PartialEq, Eq, Structural)]
pub enum DataType {
    /// The address of an object: a dictionary or an array.
    Pointer,
    /// An `f64`.
    Double,
    UInt32,
    /// So many numbers of four bytes, or pairs of numbers of two bytes.
    Words(usize),
    ParameterInfo,
    StreamFormat,
    Connection,
    /// The address of a function, with the address that it gets back.
    Callback,
    HostCallbacks,
    CocoaViewInfo,
    Preset,
    StringFromValue,
    ValueFromString,
    IdName,
}

/// The bytes of an address.
pub open spec fn pointer_bytes() -> int {
    usize::BITS as int / 8
}

fn pointer_size() -> (size: u32)
    ensures
        size == pointer_bytes(),
        size == 4 || size == 8,
{
    usize::BITS / 8
}

impl DataType {
    /// The bytes of a value. Fields stand at multiples of their own size, and so does the end.
    pub open spec fn bytes(self) -> int {
        let p = pointer_bytes();
        match self {
            DataType::Pointer => p,
            DataType::Double => 8,
            DataType::UInt32 => 4,
            DataType::Words(count) => 4 * count % 0x1_0000_0000,
            DataType::ParameterInfo => if p == 8 {
                104
            } else {
                84
            },
            DataType::StreamFormat => 40,
            DataType::Connection => p + 8,
            DataType::Callback => 2 * p,
            DataType::HostCallbacks => 5 * p,
            DataType::CocoaViewInfo => 2 * p,
            DataType::Preset => 2 * p,
            DataType::StringFromValue => 3 * p,
            DataType::ValueFromString => 3 * p,
            DataType::IdName => p + 8,
        }
    }

    /// The bytes of a value.
    pub fn byte_size(self) -> (size: u32)
        ensures
            size == self.bytes(),
    {
        let p = pointer_size();
        match self {
            DataType::Pointer => p,
            DataType::Double => 8,
            DataType::UInt32 => 4,
            DataType::Words(count) => (count % 0x4000_0000) as u32 * 4,
            DataType::ParameterInfo => if p == 8 {
                104
            } else {
                84
            },
            DataType::StreamFormat => 40,
            DataType::Connection => p + 8,
            DataType::Callback => 2 * p,
            DataType::HostCallbacks => 5 * p,
            DataType::CocoaViewInfo => 2 * p,
            DataType::Preset => 2 * p,
            DataType::StringFromValue => 3 * p,
            DataType::ValueFromString => 3 * p,
            DataType::IdName => p + 8,
        }
    }
}

/// What a host is told about a property.
#[derive(Clone, Copy, Debug, PartialEq, Eq, Structural)]
pub struct PropertyInfo {
    pub size: u32,
    pub writable: bool,
}

/// What a host puts into the place for the value before it reads a property.
#[derive(Clone, Copy, Debug, PartialEq, Eq, Structural)]
pub struct PropertyQuery {
    /// The host gave no place for the value.
    pub out_data_is_null: bool,
    /// The host gave no place for the size.
    pub io_data_size_is_null: bool,
    /// The parameter whose value or text the host asks for.
    pub param_id: u32,
    /// How many bytes of a parameter's name the host asks for; all of them where it is negative.
    pub desired_length: i32,
}

/// The value of a property, or what is needed to make it.
pub enum PropertyValue {
    /// The dictionary of the plugin's state.
    ClassInfo,
    /// The bits of an `f64`.
    Double(u64),
    UInt32(u32),
    ParameterList(Vec<u32>),
    ParameterInfo(AudioUnitParameterInfo),
    StreamFormat(AudioStreamBasicDescription),
    /// The number of samples, divided by the sample rate, or by one where the rate is less.
    Latency { samples: u32, sample_rate: u64 },
    ChannelInfos(Vec<AUChannelInfo>),
    /// The texts of the values of a parameter, from step zero to step `step_count`.
    ValueStrings { param: ParamPtr, step_count: usize },
    Connection(AudioUnitConnection),
    RenderCallback(AURenderCallbackStruct),
    /// The bundle and the class of the editor's view.
    CocoaView,
    Preset { number: i32, name: &'static str },
    /// The text of a parameter's value, with the unit where `with_unit` says so.
    StringFromValue { param: ParamPtr, with_unit: bool },
    /// The parameter's value for a text.
    ValueFromString { param: ParamPtr },
    Name(String),
    /// The names of the MIDI outputs: one.
    MidiOutputNames(&'static str),
    MidiOutputCallback(AUMIDIOutputCallbackStruct),
}

/// A property's value with its size in bytes.
pub struct PropertyAnswer {
    pub value: PropertyValue,
    pub size: u32,
}

/// What a host gives to be written to a property.
#[derive(Clone, Copy, Debug, PartialEq, Eq, Structural)]
pub enum PropertyInput {
    /// A null pointer.
    Null,
    /// Something that does not have the size of the property's value.
    Unread,
    /// The address of an object.
    Pointer(usize),
    /// The bits of an `f64`.
    Double(u64),
    UInt32(u32),
    StreamFormat(AudioStreamBasicDescription),
    Connection(AudioUnitConnection),
    RenderCallback(AURenderCallbackStruct),
    HostCallbacks(HostCallbackInfo),
    MidiOutputCallback(AUMIDIOutputCallbackStruct),
    /// Any preset.
    Preset,
}

/// What writing a property leads to.
pub enum SetAction {
    /// The call ends with a status.
    Return(OSStatus),
    /// The call succeeds, and these listeners are called.
    NotifyListeners(Vec<PropertyListener>),
    /// The plugin takes its state from the dictionary at an address.
    RestoreState { dictionary: usize },
    /// The parameter takes the normalized value with these bits.
    ApplyParameter { param: ParamPtr, hash: u32, normalized_value: u32 },
    /// All parameters go back to their default values, and the call succeeds.
    RestoreDefaults,
}

pub open spec fn is_whole_unit(scope: AudioUnitScope, element: AudioUnitElement) -> bool {
    scope == K_AUDIO_UNIT_SCOPE_GLOBAL && element == 0
}

/// Whether a host may write a property, by what it is told about it.
pub open spec fn is_writable(id: AudioUnitPropertyID) -> bool {
    !(id == K_AUDIO_UNIT_PROPERTY_PARAMETER_LIST || id == K_AUDIO_UNIT_PROPERTY_PARAMETER_INFO || id
        == K_AUDIO_UNIT_PROPERTY_ELEMENT_COUNT || id == K_AUDIO_UNIT_PROPERTY_LATENCY || id
        == K_AUDIO_UNIT_PROPERTY_SUPPORTED_NUM_CHANNELS || id
        == K_AUDIO_UNIT_PROPERTY_PARAMETER_VALUE_STRINGS || id == K_AUDIO_UNIT_PROPERTY_TAIL_TIME
        || id == K_AUDIO_UNIT_PROPERTY_COCOA_UI || id
        == K_AUDIO_UNIT_PROPERTY_MIDI_OUTPUT_CALLBACK_INFO || id
        == K_AUDIO_UNIT_PROPERTY_PARAMETER_STRING_FROM_VALUE || id
        == K_AUDIO_UNIT_PROPERTY_PARAMETER_VALUE_FROM_STRING || id
        == K_AUDIO_UNIT_PROPERTY_PARAMETER_ID_NAME || id == K_AUDIO_UNIT_PROPERTY_CURRENT_PRESET
        || id == K_AUDIO_UNIT_PROPERTY_PRESENT_PRESET)
}

fn property_is_writable(id: AudioUnitPropertyID) -> (writable: bool)
    ensures
        writable == is_writable(id),
{
    match id {
        K_AUDIO_UNIT_PROPERTY_PARAMETER_LIST
        | K_AUDIO_UNIT_PROPERTY_PARAMETER_INFO
        | K_AUDIO_UNIT_PROPERTY_ELEMENT_COUNT
        | K_AUDIO_UNIT_PROPERTY_LATENCY
        | K_AUDIO_UNIT_PROPERTY_SUPPORTED_NUM_CHANNELS
        | K_AUDIO_UNIT_PROPERTY_PARAMETER_VALUE_STRINGS
        | K_AUDIO_UNIT_PROPERTY_TAIL_TIME
        | K_AUDIO_UNIT_PROPERTY_COCOA_UI
        | K_AUDIO_UNIT_PROPERTY_MIDI_OUTPUT_CALLBACK_INFO
        | K_AUDIO_UNIT_PROPERTY_PARAMETER_STRING_FROM_VALUE
        | K_AUDIO_UNIT_PROPERTY_PARAMETER_VALUE_FROM_STRING
        | K_AUDIO_UNIT_PROPERTY_PARAMETER_ID_NAME
        | K_AUDIO_UNIT_PROPERTY_CURRENT_PRESET
        | K_AUDIO_UNIT_PROPERTY_PRESENT_PRESET => false,
        _ => true,
    }
}

/// The properties that writing knows: those that are writable by what a host is told about them,
/// and the presets.
pub open spec fn is_settable(id: AudioUnitPropertyID) -> bool {
    ||| id == K_AUDIO_UNIT_PROPERTY_CLASS_INFO
    ||| id == K_AUDIO_UNIT_PROPERTY_SAMPLE_RATE
    ||| id == K_AUDIO_UNIT_PROPERTY_STREAM_FORMAT
    ||| id == K_AUDIO_UNIT_PROPERTY_MAXIMUM_FRAMES_PER_SLICE
    ||| id == K_AUDIO_UNIT_PROPERTY_BYPASS_EFFECT
    ||| id == K_AUDIO_UNIT_PROPERTY_SET_RENDER_CALLBACK
    ||| id == K_AUDIO_UNIT_PROPERTY_MAKE_CONNECTION
    ||| id == K_AUDIO_UNIT_PROPERTY_HOST_CALLBACKS
    ||| id == K_AUDIO_UNIT_PROPERTY_IN_PLACE_PROCESSING
    ||| id == K_AUDIO_UNIT_PROPERTY_MIDI_OUTPUT_CALLBACK
    ||| id == K_AUDIO_UNIT_PROPERTY_PRESENT_PRESET
    ||| id == K_AUDIO_UNIT_PROPERTY_CURRENT_PRESET
}

fn property_is_settable(id: AudioUnitPropertyID) -> (settable: bool)
    ensures
        settable == is_settable(id),
{
    match id {
        K_AUDIO_UNIT_PROPERTY_CLASS_INFO
        | K_AUDIO_UNIT_PROPERTY_SAMPLE_RATE
        | K_AUDIO_UNIT_PROPERTY_STREAM_FORMAT
        | K_AUDIO_UNIT_PROPERTY_MAXIMUM_FRAMES_PER_SLICE
        | K_AUDIO_UNIT_PROPERTY_BYPASS_EFFECT
        | K_AUDIO_UNIT_PROPERTY_SET_RENDER_CALLBACK
        | K_AUDIO_UNIT_PROPERTY_MAKE_CONNECTION
        | K_AUDIO_UNIT_PROPERTY_HOST_CALLBACKS
        | K_AUDIO_UNIT_PROPERTY_IN_PLACE_PROCESSING
        | K_AUDIO_UNIT_PROPERTY_MIDI_OUTPUT_CALLBACK
        | K_AUDIO_UNIT_PROPERTY_PRESENT_PRESET
        | K_AUDIO_UNIT_PROPERTY_CURRENT_PRESET => true,
        _ => false,
    }
}

/// Whether a property is about a parameter, so that an error about it is one about the parameter.
pub open spec fn is_about_parameter(id: AudioUnitPropertyID) -> bool {
    ||| id == K_AUDIO_UNIT_PROPERTY_PARAMETER_INFO
    ||| id == K_AUDIO_UNIT_PROPERTY_PARAMETER_VALUE_STRINGS
    ||| id == K_AUDIO_UNIT_PROPERTY_PARAMETER_STRING_FROM_VALUE
    ||| id == K_AUDIO_UNIT_PROPERTY_PARAMETER_VALUE_FROM_STRING
    ||| id == K_AUDIO_UNIT_PROPERTY_PARAMETER_ID_NAME
}

impl<P: Auv2Plugin> Wrapper<P> {
    /// The type of a property's value.
    pub open spec fn type_of(self, id: AudioUnitPropertyID) -> DataType {
        if id == K_AUDIO_UNIT_PROPERTY_CLASS_INFO || id
            == K_AUDIO_UNIT_PROPERTY_PARAMETER_VALUE_STRINGS || id
            == K_AUDIO_UNIT_PROPERTY_MIDI_OUTPUT_CALLBACK_INFO {
            DataType::Pointer
        } else if id == K_AUDIO_UNIT_PROPERTY_SAMPLE_RATE || id == K_AUDIO_UNIT_PROPERTY_LATENCY
            || id == K_AUDIO_UNIT_PROPERTY_TAIL_TIME {
            DataType::Double
        } else if id == K_AUDIO_UNIT_PROPERTY_PARAMETER_LIST {
            DataType::Words(self.params.entries@.len() as usize)
        } else if id == K_AUDIO_UNIT_PROPERTY_SUPPORTED_NUM_CHANNELS {
            DataType::Words(self.supported_channel_infos@.len() as usize)
        } else if id == K_AUDIO_UNIT_PROPERTY_PARAMETER_INFO {
            DataType::ParameterInfo
        } else if id == K_AUDIO_UNIT_PROPERTY_STREAM_FORMAT {
            DataType::StreamFormat
        } else if id == K_AUDIO_UNIT_PROPERTY_MAKE_CONNECTION {
            DataType::Connection
        } else if id == K_AUDIO_UNIT_PROPERTY_SET_RENDER_CALLBACK || id
            == K_AUDIO_UNIT_PROPERTY_MIDI_OUTPUT_CALLBACK {
            DataType::Callback
        } else if id == K_AUDIO_UNIT_PROPERTY_HOST_CALLBACKS {
            DataType::HostCallbacks
        } else if id == K_AUDIO_UNIT_PROPERTY_COCOA_UI {
            DataType::CocoaViewInfo
        } else if id == K_AUDIO_UNIT_PROPERTY_CURRENT_PRESET || id
            == K_AUDIO_UNIT_PROPERTY_PRESENT_PRESET {
            DataType::Preset
        } else if id == K_AUDIO_UNIT_PROPERTY_PARAMETER_STRING_FROM_VALUE {
            DataType::StringFromValue
        } else if id == K_AUDIO_UNIT_PROPERTY_PARAMETER_VALUE_FROM_STRING {
            DataType::ValueFromString
        } else if id == K_AUDIO_UNIT_PROPERTY_PARAMETER_ID_NAME {
            DataType::IdName
        } else {
            DataType::UInt32
        }
    }

    /// The type of a property's value.
    pub fn property_type(&self, id: AudioUnitPropertyID) -> (data_type: DataType)
        ensures
            data_type == self.type_of(id),
    {
        match id {
            K_AUDIO_UNIT_PROPERTY_CLASS_INFO
            | K_AUDIO_UNIT_PROPERTY_PARAMETER_VALUE_STRINGS
            | K_AUDIO_UNIT_PROPERTY_MIDI_OUTPUT_CALLBACK_INFO => DataType::Pointer,
            K_AUDIO_UNIT_PROPERTY_SAMPLE_RATE
            | K_AUDIO_UNIT_PROPERTY_LATENCY
            | K_AUDIO_UNIT_PROPERTY_TAIL_TIME => DataType::Double,
            K_AUDIO_UNIT_PROPERTY_PARAMETER_LIST => DataType::Words(self.params.entries.len()),
            K_AUDIO_UNIT_PROPERTY_SUPPORTED_NUM_CHANNELS => DataType::Words(
                self.supported_channel_infos.len(),
            ),
            K_AUDIO_UNIT_PROPERTY_PARAMETER_INFO => DataType::ParameterInfo,
            K_AUDIO_UNIT_PROPERTY_STREAM_FORMAT => DataType::StreamFormat,
            K_AUDIO_UNIT_PROPERTY_MAKE_CONNECTION => DataType::Connection,
            K_AUDIO_UNIT_PROPERTY_SET_RENDER_CALLBACK
            | K_AUDIO_UNIT_PROPERTY_MIDI_OUTPUT_CALLBACK => DataType::Callback,
            K_AUDIO_UNIT_PROPERTY_HOST_CALLBACKS => DataType::HostCallbacks,
            K_AUDIO_UNIT_PROPERTY_COCOA_UI => DataType::CocoaViewInfo,
            K_AUDIO_UNIT_PROPERTY_CURRENT_PRESET
            | K_AUDIO_UNIT_PROPERTY_PRESENT_PRESET => DataType::Preset,
            K_AUDIO_UNIT_PROPERTY_PARAMETER_STRING_FROM_VALUE => DataType::StringFromValue,
            K_AUDIO_UNIT_PROPERTY_PARAMETER_VALUE_FROM_STRING => DataType::ValueFromString,
            K_AUDIO_UNIT_PROPERTY_PARAMETER_ID_NAME => DataType::IdName,
            _ => DataType::UInt32,
        }
    }

    /// Whether the unit has a property in a scope and for an element. Some properties are those of
    /// the whole unit, some those of a bus, and some those of a parameter.
    pub open spec fn has_property(
        self,
        id: AudioUnitPropertyID,
        scope: AudioUnitScope,
        element: AudioUnitElement,
    ) -> bool {
        let of_bus = channels_of(self.layout(), scope, element) is Some;
        let of_parameter = scope == K_AUDIO_UNIT_SCOPE_GLOBAL && self.params.knows(element);
        if id == K_AUDIO_UNIT_PROPERTY_CLASS_INFO || id == K_AUDIO_UNIT_PROPERTY_LATENCY || id
            == K_AUDIO_UNIT_PROPERTY_SUPPORTED_NUM_CHANNELS || id
            == K_AUDIO_UNIT_PROPERTY_MAXIMUM_FRAMES_PER_SLICE || id
            == K_AUDIO_UNIT_PROPERTY_TAIL_TIME || id == K_AUDIO_UNIT_PROPERTY_BYPASS_EFFECT || id
            == K_AUDIO_UNIT_PROPERTY_HOST_CALLBACKS || id
            == K_AUDIO_UNIT_PROPERTY_IN_PLACE_PROCESSING || id
            == K_AUDIO_UNIT_PROPERTY_CURRENT_PRESET || id == K_AUDIO_UNIT_PROPERTY_PRESENT_PRESET {
            is_whole_unit(scope, element)
        } else if id == K_AUDIO_UNIT_PROPERTY_SAMPLE_RATE || id
            == K_AUDIO_UNIT_PROPERTY_STREAM_FORMAT {
            of_bus
        } else if id == K_AUDIO_UNIT_PROPERTY_MAKE_CONNECTION || id
            == K_AUDIO_UNIT_PROPERTY_SET_RENDER_CALLBACK {
            scope == K_AUDIO_UNIT_SCOPE_INPUT && of_bus
        } else if id == K_AUDIO_UNIT_PROPERTY_PARAMETER_LIST || id
            == K_AUDIO_UNIT_PROPERTY_PARAMETER_STRING_FROM_VALUE || id
            == K_AUDIO_UNIT_PROPERTY_PARAMETER_VALUE_FROM_STRING {
            scope == K_AUDIO_UNIT_SCOPE_GLOBAL
        } else if id == K_AUDIO_UNIT_PROPERTY_PARAMETER_INFO || id
            == K_AUDIO_UNIT_PROPERTY_PARAMETER_ID_NAME {
            of_parameter
        } else if id == K_AUDIO_UNIT_PROPERTY_PARAMETER_VALUE_STRINGS {
            of_parameter && self.params.meant(element).step_count is Some
        } else if id == K_AUDIO_UNIT_PROPERTY_ELEMENT_COUNT {
            scope == K_AUDIO_UNIT_SCOPE_GLOBAL || scope == K_AUDIO_UNIT_SCOPE_INPUT || scope
                == K_AUDIO_UNIT_SCOPE_OUTPUT
        } else if id == K_AUDIO_UNIT_PROPERTY_COCOA_UI {
            is_whole_unit(scope, element) && self.state.has_editor
        } else if id == K_AUDIO_UNIT_PROPERTY_MIDI_OUTPUT_CALLBACK_INFO || id
            == K_AUDIO_UNIT_PROPERTY_MIDI_OUTPUT_CALLBACK {
            is_whole_unit(scope, element) && P::MIDI_OUTPUT != MidiConfig::Disabled
        } else {
            false
        }
    }

    fn property_exists(
        &self,
        id: AudioUnitPropertyID,
        scope: AudioUnitScope,
        element: AudioUnitElement,
    ) -> (exists_here: bool)
        requires
            self.wf(),
        ensures
            exists_here == self.has_property(id, scope, element),
    {
        let whole_unit = scope == K_AUDIO_UNIT_SCOPE_GLOBAL && element == 0;
        match id {
            K_AUDIO_UNIT_PROPERTY_CLASS_INFO
            | K_AUDIO_UNIT_PROPERTY_LATENCY
            | K_AUDIO_UNIT_PROPERTY_SUPPORTED_NUM_CHANNELS
            | K_AUDIO_UNIT_PROPERTY_MAXIMUM_FRAMES_PER_SLICE
            | K_AUDIO_UNIT_PROPERTY_TAIL_TIME
            | K_AUDIO_UNIT_PROPERTY_BYPASS_EFFECT
            | K_AUDIO_UNIT_PROPERTY_HOST_CALLBACKS
            | K_AUDIO_UNIT_PROPERTY_IN_PLACE_PROCESSING
            | K_AUDIO_UNIT_PROPERTY_CURRENT_PRESET
            | K_AUDIO_UNIT_PROPERTY_PRESENT_PRESET => whole_unit,
            K_AUDIO_UNIT_PROPERTY_SAMPLE_RATE
            | K_AUDIO_UNIT_PROPERTY_STREAM_FORMAT => self.bus_channels(scope, element).is_some(),
            K_AUDIO_UNIT_PROPERTY_MAKE_CONNECTION
            | K_AUDIO_UNIT_PROPERTY_SET_RENDER_CALLBACK => {
                scope == K_AUDIO_UNIT_SCOPE_INPUT && self.bus_channels(scope, element).is_some()
            },
            K_AUDIO_UNIT_PROPERTY_PARAMETER_LIST
            | K_AUDIO_UNIT_PROPERTY_PARAMETER_STRING_FROM_VALUE
            | K_AUDIO_UNIT_PROPERTY_PARAMETER_VALUE_FROM_STRING => {
                scope == K_AUDIO_UNIT_SCOPE_GLOBAL
            },
            K_AUDIO_UNIT_PROPERTY_PARAMETER_INFO
            | K_AUDIO_UNIT_PROPERTY_PARAMETER_ID_NAME => {
                scope == K_AUDIO_UNIT_SCOPE_GLOBAL && self.params.find(element).is_some()
            },
            K_AUDIO_UNIT_PROPERTY_PARAMETER_VALUE_STRINGS => {
                if scope != K_AUDIO_UNIT_SCOPE_GLOBAL {
                    return false;
                }
                match self.params.find(element) {
                    Some(i) => self.params.entries[i].step_count.is_some(),
                    None => false,
                }
            },
            K_AUDIO_UNIT_PROPERTY_ELEMENT_COUNT => {
                scope == K_AUDIO_UNIT_SCOPE_GLOBAL || scope == K_AUDIO_UNIT_SCOPE_INPUT || scope
                    == K_AUDIO_UNIT_SCOPE_OUTPUT
            },
            K_AUDIO_UNIT_PROPERTY_COCOA_UI => whole_unit && self.state.has_editor,
            K_AUDIO_UNIT_PROPERTY_MIDI_OUTPUT_CALLBACK_INFO
            | K_AUDIO_UNIT_PROPERTY_MIDI_OUTPUT_CALLBACK => {
                whole_unit && P::MIDI_OUTPUT != MidiConfig::Disabled
            },
            _ => false,
        }
    }

    /// What a host is told about a property, or why there is nothing to tell.
    pub open spec fn info_of(
        self,
        id: AudioUnitPropertyID,
        scope: AudioUnitScope,
        element: AudioUnitElement,
    ) -> Result<PropertyInfo, OSStatus> {
        if self.has_property(id, scope, element) {
            Ok(
                PropertyInfo {
                    size: self.type_of(id).bytes() as u32,
                    writable: is_writable(id),
                },
            )
        } else if is_about_parameter(id) {
            Err(K_AUDIO_UNIT_ERR_INVALID_PARAMETER)
        } else {
            Err(K_AUDIO_UNIT_ERR_INVALID_PROPERTY)
        }
    }

    /// What a host is told about a property.
    pub fn get_property_info(
        &self,
        id: AudioUnitPropertyID,
        scope: AudioUnitScope,
        element: AudioUnitElement,
    ) -> (info: Result<PropertyInfo, OSStatus>)
        requires
            self.wf(),
        ensures
            info == self.info_of(id, scope, element),
    {
        if self.property_exists(id, scope, element) {
            return Ok(
                PropertyInfo {
                    size: self.property_type(id).byte_size(),
                    writable: property_is_writable(id),
                },
            );
        }
        match id {
            K_AUDIO_UNIT_PROPERTY_PARAMETER_INFO
            | K_AUDIO_UNIT_PROPERTY_PARAMETER_VALUE_STRINGS
            | K_AUDIO_UNIT_PROPERTY_PARAMETER_STRING_FROM_VALUE
            | K_AUDIO_UNIT_PROPERTY_PARAMETER_VALUE_FROM_STRING
            | K_AUDIO_UNIT_PROPERTY_PARAMETER_ID_NAME => Err(K_AUDIO_UNIT_ERR_INVALID_PARAMETER),
            _ => Err(K_AUDIO_UNIT_ERR_INVALID_PROPERTY),
        }
    }

    /// Why a property cannot be read, where it cannot. The host's callbacks can be written only.
    pub open spec fn read_refusal(
        self,
        id: AudioUnitPropertyID,
        scope: AudioUnitScope,
        element: AudioUnitElement,
        query: PropertyQuery,
    ) -> Option<OSStatus> {
        if query.out_data_is_null {
            Some(K_AUDIO_UNIT_ERR_INVALID_PROPERTY_VALUE)
        } else if is_about_parameter(id) && scope == K_AUDIO_UNIT_SCOPE_GLOBAL {
            if id == K_AUDIO_UNIT_PROPERTY_PARAMETER_STRING_FROM_VALUE || id
                == K_AUDIO_UNIT_PROPERTY_PARAMETER_VALUE_FROM_STRING {
                if query.io_data_size_is_null {
                    Some(K_AUDIO_UNIT_ERR_INVALID_PROPERTY_VALUE)
                } else if !self.params.knows(query.param_id) {
                    Some(K_AUDIO_UNIT_ERR_INVALID_PARAMETER)
                } else {
                    None
                }
            } else if !self.has_property(id, scope, element) {
                Some(K_AUDIO_UNIT_ERR_INVALID_PARAMETER)
            } else {
                None
            }
        } else if !self.has_property(id, scope, element) || id
            == K_AUDIO_UNIT_PROPERTY_HOST_CALLBACKS {
            Some(K_AUDIO_UNIT_ERR_INVALID_PROPERTY)
        } else {
            None
        }
    }

    /// How a cut name ends: not within a character.
    pub open spec fn cuts_at_character(entry: ParamEntry, desired_length: i32) -> bool {
        is_cut(encode_utf8(entry.name@).len() as usize, desired_length) ==> is_char_boundary(
            encode_utf8(entry.name@),
            desired_length as int,
        )
    }

    /// The value of a property that the unit has.
    pub open spec fn is_value(
        self,
        value: PropertyValue,
        id: AudioUnitPropertyID,
        scope: AudioUnitScope,
        element: AudioUnitElement,
        query: PropertyQuery,
        bypass_value: u32,
    ) -> bool {
        if id == K_AUDIO_UNIT_PROPERTY_CLASS_INFO {
            value is ClassInfo
        } else if id == K_AUDIO_UNIT_PROPERTY_SAMPLE_RATE {
            value == PropertyValue::Double(self.state.sample_rate)
        } else if id == K_AUDIO_UNIT_PROPERTY_PARAMETER_LIST {
            value matches PropertyValue::ParameterList(hashes) && hashes@
                == self.params.entries@.map_values(|entry: ParamEntry| entry.hash)
        } else if id == K_AUDIO_UNIT_PROPERTY_PARAMETER_INFO {
            value matches PropertyValue::ParameterInfo(info) && describes(
                info,
                self.params.meant(element),
            )
        } else if id == K_AUDIO_UNIT_PROPERTY_STREAM_FORMAT {
            value matches PropertyValue::StreamFormat(format) && self.format_of(scope, element)
                == Ok::<AudioStreamBasicDescription, OSStatus>(format)
        } else if id == K_AUDIO_UNIT_PROPERTY_ELEMENT_COUNT {
            value matches PropertyValue::UInt32(count) && count == if scope
                == K_AUDIO_UNIT_SCOPE_GLOBAL {
                1
            } else {
                self.layout().buses(scope).len()
            }
        } else if id == K_AUDIO_UNIT_PROPERTY_LATENCY {
            value == PropertyValue::Latency {
                samples: self.state.current_latency,
                sample_rate: self.state.sample_rate,
            }
        } else if id == K_AUDIO_UNIT_PROPERTY_SUPPORTED_NUM_CHANNELS {
            value matches PropertyValue::ChannelInfos(infos) && infos@
                == self.supported_channel_infos@
        } else if id == K_AUDIO_UNIT_PROPERTY_MAXIMUM_FRAMES_PER_SLICE {
            value == PropertyValue::UInt32(self.state.maximum_frames_per_slice)
        } else if id == K_AUDIO_UNIT_PROPERTY_PARAMETER_VALUE_STRINGS {
            value == PropertyValue::ValueStrings {
                param: self.params.meant(element).ptr,
                step_count: self.params.meant(element).step_count->Some_0,
            }
        } else if id == K_AUDIO_UNIT_PROPERTY_TAIL_TIME {
            value == PropertyValue::Double(0)
        } else if id == K_AUDIO_UNIT_PROPERTY_BYPASS_EFFECT {
            value == PropertyValue::UInt32(
                if self.bypassed(bypass_value) {
                    1
                } else {
                    0
                },
            )
        } else if id == K_AUDIO_UNIT_PROPERTY_MAKE_CONNECTION {
            value == PropertyValue::Connection(
                match self.input_connections@[element as int] {
                    Some(connection) => connection,
                    None => AudioUnitConnection {
                        sourceAudioUnit: 0,
                        sourceOutputNumber: 0,
                        destInputNumber: element,
                    },
                },
            )
        } else if id == K_AUDIO_UNIT_PROPERTY_SET_RENDER_CALLBACK {
            value == PropertyValue::RenderCallback(
                match self.input_callbacks@[element as int] {
                    Some(callback) => callback,
                    None => AURenderCallbackStruct { inputProc: None, inputProcRefCon: 0 },
                },
            )
        } else if id == K_AUDIO_UNIT_PROPERTY_IN_PLACE_PROCESSING {
            value == PropertyValue::UInt32(
                if self.state.in_place_processing {
                    1
                } else {
                    0
                },
            )
        } else if id == K_AUDIO_UNIT_PROPERTY_COCOA_UI {
            value is CocoaView
        } else if id == K_AUDIO_UNIT_PROPERTY_CURRENT_PRESET || id
            == K_AUDIO_UNIT_PROPERTY_PRESENT_PRESET {
            value == PropertyValue::Preset { number: 0, name: DEFAULT_PRESET_NAME }
        } else if id == K_AUDIO_UNIT_PROPERTY_PARAMETER_STRING_FROM_VALUE {
            value == PropertyValue::StringFromValue {
                param: self.params.meant(query.param_id).ptr,
                with_unit: self.params.meant(query.param_id).step_count is None,
            }
        } else if id == K_AUDIO_UNIT_PROPERTY_PARAMETER_VALUE_FROM_STRING {
            value == PropertyValue::ValueFromString {
                param: self.params.meant(query.param_id).ptr,
            }
        } else if id == K_AUDIO_UNIT_PROPERTY_PARAMETER_ID_NAME {
            let name = encode_utf8(self.params.meant(element).name@);
            value matches PropertyValue::Name(text) && encode_utf8(text@) == if is_cut(
                name.len() as usize,
                query.desired_length,
            ) {
                name.subrange(0, query.desired_length as int)
            } else {
                name
            }
        } else if id == K_AUDIO_UNIT_PROPERTY_MIDI_OUTPUT_CALLBACK_INFO {
            value == PropertyValue::MidiOutputNames(MIDI_OUTPUT_NAME)
        } else if id == K_AUDIO_UNIT_PROPERTY_MIDI_OUTPUT_CALLBACK {
            value == PropertyValue::MidiOutputCallback(
                match self.state.midi_output_callback {
                    Some(callback) => callback,
                    None => AUMIDIOutputCallbackStruct { midiOutputCallback: None, userData: 0 },
                },
            )
        } else {
            false
        }
    }

    fn parameter_value(
        &self,
        id: AudioUnitPropertyID,
        element: AudioUnitElement,
        query: PropertyQuery,
        bypass_value: u32,
    ) -> (value: Result<PropertyValue, OSStatus>)
        requires
            self.wf(),
            is_about_parameter(id),
            !query.out_data_is_null,
            id == K_AUDIO_UNIT_PROPERTY_PARAMETER_ID_NAME && self.params.knows(element)
                ==> Self::cuts_at_character(self.params.meant(element), query.desired_length),
        ensures
            match self.read_refusal(id, K_AUDIO_UNIT_SCOPE_GLOBAL, element, query) {
                Some(status) => value is Err && value->Err_0 == status,
                None => value is Ok && self.is_value(
                    value->Ok_0,
                    id,
                    K_AUDIO_UNIT_SCOPE_GLOBAL,
                    element,
                    query,
                    bypass_value,
                ),
            },
    {
        if id == K_AUDIO_UNIT_PROPERTY_PARAMETER_STRING_FROM_VALUE || id
            == K_AUDIO_UNIT_PROPERTY_PARAMETER_VALUE_FROM_STRING {
            if query.io_data_size_is_null {
                return Err(K_AUDIO_UNIT_ERR_INVALID_PROPERTY_VALUE);
            }
            return match self.params.find(query.param_id) {
                Some(i) => {
                    let param = self.params.entries[i].ptr;
                    if id == K_AUDIO_UNIT_PROPERTY_PARAMETER_STRING_FROM_VALUE {
                        let with_unit = self.params.entries[i].step_count.is_none();
                        Ok(PropertyValue::StringFromValue { param, with_unit })
                    } else {
                        Ok(PropertyValue::ValueFromString { param })
                    }
                },
                None => Err(K_AUDIO_UNIT_ERR_INVALID_PARAMETER),
            };
        }
        match self.params.find(element) {
            Some(i) => {
                let entry = &self.params.entries[i];
                match id {
                    K_AUDIO_UNIT_PROPERTY_PARAMETER_INFO => Ok(
                        PropertyValue::ParameterInfo(parameter_info(entry)),
                    ),
                    K_AUDIO_UNIT_PROPERTY_PARAMETER_ID_NAME => Ok(
                        PropertyValue::Name(
                            truncated_name(entry.name.as_str(), query.desired_length),
                        ),
                    ),
                    _ => match entry.step_count {
                        Some(step_count) => Ok(
                            PropertyValue::ValueStrings { param: entry.ptr, step_count },
                        ),
                        None => Err(K_AUDIO_UNIT_ERR_INVALID_PARAMETER),
                    },
                }
            },
            None => Err(K_AUDIO_UNIT_ERR_INVALID_PARAMETER),
        }
    }

    /// The value of a property, with its size. `bypass_value` is the bits of the bypass
    /// parameter's value, where there is such a parameter.
    pub fn get_property(
        &self,
        id: AudioUnitPropertyID,
        scope: AudioUnitScope,
        element: AudioUnitElement,
        query: PropertyQuery,
        bypass_value: u32,
    ) -> (answer: Result<PropertyAnswer, OSStatus>)
        requires
            self.wf(),
            id == K_AUDIO_UNIT_PROPERTY_PARAMETER_ID_NAME && self.read_refusal(
                id,
                scope,
                element,
                query,
            ) is None ==> Self::cuts_at_character(
                self.params.meant(element),
                query.desired_length,
            ),
        ensures
            match self.read_refusal(id, scope, element, query) {
                Some(status) => answer is Err && answer->Err_0 == status,
                None => {
                    &&& answer is Ok
                    &&& self.is_value(answer->Ok_0.value, id, scope, element, query, bypass_value)
                    &&& answer->Ok_0.size == self.type_of(id).bytes()
                },
            },
    {
        if query.out_data_is_null {
            return Err(K_AUDIO_UNIT_ERR_INVALID_PROPERTY_VALUE);
        }
        let size = self.property_type(id).byte_size();
        let about_parameter = id == K_AUDIO_UNIT_PROPERTY_PARAMETER_INFO || id
            == K_AUDIO_UNIT_PROPERTY_PARAMETER_VALUE_STRINGS || id
            == K_AUDIO_UNIT_PROPERTY_PARAMETER_STRING_FROM_VALUE || id
            == K_AUDIO_UNIT_PROPERTY_PARAMETER_VALUE_FROM_STRING || id
            == K_AUDIO_UNIT_PROPERTY_PARAMETER_ID_NAME;
        if about_parameter && scope == K_AUDIO_UNIT_SCOPE_GLOBAL {
            return match self.parameter_value(id, element, query, bypass_value) {
                Ok(value) => Ok(PropertyAnswer { value, size }),
                Err(status) => Err(status),
            };
        }
        if !self.property_exists(id, scope, element) || id == K_AUDIO_UNIT_PROPERTY_HOST_CALLBACKS {
            return Err(K_AUDIO_UNIT_ERR_INVALID_PROPERTY);
        }
        proof {
            self.layout_in_use_is_served();
        }
        let value = match id {
            K_AUDIO_UNIT_PROPERTY_CLASS_INFO => PropertyValue::ClassInfo,
            K_AUDIO_UNIT_PROPERTY_SAMPLE_RATE => PropertyValue::Double(self.state.sample_rate),
            K_AUDIO_UNIT_PROPERTY_PARAMETER_LIST => PropertyValue::ParameterList(
                self.params.param_hashes(),
            ),
            K_AUDIO_UNIT_PROPERTY_STREAM_FORMAT => {
                match self.current_stream_format(scope, element) {
                    Ok(format) => PropertyValue::StreamFormat(format),
                    Err(status) => {
                        return Err(status);
                    },
                }
            },
            K_AUDIO_UNIT_PROPERTY_ELEMENT_COUNT => {
                if scope == K_AUDIO_UNIT_SCOPE_GLOBAL {
                    PropertyValue::UInt32(1)
                } else {
                    PropertyValue::UInt32(self.bus_count(scope))
                }
            },
            K_AUDIO_UNIT_PROPERTY_LATENCY => PropertyValue::Latency {
                samples: self.state.current_latency,
                sample_rate: self.state.sample_rate,
            },
            K_AUDIO_UNIT_PROPERTY_SUPPORTED_NUM_CHANNELS => {
                let mut infos: Vec<AUChannelInfo> = Vec::new();
                let mut i: usize = 0;
                while i < self.supported_channel_infos.len()
                    invariant
                        i <= self.supported_channel_infos@.len(),
                        infos@ == self.supported_channel_infos@.take(i as int),
                    decreases self.supported_channel_infos@.len() - i,
                {
                    infos.push(self.supported_channel_infos[i]);
                    i += 1;
                }
                assert(infos@ =~= self.supported_channel_infos@);
                PropertyValue::ChannelInfos(infos)
            },
            K_AUDIO_UNIT_PROPERTY_MAXIMUM_FRAMES_PER_SLICE => PropertyValue::UInt32(
                self.state.maximum_frames_per_slice,
            ),
            K_AUDIO_UNIT_PROPERTY_TAIL_TIME => PropertyValue::Double(0),
            K_AUDIO_UNIT_PROPERTY_BYPASS_EFFECT => {
                if self.is_bypassed(bypass_value) {
                    PropertyValue::UInt32(1)
                } else {
                    PropertyValue::UInt32(0)
                }
            },
            K_AUDIO_UNIT_PROPERTY_MAKE_CONNECTION => {
                match self.input_connections[element as usize] {
                    Some(connection) => PropertyValue::Connection(connection),
                    None => PropertyValue::Connection(
                        AudioUnitConnection {
                            sourceAudioUnit: 0,
                            sourceOutputNumber: 0,
                            destInputNumber: element,
                        },
                    ),
                }
            },
            K_AUDIO_UNIT_PROPERTY_SET_RENDER_CALLBACK => {
                match self.input_callbacks[element as usize] {
                    Some(callback) => PropertyValue::RenderCallback(callback),
                    None => PropertyValue::RenderCallback(
                        AURenderCallbackStruct { inputProc: None, inputProcRefCon: 0 },
                    ),
                }
            },
            K_AUDIO_UNIT_PROPERTY_IN_PLACE_PROCESSING => {
                if self.state.in_place_processing {
                    PropertyValue::UInt32(1)
                } else {
                    PropertyValue::UInt32(0)
                }
            },
            K_AUDIO_UNIT_PROPERTY_COCOA_UI => PropertyValue::CocoaView,
            K_AUDIO_UNIT_PROPERTY_CURRENT_PRESET
            | K_AUDIO_UNIT_PROPERTY_PRESENT_PRESET => PropertyValue::Preset {
                number: 0,
                name: DEFAULT_PRESET_NAME,
            },
            K_AUDIO_UNIT_PROPERTY_MIDI_OUTPUT_CALLBACK_INFO => PropertyValue::MidiOutputNames(
                MIDI_OUTPUT_NAME,
            ),
            _ => {
                match self.state.midi_output_callback {
                    Some(callback) => PropertyValue::MidiOutputCallback(callback),
                    None => PropertyValue::MidiOutputCallback(
                        AUMIDIOutputCallbackStruct { midiOutputCallback: None, userData: 0 },
                    ),
                }
            },
        };
        Ok(PropertyAnswer { value, size })
    }

    /// Whether what a host gives has the type of a property's value.
    pub open spec fn has_type(id: AudioUnitPropertyID, input: PropertyInput) -> bool {
        if id == K_AUDIO_UNIT_PROPERTY_CLASS_INFO {
            input is Pointer
        } else if id == K_AUDIO_UNIT_PROPERTY_SAMPLE_RATE {
            input is Double
        } else if id == K_AUDIO_UNIT_PROPERTY_STREAM_FORMAT {
            input is StreamFormat
        } else if id == K_AUDIO_UNIT_PROPERTY_SET_RENDER_CALLBACK {
            input is RenderCallback
        } else if id == K_AUDIO_UNIT_PROPERTY_MAKE_CONNECTION {
            input is Connection
        } else if id == K_AUDIO_UNIT_PROPERTY_HOST_CALLBACKS {
            input is HostCallbacks
        } else if id == K_AUDIO_UNIT_PROPERTY_MIDI_OUTPUT_CALLBACK {
            input is MidiOutputCallback
        } else if id == K_AUDIO_UNIT_PROPERTY_PRESENT_PRESET || id
            == K_AUDIO_UNIT_PROPERTY_CURRENT_PRESET {
            input is Preset
        } else {
            input is UInt32
        }
    }

    /// Why a property cannot be written at all, where it cannot.
    pub open spec fn write_refusal(
        self,
        id: AudioUnitPropertyID,
        scope: AudioUnitScope,
        element: AudioUnitElement,
        input: PropertyInput,
        in_data_size: u32,
    ) -> Option<OSStatus> {
        if !is_settable(id) || !self.has_property(id, scope, element) {
            Some(K_AUDIO_UNIT_ERR_PROPERTY_NOT_WRITABLE)
        } else if input is Null || in_data_size != self.type_of(id).bytes() {
            Some(K_AUDIO_UNIT_ERR_INVALID_PROPERTY_VALUE)
        } else {
            None
        }
    }

    /// Writing a property that can be written, with a value of its type, turns the unit into
    /// `after` and leads to `action`.
    pub open spec fn writes(
        self,
        after: Self,
        action: SetAction,
        id: AudioUnitPropertyID,
        scope: AudioUnitScope,
        element: AudioUnitElement,
        input: PropertyInput,
    ) -> bool {
        match input {
            PropertyInput::Pointer(dictionary) => {
                &&& after == self
                &&& action == if dictionary == 0 {
                    SetAction::Return(K_AUDIO_UNIT_ERR_INVALID_PROPERTY_VALUE)
                } else {
                    SetAction::RestoreState { dictionary }
                }
            },
            PropertyInput::Double(sample_rate) => if self.state.is_initialized {
                after == self && action == SetAction::Return(K_AUDIO_UNIT_ERR_INITIALIZED)
            } else if at_most_zero(sample_rate) {
                after == self && action == SetAction::Return(
                    K_AUDIO_UNIT_ERR_INVALID_PROPERTY_VALUE,
                )
            } else {
                &&& after == (Wrapper { state: UnitState { sample_rate, ..self.state }, ..self })
                &&& action == SetAction::Return(NO_ERR)
            },
            PropertyInput::StreamFormat(format) => match self.layout_after(scope, element, format) {
                Ok(layout) => {
                    &&& after == (Wrapper {
                        state: UnitState {
                            current_audio_io_layout: layout,
                            in_place_processing: false,
                            sample_rate: format.mSampleRate,
                            ..self.state
                        },
                        ..self
                    })
                    &&& action == SetAction::Return(NO_ERR)
                },
                Err(status) => after == self && action == SetAction::Return(status),
            },
            PropertyInput::UInt32(number) => if id == K_AUDIO_UNIT_PROPERTY_BYPASS_EFFECT {
                match self.params.bypass_param {
                    Some(param) => {
                        &&& after == self
                        &&& action matches SetAction::ApplyParameter {
                            param: applied,
                            hash,
                            normalized_value,
                        } && {
                            &&& applied == param
                            &&& self.params.leads_to(hash, param)
                            &&& normalized_value == if number != 0 {
                                ONE_BITS
                            } else {
                                0
                            }
                        }
                    },
                    None => {
                        &&& after == (Wrapper {
                            state: UnitState { bypass_enabled: number != 0, ..self.state },
                            ..self
                        })
                        &&& action == SetAction::Return(NO_ERR)
                    },
                }
            } else if id == K_AUDIO_UNIT_PROPERTY_IN_PLACE_PROCESSING {
                &&& after == (Wrapper {
                    state: UnitState { in_place_processing: false, ..self.state },
                    ..self
                })
                &&& action == SetAction::Return(NO_ERR)
            } else if self.state.is_initialized {
                after == self && action == SetAction::Return(K_AUDIO_UNIT_ERR_INITIALIZED)
            } else {
                &&& after == (Wrapper {
                    state: UnitState { maximum_frames_per_slice: number, ..self.state },
                    ..self
                })
                &&& if number != self.state.maximum_frames_per_slice {
                    action matches SetAction::NotifyListeners(called) && called@
                        == self.property_listeners@.filter(listens_to(id))
                } else {
                    action == SetAction::Return(NO_ERR)
                }
            },
            PropertyInput::RenderCallback(callback) => {
                &&& after == (Wrapper { input_callbacks: after.input_callbacks, ..self })
                &&& after.input_callbacks@ == self.input_callbacks@.update(
                    element as int,
                    if callback.inputProc is Some {
                        Some(callback)
                    } else {
                        None
                    },
                )
                &&& action == SetAction::Return(NO_ERR)
            },
            PropertyInput::Connection(connection) => {
                &&& after == (Wrapper { input_connections: after.input_connections, ..self })
                &&& after.input_connections@ == self.input_connections@.update(
                    element as int,
                    if connection.sourceAudioUnit != 0 {
                        Some(connection)
                    } else {
                        None
                    },
                )
                &&& action == SetAction::Return(NO_ERR)
            },
            PropertyInput::HostCallbacks(callbacks) => {
                &&& after == (Wrapper {
                    state: UnitState { host_callbacks: Some(callbacks), ..self.state },
                    ..self
                })
                &&& action == SetAction::Return(NO_ERR)
            },
            PropertyInput::MidiOutputCallback(callback) => {
                &&& after == (Wrapper {
                    state: UnitState { midi_output_callback: Some(callback), ..self.state },
                    ..self
                })
                &&& action == SetAction::Return(NO_ERR)
            },
            PropertyInput::Preset => after == self && action == SetAction::RestoreDefaults,
            _ => false,
        }
    }

    /// Writes a property. Switching a plugin off or on needs a hash that leads to its bypass
    /// parameter, where it has one.
    pub fn set_property(
        &mut self,
        id: AudioUnitPropertyID,
        scope: AudioUnitScope,
        element: AudioUnitElement,
        input: PropertyInput,
        in_data_size: u32,
    ) -> (action: SetAction)
        requires
            old(self).wf(),
            old(self).write_refusal(id, scope, element, input, in_data_size) is None
                ==> Self::has_type(id, input),
            id == K_AUDIO_UNIT_PROPERTY_BYPASS_EFFECT && old(self).write_refusal(
                id,
                scope,
                element,
                input,
                in_data_size,
            ) is None ==> (old(self).params.bypass_param matches Some(param) ==> exists|hash: u32|
             #[trigger]
                old(self).params.leads_to(hash, param)),
        ensures
            final(self).wf(),
            match old(self).write_refusal(id, scope, element, input, in_data_size) {
                Some(status) => action == SetAction::Return(status) && *final(self) == *old(self),
                None => old(self).writes(*final(self), action, id, scope, element, input),
            },
    {
        if !property_is_settable(id) || !self.property_exists(id, scope, element) {
            return SetAction::Return(K_AUDIO_UNIT_ERR_PROPERTY_NOT_WRITABLE);
        }
        if in_data_size != self.property_type(id).byte_size() {
            return SetAction::Return(K_AUDIO_UNIT_ERR_INVALID_PROPERTY_VALUE);
        }
        proof {
            self.layout_in_use_is_served();
        }
        match input {
            PropertyInput::Null | PropertyInput::Unread => SetAction::Return(
                K_AUDIO_UNIT_ERR_INVALID_PROPERTY_VALUE,
            ),
            PropertyInput::Pointer(dictionary) => {
                if dictionary == 0 {
                    SetAction::Return(K_AUDIO_UNIT_ERR_INVALID_PROPERTY_VALUE)
                } else {
                    SetAction::RestoreState { dictionary }
                }
            },
            PropertyInput::Double(sample_rate) => {
                if self.state.is_initialized {
                    return SetAction::Return(K_AUDIO_UNIT_ERR_INITIALIZED);
                }
                if is_at_most_zero(sample_rate) {
                    return SetAction::Return(K_AUDIO_UNIT_ERR_INVALID_PROPERTY_VALUE);
                }
                self.state.sample_rate = sample_rate;
                SetAction::Return(NO_ERR)
            },
            PropertyInput::StreamFormat(format) => SetAction::Return(
                self.set_stream_format(scope, element, &format),
            ),
            PropertyInput::UInt32(number) => {
                if id == K_AUDIO_UNIT_PROPERTY_BYPASS_EFFECT {
                    return self.set_bypass(number != 0);
                }
                if id == K_AUDIO_UNIT_PROPERTY_IN_PLACE_PROCESSING {
                    self.state.in_place_processing = false;
                    return SetAction::Return(NO_ERR);
                }
                if self.state.is_initialized {
                    return SetAction::Return(K_AUDIO_UNIT_ERR_INITIALIZED);
                }
                let previous = self.state.maximum_frames_per_slice;
                self.state.maximum_frames_per_slice = number;
                if previous != number {
                    SetAction::NotifyListeners(self.notify_property_listeners(id))
                } else {
                    SetAction::Return(NO_ERR)
                }
            },
            PropertyInput::RenderCallback(callback) => {
                self.input_callbacks[element as usize] = if callback.inputProc.is_some() {
                    Some(callback)
                } else {
                    None
                };
                SetAction::Return(NO_ERR)
            },
            PropertyInput::Connection(connection) => {
                self.input_connections[element as usize] = if connection.sourceAudioUnit != 0 {
                    Some(connection)
                } else {
                    None
                };
                SetAction::Return(NO_ERR)
            },
            PropertyInput::HostCallbacks(callbacks) => {
                self.state.host_callbacks = Some(callbacks);
                SetAction::Return(NO_ERR)
            },
            PropertyInput::MidiOutputCallback(callback) => {
                self.state.midi_output_callback = Some(callback);
                SetAction::Return(NO_ERR)
            },
            PropertyInput::Preset => SetAction::RestoreDefaults,
        }
    }

    fn set_bypass(&mut self, bypassed: bool) -> (action: SetAction)
        requires
            old(self).wf(),
            old(self).params.bypass_param matches Some(param) ==> exists|hash: u32| #[trigger]
                old(self).params.leads_to(hash, param),
        ensures
            final(self).wf(),
            old(self).writes(
                *final(self),
                action,
                K_AUDIO_UNIT_PROPERTY_BYPASS_EFFECT,
                K_AUDIO_UNIT_SCOPE_GLOBAL,
                0,
                PropertyInput::UInt32(
                    if bypassed {
                        1
                    } else {
                        0
                    },
                ),
            ),
    {
        match self.params.bypass_param {
            Some(param) => {
                let normalized_value: u32 = if bypassed {
                    ONE_BITS
                } else {
                    0
                };
                match self.params.hash_leading_to(param) {
                    Some(hash) => SetAction::ApplyParameter { param, hash, normalized_value },
                    None => SetAction::Return(NO_ERR),
                }
            },
            None => {
                self.state.bypass_enabled = bypassed;
                SetAction::Return(NO_ERR)
            },
        }
    }
}

/// The status of writing a plugin's state.
pub open spec fn status_of_state(step: Option<StateStep>) -> OSStatus {
    if step is Some && step->Some_0 is Restored {
        NO_ERR
    } else {
        K_AUDIO_UNIT_ERR_INVALID_PROPERTY_VALUE
    }
}

/// The status of reading the editor's view.
pub open spec fn status_of_view(bundle_url: usize) -> OSStatus {
    if bundle_url == 0 {
        K_AUDIO_UNIT_ERR_CANNOT_DO_IN_CURRENT_CONTEXT
    } else {
        NO_ERR
    }
}

/// Writing a state succeeds exactly where the state was taken over, with or without a reset of the
/// plugin. A dictionary without a state, a state that cannot be read, and one with which the plugin
/// does not start anew are refused as values.
pub proof fn only_restored_states_succeed(reset: bool, deserialized: bool)
    ensures
        status_of_state(Some(StateStep::Restored { reset })) == 0,
        status_of_state(Some(StateStep::Rejected)) == K_AUDIO_UNIT_ERR_INVALID_PROPERTY_VALUE,
        status_of_state(None) == K_AUDIO_UNIT_ERR_INVALID_PROPERTY_VALUE,
        status_of_state(Some(step_after(deserialized))) == 0 <==> deserialized,
{
}

/// A host gets the editor's view exactly where its bundle is found.
pub proof fn view_needs_its_bundle(bundle_url: usize)
    ensures
        status_of_view(bundle_url) == 0 <==> bundle_url != 0,
        bundle_url == 0 ==> status_of_view(bundle_url)
            == K_AUDIO_UNIT_ERR_CANNOT_DO_IN_CURRENT_CONTEXT,
{
}

/// The status of writing a plugin's state: what came of taking it over. `step` is none where the
/// dictionary holds no state.
pub fn state_status(step: Option<StateStep>) -> (status: OSStatus)
    ensures
        status == status_of_state(step),
{
    match step {
        Some(StateStep::Restored { .. }) => NO_ERR,
        _ => K_AUDIO_UNIT_ERR_INVALID_PROPERTY_VALUE,
    }
}

/// The status of reading the editor's view: its bundle has to be found.
pub fn cocoa_view_status(bundle_url: usize) -> (status: OSStatus)
    ensures
        status == status_of_view(bundle_url),
{
    if bundle_url == 0 {
        K_AUDIO_UNIT_ERR_CANNOT_DO_IN_CURRENT_CONTEXT
    } else {
        NO_ERR
    }
}

/// The value that a text means to a parameter: an error where it means none.
pub fn value_from_string(normalized: Option<u32>) -> (value: Result<u32, OSStatus>)
    ensures
        value == match normalized {
            Some(bits) => Ok::<u32, OSStatus>(bits),
            None => Err(K_AUDIO_UNIT_ERR_INVALID_PROPERTY_VALUE),
        },
{
    match normalized {
        Some(bits) => Ok(bits),
        None => Err(K_AUDIO_UNIT_ERR_INVALID_PROPERTY_VALUE),
    }
}

} // verus!
