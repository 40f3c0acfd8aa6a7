//! Which function of a unit a host calls.
use vstd::prelude::*;

verus! {

pub const K_AUDIO_UNIT_INITIALIZE_SELECT: i16 = 0x0001;

pub const K_AUDIO_UNIT_UNINITIALIZE_SELECT: i16 = 0x0002;

pub const K_AUDIO_UNIT_GET_PROPERTY_INFO_SELECT: i16 = 0x0003;

pub const K_AUDIO_UNIT_GET_PROPERTY_SELECT: i16 = 0x0004;

pub const K_AUDIO_UNIT_SET_PROPERTY_SELECT: i16 = 0x0005;

pub const K_AUDIO_UNIT_GET_PARAMETER_SELECT: i16 = 0x0006;

pub const K_AUDIO_UNIT_SET_PARAMETER_SELECT: i16 = 0x0007;

pub const K_AUDIO_UNIT_RESET_SELECT: i16 = 0x0009;

pub const K_AUDIO_UNIT_ADD_PROPERTY_LISTENER_SELECT: i16 = 0x000A;

pub const K_AUDIO_UNIT_REMOVE_PROPERTY_LISTENER_SELECT: i16 = 0x000B;

pub const K_AUDIO_UNIT_RENDER_SELECT: i16 = 0x000E;

pub const K_AUDIO_UNIT_ADD_RENDER_NOTIFY_SELECT: i16 = 0x000F;

pub const K_AUDIO_UNIT_REMOVE_RENDER_NOTIFY_SELECT: i16 = 0x0010;

pub const K_AUDIO_UNIT_SCHEDULE_PARAMETERS_SELECT: i16 = 0x0011;

pub const K_AUDIO_UNIT_REMOVE_PROPERTY_LISTENER_WITH_USER_DATA_SELECT: i16 = 0x0012;

pub const K_MUSIC_DEVICE_MIDI_EVENT_SELECT: i16 = 0x0101;

pub const K_MUSIC_DEVICE_SYS_EX_SELECT: i16 = 0x0102;

/// The functions of a unit.
#[derive(Clone, Copy, Debug, PartialEq, Eq, Structural)]
pub enum ComponentMethod {
    Initialize,
    Uninitialize,
    GetPropertyInfo,
    GetProperty,
    SetProperty,
    GetParameter,
    SetParameter,
    AddPropertyListener,
    RemovePropertyListener,
    RemovePropertyListenerWithUserData,
    AddRenderNotify,
    RemoveRenderNotify,
    ScheduleParameters,
    Render,
    Reset,
    MidiEvent,
    SysEx,
}

/// The selector under which hosts know a function.
pub open spec fn selector_of(method: ComponentMethod) -> i16 {
    match method {
        ComponentMethod::Initialize => 0x0001,
        ComponentMethod::Uninitialize => 0x0002,
        ComponentMethod::GetPropertyInfo => 0x0003,
        ComponentMethod::GetProperty => 0x0004,
        ComponentMethod::SetProperty => 0x0005,
        ComponentMethod::GetParameter => 0x0006,
        ComponentMethod::SetParameter => 0x0007,
        ComponentMethod::Reset => 0x0009,
        ComponentMethod::AddPropertyListener => 0x000A,
        ComponentMethod::RemovePropertyListener => 0x000B,
        ComponentMethod::Render => 0x000E,
        ComponentMethod::AddRenderNotify => 0x000F,
        ComponentMethod::RemoveRenderNotify => 0x0010,
        ComponentMethod::ScheduleParameters => 0x0011,
        ComponentMethod::RemovePropertyListenerWithUserData => 0x0012,
        ComponentMethod::MidiEvent => 0x0101,
        ComponentMethod::SysEx => 0x0102,
    }
}

/// The function with a selector, where there is one.
pub fn lookup(selector: i16) -> (method: Option<ComponentMethod>)
    ensures
        match method {
            Some(found) => selector_of(found) == selector,
            None => forall|other: ComponentMethod| #[trigger] selector_of(other) != selector,
        },
{
    match selector {
        K_AUDIO_UNIT_INITIALIZE_SELECT => Some(ComponentMethod::Initialize),
        K_AUDIO_UNIT_UNINITIALIZE_SELECT => Some(ComponentMethod::Uninitialize),
        K_AUDIO_UNIT_GET_PROPERTY_INFO_SELECT => Some(ComponentMethod::GetPropertyInfo),
        K_AUDIO_UNIT_GET_PROPERTY_SELECT => Some(ComponentMethod::GetProperty),
        K_AUDIO_UNIT_SET_PROPERTY_SELECT => Some(ComponentMethod::SetProperty),
        K_AUDIO_UNIT_GET_PARAMETER_SELECT => Some(ComponentMethod::GetParameter),
        K_AUDIO_UNIT_SET_PARAMETER_SELECT => Some(ComponentMethod::SetParameter),
        K_AUDIO_UNIT_ADD_PROPERTY_LISTENER_SELECT => Some(ComponentMethod::AddPropertyListener),
        K_AUDIO_UNIT_REMOVE_PROPERTY_LISTENER_SELECT => Some(
            ComponentMethod::RemovePropertyListener,
        ),
        K_AUDIO_UNIT_REMOVE_PROPERTY_LISTENER_WITH_USER_DATA_SELECT => Some(
            ComponentMethod::RemovePropertyListenerWithUserData,
        ),
        K_AUDIO_UNIT_ADD_RENDER_NOTIFY_SELECT => Some(ComponentMethod::AddRenderNotify),
        K_AUDIO_UNIT_REMOVE_RENDER_NOTIFY_SELECT => Some(ComponentMethod::RemoveRenderNotify),
        K_AUDIO_UNIT_SCHEDULE_PARAMETERS_SELECT => Some(ComponentMethod::ScheduleParameters),
        K_AUDIO_UNIT_RENDER_SELECT => Some(ComponentMethod::Render),
        K_AUDIO_UNIT_RESET_SELECT => Some(ComponentMethod::Reset),
        K_MUSIC_DEVICE_MIDI_EVENT_SELECT => Some(ComponentMethod::MidiEvent),
        K_MUSIC_DEVICE_SYS_EX_SELECT => Some(ComponentMethod::SysEx),
        _ => None,
    }
}

/// Two functions never have the same selector.
pub proof fn selectors_are_distinct(a: ComponentMethod, b: ComponentMethod)
    ensures
        selector_of(a) == selector_of(b) ==> a == b,
{
}

} // verus!
