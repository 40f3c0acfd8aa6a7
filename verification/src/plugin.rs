//! What a plugin type says about itself.
use vstd::prelude::*;

use crate::layout::AudioIOLayout;

verus! {

/// Which MIDI events a plugin receives or sends.
#[derive(Clone, Copy, Debug, PartialEq, Eq, Structural)]
pub enum MidiConfig {
    Disabled,
    Basic,
    MidiCCs,
}

/// The constants of a plugin that the wrapper reads.
pub trait Plugin {
    const NAME: &'static str;

    const VENDOR: &'static str;

    const VERSION: &'static str;

    /// The supported layouts, in order of preference.
    const AUDIO_IO_LAYOUTS: &'static [AudioIOLayout];

    const MIDI_INPUT: MidiConfig = MidiConfig::Disabled;

    const MIDI_OUTPUT: MidiConfig = MidiConfig::Disabled;

    /// Whether a render cycle is split into blocks at the offsets of parameter changes.
    const SAMPLE_ACCURATE_AUTOMATION: bool = false;
}

/// Additional metadata needed to expose a plugin as an AUv2 component on macOS.
pub trait Auv2Plugin: Plugin {
    /// The component type. Audio effects use `aufx`.
    const AUV2_TYPE: [u8; 4] = [0x61, 0x75, 0x66, 0x78];

    /// The globally unique subtype for this plugin.
    const AUV2_SUBTYPE: [u8; 4];

    /// The 4-character manufacturer code.
    const AUV2_MANUFACTURER: [u8; 4];

    /// Whether this component can be loaded directly inside sandboxed hosts.
    const AUV2_SANDBOX_SAFE: bool = true;
}

} // verus!
