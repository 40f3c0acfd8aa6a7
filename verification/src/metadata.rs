//! The component description that a bundle exports for each of its plugins.
use vstd::prelude::*;

use crate::codes::fourcc;
use crate::plugin::Auv2Plugin;

verus! {

/// What a host asks the factory for.
#[derive(Clone, Copy, Debug, PartialEq, Eq, Structural)]
pub struct AudioComponentDescription {
    pub componentType: u32,
    pub componentSubType: u32,
    pub componentManufacturer: u32,
    pub componentFlags: u32,
    pub componentFlagsMask: u32,
}

/// The name of the exported factory function.
pub const NIH_AUV2_FACTORY_SYMBOL: &'static str = "NihAudioUnitFactory";

/// The name of the exported function that returns the metadata list.
pub const NIH_AUV2_METADATA_SYMBOL: &'static str = "NihAudioUnitBundlerMetadata";

/// What the bundler and the factory need to know about one plugin.
#[derive(Clone, Copy, Debug)]
pub struct Auv2BundlerMetadata {
    pub type_code: [u8; 4],
    pub subtype_code: [u8; 4],
    pub manufacturer_code: [u8; 4],
    pub name: &'static str,
    pub vendor: &'static str,
    pub version: &'static str,
    pub sandbox_safe: bool,
}

impl Auv2BundlerMetadata {
    /// The metadata of the plugin `P`.
    pub fn for_plugin<P: Auv2Plugin>() -> (metadata: Self)
        ensures
            metadata.is_of::<P>(),
    {
        Self {
            type_code: P::AUV2_TYPE,
            subtype_code: P::AUV2_SUBTYPE,
            manufacturer_code: P::AUV2_MANUFACTURER,
            name: P::NAME,
            vendor: P::VENDOR,
            version: P::VERSION,
            sandbox_safe: P::AUV2_SANDBOX_SAFE,
        }
    }

    /// Whether this is the metadata of a plugin.
    pub open spec fn is_of<P: Auv2Plugin>(self) -> bool {
        &&& self.type_code == P::AUV2_TYPE
        &&& self.subtype_code == P::AUV2_SUBTYPE
        &&& self.manufacturer_code == P::AUV2_MANUFACTURER
        &&& self.name == P::NAME
        &&& self.vendor == P::VENDOR
        &&& self.version == P::VERSION
        &&& self.sandbox_safe == P::AUV2_SANDBOX_SAFE
    }

    /// A plugin answers to the description with its own type, subtype and manufacturer and to no
    /// other, and shows its own name, vendor and version.
    pub proof fn plugin_answers_to_its_own_codes<P: Auv2Plugin>(
        self,
        desc: AudioComponentDescription,
    )
        requires
            self.is_of::<P>(),
        ensures
            self.is_described_by(desc) <==> {
                &&& desc.componentType == crate::codes::fourcc_value(P::AUV2_TYPE)
                &&& desc.componentSubType == crate::codes::fourcc_value(P::AUV2_SUBTYPE)
                &&& desc.componentManufacturer == crate::codes::fourcc_value(P::AUV2_MANUFACTURER)
            },
            self.name == P::NAME,
            self.vendor == P::VENDOR,
            self.version == P::VERSION,
            self.sandbox_safe == P::AUV2_SANDBOX_SAFE,
    {
    }

    /// Whether `desc` names this plugin: its type, subtype and manufacturer are the plugin's.
    pub open spec fn is_described_by(&self, desc: AudioComponentDescription) -> bool {
        &&& desc.componentType == crate::codes::fourcc_value(self.type_code)
        &&& desc.componentSubType == crate::codes::fourcc_value(self.subtype_code)
        &&& desc.componentManufacturer == crate::codes::fourcc_value(self.manufacturer_code)
    }

    /// Whether `desc` asks for this plugin. The flags of the description are not looked at.
    pub fn matches(&self, desc: &AudioComponentDescription) -> (matched: bool)
        ensures
            matched == self.is_described_by(*desc),
    {
        desc.componentType == fourcc(self.type_code) && desc.componentSubType == fourcc(
            self.subtype_code,
        ) && desc.componentManufacturer == fourcc(self.manufacturer_code)
    }
}

/// The metadata of all plugins in one bundle.
pub struct Auv2BundlerMetadataList {
    pub entries: Vec<Auv2BundlerMetadata>,
}

impl Auv2BundlerMetadataList {
    /// The index of the plugin that the factory makes for `desc`: the first one that it asks for.
    pub fn find(&self, desc: &AudioComponentDescription) -> (found: Option<usize>)
        ensures
            match found {
                Some(i) => {
                    &&& i < self.entries@.len()
                    &&& self.entries@[i as int].is_described_by(*desc)
                    &&& forall|j: int|
                        0 <= j < i ==> !(#[trigger] self.entries@[j]).is_described_by(*desc)
                },
                None => forall|j: int|
                    0 <= j < self.entries@.len() ==> !(
                    #[trigger] self.entries@[j]).is_described_by(*desc),
            },
    {
        let mut i: usize = 0;
        while i < self.entries.len()
            invariant
                i <= self.entries@.len(),
                forall|j: int|
                    0 <= j < i ==> !(#[trigger] self.entries@[j]).is_described_by(*desc),
            decreases self.entries@.len() - i,
        {
            if self.entries[i].matches(desc) {
                return Some(i);
            }
            i += 1;
        }
        None
    }
}

/// A description asks for a plugin where its three codes are the plugin's, each in its own place
/// and read with the first character as the highest byte, whatever its flags are.
pub proof fn plugin_is_asked_for_by_its_codes(
    metadata: Auv2BundlerMetadata,
    desc: AudioComponentDescription,
    flags: u32,
    mask: u32,
)
    ensures
        metadata.is_described_by(desc) <==> {
            &&& desc.componentType / 0x100_0000 == metadata.type_code[0]
            &&& desc.componentType / 0x1_0000 % 0x100 == metadata.type_code[1]
            &&& desc.componentType / 0x100 % 0x100 == metadata.type_code[2]
            &&& desc.componentType % 0x100 == metadata.type_code[3]
            &&& desc.componentSubType / 0x100_0000 == metadata.subtype_code[0]
            &&& desc.componentSubType / 0x1_0000 % 0x100 == metadata.subtype_code[1]
            &&& desc.componentSubType / 0x100 % 0x100 == metadata.subtype_code[2]
            &&& desc.componentSubType % 0x100 == metadata.subtype_code[3]
            &&& desc.componentManufacturer / 0x100_0000 == metadata.manufacturer_code[0]
            &&& desc.componentManufacturer / 0x1_0000 % 0x100 == metadata.manufacturer_code[1]
            &&& desc.componentManufacturer / 0x100 % 0x100 == metadata.manufacturer_code[2]
            &&& desc.componentManufacturer % 0x100 == metadata.manufacturer_code[3]
        },
        metadata.is_described_by(desc) == metadata.is_described_by(
            AudioComponentDescription { componentFlags: flags, componentFlagsMask: mask, ..desc },
        ),
{
    lemma_code_is(desc.componentType, metadata.type_code);
    lemma_code_is(desc.componentSubType, metadata.subtype_code);
    lemma_code_is(desc.componentManufacturer, metadata.manufacturer_code);
}

proof fn lemma_code_is(code: u32, bytes: [u8; 4])
    ensures
        code == crate::codes::fourcc_value(bytes) <==> {
            &&& code / 0x100_0000 == bytes[0]
            &&& code / 0x1_0000 % 0x100 == bytes[1]
            &&& code / 0x100 % 0x100 == bytes[2]
            &&& code % 0x100 == bytes[3]
        },
{
    assert(code == (code / 0x100_0000) * 0x100_0000 + (code / 0x1_0000 % 0x100) * 0x1_0000 + (code
        / 0x100 % 0x100) * 0x100 + code % 0x100) by (bit_vector);
    if code == crate::codes::fourcc_value(bytes) {
        crate::codes::first_character_is_the_highest_byte(bytes);
    }
}

} // verus!
