//! The host's structures and numbers, as plain values.
use vstd::prelude::*;

verus! {

pub type OSStatus = i32;

pub type AudioUnitScope = u32;

pub type AudioUnitElement = u32;

pub type AudioUnitPropertyID = u32;

pub type AudioUnitParameterID = u32;

/// The status of a call that succeeded.
pub const NO_ERR: OSStatus = 0;

pub const K_AUDIO_UNIT_ERR_INVALID_PROPERTY: OSStatus = -10879;

pub const K_AUDIO_UNIT_ERR_INVALID_PARAMETER: OSStatus = -10878;

pub const K_AUDIO_UNIT_ERR_INVALID_ELEMENT: OSStatus = -10877;

pub const K_AUDIO_UNIT_ERR_NO_CONNECTION: OSStatus = -10876;

pub const K_AUDIO_UNIT_ERR_FAILED_INITIALIZATION: OSStatus = -10875;

pub const K_AUDIO_UNIT_ERR_TOO_MANY_FRAMES_TO_PROCESS: OSStatus = -10874;

pub const K_AUDIO_UNIT_ERR_FORMAT_NOT_SUPPORTED: OSStatus = -10868;

pub const K_AUDIO_UNIT_ERR_UNINITIALIZED: OSStatus = -10867;

pub const K_AUDIO_UNIT_ERR_INVALID_SCOPE: OSStatus = -10866;

pub const K_AUDIO_UNIT_ERR_PROPERTY_NOT_WRITABLE: OSStatus = -10865;

pub const K_AUDIO_UNIT_ERR_CANNOT_DO_IN_CURRENT_CONTEXT: OSStatus = -10863;

pub const K_AUDIO_UNIT_ERR_INVALID_PROPERTY_VALUE: OSStatus = -10851;

pub const K_AUDIO_UNIT_ERR_INITIALIZED: OSStatus = -10849;

pub const K_AUDIO_UNIT_SCOPE_GLOBAL: AudioUnitScope = 0;

pub const K_AUDIO_UNIT_SCOPE_INPUT: AudioUnitScope = 1;

pub const K_AUDIO_UNIT_SCOPE_OUTPUT: AudioUnitScope = 2;

pub const K_AUDIO_UNIT_RENDER_ACTION_OUTPUT_IS_SILENCE: u32 = 16;

pub const K_AUDIO_TIME_STAMP_SAMPLE_TIME_VALID: u32 = 1;

/// The most channels that a bus can have.
pub const MAX_AUDIO_CHANNELS: usize = 64;

#[derive(Clone, Copy, Debug, PartialEq, Eq, Structural)]
pub struct SMPTETime {
    pub mSubframes: i16,
    pub mSubframeDivisor: i16,
    pub mCounter: u32,
    pub mType: u32,
    pub mFlags: u32,
    pub mHours: i16,
    pub mMinutes: i16,
    pub mSeconds: i16,
    pub mFrames: i16,
}

/// The time of a render call. The sample time and the rate scalar are the bits of an `f64`.
#[derive(Clone, Copy, Debug, PartialEq, Eq, Structural)]
pub struct AudioTimeStamp {
    pub mSampleTime: u64,
    pub mHostTime: u64,
    pub mRateScalar: u64,
    pub mWordClockTime: u64,
    pub mSMPTETime: SMPTETime,
    pub mFlags: u32,
    pub mReserved: u32,
}

impl AudioTimeStamp {
    /// Whether the time stamp says what the sample time is.
    pub open spec fn sample_time_is_valid(self) -> bool {
        self.mFlags % 2 == 1
    }

    pub fn has_sample_time(&self) -> (valid: bool)
        ensures
            valid == self.sample_time_is_valid(),
    {
        self.mFlags % 2 == K_AUDIO_TIME_STAMP_SAMPLE_TIME_VALID
    }
}

/// Another unit's output, from which an input bus takes its samples.
#[derive(Clone, Copy, Debug, PartialEq, Eq, Structural)]
pub struct AudioUnitConnection {
    pub sourceAudioUnit: usize,
    pub sourceOutputNumber: u32,
    pub destInputNumber: u32,
}

/// How many channels a unit takes and gives on its main buses.
#[derive(Clone, Copy, Debug, PartialEq, Eq, Structural)]
pub struct AUChannelInfo {
    pub inChannels: i16,
    pub outChannels: i16,
}

/// A host function from which an input bus takes its samples, with the address that it gets back.
#[derive(Clone, Copy, Debug, PartialEq, Eq, Structural)]
pub struct AURenderCallbackStruct {
    pub inputProc: Option<usize>,
    pub inputProcRefCon: usize,
}

/// The host functions that tell about the transport.
#[derive(Clone, Copy, Debug, PartialEq, Eq, Structural)]
pub struct HostCallbackInfo {
    pub hostUserData: usize,
    pub beatAndTempoProc: Option<usize>,
    pub musicalTimeLocationProc: Option<usize>,
    pub transportStateProc: Option<usize>,
    pub transportStateProc2: Option<usize>,
}

/// The host function that gets the MIDI events that the plugin sends.
#[derive(Clone, Copy, Debug, PartialEq, Eq, Structural)]
pub struct AUMIDIOutputCallbackStruct {
    pub midiOutputCallback: Option<usize>,
    pub userData: usize,
}

/// A parameter of a unit, as hosts name it.
#[derive(Clone, Copy, Debug, PartialEq, Eq, Structural)]
pub struct AudioUnitParameter {
    pub mAudioUnit: usize,
    pub mParameterID: AudioUnitParameterID,
    pub mScope: AudioUnitScope,
    pub mElement: AudioUnitElement,
}

/// Something that happens to a parameter, as hosts get told about it.
#[derive(Clone, Copy, Debug, PartialEq, Eq, Structural)]
pub struct AudioUnitEvent {
    pub mEventType: u32,
    pub mArgument: AudioUnitParameter,
}

/// Every error has the number under which hosts know it, and no two of them the same.
pub proof fn errors_can_be_told_apart()
    ensures
        NO_ERR == 0,
        K_AUDIO_UNIT_ERR_INVALID_PROPERTY == -10879,
        K_AUDIO_UNIT_ERR_INVALID_PARAMETER == -10878,
        K_AUDIO_UNIT_ERR_INVALID_ELEMENT == -10877,
        K_AUDIO_UNIT_ERR_NO_CONNECTION == -10876,
        K_AUDIO_UNIT_ERR_FAILED_INITIALIZATION == -10875,
        K_AUDIO_UNIT_ERR_TOO_MANY_FRAMES_TO_PROCESS == -10874,
        K_AUDIO_UNIT_ERR_FORMAT_NOT_SUPPORTED == -10868,
        K_AUDIO_UNIT_ERR_UNINITIALIZED == -10867,
        K_AUDIO_UNIT_ERR_INVALID_SCOPE == -10866,
        K_AUDIO_UNIT_ERR_PROPERTY_NOT_WRITABLE == -10865,
        K_AUDIO_UNIT_ERR_CANNOT_DO_IN_CURRENT_CONTEXT == -10863,
        K_AUDIO_UNIT_ERR_INVALID_PROPERTY_VALUE == -10851,
        K_AUDIO_UNIT_ERR_INITIALIZED == -10849,
{
}

/// A time stamp says what the sample time is where its lowest flag is set, whatever the others
/// are.
pub proof fn lowest_flag_tells_of_the_sample_time(stamp: AudioTimeStamp)
    ensures
        stamp.sample_time_is_valid() <==> stamp.mFlags & 1 != 0,
{
    let flags = stamp.mFlags;
    assert(flags & 1 == flags % 2) by (bit_vector);
}

} // verus!
