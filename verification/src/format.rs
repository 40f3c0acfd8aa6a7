//! Stream formats, and what the bits of sample rates and parameter values say.
use vstd::prelude::*;

verus! {

/// `lpcm`.
pub const K_AUDIO_FORMAT_LINEAR_PCM: u32 = 0x6C70_636D;

pub const K_AUDIO_FORMAT_FLAG_IS_FLOAT: u32 = 1;

pub const K_AUDIO_FORMAT_FLAG_IS_BIG_ENDIAN: u32 = 2;

pub const K_AUDIO_FORMAT_FLAG_IS_PACKED: u32 = 8;

pub const K_AUDIO_FORMAT_FLAG_IS_NON_INTERLEAVED: u32 = 32;

/// Packed floats, one buffer for each channel, on a machine with little-endian order.
pub const LITTLE_ENDIAN_FORMAT_FLAGS: u32 = 41;

/// Packed floats, one buffer for each channel, on a machine with big-endian order.
pub const BIG_ENDIAN_FORMAT_FLAGS: u32 = 43;

/// The bytes of one sample.
pub const SAMPLE_SIZE: u32 = 4;

/// The format of the samples on a bus. The sample rate is the bits of an `f64`.
#[derive(Clone, Copy, Debug, PartialEq, Eq, Structural)]
pub struct AudioStreamBasicDescription {
    pub mSampleRate: u64,
    pub mFormatID: u32,
    pub mFormatFlags: u32,
    pub mBytesPerPacket: u32,
    pub mFramesPerPacket: u32,
    pub mBytesPerFrame: u32,
    pub mChannelsPerFrame: u32,
    pub mBitsPerChannel: u32,
    pub mReserved: u32,
}

/// What the samples of a bus are: packed floats in the byte order of the machine, one buffer for
/// each channel.
pub open spec fn native_format_flags(big_endian: bool) -> u32 {
    (K_AUDIO_FORMAT_FLAG_IS_FLOAT + K_AUDIO_FORMAT_FLAG_IS_PACKED
        + K_AUDIO_FORMAT_FLAG_IS_NON_INTERLEAVED + if big_endian {
        K_AUDIO_FORMAT_FLAG_IS_BIG_ENDIAN as int
    } else {
        0
    }) as u32
}

fn stream_format_flags(big_endian: bool) -> (flags: u32)
    ensures
        flags == native_format_flags(big_endian),
{
    if big_endian {
        BIG_ENDIAN_FORMAT_FLAGS
    } else {
        LITTLE_ENDIAN_FORMAT_FLAGS
    }
}

/// The one format that a bus can have, for its sample rate and number of channels, on a machine
/// with the given byte order.
pub open spec fn stream_format(
    sample_rate: u64,
    channels: u32,
    big_endian: bool,
) -> AudioStreamBasicDescription {
    AudioStreamBasicDescription {
        mSampleRate: sample_rate,
        mFormatID: K_AUDIO_FORMAT_LINEAR_PCM,
        mFormatFlags: native_format_flags(big_endian),
        mBytesPerPacket: SAMPLE_SIZE,
        mFramesPerPacket: 1,
        mBytesPerFrame: SAMPLE_SIZE,
        mChannelsPerFrame: channels,
        mBitsPerChannel: 32,
        mReserved: 0,
    }
}

/// The format of a bus with `channels` channels.
pub fn make_stream_format(sample_rate: u64, channels: u32, big_endian: bool) -> (format:
    AudioStreamBasicDescription)
    ensures
        format == stream_format(sample_rate, channels, big_endian),
{
    AudioStreamBasicDescription {
        mSampleRate: sample_rate,
        mFormatID: K_AUDIO_FORMAT_LINEAR_PCM,
        mFormatFlags: stream_format_flags(big_endian),
        mBytesPerPacket: SAMPLE_SIZE,
        mFramesPerPacket: 1,
        mBytesPerFrame: SAMPLE_SIZE,
        mChannelsPerFrame: channels,
        mBitsPerChannel: 32,
        mReserved: 0,
    }
}

/// Whether a format is that of a bus with at least one channel. The reserved field can be
/// anything.
pub open spec fn format_is_supported(
    format: AudioStreamBasicDescription,
    big_endian: bool,
) -> bool {
    &&& format == AudioStreamBasicDescription {
        mReserved: format.mReserved,
        ..stream_format(format.mSampleRate, format.mChannelsPerFrame, big_endian)
    }
    &&& format.mChannelsPerFrame > 0
}

/// Whether a host can ask for a format.
pub fn stream_format_is_supported(
    format: &AudioStreamBasicDescription,
    big_endian: bool,
) -> (supported: bool)
    ensures
        supported == format_is_supported(*format, big_endian),
{
    format.mFormatID == K_AUDIO_FORMAT_LINEAR_PCM && format.mFormatFlags == stream_format_flags(
        big_endian,
    ) && format.mFramesPerPacket == 1 && format.mBytesPerPacket == SAMPLE_SIZE
        && format.mBytesPerFrame == SAMPLE_SIZE && format.mBitsPerChannel == 32
        && format.mChannelsPerFrame > 0
}

/// The format that a bus reports is one that a host can ask for.
pub proof fn reported_formats_are_supported(
    sample_rate: u64,
    channels: u32,
    big_endian: bool,
)
    requires
        channels > 0,
    ensures
        format_is_supported(stream_format(sample_rate, channels, big_endian), big_endian),
{
}

/// The bits of the `f64` zero with a sign.
pub const NEGATIVE_ZERO_BITS: u64 = 0x8000_0000_0000_0000;

/// The bits of the `f64` that is less than all others.
pub const NEGATIVE_INFINITY_BITS: u64 = 0xFFF0_0000_0000_0000;

/// Whether the bits are those of an `f64` that is less than or equal to zero. The bit patterns of
/// numbers with a sign go from zero down to minus infinity; behind that come those that are no
/// number.
pub open spec fn at_most_zero(bits: u64) -> bool {
    bits == 0 || NEGATIVE_ZERO_BITS <= bits <= NEGATIVE_INFINITY_BITS
}

pub fn is_at_most_zero(bits: u64) -> (at_most: bool)
    ensures
        at_most == at_most_zero(bits),
{
    bits == 0 || (NEGATIVE_ZERO_BITS <= bits && bits <= NEGATIVE_INFINITY_BITS)
}

/// The bits of the `f32` one half.
pub const ONE_HALF_BITS: u32 = 0x3F00_0000;

/// The bits of the `f32` one.
pub const ONE_BITS: u32 = 0x3F80_0000;

/// The bits of the `f32` that is greater than all others.
pub const INFINITY_BITS: u32 = 0x7F80_0000;

/// Whether the bits are those of an `f32` of at least one half. The bit patterns of numbers
/// without a sign grow with them up to infinity.
pub open spec fn at_least_half(bits: u32) -> bool {
    ONE_HALF_BITS <= bits <= INFINITY_BITS
}

pub fn is_at_least_half(bits: u32) -> (at_least: bool)
    ensures
        at_least == at_least_half(bits),
{
    ONE_HALF_BITS <= bits && bits <= INFINITY_BITS
}

/// A sample has four bytes of eight bits, a frame of a buffer is one sample, and a packet is one
/// frame. The flags say that samples are packed floats in buffers of their own, and whether the
/// highest byte comes first, and nothing else.
pub proof fn format_fits_its_samples(sample_rate: u64, channels: u32, big_endian: bool)
    ensures
        ({
            let format = stream_format(sample_rate, channels, big_endian);
            &&& format.mSampleRate == sample_rate
            &&& format.mChannelsPerFrame == channels
            &&& format.mFramesPerPacket == 1
            &&& format.mBytesPerFrame == 4
            &&& format.mBytesPerPacket == format.mFramesPerPacket * format.mBytesPerFrame
            &&& format.mBitsPerChannel == 8 * format.mBytesPerFrame
            &&& format.mFormatID == 0x6C70_636D
            &&& format.mReserved == 0
            &&& big_endian ==> format.mFormatFlags == 1 + 2 + 8 + 32
            &&& !big_endian ==> format.mFormatFlags == 1 + 8 + 32
        }),
{
}

/// A format is supported where nothing but the sample rate, the number of channels and the
/// reserved field makes it differ from another that is.
pub proof fn supported_formats_differ_in_rate_and_channels(
    a: AudioStreamBasicDescription,
    b: AudioStreamBasicDescription,
    big_endian: bool,
)
    requires
        format_is_supported(a, big_endian),
    ensures
        format_is_supported(b, big_endian) <==> {
            &&& b.mChannelsPerFrame > 0
            &&& b.mFormatID == a.mFormatID
            &&& b.mFormatFlags == a.mFormatFlags
            &&& b.mBytesPerPacket == a.mBytesPerPacket
            &&& b.mFramesPerPacket == a.mFramesPerPacket
            &&& b.mBytesPerFrame == a.mBytesPerFrame
            &&& b.mBitsPerChannel == a.mBitsPerChannel
        },
        a.mChannelsPerFrame > 0,
{
}

/// A number is at most zero where it is zero or has a sign, and is a number: the sign is the
/// highest bit, the next eleven bits are the exponent, and where the exponent is all ones, only
/// infinity is a number.
pub proof fn numbers_with_a_sign_are_at_most_zero(bits: u64)
    ensures
        at_most_zero(bits) <==> bits == 0 || (bits >> 63 == 1 && !((bits >> 52) & 0x7FF == 0x7FF
            && bits & 0xF_FFFF_FFFF_FFFF != 0)),
{
    assert(bits >> 63 == 1 <==> bits >= 0x8000_0000_0000_0000) by (bit_vector);
    assert(bits >= 0x8000_0000_0000_0000 ==> (((bits >> 52) & 0x7FF == 0x7FF && bits
        & 0xF_FFFF_FFFF_FFFF != 0) <==> bits > 0xFFF0_0000_0000_0000)) by (bit_vector);
}

/// A number is at least one half where it has no sign and an exponent of at least that of one half,
/// and is a number: the sign is the highest bit, and the next eight bits are the exponent.
pub proof fn halves_have_their_exponent(bits: u32)
    ensures
        at_least_half(bits) <==> bits >> 31 == 0 && (bits >> 23) >= 126 && !(bits >> 23 == 255
            && bits & 0x7F_FFFF != 0),
{
    assert(bits >> 31 == 0 <==> bits < 0x8000_0000) by (bit_vector);
    assert((bits >> 23) >= 126 <==> bits >= 0x3F00_0000) by (bit_vector);
    assert(bits < 0x8000_0000 ==> ((bits >> 23 == 255 && bits & 0x7F_FFFF != 0) <==> bits
        > 0x7F80_0000)) by (bit_vector);
}

} // verus!
