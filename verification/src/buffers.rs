//! The memory through which samples go between the host and the plugin. A sample is the bits of an
//! `f32`.
use vstd::prelude::*;

use crate::format::SAMPLE_SIZE;
use crate::host::{
    AURenderCallbackStruct, AudioUnitConnection, OSStatus, K_AUDIO_UNIT_ERR_INVALID_ELEMENT,
    K_AUDIO_UNIT_ERR_INVALID_PROPERTY_VALUE, K_AUDIO_UNIT_ERR_NO_CONNECTION,
    K_AUDIO_UNIT_SCOPE_INPUT, K_AUDIO_UNIT_SCOPE_OUTPUT, MAX_AUDIO_CHANNELS,
};
use crate::layout::{bus_channel_counts_for_layout, AudioIOLayout};

verus! {

/// What the data pointer of a host's buffer points to.
pub enum BufferMemory {
    Null,
    /// Memory of the host, with the samples that it holds.
    Host(Vec<u32>),
    /// The memory of a channel of an output bus.
    Output { bus: usize, channel: usize },
}

/// What the data pointer of a host's buffer points to, with the samples as a sequence.
pub ghost enum MemoryView {
    Null,
    Host(Seq<u32>),
    Output { bus: usize, channel: usize },
}

impl View for BufferMemory {
    type V = MemoryView;

    open spec fn view(&self) -> MemoryView {
        match self {
            BufferMemory::Null => MemoryView::Null,
            BufferMemory::Host(samples) => MemoryView::Host(samples@),
            BufferMemory::Output { bus, channel } => MemoryView::Output {
                bus: *bus,
                channel: *channel,
            },
        }
    }
}

/// A buffer that a host gives to be filled.
pub struct AudioBuffer {
    pub mNumberChannels: u32,
    pub mDataByteSize: u32,
    pub mData: BufferMemory,
}

impl AudioBuffer {
    /// The buffer comes from a host, and its memory is at least as large as the host says.
    pub open spec fn wf(self) -> bool {
        match self.mData {
            BufferMemory::Null => true,
            BufferMemory::Host(samples) => self.mDataByteSize <= SAMPLE_SIZE * samples@.len(),
            BufferMemory::Output { .. } => false,
        }
    }

    /// Whether the buffer has memory, but less than `size` bytes of it.
    pub open spec fn is_short_of(self, size: int) -> bool {
        self.mData !is Null && self.mDataByteSize < size
    }

    /// The buffer with the samples of one channel: at the start of its own memory, or in the
    /// channel's memory where the host gave none.
    pub open spec fn holds_channel(
        self,
        before: Self,
        source: Seq<u32>,
        bus: usize,
        channel: usize,
        num_frames: int,
    ) -> bool {
        match before.mData {
            BufferMemory::Null => {
                &&& self.mNumberChannels == 1
                &&& self.mDataByteSize == SAMPLE_SIZE * num_frames
                &&& self.mData@ == MemoryView::Output { bus, channel }
            },
            BufferMemory::Host(samples) => {
                &&& self.mNumberChannels == before.mNumberChannels
                &&& self.mDataByteSize == before.mDataByteSize
                &&& self.mData@ == MemoryView::Host(
                    source.take(num_frames) + samples@.skip(num_frames),
                )
            },
            BufferMemory::Output { .. } => self.same_as(before),
        }
    }

    pub open spec fn same_as(self, other: Self) -> bool {
        &&& self.mNumberChannels == other.mNumberChannels
        &&& self.mDataByteSize == other.mDataByteSize
        &&& self.mData@ == other.mData@
    }
}

/// The buffers that a host gives to be filled.
pub struct AudioBufferList {
    pub mBuffers: Vec<AudioBuffer>,
}

impl AudioBufferList {
    pub open spec fn wf(self) -> bool {
        forall|i: int| 0 <= i < self.mBuffers@.len() ==> (#[trigger] self.mBuffers@[i]).wf()
    }
}

/// The memory of one bus: the samples of each channel.
pub struct BusBuffers {
    pub storage: Vec<Vec<u32>>,
}

impl BusBuffers {
    /// There are `channels` channels with room for `frames` samples each.
    pub open spec fn has_room(self, channels: int, frames: int) -> bool {
        &&& self.storage@.len() == channels
        &&& forall|c: int| 0 <= c < channels ==> (#[trigger] self.storage@[c])@.len() == frames
    }

    /// The first `frames` samples of each channel are silent, and the others are as before.
    pub open spec fn is_silenced(self, before: Self, frames: int) -> bool {
        &&& self.storage@.len() == before.storage@.len()
        &&& forall|c: int|
            0 <= c < self.storage@.len() ==> (#[trigger] self.storage@[c])@ == Seq::new(
                frames as nat,
                |i: int| 0u32,
            ) + before.storage@[c]@.skip(frames)
    }

    /// The samples from `start` up to, but without, `end` of the first `channels` channels are
    /// those of `source`, and all others are as before.
    pub open spec fn is_copied(
        self,
        before: Self,
        source: Self,
        channels: int,
        start: int,
        end: int,
    ) -> bool {
        &&& self.storage@.len() == before.storage@.len()
        &&& forall|c: int|
            0 <= c < self.storage@.len() ==> (#[trigger] self.storage@[c])@ == if c < channels {
                before.storage@[c]@.take(start) + source.storage@[c]@.subrange(start, end)
                    + before.storage@[c]@.skip(end)
            } else {
                before.storage@[c]@
            }
    }

    fn new(channels: u32, frames: usize) -> (bus: Self)
        ensures
            bus.has_room(channels as int, frames as int),
            forall|c: int, i: int|
                0 <= c < channels && 0 <= i < frames ==> (#[trigger] bus.storage@[c]@[i]) == 0,
    {
        let mut storage: Vec<Vec<u32>> = Vec::new();
        let mut c: u32 = 0;
        while c < channels
            invariant
                c <= channels,
                storage@.len() == c,
                forall|k: int| 0 <= k < c ==> (#[trigger] storage@[k])@.len() == frames,
                forall|k: int, i: int|
                    0 <= k < c && 0 <= i < frames ==> (#[trigger] storage@[k]@[i]) == 0,
            decreases channels - c,
        {
            storage.push(vec![0;frames]);
            c += 1;
        }
        Self { storage }
    }

    fn copy_range(&mut self, source: &BusBuffers, channels: usize, start: usize, end: usize)
        requires
            channels <= old(self).storage@.len(),
            channels <= source.storage@.len(),
            start <= end,
            forall|c: int|
                0 <= c < channels ==> end <= (#[trigger] old(self).storage@[c])@.len(),
            forall|c: int| 0 <= c < channels ==> end <= (#[trigger] source.storage@[c])@.len(),
        ensures
            final(self).is_copied(*old(self), *source, channels as int, start as int, end as int),
    {
        let ghost before = *self;
        let mut c: usize = 0;
        while c < channels
            invariant
                c <= channels <= source.storage@.len(),
                channels <= self.storage@.len() == before.storage@.len(),
                start <= end,
                forall|k: int| 0 <= k < channels ==> end <= (#[trigger] before.storage@[k])@.len(),
                forall|k: int| 0 <= k < channels ==> end <= (#[trigger] source.storage@[k])@.len(),
                forall|k: int|
                    0 <= k < c ==> (#[trigger] self.storage@[k])@ == before.storage@[k]@.take(
                        start as int,
                    ) + source.storage@[k]@.subrange(start as int, end as int)
                        + before.storage@[k]@.skip(end as int),
                forall|k: int|
                    c <= k < self.storage@.len() ==> (#[trigger] self.storage@[k])
                        == before.storage@[k],
            decreases channels - c,
        {
            let ghost channel = self.storage@[c as int]@;
            let ghost samples = source.storage@[c as int]@;
            let mut i: usize = start;
            while i < end
                invariant
                    c < channels <= source.storage@.len(),
                    channels <= self.storage@.len() == before.storage@.len(),
                    start <= i <= end <= channel.len(),
                    end <= samples.len(),
                    channel == before.storage@[c as int]@,
                    samples == source.storage@[c as int]@,
                    self.storage@[c as int]@.len() == channel.len(),
                    forall|j: int| start <= j < i ==> self.storage@[c as int]@[j] == samples[j],
                    forall|j: int|
                        0 <= j < start || i <= j < channel.len() ==> self.storage@[c as int]@[j]
                            == channel[j],
                    forall|k: int|
                        0 <= k < c ==> (#[trigger] self.storage@[k])@ == before.storage@[k]@.take(
                            start as int,
                        ) + source.storage@[k]@.subrange(start as int, end as int)
                            + before.storage@[k]@.skip(end as int),
                    forall|k: int|
                        c < k < self.storage@.len() ==> (#[trigger] self.storage@[k])
                            == before.storage@[k],
                decreases end - i,
            {
                self.storage[c][i] = source.storage[c][i];
                i += 1;
            }
            assert(self.storage@[c as int]@ =~= channel.take(start as int) + samples.subrange(
                start as int,
                end as int,
            ) + channel.skip(end as int));
            c += 1;
        }
    }

    fn silence(&mut self, frames: usize)
        requires
            forall|c: int|
                0 <= c < old(self).storage@.len() ==> frames <= (
                #[trigger] old(self).storage@[c])@.len(),
        ensures
            final(self).is_silenced(*old(self), frames as int),
    {
        let ghost before = *self;
        let mut c: usize = 0;
        while c < self.storage.len()
            invariant
                c <= self.storage@.len() == before.storage@.len(),
                forall|k: int|
                    0 <= k < before.storage@.len() ==> frames <= (
                    #[trigger] before.storage@[k])@.len(),
                forall|k: int|
                    0 <= k < c ==> (#[trigger] self.storage@[k])@ == Seq::new(
                        frames as nat,
                        |i: int| 0u32,
                    ) + before.storage@[k]@.skip(frames as int),
                forall|k: int|
                    c <= k < self.storage@.len() ==> (#[trigger] self.storage@[k])
                        == before.storage@[k],
            decreases self.storage@.len() - c,
        {
            let mut i: usize = 0;
            let ghost channel = self.storage@[c as int]@;
            while i < frames
                invariant
                    c < self.storage@.len() == before.storage@.len(),
                    i <= frames <= channel.len(),
                    channel == before.storage@[c as int]@,
                    self.storage@[c as int]@.len() == channel.len(),
                    forall|j: int| 0 <= j < i ==> self.storage@[c as int]@[j] == 0,
                    forall|j: int|
                        i <= j < channel.len() ==> self.storage@[c as int]@[j] == channel[j],
                    forall|k: int|
                        0 <= k < c ==> (#[trigger] self.storage@[k])@ == Seq::new(
                            frames as nat,
                            |i: int| 0u32,
                        ) + before.storage@[k]@.skip(frames as int),
                    forall|k: int|
                        c < k < self.storage@.len() ==> (#[trigger] self.storage@[k])
                            == before.storage@[k],
                decreases frames - i,
            {
                self.storage[c][i] = 0;
                i += 1;
            }
            assert(self.storage@[c as int]@ =~= Seq::new(frames as nat, |i: int| 0u32)
                + channel.skip(frames as int));
            c += 1;
        }
    }
}

/// Copies the first `count` samples of `source` to the start of `samples`.
fn copy_samples(samples: &mut Vec<u32>, source: &Vec<u32>, count: usize)
    requires
        count <= old(samples)@.len(),
        count <= source@.len(),
    ensures
        final(samples)@ == source@.take(count as int) + old(samples)@.skip(count as int),
{
    let ghost before = samples@;
    let mut i: usize = 0;
    while i < count
        invariant
            i <= count <= source@.len(),
            count <= before.len() == samples@.len(),
            forall|j: int| 0 <= j < i ==> samples@[j] == source@[j],
            forall|j: int| i <= j < before.len() ==> samples@[j] == before[j],
        decreases count - i,
    {
        samples[i] = source[i];
        i += 1;
    }
    assert(samples@ =~= source@.take(count as int) + before.skip(count as int));
}

fn fill_channel(
    buffer: &mut AudioBuffer,
    source: &Vec<u32>,
    bus: usize,
    channel: usize,
    num_frames: usize,
)
    requires
        old(buffer).wf(),
        !old(buffer).is_short_of(SAMPLE_SIZE * num_frames),
        num_frames <= source@.len(),
        SAMPLE_SIZE * num_frames <= u32::MAX,
    ensures
        final(buffer).holds_channel(*old(buffer), source@, bus, channel, num_frames as int),
{
    match &mut buffer.mData {
        BufferMemory::Null => {
            buffer.mNumberChannels = 1;
            buffer.mDataByteSize = SAMPLE_SIZE * num_frames as u32;
            buffer.mData = BufferMemory::Output { bus, channel };
        },
        BufferMemory::Host(samples) => {
            copy_samples(samples, source, num_frames);
        },
        BufferMemory::Output { .. } => {},
    }
}

/// The samples of all channels take turns: those of the first frame come first.
pub open spec fn is_interleaved(
    samples: Seq<u32>,
    storage: Seq<Vec<u32>>,
    channels: int,
    num_frames: int,
) -> bool {
    forall|f: int, c: int|
        0 <= f < num_frames && 0 <= c < channels ==> samples[f * channels + c] == (
        #[trigger] storage[c]@[f])
}

proof fn lemma_frame_index(f: int, c: int, channels: int, num_frames: int)
    requires
        0 <= f < num_frames,
        0 <= c < channels,
    ensures
        0 <= f * channels <= f * channels + c < (f + 1) * channels <= num_frames * channels,
        (f + 1) * channels == f * channels + channels,
{
    assert((f + 1) * channels == f * channels + channels) by (nonlinear_arith);
    assert((f + 1) * channels <= num_frames * channels) by (nonlinear_arith)
        requires
            f + 1 <= num_frames,
            0 < channels,
    ;
    assert(0 <= f * channels) by (nonlinear_arith)
        requires
            0 <= f,
            0 < channels,
    ;
}

fn interleave(samples: &mut Vec<u32>, storage: &Vec<Vec<u32>>, channels: usize, num_frames: usize)
    requires
        channels <= storage@.len(),
        forall|c: int| 0 <= c < channels ==> num_frames <= (#[trigger] storage@[c])@.len(),
        num_frames * channels <= old(samples)@.len(),
    ensures
        final(samples)@.len() == old(samples)@.len(),
        is_interleaved(final(samples)@, storage@, channels as int, num_frames as int),
        final(samples)@.skip(num_frames * channels) == old(samples)@.skip(num_frames * channels),
{
    let ghost before = samples@;
    let ghost total: usize = samples.len();
    let mut f: usize = 0;
    let mut start: usize = 0;
    while f < num_frames
        invariant
            f <= num_frames,
            start == f * channels,
            channels <= storage@.len(),
            forall|c: int| 0 <= c < channels ==> num_frames <= (#[trigger] storage@[c])@.len(),
            num_frames * channels <= before.len() == samples@.len() == total,
            is_interleaved(samples@, storage@, channels as int, f as int),
            forall|k: int| num_frames * channels <= k < before.len() ==> samples@[k] == before[k],
        decreases num_frames - f,
    {
        let mut c: usize = 0;
        while c < channels
            invariant
                f < num_frames,
                c <= channels <= storage@.len(),
                start == f * channels,
                forall|c: int| 0 <= c < channels ==> num_frames <= (#[trigger] storage@[c])@.len(),
                num_frames * channels <= before.len() == samples@.len() == total,
                is_interleaved(samples@, storage@, channels as int, f as int),
                forall|k: int|
                    0 <= k < c ==> samples@[f * channels + k] == (
                    #[trigger] storage@[k]@[f as int]),
                forall|k: int|
                    num_frames * channels <= k < before.len() ==> samples@[k] == before[k],
            decreases channels - c,
        {
            proof {
                lemma_frame_index(f as int, c as int, channels as int, num_frames as int);
                assert forall|g: int, d: int|
                    #![trigger storage@[d]@[g]]
                    0 <= g < f && 0 <= d < channels implies g * channels + d
                    < f * channels by {
                    lemma_frame_index(g, d, channels as int, f as int);
                }
            }
            samples[start + c] = storage[c][f];
            c += 1;
        }
        proof {
            if channels > 0 {
                lemma_frame_index(f as int, 0, channels as int, num_frames as int);
            } else {
                assert((f + 1) * channels == 0) by (nonlinear_arith)
                    requires
                        channels == 0,
                ;
                assert(f * channels == 0) by (nonlinear_arith)
                    requires
                        channels == 0,
                ;
            }
        }
        start += channels;
        f += 1;
        assert(is_interleaved(samples@, storage@, channels as int, f as int)) by {
            assert forall|g: int, d: int| 0 <= g < f && 0 <= d < channels implies samples@[g * channels
                + d] == (#[trigger] storage@[d]@[g]) by {
                if g == f - 1 {
                    assert(samples@[(f - 1) * channels + d] == storage@[d]@[f - 1]);
                }
            }
        }
    }
    assert(samples@.skip(num_frames * channels) =~= before.skip(num_frames * channels));
}

/// The first of `n` buffers that has memory, but less than `size` bytes of it; `n` where all of
/// them will do.
pub open spec fn first_short(buffers: Seq<AudioBuffer>, n: int, size: int) -> int
    decreases n,
{
    if n <= 0 {
        0
    } else {
        let first = first_short(buffers, n - 1, size);
        if first < n - 1 || buffers[n - 1].is_short_of(size) {
            first
        } else {
            n
        }
    }
}

/// Whether a single buffer can take all channels in turns.
pub open spec fn takes_interleaved(buffer: AudioBuffer, channels: int, num_frames: int) -> bool {
    &&& buffer.mData !is Null
    &&& buffer.mNumberChannels == channels
    &&& buffer.mDataByteSize >= num_frames * channels * SAMPLE_SIZE
}

/// The status of copying an output bus to the host's buffers: one buffer for each channel, or one
/// for all of them.
pub open spec fn copy_result(
    buffers: Option<Seq<AudioBuffer>>,
    has_bus: bool,
    channels: int,
    num_frames: int,
) -> Result<(), OSStatus> {
    if channels == 0 {
        Err(K_AUDIO_UNIT_ERR_INVALID_ELEMENT)
    } else if buffers is None {
        Err(K_AUDIO_UNIT_ERR_INVALID_PROPERTY_VALUE)
    } else if !has_bus {
        Err(K_AUDIO_UNIT_ERR_INVALID_ELEMENT)
    } else {
        let list = buffers->Some_0;
        let taken = if list.len() >= channels {
            first_short(list, channels, SAMPLE_SIZE * num_frames) == channels
        } else {
            list.len() == 1 && takes_interleaved(list[0], channels, num_frames)
        };
        if taken {
            Ok(())
        } else {
            Err(K_AUDIO_UNIT_ERR_INVALID_PROPERTY_VALUE)
        }
    }
}

/// What the host's buffers hold after copying. With one buffer for each channel, the buffers in
/// front of the first one that is too small are filled.
pub open spec fn copy_effect(
    before: Seq<AudioBuffer>,
    after: Seq<AudioBuffer>,
    storage: Seq<Vec<u32>>,
    bus: usize,
    channels: int,
    num_frames: int,
) -> bool {
    let filled = if before.len() >= channels {
        first_short(before, channels, SAMPLE_SIZE * num_frames)
    } else {
        0
    };
    &&& after.len() == before.len()
    &&& forall|i: int|
        0 <= i < filled ==> (#[trigger] after[i]).holds_channel(
            before[i],
            storage[i]@,
            bus,
            i as usize,
            num_frames,
        )
    &&& if before.len() < channels && before.len() == 1 && takes_interleaved(
        before[0],
        channels,
        num_frames,
    ) {
        &&& after[0].mNumberChannels == before[0].mNumberChannels
        &&& after[0].mDataByteSize == before[0].mDataByteSize
        &&& before[0].mData@ matches MemoryView::Host(old_samples) && after[0].mData@ matches MemoryView::Host(
            samples,
        ) && {
            &&& is_interleaved(samples, storage, channels, num_frames)
            &&& samples.skip(num_frames * channels) == old_samples.skip(num_frames * channels)
        }
    } else {
        forall|i: int| filled <= i < before.len() ==> (#[trigger] after[i]).same_as(before[i])
    }
}

/// Where an input bus takes its samples from.
#[derive(Clone, Copy, Debug, PartialEq, Eq, Structural)]
pub enum InputSource {
    /// Rendering output `sourceOutputNumber` of another unit.
    Connection(AudioUnitConnection),
    /// Calling a function of the host, which is not null.
    Callback { proc: usize, user_data: usize },
    /// Nothing: the bus is silent.
    Silence,
}

/// What the host is asked for: samples from a source, in one buffer for each channel.
#[derive(Clone, Copy, Debug, PartialEq, Eq, Structural)]
pub struct InputRequest {
    pub source: InputSource,
    pub number_buffers: u32,
    pub byte_size: u32,
}

/// Where an input bus takes its samples from. A connection goes before a callback.
pub open spec fn input_source(
    callback: Option<AURenderCallbackStruct>,
    connection: Option<AudioUnitConnection>,
) -> Result<InputSource, OSStatus> {
    match (connection, callback) {
        (Some(connection), _) => if connection.sourceAudioUnit == 0 {
            Err(K_AUDIO_UNIT_ERR_NO_CONNECTION)
        } else {
            Ok(InputSource::Connection(connection))
        },
        (None, Some(callback)) => match callback.inputProc {
            Some(proc) => Ok(
                InputSource::Callback { proc, user_data: callback.inputProcRefCon },
            ),
            None => Err(K_AUDIO_UNIT_ERR_NO_CONNECTION),
        },
        (None, None) => Ok(InputSource::Silence),
    }
}

fn choose_input_source(
    callback: Option<AURenderCallbackStruct>,
    connection: Option<AudioUnitConnection>,
) -> (source: Result<InputSource, OSStatus>)
    ensures
        source == input_source(callback, connection),
{
    match (connection, callback) {
        (Some(connection), _) => if connection.sourceAudioUnit == 0 {
            Err(K_AUDIO_UNIT_ERR_NO_CONNECTION)
        } else {
            Ok(InputSource::Connection(connection))
        },
        (None, Some(callback)) => match callback.inputProc {
            Some(proc) => Ok(
                InputSource::Callback { proc, user_data: callback.inputProcRefCon },
            ),
            None => Err(K_AUDIO_UNIT_ERR_NO_CONNECTION),
        },
        (None, None) => Ok(InputSource::Silence),
    }
}

/// The memory of all buses.
pub struct IOBuffers {
    pub input_busses: Vec<BusBuffers>,
    pub output_busses: Vec<BusBuffers>,
}

/// The buses have `counts` channels, with room for `frames` samples each.
pub open spec fn buses_have_room(buses: Seq<BusBuffers>, counts: Seq<u32>, frames: int) -> bool {
    &&& buses.len() == counts.len()
    &&& forall|b: int| 0 <= b < buses.len() ==> (#[trigger] buses[b]).has_room(counts[b] as int, frames)
}

fn new_buses(counts: &Vec<u32>, frames: usize) -> (buses: Vec<BusBuffers>)
    ensures
        buses_have_room(buses@, counts@, frames as int),
        forall|b: int, c: int, i: int|
            0 <= b < counts@.len() && 0 <= c < counts@[b] && 0 <= i < frames ==> (
            #[trigger] buses@[b].storage@[c]@[i]) == 0,
{
    let mut buses: Vec<BusBuffers> = Vec::new();
    let mut b: usize = 0;
    while b < counts.len()
        invariant
            b <= counts@.len(),
            buses@.len() == b,
            forall|k: int|
                0 <= k < b ==> (#[trigger] buses@[k]).has_room(counts@[k] as int, frames as int),
            forall|k: int, c: int, i: int|
                0 <= k < b && 0 <= c < counts@[k] && 0 <= i < frames ==> (
                #[trigger] buses@[k].storage@[c]@[i]) == 0,
        decreases counts@.len() - b,
    {
        buses.push(BusBuffers::new(counts[b], frames));
        b += 1;
    }
    buses
}

/// How many channels the main input and the main output both have.
pub open spec fn common_main_channels(layout: AudioIOLayout) -> int {
    match (layout.main_input_channels, layout.main_output_channels) {
        (Some(input), Some(output)) => if input < output {
            input as int
        } else {
            output as int
        },
        _ => 0,
    }
}

/// The samples from `start` up to, but without, `end` of the main output are those of the main
/// input in the channels that both have, and everything else is as before.
pub open spec fn main_input_copied(
    before: IOBuffers,
    after: IOBuffers,
    layout: AudioIOLayout,
    start: int,
    end: int,
) -> bool {
    if common_main_channels(layout) == 0 {
        after == before
    } else {
        &&& after.input_busses == before.input_busses
        &&& after.output_busses@.len() == before.output_busses@.len()
        &&& after.output_busses@[0].is_copied(
            before.output_busses@[0],
            before.input_busses@[0],
            common_main_channels(layout),
            start,
            end,
        )
        &&& forall|b: int|
            0 < b < after.output_busses@.len() ==> (#[trigger] after.output_busses@[b])
                == before.output_busses@[b]
    }
}

impl IOBuffers {
    /// There is room for blocks of `frames` samples on all buses of a layout.
    pub open spec fn fits(self, layout: AudioIOLayout, frames: int) -> bool {
        &&& buses_have_room(self.input_busses@, layout.buses(K_AUDIO_UNIT_SCOPE_INPUT), frames)
        &&& buses_have_room(self.output_busses@, layout.buses(K_AUDIO_UNIT_SCOPE_OUTPUT), frames)
    }

    /// Every channel has room for `frames` samples.
    pub open spec fn can_hold(self, frames: int) -> bool {
        &&& forall|b: int, c: int|
            0 <= b < self.input_busses@.len() && 0 <= c < self.input_busses@[b].storage@.len()
                ==> frames <= (#[trigger] self.input_busses@[b].storage@[c])@.len()
        &&& forall|b: int, c: int|
            0 <= b < self.output_busses@.len() && 0 <= c < self.output_busses@[b].storage@.len()
                ==> frames <= (#[trigger] self.output_busses@[b].storage@[c])@.len()
    }

    /// The first `frames` samples of every channel are silent.
    pub open spec fn is_silent(self, frames: int) -> bool {
        &&& forall|b: int, c: int, i: int|
            0 <= b < self.input_busses@.len() && 0 <= c < self.input_busses@[b].storage@.len()
                && 0 <= i < frames ==> (#[trigger] self.input_busses@[b].storage@[c]@[i]) == 0
        &&& forall|b: int, c: int, i: int|
            0 <= b < self.output_busses@.len() && 0 <= c < self.output_busses@[b].storage@.len()
                && 0 <= i < frames ==> (#[trigger] self.output_busses@[b].storage@[c]@[i]) == 0
    }

    /// Silent memory for the buses of a layout, for blocks of up to `max_buffer_size` samples.
    pub fn new(max_buffer_size: usize, layout: AudioIOLayout) -> (buffers: Self)
        ensures
            buffers.fits(layout, max_buffer_size as int),
            buffers.is_silent(max_buffer_size as int),
    {
        let input = bus_channel_counts_for_layout(layout, K_AUDIO_UNIT_SCOPE_INPUT);
        let output = bus_channel_counts_for_layout(layout, K_AUDIO_UNIT_SCOPE_OUTPUT);
        Self {
            input_busses: new_buses(&input, max_buffer_size),
            output_busses: new_buses(&output, max_buffer_size),
        }
    }

    /// Makes the first `num_frames` samples of an output bus silent, for the plugin to render
    /// into. The result is the number of its channels. A bus that is not there, or that has no
    /// channel, is an error.
    pub fn output_bus_pointers(&mut self, bus_idx: usize, num_frames: usize) -> (result: Result<
        usize,
        OSStatus,
    >)
        requires
            old(self).can_hold(num_frames as int),
        ensures
            final(self).input_busses == old(self).input_busses,
            final(self).output_busses@.len() == old(self).output_busses@.len(),
            forall|b: int|
                0 <= b < old(self).output_busses@.len() && b != bus_idx ==> (
                #[trigger] final(self).output_busses@[b]) == old(self).output_busses@[b],
            bus_idx < old(self).output_busses@.len() ==> (
            final(self).output_busses@[bus_idx as int]).is_silenced(
                old(self).output_busses@[bus_idx as int],
                num_frames as int,
            ),
            result == if bus_idx < old(self).output_busses@.len()
                && old(self).output_busses@[bus_idx as int].storage@.len() > 0 {
                Ok::<usize, OSStatus>(
                    old(self).output_busses@[bus_idx as int].storage@.len() as usize,
                )
            } else {
                Err(K_AUDIO_UNIT_ERR_INVALID_ELEMENT)
            },
    {
        if bus_idx >= self.output_busses.len() {
            return Err(K_AUDIO_UNIT_ERR_INVALID_ELEMENT);
        }
        let channels: usize = self.output_busses[bus_idx].storage.len();
        if channels == 0 {
            return Err(K_AUDIO_UNIT_ERR_INVALID_ELEMENT);
        }
        proof {
            assert forall|c: int|
                0 <= c < self.output_busses@[bus_idx as int].storage@.len() implies num_frames <= (
            #[trigger] self.output_busses@[bus_idx as int].storage@[c])@.len() by {}
        }
        self.output_busses[bus_idx].silence(num_frames);
        Ok(channels)
    }

    /// The main output starts as the main input: copies the samples from `start` up to, but
    /// without, `end` of each channel that both have.
    pub fn copy_main_input(&mut self, layout: AudioIOLayout, start: usize, end: usize)
        requires
            exists|frames: int| #[trigger] old(self).fits(layout, frames) && end <= frames,
            start <= end,
        ensures
            main_input_copied(*old(self), *final(self), layout, start as int, end as int),
    {
        let input: u32 = layout.main_input_channels.unwrap_or(0);
        let output: u32 = layout.main_output_channels.unwrap_or(0);
        let channels: u32 = if input < output {
            input
        } else {
            output
        };
        if channels > 0 {
            proof {
                let frames = choose|frames: int| #[trigger]
                    self.fits(layout, frames) && end <= frames;
                assert(self.input_busses@[0].has_room(input as int, frames));
                assert(self.output_busses@[0].has_room(output as int, frames));
            }
            self.output_busses[0].copy_range(&self.input_busses[0], channels as usize, start, end);
        }
    }

    /// Copies the first `num_frames` samples of an output bus to the buffers of the host.
    pub fn copy_output_bus_to_host(
        &self,
        bus_idx: usize,
        io_data: &mut Option<AudioBufferList>,
        output_channels: usize,
        num_frames: usize,
    ) -> (result: Result<(), OSStatus>)
        requires
            *old(io_data) matches Some(list) ==> list.wf(),
            bus_idx < self.output_busses@.len() ==> output_channels
                <= self.output_busses@[bus_idx as int].storage@.len(),
            self.can_hold(num_frames as int),
            output_channels <= u32::MAX,
            num_frames * SAMPLE_SIZE <= u32::MAX,
        ensures
            result == copy_result(
                match *old(io_data) {
                    Some(list) => Some(list.mBuffers@),
                    None => None,
                },
                bus_idx < self.output_busses@.len(),
                output_channels as int,
                num_frames as int,
            ),
            *final(io_data) is Some == *old(io_data) is Some,
            *old(io_data) matches Some(list) ==> if output_channels == 0 || bus_idx
                >= self.output_busses@.len() {
                *final(io_data) == *old(io_data)
            } else {
                copy_effect(
                    list.mBuffers@,
                    final(io_data)->Some_0.mBuffers@,
                    self.output_busses@[bus_idx as int].storage@,
                    bus_idx,
                    output_channels as int,
                    num_frames as int,
                )
            },
    {
        if output_channels == 0 {
            return Err(K_AUDIO_UNIT_ERR_INVALID_ELEMENT);
        }
        match io_data {
            None => Err(K_AUDIO_UNIT_ERR_INVALID_PROPERTY_VALUE),
            Some(list) => {
                if bus_idx >= self.output_busses.len() {
                    return Err(K_AUDIO_UNIT_ERR_INVALID_ELEMENT);
                }
                copy_channels(
                    &self.output_busses[bus_idx],
                    bus_idx,
                    list,
                    output_channels,
                    num_frames,
                )
            },
        }
    }

    /// What the host is asked for to fill an input bus. The bus has to be there, with at least
    /// `input_channels` channels, and at least one of them has to be asked for.
    pub fn pull_input(
        &self,
        bus_idx: u32,
        input_callback: Option<AURenderCallbackStruct>,
        input_connection: Option<AudioUnitConnection>,
        input_channels: usize,
        num_frames: u32,
    ) -> (request: Result<InputRequest, OSStatus>)
        requires
            num_frames * SAMPLE_SIZE <= u32::MAX,
            bus_idx < self.input_busses@.len() && input_channels
                <= self.input_busses@[bus_idx as int].storage@.len() ==> input_channels
                <= MAX_AUDIO_CHANNELS,
        ensures
            request == if bus_idx >= self.input_busses@.len() || input_channels == 0 {
                Err::<InputRequest, OSStatus>(K_AUDIO_UNIT_ERR_INVALID_ELEMENT)
            } else if input_channels > self.input_busses@[bus_idx as int].storage@.len() {
                Err(K_AUDIO_UNIT_ERR_INVALID_PROPERTY_VALUE)
            } else {
                match input_source(input_callback, input_connection) {
                    Ok(source) => Ok(
                        InputRequest {
                            source,
                            number_buffers: input_channels as u32,
                            byte_size: (num_frames * SAMPLE_SIZE) as u32,
                        },
                    ),
                    Err(status) => Err(status),
                }
            },
    {
        if bus_idx as usize >= self.input_busses.len() || input_channels == 0 {
            return Err(K_AUDIO_UNIT_ERR_INVALID_ELEMENT);
        }
        if input_channels > self.input_busses[bus_idx as usize].storage.len() {
            return Err(K_AUDIO_UNIT_ERR_INVALID_PROPERTY_VALUE);
        }
        match choose_input_source(input_callback, input_connection) {
            Ok(source) => Ok(
                InputRequest {
                    source,
                    number_buffers: input_channels as u32,
                    byte_size: num_frames * SAMPLE_SIZE,
                },
            ),
            Err(status) => Err(status),
        }
    }

    /// Ends filling an input bus, with the status that the host gave: an error is passed on, and
    /// a bus without a source becomes silent. The result is the number of channels.
    pub fn finish_input(
        &mut self,
        bus_idx: u32,
        request: InputRequest,
        status: OSStatus,
        num_frames: u32,
    ) -> (result: Result<usize, OSStatus>)
        requires
            bus_idx < old(self).input_busses@.len(),
            old(self).can_hold(num_frames as int),
        ensures
            final(self).output_busses == old(self).output_busses,
            final(self).input_busses@.len() == old(self).input_busses@.len(),
            forall|b: int|
                0 <= b < old(self).input_busses@.len() && b != bus_idx ==> (
                #[trigger] final(self).input_busses@[b]) == old(self).input_busses@[b],
            if request.source == InputSource::Silence {
                &&& result == Ok::<usize, OSStatus>(request.number_buffers as usize)
                &&& (final(self).input_busses@[bus_idx as int]).is_silenced(
                    old(self).input_busses@[bus_idx as int],
                    num_frames as int,
                )
            } else {
                &&& result == if status == 0 {
                    Ok::<usize, OSStatus>(request.number_buffers as usize)
                } else {
                    Err(status)
                }
                &&& *final(self) == *old(self)
            },
    {
        match request.source {
            InputSource::Silence => {
                proof {
                    assert forall|c: int|
                        0 <= c
                            < self.input_busses@[bus_idx as int].storage@.len() implies num_frames
                        <= (#[trigger] self.input_busses@[bus_idx as int].storage@[c])@.len() by {}
                }
                self.input_busses[bus_idx as usize].silence(num_frames as usize);
                Ok(request.number_buffers as usize)
            },
            _ => {
                if status != 0 {
                    Err(status)
                } else {
                    Ok(request.number_buffers as usize)
                }
            },
        }
    }
}

proof fn lemma_first_short(buffers: Seq<AudioBuffer>, n: int, size: int)
    requires
        0 <= n,
    ensures
        0 <= first_short(buffers, n, size) <= n,
        forall|i: int|
            0 <= i < first_short(buffers, n, size) ==> !(#[trigger] buffers[i]).is_short_of(size),
        first_short(buffers, n, size) < n ==> buffers[first_short(buffers, n, size)].is_short_of(
            size,
        ),
    decreases n,
{
    if n > 0 {
        lemma_first_short(buffers, n - 1, size);
    }
}

fn buffer_is_short(buffer: &AudioBuffer, size: u32) -> (short: bool)
    ensures
        short == buffer.is_short_of(size as int),
{
    match &buffer.mData {
        BufferMemory::Null => false,
        _ => buffer.mDataByteSize < size,
    }
}

fn copy_channels(
    bus: &BusBuffers,
    bus_idx: usize,
    list: &mut AudioBufferList,
    output_channels: usize,
    num_frames: usize,
) -> (result: Result<(), OSStatus>)
    requires
        old(list).wf(),
        0 < output_channels <= bus.storage@.len(),
        output_channels <= u32::MAX,
        forall|c: int| 0 <= c < bus.storage@.len() ==> num_frames <= (#[trigger] bus.storage@[c])@.len(),
        num_frames * SAMPLE_SIZE <= u32::MAX,
    ensures
        result == copy_result(
            Some(old(list).mBuffers@),
            true,
            output_channels as int,
            num_frames as int,
        ),
        copy_effect(
            old(list).mBuffers@,
            final(list).mBuffers@,
            bus.storage@,
            bus_idx,
            output_channels as int,
            num_frames as int,
        ),
{
    let ghost before = list.mBuffers@;
    let channel_size: u32 = num_frames as u32 * SAMPLE_SIZE;
    let count = list.mBuffers.len();
    if count >= output_channels {
        proof {
            lemma_first_short(before, output_channels as int, channel_size as int);
        }
        let ghost stop = first_short(before, output_channels as int, channel_size as int);
        let mut i: usize = 0;
        while i < output_channels
            invariant
                i <= output_channels <= bus.storage@.len(),
                output_channels <= list.mBuffers@.len() == before.len(),
                i <= stop <= output_channels,
                stop == first_short(before, output_channels as int, channel_size as int),
                forall|k: int| 0 <= k < stop ==> !(#[trigger] before[k]).is_short_of(
                    channel_size as int,
                ),
                stop < output_channels ==> before[stop].is_short_of(channel_size as int),
                channel_size == num_frames * SAMPLE_SIZE,
                before.len() > 0,
                forall|k: int| 0 <= k < before.len() ==> (#[trigger] before[k]).wf(),
                forall|c: int|
                    0 <= c < bus.storage@.len() ==> num_frames <= (
                    #[trigger] bus.storage@[c])@.len(),
                forall|k: int|
                    0 <= k < i ==> (#[trigger] list.mBuffers@[k]).holds_channel(
                        before[k],
                        bus.storage@[k]@,
                        bus_idx,
                        k as usize,
                        num_frames as int,
                    ),
                forall|k: int| i <= k < before.len() ==> (#[trigger] list.mBuffers@[k]) == before[k],
                before == old(list).mBuffers@,
            decreases output_channels - i,
        {
            if buffer_is_short(&list.mBuffers[i], channel_size) {
                assert(i == stop);
                return Err(K_AUDIO_UNIT_ERR_INVALID_PROPERTY_VALUE);
            }
            fill_channel(&mut list.mBuffers[i], &bus.storage[i], bus_idx, i, num_frames);
            i += 1;
        }
        return Ok(());
    }
    if count != 1 {
        return Err(K_AUDIO_UNIT_ERR_INVALID_PROPERTY_VALUE);
    }
    proof {
        assert(0 <= num_frames * output_channels <= 0x3FFF_FFFF * 0xFFFF_FFFF) by (nonlinear_arith)
            requires
                0 <= num_frames <= 0x3FFF_FFFF,
                0 <= output_channels <= 0xFFFF_FFFF,
        ;
    }
    let required: u64 = num_frames as u64 * output_channels as u64 * SAMPLE_SIZE as u64;
    let channels: u32 = list.mBuffers[0].mNumberChannels;
    let size: u32 = list.mBuffers[0].mDataByteSize;
    if channels != output_channels as u32 || (size as u64) < required {
        return Err(K_AUDIO_UNIT_ERR_INVALID_PROPERTY_VALUE);
    }
    assert(before[0].wf());
    match &mut list.mBuffers[0].mData {
        BufferMemory::Host(samples) => {
            interleave(samples, &bus.storage, output_channels, num_frames);
            Ok(())
        },
        _ => Err(K_AUDIO_UNIT_ERR_INVALID_PROPERTY_VALUE),
    }
}

/// Silencing a bus makes the first samples of every channel zero, and leaves the others as they
/// were.
pub proof fn silenced_samples_are_zero(
    before: BusBuffers,
    after: BusBuffers,
    frames: int,
    channel: int,
    i: int,
)
    requires
        after.is_silenced(before, frames),
        0 <= channel < before.storage@.len(),
        0 <= frames <= before.storage@[channel]@.len(),
        0 <= i < before.storage@[channel]@.len(),
    ensures
        after.storage@.len() == before.storage@.len(),
        after.storage@[channel]@.len() == before.storage@[channel]@.len(),
        i < frames ==> after.storage@[channel]@[i] == 0,
        i >= frames ==> after.storage@[channel]@[i] == before.storage@[channel]@[i],
{
}

/// The main input goes to the main output sample by sample and channel by channel, within the
/// range that is asked for and in the channels that both have. Every other sample stays.
pub proof fn main_input_is_copied_in_place(
    before: IOBuffers,
    after: IOBuffers,
    layout: AudioIOLayout,
    frames: int,
    start: int,
    end: int,
    bus: int,
    channel: int,
    i: int,
)
    requires
        before.fits(layout, frames),
        0 <= start <= end <= frames,
        main_input_copied(before, after, layout, start, end),
        0 <= bus < before.output_busses@.len(),
        0 <= channel < before.output_busses@[bus].storage@.len(),
        0 <= i < frames,
    ensures
        after.input_busses == before.input_busses,
        ({
            let sample = after.output_busses@[bus].storage@[channel]@[i];
            let copied = bus == 0 && start <= i < end && (
            layout.main_input_channels matches Some(input) && channel < input)
                && layout.main_output_channels is Some;
            if copied {
                sample == before.input_busses@[0].storage@[channel]@[i]
            } else {
                sample == before.output_busses@[bus].storage@[channel]@[i]
            }
        }),
{
    let counts = layout.buses(K_AUDIO_UNIT_SCOPE_OUTPUT);
    assert(before.output_busses@[bus].has_room(counts[bus] as int, frames));
    assert(before.output_busses@[bus].storage@[channel]@.len() == frames);
    if common_main_channels(layout) > 0 {
        assert(before.input_busses@[0].has_room(
            layout.buses(K_AUDIO_UNIT_SCOPE_INPUT)[0] as int,
            frames,
        ));
        if bus == 0 {
            assert(after.output_busses@[0].storage@[channel]@
                == after.output_busses@[0].storage@[channel]@);
            if channel < common_main_channels(layout) {
                assert(before.input_busses@[0].storage@[channel]@.len() == frames);
            }
        }
    }
}

/// A buffer with memory of the host gets the samples of its channel at its start, and keeps what
/// stands behind them. A buffer without memory gets that of the channel, with its size and one
/// channel.
pub proof fn buffer_gets_its_channel(
    before: AudioBuffer,
    after: AudioBuffer,
    source: Seq<u32>,
    bus: usize,
    channel: usize,
    num_frames: int,
    i: int,
)
    requires
        after.holds_channel(before, source, bus, channel, num_frames),
        0 <= num_frames <= source.len(),
    ensures
        before.mData@ matches MemoryView::Host(samples) ==> num_frames <= samples.len() ==> (
        after.mData@ matches MemoryView::Host(copied) && {
            &&& copied.len() == samples.len()
            &&& 0 <= i < num_frames ==> copied[i] == source[i]
            &&& num_frames <= i < samples.len() ==> copied[i] == samples[i]
            &&& after.mDataByteSize == before.mDataByteSize
            &&& after.mNumberChannels == before.mNumberChannels
        }),
        before.mData@ is Null ==> {
            &&& after.mData@ == (MemoryView::Output { bus, channel })
            &&& after.mDataByteSize == 4 * num_frames
            &&& after.mNumberChannels == 1
        },
{
}

/// In a buffer for all channels, the samples of one moment stand together: sample number `k` is
/// that of channel `k` modulo the number of channels.
pub proof fn channels_take_turns(
    samples: Seq<u32>,
    storage: Seq<Vec<u32>>,
    channels: int,
    num_frames: int,
    k: int,
)
    requires
        is_interleaved(samples, storage, channels, num_frames),
        0 < channels,
        0 <= k < num_frames * channels,
    ensures
        samples[k] == storage[k % channels]@[k / channels],
{
    let f = k / channels;
    let c = k % channels;
    vstd::arithmetic::div_mod::lemma_fundamental_div_mod(k, channels);
    assert(0 <= c < channels) by {
        vstd::arithmetic::div_mod::lemma_mod_bound(k, channels);
    }
    assert(0 <= f < num_frames) by (nonlinear_arith)
        requires
            0 <= k < num_frames * channels,
            k == channels * f + c,
            0 <= c < channels,
    ;
    assert(f * channels + c == k) by (nonlinear_arith)
        requires
            k == channels * f + c,
    ;
    assert(storage[c]@[f] == storage[c]@[f]);
}

/// The first buffer that is too small is found: those in front of it have no memory or enough of
/// it, and where all of them do, there is none.
pub proof fn first_short_buffer_is_found(buffers: Seq<AudioBuffer>, n: int, size: int, i: int)
    requires
        0 <= n,
        0 <= i < n,
    ensures
        0 <= first_short(buffers, n, size) <= n,
        i < first_short(buffers, n, size) ==> buffers[i].mData@ is Null || buffers[i].mDataByteSize
            >= size,
        i == first_short(buffers, n, size) ==> !(buffers[i].mData@ is Null)
            && buffers[i].mDataByteSize < size,
{
    lemma_first_short(buffers, n, size);
    assert(buffers[i].is_short_of(size) <==> !(buffers[i].mData@ is Null)
        && buffers[i].mDataByteSize < size);
}

/// Copying succeeds where every channel has a buffer of its own without memory or with enough of
/// it, and where a single buffer for that many channels has enough memory for all of them. It
/// needs a bus with channels and the host's buffers.
pub proof fn copying_needs_room(
    list: Seq<AudioBuffer>,
    has_bus: bool,
    channels: int,
    num_frames: int,
)
    requires
        channels >= 0,
        num_frames >= 0,
    ensures
        copy_result(Some(list), has_bus, channels, num_frames) is Ok <==> {
            &&& channels > 0
            &&& has_bus
            &&& (list.len() >= channels && forall|i: int|
                0 <= i < channels ==> (#[trigger] list[i]).mData@ is Null || list[i].mDataByteSize
                    >= 4 * num_frames) || (list.len() == 1 && channels > 1 && !(
            list[0].mData@ is Null) && list[0].mNumberChannels == channels && list[0].mDataByteSize
                >= num_frames * channels * 4)
        },
        copy_result(None, has_bus, channels, num_frames) is Err,
        channels == 0 ==> copy_result(Some(list), has_bus, channels, num_frames) == Err::<
            (),
            OSStatus,
        >(K_AUDIO_UNIT_ERR_INVALID_ELEMENT),
        channels > 0 && !has_bus ==> copy_result(Some(list), has_bus, channels, num_frames) == Err::<
            (),
            OSStatus,
        >(K_AUDIO_UNIT_ERR_INVALID_ELEMENT),
        channels > 0 ==> copy_result(None, has_bus, channels, num_frames) == Err::<(), OSStatus>(
            K_AUDIO_UNIT_ERR_INVALID_PROPERTY_VALUE,
        ),
        channels > 0 && has_bus && copy_result(Some(list), has_bus, channels, num_frames) is Err
            ==> copy_result(Some(list), has_bus, channels, num_frames) == Err::<(), OSStatus>(
            K_AUDIO_UNIT_ERR_INVALID_PROPERTY_VALUE,
        ),
{
    let size = SAMPLE_SIZE * num_frames;
    if channels > 0 {
        lemma_first_short(list, channels, size);
        let first = first_short(list, channels, size);
        assert forall|i: int| 0 <= i < channels implies ((#[trigger] list[i]).is_short_of(size)
            <==> !(list[i].mData@ is Null) && list[i].mDataByteSize < 4 * num_frames) by {}
        if first < channels {
            assert(list[first].is_short_of(size));
        }
    }
}

/// Where copying succeeds with a buffer for each channel, each of them holds its own channel, and
/// the buffers behind them stay as they were.
pub proof fn each_buffer_holds_its_channel(
    before: Seq<AudioBuffer>,
    after: Seq<AudioBuffer>,
    storage: Seq<Vec<u32>>,
    bus: usize,
    channels: int,
    num_frames: int,
    i: int,
)
    requires
        0 < channels <= before.len(),
        copy_effect(before, after, storage, bus, channels, num_frames),
        copy_result(Some(before), true, channels, num_frames) is Ok,
        0 <= i < before.len(),
    ensures
        after.len() == before.len(),
        i < channels ==> after[i].holds_channel(
            before[i],
            storage[i]@,
            bus,
            i as usize,
            num_frames,
        ),
        i >= channels ==> after[i].mData@ == before[i].mData@ && after[i].mDataByteSize
            == before[i].mDataByteSize && after[i].mNumberChannels == before[i].mNumberChannels,
{
}

/// Where copying succeeds with a single buffer, it holds all channels in turns and keeps what
/// stands behind them. Where it fails, a single buffer stays as it was.
pub proof fn single_buffer_holds_all_channels(
    before: AudioBuffer,
    after: Seq<AudioBuffer>,
    storage: Seq<Vec<u32>>,
    bus: usize,
    channels: int,
    num_frames: int,
    k: int,
)
    requires
        channels > 1,
        num_frames >= 0,
        copy_effect(seq![before], after, storage, bus, channels, num_frames),
    ensures
        after.len() == 1,
        copy_result(Some(seq![before]), true, channels, num_frames) is Ok ==> (
        before.mData@ matches MemoryView::Host(given) && after[0].mData@ matches MemoryView::Host(
            samples,
        ) && {
            &&& 0 <= k < num_frames * channels ==> samples[k] == storage[k % channels]@[k
                / channels]
            &&& samples.skip(num_frames * channels) == given.skip(num_frames * channels)
            &&& after[0].mDataByteSize == before.mDataByteSize
            &&& after[0].mNumberChannels == channels
        }),
        copy_result(Some(seq![before]), true, channels, num_frames) is Err ==> after[0].mData@
            == before.mData@,
{
    if copy_result(Some(seq![before]), true, channels, num_frames) is Ok {
        if 0 <= k < num_frames * channels {
            if let MemoryView::Host(samples) = after[0].mData@ {
                channels_take_turns(samples, storage, channels, num_frames, k);
            }
        }
    }
}

/// A bus with a connection takes its samples from there, whatever callback it has; one with a
/// callback alone calls it with the address that the host gave; and one with neither is silent. A
/// source that leads nowhere is an error.
pub proof fn connection_comes_before_callback(
    callback: Option<AURenderCallbackStruct>,
    connection: AudioUnitConnection,
    called: AURenderCallbackStruct,
)
    ensures
        connection.sourceAudioUnit != 0 ==> input_source(callback, Some(connection)) == Ok::<
            InputSource,
            OSStatus,
        >(InputSource::Connection(connection)),
        connection.sourceAudioUnit == 0 ==> input_source(callback, Some(connection)) == Err::<
            InputSource,
            OSStatus,
        >(K_AUDIO_UNIT_ERR_NO_CONNECTION),
        called.inputProc matches Some(proc) ==> input_source(Some(called), None) == Ok::<
            InputSource,
            OSStatus,
        >(InputSource::Callback { proc, user_data: called.inputProcRefCon }),
        called.inputProc is None ==> input_source(Some(called), None) == Err::<
            InputSource,
            OSStatus,
        >(K_AUDIO_UNIT_ERR_NO_CONNECTION),
        input_source(None, None) == Ok::<InputSource, OSStatus>(InputSource::Silence),
{
}

/// The memory of a unit has one bus for each bus of its layout, with its channels, and room for as
/// many samples in each channel as a block can have.
pub proof fn memory_has_the_shape_of_the_layout(
    buffers: IOBuffers,
    layout: AudioIOLayout,
    frames: int,
    bus: int,
    channel: int,
)
    requires
        buffers.fits(layout, frames),
    ensures
        buffers.input_busses@.len() == layout.buses(1).len(),
        buffers.output_busses@.len() == layout.buses(2).len(),
        0 <= bus < layout.buses(1).len() ==> buffers.input_busses@[bus].storage@.len()
            == layout.buses(1)[bus],
        0 <= bus < layout.buses(2).len() ==> buffers.output_busses@[bus].storage@.len()
            == layout.buses(2)[bus],
        0 <= bus < layout.buses(1).len() && 0 <= channel < layout.buses(1)[bus]
            ==> buffers.input_busses@[bus].storage@[channel]@.len() == frames,
        0 <= bus < layout.buses(2).len() && 0 <= channel < layout.buses(2)[bus]
            ==> buffers.output_busses@[bus].storage@[channel]@.len() == frames,
{
    if 0 <= bus < layout.buses(1).len() {
        assert(buffers.input_busses@[bus].has_room(layout.buses(1)[bus] as int, frames));
    }
    if 0 <= bus < layout.buses(2).len() {
        assert(buffers.output_busses@[bus].has_room(layout.buses(2)[bus] as int, frames));
    }
}

/// In silent memory every sample of every channel is zero, from the first to the last of a block.
pub proof fn silent_memory_holds_zeros(
    buffers: IOBuffers,
    frames: int,
    bus: int,
    channel: int,
    sample: int,
)
    requires
        buffers.is_silent(frames),
        0 <= sample < frames,
    ensures
        0 <= bus < buffers.input_busses@.len() && 0 <= channel
            < buffers.input_busses@[bus].storage@.len()
            ==> buffers.input_busses@[bus].storage@[channel]@[sample] == 0,
        0 <= bus < buffers.output_busses@.len() && 0 <= channel
            < buffers.output_busses@[bus].storage@.len()
            ==> buffers.output_busses@[bus].storage@[channel]@[sample] == 0,
{
}

} // verus!
