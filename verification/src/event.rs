//! Note and MIDI events and their timing within a block of samples.
use vstd::prelude::*;

verus! {

/// An event that a plugin receives or sends, at a sample offset within a block.
///
/// Velocities, pressures and other real values are the bits of an `f32`. `S` stands for a SysEx
/// message.
#[derive(Clone, Copy, Debug, PartialEq, Eq, Structural)]
#[allow(inconsistent_fields)]
pub enum NoteEvent<S> {
    NoteOn { timing: u32, voice_id: Option<i32>, channel: u8, note: u8, velocity: u32 },
    NoteOff { timing: u32, voice_id: Option<i32>, channel: u8, note: u8, velocity: u32 },
    Choke { timing: u32, voice_id: Option<i32>, channel: u8, note: u8 },
    VoiceTerminated { timing: u32, voice_id: Option<i32>, channel: u8, note: u8 },
    PolyModulation { timing: u32, voice_id: i32, poly_modulation_id: u32, normalized_offset: u32 },
    MonoAutomation { timing: u32, poly_modulation_id: u32, normalized_value: u32 },
    PolyPressure { timing: u32, voice_id: Option<i32>, channel: u8, note: u8, pressure: u32 },
    PolyVolume { timing: u32, voice_id: Option<i32>, channel: u8, note: u8, gain: u32 },
    PolyPan { timing: u32, voice_id: Option<i32>, channel: u8, note: u8, pan: u32 },
    PolyTuning { timing: u32, voice_id: Option<i32>, channel: u8, note: u8, tuning: u32 },
    PolyVibrato { timing: u32, voice_id: Option<i32>, channel: u8, note: u8, vibrato: u32 },
    PolyExpression { timing: u32, voice_id: Option<i32>, channel: u8, note: u8, expression: u32 },
    PolyBrightness { timing: u32, voice_id: Option<i32>, channel: u8, note: u8, brightness: u32 },
    MidiChannelPressure { timing: u32, channel: u8, pressure: u32 },
    MidiPitchBend { timing: u32, channel: u8, value: u32 },
    MidiCC { timing: u32, channel: u8, cc: u8, value: u32 },
    MidiProgramChange { timing: u32, channel: u8, program: u8 },
    MidiSysEx { timing: u32, message: S },
}

/// A SysEx message that the caller keeps, by the number under which it is kept.
#[derive(Clone, Copy, Debug, PartialEq, Eq, Structural)]
pub struct SysExHandle {
    pub id: u64,
}

/// The events of a plugin.
pub type PluginNoteEvent = NoteEvent<SysExHandle>;

impl<S> NoteEvent<S> {
    /// The sample offset of the event.
    pub open spec fn time(self) -> u32 {
        match self {
            NoteEvent::NoteOn { timing, .. } => timing,
            NoteEvent::NoteOff { timing, .. } => timing,
            NoteEvent::Choke { timing, .. } => timing,
            NoteEvent::VoiceTerminated { timing, .. } => timing,
            NoteEvent::PolyModulation { timing, .. } => timing,
            NoteEvent::MonoAutomation { timing, .. } => timing,
            NoteEvent::PolyPressure { timing, .. } => timing,
            NoteEvent::PolyVolume { timing, .. } => timing,
            NoteEvent::PolyPan { timing, .. } => timing,
            NoteEvent::PolyTuning { timing, .. } => timing,
            NoteEvent::PolyVibrato { timing, .. } => timing,
            NoteEvent::PolyExpression { timing, .. } => timing,
            NoteEvent::PolyBrightness { timing, .. } => timing,
            NoteEvent::MidiChannelPressure { timing, .. } => timing,
            NoteEvent::MidiPitchBend { timing, .. } => timing,
            NoteEvent::MidiCC { timing, .. } => timing,
            NoteEvent::MidiProgramChange { timing, .. } => timing,
            NoteEvent::MidiSysEx { timing, .. } => timing,
        }
    }

    /// The same event at another sample offset.
    pub open spec fn at(self, timing: u32) -> Self {
        match self {
            NoteEvent::NoteOn { timing: _, voice_id, channel, note, velocity } => NoteEvent::NoteOn { timing, voice_id, channel, note, velocity },
            NoteEvent::NoteOff { timing: _, voice_id, channel, note, velocity } => NoteEvent::NoteOff { timing, voice_id, channel, note, velocity },
            NoteEvent::Choke { timing: _, voice_id, channel, note } => NoteEvent::Choke { timing, voice_id, channel, note },
            NoteEvent::VoiceTerminated { timing: _, voice_id, channel, note } => NoteEvent::VoiceTerminated { timing, voice_id, channel, note },
            NoteEvent::PolyModulation { timing: _, voice_id, poly_modulation_id, normalized_offset } => NoteEvent::PolyModulation { timing, voice_id, poly_modulation_id, normalized_offset },
            NoteEvent::MonoAutomation { timing: _, poly_modulation_id, normalized_value } => NoteEvent::MonoAutomation { timing, poly_modulation_id, normalized_value },
            NoteEvent::PolyPressure { timing: _, voice_id, channel, note, pressure } => NoteEvent::PolyPressure { timing, voice_id, channel, note, pressure },
            NoteEvent::PolyVolume { timing: _, voice_id, channel, note, gain } => NoteEvent::PolyVolume { timing, voice_id, channel, note, gain },
            NoteEvent::PolyPan { timing: _, voice_id, channel, note, pan } => NoteEvent::PolyPan { timing, voice_id, channel, note, pan },
            NoteEvent::PolyTuning { timing: _, voice_id, channel, note, tuning } => NoteEvent::PolyTuning { timing, voice_id, channel, note, tuning },
            NoteEvent::PolyVibrato { timing: _, voice_id, channel, note, vibrato } => NoteEvent::PolyVibrato { timing, voice_id, channel, note, vibrato },
            NoteEvent::PolyExpression { timing: _, voice_id, channel, note, expression } => NoteEvent::PolyExpression { timing, voice_id, channel, note, expression },
            NoteEvent::PolyBrightness { timing: _, voice_id, channel, note, brightness } => NoteEvent::PolyBrightness { timing, voice_id, channel, note, brightness },
            NoteEvent::MidiChannelPressure { timing: _, channel, pressure } => NoteEvent::MidiChannelPressure { timing, channel, pressure },
            NoteEvent::MidiPitchBend { timing: _, channel, value } => NoteEvent::MidiPitchBend { timing, channel, value },
            NoteEvent::MidiCC { timing: _, channel, cc, value } => NoteEvent::MidiCC { timing, channel, cc, value },
            NoteEvent::MidiProgramChange { timing: _, channel, program } => NoteEvent::MidiProgramChange { timing, channel, program },
            NoteEvent::MidiSysEx { timing: _, message } => NoteEvent::MidiSysEx { timing, message },
        }
    }

    /// The sample offset of the event.
    pub fn timing(&self) -> (timing: u32)
        ensures
            timing == self.time(),
    {
        match self {
            NoteEvent::NoteOn { timing, .. } => *timing,
            NoteEvent::NoteOff { timing, .. } => *timing,
            NoteEvent::Choke { timing, .. } => *timing,
            NoteEvent::VoiceTerminated { timing, .. } => *timing,
            NoteEvent::PolyModulation { timing, .. } => *timing,
            NoteEvent::MonoAutomation { timing, .. } => *timing,
            NoteEvent::PolyPressure { timing, .. } => *timing,
            NoteEvent::PolyVolume { timing, .. } => *timing,
            NoteEvent::PolyPan { timing, .. } => *timing,
            NoteEvent::PolyTuning { timing, .. } => *timing,
            NoteEvent::PolyVibrato { timing, .. } => *timing,
            NoteEvent::PolyExpression { timing, .. } => *timing,
            NoteEvent::PolyBrightness { timing, .. } => *timing,
            NoteEvent::MidiChannelPressure { timing, .. } => *timing,
            NoteEvent::MidiPitchBend { timing, .. } => *timing,
            NoteEvent::MidiCC { timing, .. } => *timing,
            NoteEvent::MidiProgramChange { timing, .. } => *timing,
            NoteEvent::MidiSysEx { timing, .. } => *timing,
        }
    }

    /// Moves the event `samples` samples towards the start of its block.
    pub fn subtract_timing(&mut self, samples: u32)
        requires
            samples <= old(self).time(),
        ensures
            *final(self) == old(self).at((old(self).time() - samples) as u32),
    {
        let timing = self.timing() - samples;
        set_event_timing(self, timing);
    }
}

/// Moves an event to another sample offset.
pub fn set_event_timing<S>(event: &mut NoteEvent<S>, timing: u32)
    ensures
        *final(event) == old(event).at(timing),
{
    match event {
        NoteEvent::NoteOn { timing: current, .. } => *current = timing,
        NoteEvent::NoteOff { timing: current, .. } => *current = timing,
        NoteEvent::Choke { timing: current, .. } => *current = timing,
        NoteEvent::VoiceTerminated { timing: current, .. } => *current = timing,
        NoteEvent::PolyModulation { timing: current, .. } => *current = timing,
        NoteEvent::MonoAutomation { timing: current, .. } => *current = timing,
        NoteEvent::PolyPressure { timing: current, .. } => *current = timing,
        NoteEvent::PolyVolume { timing: current, .. } => *current = timing,
        NoteEvent::PolyPan { timing: current, .. } => *current = timing,
        NoteEvent::PolyTuning { timing: current, .. } => *current = timing,
        NoteEvent::PolyVibrato { timing: current, .. } => *current = timing,
        NoteEvent::PolyExpression { timing: current, .. } => *current = timing,
        NoteEvent::PolyBrightness { timing: current, .. } => *current = timing,
        NoteEvent::MidiChannelPressure { timing: current, .. } => *current = timing,
        NoteEvent::MidiPitchBend { timing: current, .. } => *current = timing,
        NoteEvent::MidiCC { timing: current, .. } => *current = timing,
        NoteEvent::MidiProgramChange { timing: current, .. } => *current = timing,
        NoteEvent::MidiSysEx { timing: current, .. } => *current = timing,
    }
}

/// The sum of two sample offsets, held at the largest one.
pub open spec fn saturating_sum(a: u32, b: u32) -> u32 {
    if a + b > u32::MAX {
        u32::MAX
    } else {
        (a + b) as u32
    }
}

/// Moves an event `samples` samples later. The offset stays at its largest value where the sum
/// has no room.
pub fn add_event_timing<S>(event: &mut NoteEvent<S>, samples: u32)
    ensures
        *final(event) == old(event).at(saturating_sum(old(event).time(), samples)),
{
    let timing = event.timing().saturating_add(samples);
    set_event_timing(event, timing);
}

/// The offset of an event within a buffer of `num_frames` samples: at most the last sample.
pub open spec fn clamped_timing(timing: u32, num_frames: u32) -> u32 {
    if num_frames == 0 {
        0
    } else if timing < num_frames {
        timing
    } else {
        (num_frames - 1) as u32
    }
}

/// The offset of an input event within a buffer: an event behind the buffer's end happens at its
/// last sample.
pub fn clamp_input_event_timing(timing: u32, num_frames: u32) -> (clamped: u32)
    ensures
        clamped == clamped_timing(timing, num_frames),
{
    let last = num_frames.saturating_sub(1);
    if timing < last {
        timing
    } else {
        last
    }
}

/// The offset of an output event within a buffer: an event behind the buffer's end happens at
/// its last sample.
pub fn clamp_output_event_timing(timing: u32, num_frames: u32) -> (clamped: u32)
    ensures
        clamped == clamped_timing(timing, num_frames),
{
    clamp_input_event_timing(timing, num_frames)
}

/// Moving an event changes its offset and nothing else: moving it back gives the event itself.
pub proof fn moving_an_event_keeps_the_rest<S>(event: NoteEvent<S>, timing: u32)
    ensures
        event.at(timing).time() == timing,
        event.at(timing).at(event.time()) == event,
{
}

/// Moving an event to where it is leaves it as it is, and of two moves the last one counts.
pub proof fn last_move_counts<S>(event: NoteEvent<S>, first: u32, second: u32)
    ensures
        event.at(event.time()) == event,
        event.at(first).at(second) == event.at(second),
        event.at(first) == event.at(second) ==> first == second,
{
}

/// An event that is moved later by some samples is that much later, or as late as it can be, and
/// never earlier. Moving it in two steps is the same as moving it in one.
pub proof fn moved_events_are_later(timing: u32, samples: u32, more: u32)
    ensures
        timing + samples <= 0xFFFF_FFFF ==> saturating_sum(timing, samples) == timing + samples,
        timing + samples > 0xFFFF_FFFF ==> saturating_sum(timing, samples) == 0xFFFF_FFFF,
        saturating_sum(timing, samples) >= timing,
        saturating_sum(timing, 0) == timing,
        samples + more <= 0xFFFF_FFFF ==> saturating_sum(saturating_sum(timing, samples), more)
            == saturating_sum(timing, (samples + more) as u32),
{
}

/// An event within a buffer stays where it is. One behind the buffer happens at the last sample,
/// and events keep their order. A buffer without samples has only its start.
pub proof fn events_stay_within_the_buffer(timing: u32, later: u32, num_frames: u32)
    ensures
        timing < num_frames ==> clamped_timing(timing, num_frames) == timing,
        num_frames > 0 ==> clamped_timing(timing, num_frames) < num_frames,
        num_frames > 0 && timing >= num_frames ==> clamped_timing(timing, num_frames) + 1
            == num_frames,
        num_frames == 0 ==> clamped_timing(timing, num_frames) == 0,
        timing <= later ==> clamped_timing(timing, num_frames) <= clamped_timing(
            later,
            num_frames,
        ),
{
}

} // verus!
