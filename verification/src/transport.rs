//! The transport: what the host says about its position, and what the plugin gets to see of it.
use vstd::prelude::*;

use crate::host::{AudioTimeStamp, HostCallbackInfo, OSStatus};

verus! {

/// Where the host is and how fast it moves. Rates, tempos and positions in seconds or beats are
/// the bits of an `f64`.
#[derive(Clone, Copy, Debug, PartialEq, Eq)]
pub struct Transport {
    pub sample_rate: u64,
    pub playing: bool,
    pub recording: bool,
    pub preroll_active: Option<bool>,
    pub tempo: Option<u64>,
    pub time_sig_numerator: Option<i32>,
    pub time_sig_denominator: Option<i32>,
    pub pos_samples: Option<i64>,
    pub pos_seconds: Option<u64>,
    pub pos_beats: Option<u64>,
    pub bar_start_pos_beats: Option<u64>,
    pub loop_range_samples: Option<(i64, i64)>,
    pub loop_range_seconds: Option<(u64, u64)>,
    pub loop_range_beats: Option<(u64, u64)>,
}

/// A transport that stands still and says nothing about its position.
pub open spec fn unknown_transport(sample_rate: u64) -> Transport {
    Transport {
        sample_rate,
        playing: false,
        recording: false,
        preroll_active: None,
        tempo: None,
        time_sig_numerator: None,
        time_sig_denominator: None,
        pos_samples: None,
        pos_seconds: None,
        pos_beats: None,
        bar_start_pos_beats: None,
        loop_range_samples: None,
        loop_range_seconds: None,
        loop_range_beats: None,
    }
}

impl Transport {
    /// A transport that stands still and says nothing about its position.
    pub fn new(sample_rate: u64) -> (transport: Self)
        ensures
            transport == unknown_transport(sample_rate),
    {
        Transport {
            sample_rate,
            playing: false,
            recording: false,
            preroll_active: None,
            tempo: None,
            time_sig_numerator: None,
            time_sig_denominator: None,
            pos_samples: None,
            pos_seconds: None,
            pos_beats: None,
            bar_start_pos_beats: None,
            loop_range_samples: None,
            loop_range_seconds: None,
            loop_range_beats: None,
        }
    }
}

/// Which of the host's functions is asked for the transport state.
#[derive(Clone, Copy, Debug, PartialEq, Eq, Structural)]
pub enum StateQuery {
    Nothing,
    /// The function that does not know about recording.
    TransportState(usize),
    /// The function that also tells whether the host records.
    TransportState2(usize),
}

/// What the host is asked about the transport, with the address that its functions get back.
#[derive(Clone, Copy, Debug, PartialEq, Eq, Structural)]
pub struct TransportQueries {
    pub user_data: usize,
    pub state: StateQuery,
    pub beat_and_tempo: Option<usize>,
    pub musical_time_location: Option<usize>,
}

/// What the host is asked: the newer of the two functions for the transport state, and all
/// others.
pub open spec fn queries_for(callbacks: Option<HostCallbackInfo>) -> TransportQueries {
    match callbacks {
        Some(callbacks) => TransportQueries {
            user_data: callbacks.hostUserData,
            state: match (callbacks.transportStateProc2, callbacks.transportStateProc) {
                (Some(proc), _) => StateQuery::TransportState2(proc),
                (None, Some(proc)) => StateQuery::TransportState(proc),
                (None, None) => StateQuery::Nothing,
            },
            beat_and_tempo: callbacks.beatAndTempoProc,
            musical_time_location: callbacks.musicalTimeLocationProc,
        },
        None => TransportQueries {
            user_data: 0,
            state: StateQuery::Nothing,
            beat_and_tempo: None,
            musical_time_location: None,
        },
    }
}

/// What the host is asked about the transport.
pub fn transport_queries(callbacks: Option<HostCallbackInfo>) -> (queries: TransportQueries)
    ensures
        queries == queries_for(callbacks),
{
    match callbacks {
        Some(callbacks) => TransportQueries {
            user_data: callbacks.hostUserData,
            state: match (callbacks.transportStateProc2, callbacks.transportStateProc) {
                (Some(proc), _) => StateQuery::TransportState2(proc),
                (None, Some(proc)) => StateQuery::TransportState(proc),
                (None, None) => StateQuery::Nothing,
            },
            beat_and_tempo: callbacks.beatAndTempoProc,
            musical_time_location: callbacks.musicalTimeLocationProc,
        },
        None => TransportQueries {
            user_data: 0,
            state: StateQuery::Nothing,
            beat_and_tempo: None,
            musical_time_location: None,
        },
    }
}

/// The host's answer about the transport state. Flags are set where they are not zero. The answer
/// of the older function says nothing about recording.
#[derive(Clone, Copy, Debug, PartialEq, Eq, Structural)]
pub struct StateReply {
    pub status: OSStatus,
    pub is_playing: u8,
    pub is_recording: Option<u8>,
    /// The position, rounded to a whole sample.
    pub current_sample: i64,
    pub is_cycling: u8,
    pub cycle_start: u64,
    pub cycle_end: u64,
}

/// The host's answer about beat and tempo.
#[derive(Clone, Copy, Debug, PartialEq, Eq, Structural)]
pub struct BeatReply {
    pub status: OSStatus,
    pub current_beat: u64,
    pub current_tempo: u64,
}

/// The host's answer about the bar.
#[derive(Clone, Copy, Debug, PartialEq, Eq, Structural)]
pub struct LocationReply {
    pub status: OSStatus,
    /// The numerator of the time signature, rounded to a whole number.
    pub numerator: i32,
    pub denominator: u32,
    pub measure_downbeat: u64,
}

/// The host's answers to the questions that it was asked.
#[derive(Clone, Copy, Debug, PartialEq, Eq, Structural)]
pub struct TransportReplies {
    pub state: Option<StateReply>,
    pub beat_and_tempo: Option<BeatReply>,
    pub musical_time_location: Option<LocationReply>,
}

pub open spec fn state_known(replies: TransportReplies) -> bool {
    replies.state is Some && replies.state->Some_0.status == 0
}

pub open spec fn beat_known(replies: TransportReplies) -> bool {
    replies.beat_and_tempo is Some && replies.beat_and_tempo->Some_0.status == 0
}

pub open spec fn location_known(replies: TransportReplies) -> bool {
    replies.musical_time_location is Some && replies.musical_time_location->Some_0.status == 0
}

/// The transport at the start of a cycle: what the host's answers say, where it gave any. The
/// position comes from the time stamp where the host's answer does not tell it. `stamp_samples` is
/// the sample time of the stamp, rounded to a whole sample.
pub open spec fn cycle_transport(
    sample_rate: u64,
    time_stamp: Option<AudioTimeStamp>,
    stamp_samples: i64,
    replies: TransportReplies,
) -> Transport {
    let state = replies.state->Some_0;
    let beat = replies.beat_and_tempo->Some_0;
    let location = replies.musical_time_location->Some_0;
    Transport {
        playing: state_known(replies) && state.is_playing != 0,
        recording: state_known(replies) && state.is_recording is Some
            && state.is_recording->Some_0 != 0,
        pos_samples: if state_known(replies) {
            Some(state.current_sample)
        } else if time_stamp is Some && time_stamp->Some_0.sample_time_is_valid() {
            Some(stamp_samples)
        } else {
            None
        },
        loop_range_beats: if state_known(replies) && state.is_cycling != 0 {
            Some((state.cycle_start, state.cycle_end))
        } else {
            None
        },
        pos_beats: if beat_known(replies) {
            Some(beat.current_beat)
        } else {
            None
        },
        tempo: if beat_known(replies) {
            Some(beat.current_tempo)
        } else {
            None
        },
        time_sig_numerator: if location_known(replies) {
            Some(location.numerator)
        } else {
            None
        },
        time_sig_denominator: if location_known(replies) {
            Some(location.denominator as i32)
        } else {
            None
        },
        bar_start_pos_beats: if location_known(replies) {
            Some(location.measure_downbeat)
        } else {
            None
        },
        ..unknown_transport(sample_rate)
    }
}

/// The transport at the start of a cycle, from the time stamp and the host's answers.
pub fn build_transport(
    sample_rate: u64,
    time_stamp: Option<AudioTimeStamp>,
    stamp_samples: i64,
    replies: &TransportReplies,
) -> (transport: Transport)
    ensures
        transport == cycle_transport(sample_rate, time_stamp, stamp_samples, *replies),
{
    let mut transport = Transport::new(sample_rate);
    if let Some(stamp) = time_stamp {
        if stamp.has_sample_time() {
            transport.pos_samples = Some(stamp_samples);
        }
    }
    if let Some(state) = replies.state {
        if state.status == 0 {
            transport.playing = state.is_playing != 0;
            if let Some(is_recording) = state.is_recording {
                transport.recording = is_recording != 0;
            }
            transport.pos_samples = Some(state.current_sample);
            if state.is_cycling != 0 {
                transport.loop_range_beats = Some((state.cycle_start, state.cycle_end));
            }
        }
    }
    if let Some(beat) = replies.beat_and_tempo {
        if beat.status == 0 {
            transport.pos_beats = Some(beat.current_beat);
            transport.tempo = Some(beat.current_tempo);
        }
    }
    if let Some(location) = replies.musical_time_location {
        if location.status == 0 {
            transport.time_sig_numerator = Some(location.numerator);
            transport.time_sig_denominator = Some(location.denominator as i32);
            transport.bar_start_pos_beats = Some(location.measure_downbeat);
        }
    }
    transport
}

/// Positions in samples, seconds and beats, where they are known.
#[derive(Clone, Copy, Debug, PartialEq, Eq, Structural)]
pub struct Positions {
    /// Where the cycle starts, in samples.
    pub cycle_samples: Option<i64>,
    /// Where the block starts, in seconds.
    pub block_seconds: Option<u64>,
    /// Where the block starts, in beats.
    pub block_beats: Option<u64>,
}

/// The transport at the start of a block: moved on by the samples in front of it, and without the
/// start of the bar.
pub open spec fn block_transport(
    transport: Transport,
    sample_offset: u32,
    positions: Positions,
) -> Transport {
    Transport {
        bar_start_pos_beats: None,
        pos_samples: match positions.cycle_samples {
            Some(samples) => Some((samples + sample_offset) as i64),
            None => None,
        },
        pos_seconds: positions.block_seconds,
        pos_beats: if transport.tempo is Some {
            positions.block_beats
        } else {
            None
        },
        ..transport
    }
}

/// The transport at the start of the block that starts at `sample_offset`.
pub fn transport_for_block(
    transport: &Transport,
    sample_offset: u32,
    positions: Positions,
) -> (moved: Transport)
    requires
        positions.cycle_samples matches Some(samples) ==> samples + sample_offset <= i64::MAX,
    ensures
        moved == block_transport(*transport, sample_offset, positions),
{
    let mut moved = Transport::new(transport.sample_rate);
    moved.playing = transport.playing;
    moved.recording = transport.recording;
    moved.preroll_active = transport.preroll_active;
    moved.tempo = transport.tempo;
    moved.time_sig_numerator = transport.time_sig_numerator;
    moved.time_sig_denominator = transport.time_sig_denominator;
    moved.loop_range_samples = transport.loop_range_samples;
    moved.loop_range_seconds = transport.loop_range_seconds;
    moved.loop_range_beats = transport.loop_range_beats;
    if let Some(samples) = positions.cycle_samples {
        moved.pos_samples = Some(samples + sample_offset as i64);
    }
    moved.pos_seconds = positions.block_seconds;
    if transport.tempo.is_some() {
        moved.pos_beats = positions.block_beats;
    }
    moved
}

/// A block at the start of a cycle sees the cycle's own position in samples.
pub proof fn first_block_starts_with_the_cycle(transport: Transport, positions: Positions)
    requires
        positions.cycle_samples == transport.pos_samples,
    ensures
        block_transport(transport, 0, positions).pos_samples == transport.pos_samples,
        block_transport(transport, 0, positions).playing == transport.playing,
        block_transport(transport, 0, positions).tempo == transport.tempo,
{
}

/// Where the host answers about the transport state, the plugin sees the transport play exactly
/// where the host's flag is set, and the same holds of recording and of the loop. The position is
/// the host's, whatever the time stamp says.
pub proof fn plugin_sees_the_state_that_the_host_tells(
    sample_rate: u64,
    time_stamp: Option<AudioTimeStamp>,
    stamp_samples: i64,
    state: StateReply,
    beat_and_tempo: Option<BeatReply>,
    musical_time_location: Option<LocationReply>,
)
    requires
        state.status == 0,
    ensures
        ({
            let seen = cycle_transport(
                sample_rate,
                time_stamp,
                stamp_samples,
                TransportReplies { state: Some(state), beat_and_tempo, musical_time_location },
            );
            &&& state.is_playing == 0 ==> !seen.playing
            &&& state.is_playing != 0 ==> seen.playing
            &&& state.is_recording == Some(0u8) ==> !seen.recording
            &&& state.is_recording is None ==> !seen.recording
            &&& (state.is_recording matches Some(flag) && flag != 0) ==> seen.recording
            &&& seen.pos_samples == Some(state.current_sample)
            &&& state.is_cycling == 0 ==> seen.loop_range_beats is None
            &&& state.is_cycling != 0 ==> seen.loop_range_beats == Some(
                (state.cycle_start, state.cycle_end),
            )
        }),
{
}

/// Where the host does not answer about the transport state, or answers with an error, the
/// transport stands still, and its position is that of the time stamp, where the lowest flag of
/// the stamp says that it has one.
pub proof fn time_stamp_tells_the_position_where_the_host_does_not(
    sample_rate: u64,
    time_stamp: Option<AudioTimeStamp>,
    stamp_samples: i64,
    replies: TransportReplies,
)
    requires
        replies.state matches Some(state) ==> state.status != 0,
    ensures
        ({
            let seen = cycle_transport(sample_rate, time_stamp, stamp_samples, replies);
            &&& !seen.playing
            &&& !seen.recording
            &&& seen.loop_range_beats is None
            &&& time_stamp is None ==> seen.pos_samples is None
            &&& time_stamp matches Some(stamp) ==> stamp.mFlags & 1 == 0 ==> seen.pos_samples is None
            &&& time_stamp matches Some(stamp) ==> stamp.mFlags & 1 == 1 ==> seen.pos_samples
                == Some(stamp_samples)
        }),
{
    if let Some(stamp) = time_stamp {
        let flags = stamp.mFlags;
        assert(flags & 1 == flags % 2) by (bit_vector);
    }
}

/// The plugin sees the beat, the tempo and the bar that the host tells, and nothing of an answer
/// that is missing or an error.
pub proof fn plugin_sees_the_beat_and_the_bar_that_the_host_tells(
    sample_rate: u64,
    time_stamp: Option<AudioTimeStamp>,
    stamp_samples: i64,
    replies: TransportReplies,
)
    ensures
        ({
            let seen = cycle_transport(sample_rate, time_stamp, stamp_samples, replies);
            &&& match replies.beat_and_tempo {
                Some(beat) => if beat.status == 0 {
                    seen.pos_beats == Some(beat.current_beat) && seen.tempo == Some(
                        beat.current_tempo,
                    )
                } else {
                    seen.pos_beats is None && seen.tempo is None
                },
                None => seen.pos_beats is None && seen.tempo is None,
            }
            &&& match replies.musical_time_location {
                Some(location) => if location.status == 0 {
                    &&& seen.time_sig_numerator == Some(location.numerator)
                    &&& seen.time_sig_denominator is Some
                    &&& (location.denominator - seen.time_sig_denominator->Some_0)
                        % 0x1_0000_0000 == 0
                    &&& seen.bar_start_pos_beats == Some(location.measure_downbeat)
                } else {
                    &&& seen.time_sig_numerator is None
                    &&& seen.time_sig_denominator is None
                    &&& seen.bar_start_pos_beats is None
                },
                None => {
                    &&& seen.time_sig_numerator is None
                    &&& seen.time_sig_denominator is None
                    &&& seen.bar_start_pos_beats is None
                },
            }
        }),
{
    if let Some(location) = replies.musical_time_location {
        let denominator = location.denominator;
        assert(denominator < 0x8000_0000 ==> denominator as i32 == denominator) by (bit_vector);
        assert(denominator >= 0x8000_0000 ==> denominator as i32 == denominator - 0x1_0000_0000)
            by (bit_vector);
    }
}

/// Each answer of the host tells about its own part of the transport: two hosts that differ only
/// in one answer look the same in everything else.
pub proof fn answers_do_not_mix(
    sample_rate: u64,
    time_stamp: Option<AudioTimeStamp>,
    stamp_samples: i64,
    a: TransportReplies,
    b: TransportReplies,
)
    ensures
        ({
            let seen_a = cycle_transport(sample_rate, time_stamp, stamp_samples, a);
            let seen_b = cycle_transport(sample_rate, time_stamp, stamp_samples, b);
            &&& a.state == b.state ==> {
                &&& seen_a.playing == seen_b.playing
                &&& seen_a.recording == seen_b.recording
                &&& seen_a.pos_samples == seen_b.pos_samples
                &&& seen_a.loop_range_beats == seen_b.loop_range_beats
            }
            &&& a.beat_and_tempo == b.beat_and_tempo ==> {
                &&& seen_a.pos_beats == seen_b.pos_beats
                &&& seen_a.tempo == seen_b.tempo
            }
            &&& a.musical_time_location == b.musical_time_location ==> {
                &&& seen_a.time_sig_numerator == seen_b.time_sig_numerator
                &&& seen_a.time_sig_denominator == seen_b.time_sig_denominator
                &&& seen_a.bar_start_pos_beats == seen_b.bar_start_pos_beats
            }
            &&& seen_a.sample_rate == sample_rate
            &&& seen_a.preroll_active is None
            &&& seen_a.pos_seconds is None
            &&& seen_a.loop_range_samples is None
            &&& seen_a.loop_range_seconds is None
        }),
{
}

/// A host is asked with its own address, by functions that it gave and by all of them, except that
/// the older of the two functions for the transport state is asked only where there is no newer
/// one.
pub proof fn host_is_asked_by_its_own_functions(callbacks: HostCallbackInfo)
    ensures
        ({
            let asked = queries_for(Some(callbacks));
            &&& asked.user_data == callbacks.hostUserData
            &&& asked.beat_and_tempo == callbacks.beatAndTempoProc
            &&& asked.musical_time_location == callbacks.musicalTimeLocationProc
            &&& callbacks.transportStateProc2 matches Some(newer) ==> asked.state
                == StateQuery::TransportState2(newer)
            &&& callbacks.transportStateProc2 is None ==> (
            callbacks.transportStateProc matches Some(older) ==> asked.state
                == StateQuery::TransportState(older))
            &&& callbacks.transportStateProc2 is None && callbacks.transportStateProc is None
                ==> asked.state == StateQuery::Nothing
        }),
        ({
            let asked = queries_for(None);
            &&& asked.user_data == 0
            &&& asked.state == StateQuery::Nothing
            &&& asked.beat_and_tempo is None
            &&& asked.musical_time_location is None
        }),
{
}

/// Two blocks of a cycle are as far apart as their offsets, and the plugin sees the same transport
/// in both otherwise. Only the start of the bar is not told.
pub proof fn blocks_are_as_far_apart_as_their_offsets(
    transport: Transport,
    samples: i64,
    first: u32,
    second: u32,
    seconds: Option<u64>,
    beats: Option<u64>,
)
    requires
        samples + first <= i64::MAX,
        samples + second <= i64::MAX,
    ensures
        ({
            let positions = Positions {
                cycle_samples: Some(samples),
                block_seconds: seconds,
                block_beats: beats,
            };
            let a = block_transport(transport, first, positions);
            let b = block_transport(transport, second, positions);
            &&& a.pos_samples is Some
            &&& b.pos_samples is Some
            &&& b.pos_samples->Some_0 - a.pos_samples->Some_0 == second - first
            &&& a.pos_samples->Some_0 - samples == first
            &&& a.pos_seconds == seconds
            &&& transport.tempo is Some ==> a.pos_beats == beats
            &&& transport.tempo is None ==> a.pos_beats is None
            &&& a.bar_start_pos_beats is None
            &&& a.sample_rate == transport.sample_rate
            &&& a.playing == transport.playing
            &&& a.recording == transport.recording
            &&& a.preroll_active == transport.preroll_active
            &&& a.tempo == transport.tempo
            &&& a.time_sig_numerator == transport.time_sig_numerator
            &&& a.time_sig_denominator == transport.time_sig_denominator
            &&& a.loop_range_samples == transport.loop_range_samples
            &&& a.loop_range_seconds == transport.loop_range_seconds
            &&& a.loop_range_beats == transport.loop_range_beats
        }),
        block_transport(
            transport,
            first,
            Positions { cycle_samples: None, block_seconds: seconds, block_beats: beats },
        ).pos_samples is None,
{
}

} // verus!
