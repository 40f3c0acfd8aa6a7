//! MIDI messages from the host, and packets of MIDI messages for the host.
use vstd::prelude::*;

use crate::event::clamp_output_event_timing;
use crate::event::clamped_timing;
use crate::host::{
    OSStatus, K_AUDIO_UNIT_ERR_CANNOT_DO_IN_CURRENT_CONTEXT, K_AUDIO_UNIT_ERR_INVALID_PARAMETER,
    K_AUDIO_UNIT_ERR_INVALID_PROPERTY, K_AUDIO_UNIT_ERR_INVALID_PROPERTY_VALUE,
};
use crate::plugin::{Auv2Plugin, MidiConfig};

verus! {

/// The most bytes of one packet.
pub const MIDI_PACKET_CHUNK_SIZE: usize = 256;

/// The bytes of a packet list.
pub const MIDI_PACKET_LIST_CAPACITY: usize = 65_536;

/// Up to 256 bytes of MIDI messages with the time at which they happen.
#[derive(Clone, Copy)]
pub struct MIDIPacket {
    pub timeStamp: u64,
    pub length: u16,
    pub data: [u8; 256],
}

/// A list of packets, as the host lays it out: the first packet stands here, and others follow in
/// memory.
#[derive(Clone, Copy)]
pub struct MIDIPacketList {
    pub numPackets: u32,
    pub packet: [MIDIPacket; 1],
}

/// The time and the bytes of a packet.
pub ghost struct PacketView {
    pub time: u64,
    pub bytes: Seq<u8>,
}

impl View for MIDIPacket {
    type V = PacketView;

    open spec fn view(&self) -> PacketView {
        PacketView { time: self.timeStamp, bytes: self.data@.take(self.length as int) }
    }
}

/// The bytes of an event: a short message, or a SysEx message at the start of a buffer.
pub enum MidiResult {
    Basic([u8; 3]),
    SysEx(Vec<u8>, usize),
}

impl MidiResult {
    pub open spec fn wf(self) -> bool {
        self matches MidiResult::SysEx(buffer, length) ==> length <= buffer@.len()
    }

    /// The bytes of the message.
    pub open spec fn bytes(self) -> Seq<u8> {
        match self {
            MidiResult::Basic(bytes) => bytes@,
            MidiResult::SysEx(buffer, length) => buffer@.take(length as int),
        }
    }
}

/// An event that the plugin sent, with its bytes where it is a MIDI event.
pub struct OutputMessage {
    pub timing: u32,
    pub midi: Option<MidiResult>,
}

/// `bytes` cut into pieces of at most 256 bytes.
pub open spec fn chunks(bytes: Seq<u8>) -> Seq<Seq<u8>>
    decreases bytes.len(),
{
    if bytes.len() == 0 {
        seq![]
    } else if bytes.len() <= MIDI_PACKET_CHUNK_SIZE {
        seq![bytes]
    } else {
        seq![bytes.take(MIDI_PACKET_CHUNK_SIZE as int)] + chunks(
            bytes.skip(MIDI_PACKET_CHUNK_SIZE as int),
        )
    }
}

/// The packets of one event: none where it is no MIDI event.
pub open spec fn message_packets(message: OutputMessage, num_frames: u32) -> Seq<PacketView> {
    match message.midi {
        Some(midi) => chunks(midi.bytes()).map_values(
            |bytes: Seq<u8>|
                PacketView { time: clamped_timing(message.timing, num_frames) as u64, bytes },
        ),
        None => seq![],
    }
}

/// The packets of all events, in their order.
pub open spec fn all_packets(messages: Seq<OutputMessage>, num_frames: u32) -> Seq<PacketView>
    decreases messages.len(),
{
    if messages.len() == 0 {
        seq![]
    } else {
        all_packets(messages.drop_last(), num_frames) + message_packets(messages.last(), num_frames)
    }
}

/// All pieces, one behind the other.
pub open spec fn joined(pieces: Seq<Seq<u8>>) -> Seq<u8>
    decreases pieces.len(),
{
    if pieces.len() == 0 {
        seq![]
    } else {
        pieces[0] + joined(pieces.drop_first())
    }
}

/// The packets of a message hold its bytes, no more and no less, and each of them holds at least
/// one byte and at most 256.
pub proof fn chunks_hold_the_message(bytes: Seq<u8>)
    ensures
        joined(chunks(bytes)) == bytes,
        forall|i: int|
            0 <= i < chunks(bytes).len() ==> 0 < (#[trigger] chunks(bytes)[i]).len()
                <= MIDI_PACKET_CHUNK_SIZE,
    decreases bytes.len(),
{
    if bytes.len() == 0 {
        assert(joined(chunks(bytes)) =~= bytes);
    } else if bytes.len() <= MIDI_PACKET_CHUNK_SIZE {
        assert(chunks(bytes).drop_first() =~= seq![]);
        assert(joined(chunks(bytes).drop_first()) =~= seq![]);
        assert(joined(chunks(bytes)) =~= bytes);
    } else {
        let first = bytes.take(MIDI_PACKET_CHUNK_SIZE as int);
        let rest = bytes.skip(MIDI_PACKET_CHUNK_SIZE as int);
        chunks_hold_the_message(rest);
        assert(chunks(bytes).drop_first() =~= chunks(rest));
        assert(first + rest =~= bytes);
        assert forall|i: int| 0 <= i < chunks(bytes).len() implies 0 < (
        #[trigger] chunks(bytes)[i]).len() <= MIDI_PACKET_CHUNK_SIZE by {
            if i > 0 {
                assert(chunks(bytes)[i] == chunks(rest)[i - 1]);
            }
        }
    }
}

/// The packets of a cycle hold no time behind its end, and none of them is empty or too long.
pub proof fn packets_are_in_the_cycle(messages: Seq<OutputMessage>, num_frames: u32, i: int)
    requires
        num_frames > 0,
        0 <= i < all_packets(messages, num_frames).len(),
    ensures
        all_packets(messages, num_frames)[i].time < num_frames,
        0 < all_packets(messages, num_frames)[i].bytes.len() <= MIDI_PACKET_CHUNK_SIZE,
    decreases messages.len(),
{
    let fewer = all_packets(messages.drop_last(), num_frames);
    if i < fewer.len() {
        packets_are_in_the_cycle(messages.drop_last(), num_frames, i);
    } else if messages.last().midi is Some {
        let bytes = messages.last().midi->Some_0.bytes();
        chunks_hold_the_message(bytes);
        assert(all_packets(messages, num_frames)[i].bytes == chunks(bytes)[i - fewer.len()]);
    }
}

fn packet_of(bytes: &Vec<u8>, from: usize, to: usize, time: u64) -> (packet: MIDIPacket)
    requires
        from <= to <= bytes@.len(),
        to - from <= MIDI_PACKET_CHUNK_SIZE,
    ensures
        packet@ == (PacketView { time, bytes: bytes@.subrange(from as int, to as int) }),
{
    let mut data: [u8; 256] = [0;256];
    let mut i: usize = 0;
    while i < to - from
        invariant
            from <= to <= bytes@.len(),
            to - from <= MIDI_PACKET_CHUNK_SIZE,
            i <= to - from,
            forall|j: int| 0 <= j < i ==> data@[j] == bytes@[from + j],
        decreases to - from - i,
    {
        data[i] = bytes[from + i];
        i += 1;
    }
    let packet = MIDIPacket { timeStamp: time, length: (to - from) as u16, data };
    assert(packet@.bytes =~= bytes@.subrange(from as int, to as int));
    packet
}

/// The packets, each by its time and its bytes.
pub open spec fn packet_views(packets: Seq<MIDIPacket>) -> Seq<PacketView> {
    packets.map_values(|packet: MIDIPacket| packet@)
}

fn push_chunks(packets: &mut Vec<MIDIPacket>, bytes: &Vec<u8>, length: usize, time: u64)
    requires
        length <= bytes@.len(),
    ensures
        packet_views(final(packets)@) == packet_views(old(packets)@) + chunks(
            bytes@.take(length as int),
        ).map_values(|bytes: Seq<u8>| PacketView { time, bytes }),
{
    let ghost as_packet = |bytes: Seq<u8>| PacketView { time, bytes };
    let ghost before = packet_views(packets@);
    let ghost message = bytes@.take(length as int);
    let mut offset: usize = 0;
    assert(message.skip(0) =~= message);
    assert(packet_views(packets@) + chunks(message.skip(0)).map_values(as_packet) =~= before
        + chunks(message).map_values(as_packet));
    while offset < length
        invariant
            offset <= length <= bytes@.len(),
            message == bytes@.take(length as int),
            as_packet == (|bytes: Seq<u8>| PacketView { time, bytes }),
            packet_views(packets@) + chunks(message.skip(offset as int)).map_values(as_packet)
                == before + chunks(message).map_values(as_packet),
        decreases length - offset,
    {
        let end: usize = if length - offset > MIDI_PACKET_CHUNK_SIZE {
            offset + MIDI_PACKET_CHUNK_SIZE
        } else {
            length
        };
        let ghost earlier = packet_views(packets@);
        let ghost rest = message.skip(offset as int);
        let ghost piece = bytes@.subrange(offset as int, end as int);
        packets.push(packet_of(bytes, offset, end, time));
        proof {
            let after = message.skip(end as int);
            assert(packet_views(packets@) =~= earlier.push(as_packet(piece)));
            if rest.len() > MIDI_PACKET_CHUNK_SIZE {
                assert(rest.take(MIDI_PACKET_CHUNK_SIZE as int) =~= piece);
                assert(rest.skip(MIDI_PACKET_CHUNK_SIZE as int) =~= after);
            } else {
                assert(rest =~= piece);
                assert(after.len() == 0);
                assert(chunks(after) =~= seq![]);
            }
            assert(chunks(rest) =~= seq![piece] + chunks(after));
            assert(packet_views(packets@) + chunks(after).map_values(as_packet) =~= earlier
                + chunks(rest).map_values(as_packet));
        }
        offset = end;
    }
    proof {
        assert(message.skip(offset as int).len() == 0);
        assert(chunks(message.skip(offset as int)).map_values(as_packet) =~= seq![]);
        assert(packet_views(packets@) =~= before + chunks(message).map_values(as_packet));
    }
}

/// The packets that the host gets for the events of a cycle of `num_frames` samples.
pub fn midi_packets(messages: &Vec<OutputMessage>, num_frames: u32) -> (packets: Vec<MIDIPacket>)
    requires
        forall|i: int|
            0 <= i < messages@.len() ==> ((#[trigger] messages@[i]).midi matches Some(midi)
                ==> midi.wf()),
    ensures
        packet_views(packets@) == all_packets(messages@, num_frames),
{
    let mut packets: Vec<MIDIPacket> = Vec::new();
    let mut i: usize = 0;
    assert(packet_views(packets@) =~= all_packets(messages@.take(0), num_frames));
    while i < messages.len()
        invariant
            i <= messages@.len(),
            forall|i: int|
                0 <= i < messages@.len() ==> ((#[trigger] messages@[i]).midi matches Some(midi)
                    ==> midi.wf()),
            packet_views(packets@) == all_packets(messages@.take(i as int), num_frames),
        decreases messages@.len() - i,
    {
        let ghost before = packet_views(packets@);
        let time = clamp_output_event_timing(messages[i].timing, num_frames) as u64;
        match &messages[i].midi {
            Some(MidiResult::Basic(bytes)) => {
                let mut message: Vec<u8> = Vec::new();
                message.push(bytes[0]);
                message.push(bytes[1]);
                message.push(bytes[2]);
                assert(message@ =~= bytes@);
                assert(message@.take(3) =~= bytes@);
                push_chunks(&mut packets, &message, 3, time);
            },
            Some(MidiResult::SysEx(buffer, length)) => {
                push_chunks(&mut packets, buffer, *length, time);
            },
            None => {},
        }
        proof {
            assert(messages@.take(i + 1).drop_last() =~= messages@.take(i as int));
            assert(messages@.take(i + 1).last() == messages@[i as int]);
            assert(packet_views(packets@) =~= before + message_packets(
                messages@[i as int],
                num_frames,
            ));
        }
        i += 1;
    }
    assert(messages@.take(i as int) =~= messages@);
    packets
}

/// What handing out packets waits for.
#[derive(Clone, Copy, Debug, PartialEq, Eq, Structural)]
pub enum FlushPhase {
    /// The empty list.
    Preparing,
    /// Whether the next packet had room in the list.
    Adding,
    /// What the host says to the list, which had no room for the next packet.
    SendingFullList,
    /// The empty list behind one without room.
    Emptying,
    /// Whether the next packet had room in the empty list.
    AddingToEmptyList,
    /// What the host says to the last list.
    SendingLastList,
    Finished,
}

/// What is to be done next about the packets.
#[derive(Clone, Copy, Debug, PartialEq, Eq, Structural)]
pub enum FlushAction {
    /// Make the list empty.
    InitList,
    /// Put the packet with this index behind the others in the list.
    AddPacket(usize),
    /// Give the list to the host.
    SendList,
    Done,
    Fail(OSStatus),
}

/// What came of the last action.
#[derive(Clone, Copy, Debug, PartialEq, Eq, Structural)]
pub enum FlushEvent {
    /// The list is empty.
    ListReady,
    /// The packet is in the list, which now says that it holds so many packets.
    Added { num_packets: u32 },
    /// The packet had no room in the list, which says that it holds so many packets.
    Full { num_packets: u32 },
    /// The host got the list, and answered with this status.
    Sent(OSStatus),
}

/// Handing out the packets of a cycle.
#[derive(Clone, Copy, Debug, PartialEq, Eq, Structural)]
pub struct MidiFlush {
    pub num_packets: usize,
    /// How many packets had room so far.
    pub next: usize,
    /// How many packets the list says that it holds.
    pub listed: u32,
    pub phase: FlushPhase,
}

impl MidiFlush {
    pub open spec fn wf(self) -> bool {
        &&& self.next <= self.num_packets
        &&& (self.phase == FlushPhase::Adding || self.phase == FlushPhase::SendingFullList
            || self.phase == FlushPhase::Emptying || self.phase == FlushPhase::AddingToEmptyList)
            ==> self.next < self.num_packets
        &&& self.phase == FlushPhase::SendingLastList ==> self.next == self.num_packets
    }

    /// Whether an event can come of the action that was asked for last.
    pub open spec fn expects(self, event: FlushEvent) -> bool {
        match event {
            FlushEvent::ListReady => self.phase == FlushPhase::Preparing || self.phase
                == FlushPhase::Emptying,
            FlushEvent::Added { .. } => self.phase == FlushPhase::Adding || self.phase
                == FlushPhase::AddingToEmptyList,
            FlushEvent::Full { .. } => self.phase == FlushPhase::Adding || self.phase
                == FlushPhase::AddingToEmptyList,
            FlushEvent::Sent(_) => self.phase == FlushPhase::SendingFullList || self.phase
                == FlushPhase::SendingLastList,
        }
    }

    /// Handing out `num_packets` packets of `num_events` events starts with an empty list. Without
    /// events there is nothing to do.
    pub open spec fn at_first(num_events: usize, num_packets: usize) -> (Self, FlushAction) {
        if num_events == 0 {
            (
                MidiFlush { num_packets, next: 0, listed: 0, phase: FlushPhase::Finished },
                FlushAction::Done,
            )
        } else {
            (
                MidiFlush { num_packets, next: 0, listed: 0, phase: FlushPhase::Preparing },
                FlushAction::InitList,
            )
        }
    }

    /// The next packet goes to the list. Behind the last packet the list goes to the host, unless
    /// it is empty.
    pub open spec fn going_on(self) -> (Self, FlushAction) {
        if self.next < self.num_packets {
            (MidiFlush { phase: FlushPhase::Adding, ..self }, FlushAction::AddPacket(self.next))
        } else if self.listed > 0 {
            (MidiFlush { phase: FlushPhase::SendingLastList, ..self }, FlushAction::SendList)
        } else {
            (MidiFlush { phase: FlushPhase::Finished, ..self }, FlushAction::Done)
        }
    }

    /// What follows an event. A packet without room makes the list go to the host, unless it is
    /// empty, and is tried once more with an empty list.
    pub open spec fn after(self, event: FlushEvent) -> (Self, FlushAction) {
        match event {
            FlushEvent::ListReady => if self.phase == FlushPhase::Emptying {
                (
                    MidiFlush { listed: 0, phase: FlushPhase::AddingToEmptyList, ..self },
                    FlushAction::AddPacket(self.next),
                )
            } else {
                (MidiFlush { listed: 0, ..self }).going_on()
            },
            FlushEvent::Added { num_packets } => (MidiFlush {
                listed: num_packets,
                next: (self.next + 1) as usize,
                ..self
            }).going_on(),
            FlushEvent::Full { num_packets } => if self.phase == FlushPhase::AddingToEmptyList {
                (
                    MidiFlush { listed: num_packets, phase: FlushPhase::Finished, ..self },
                    FlushAction::Fail(K_AUDIO_UNIT_ERR_CANNOT_DO_IN_CURRENT_CONTEXT),
                )
            } else if num_packets > 0 {
                (
                    MidiFlush { listed: num_packets, phase: FlushPhase::SendingFullList, ..self },
                    FlushAction::SendList,
                )
            } else {
                (
                    MidiFlush { listed: num_packets, phase: FlushPhase::Emptying, ..self },
                    FlushAction::InitList,
                )
            },
            FlushEvent::Sent(status) => if status != 0 {
                (
                    MidiFlush { phase: FlushPhase::Finished, ..self },
                    FlushAction::Fail(status),
                )
            } else if self.phase == FlushPhase::SendingFullList {
                (MidiFlush { phase: FlushPhase::Emptying, ..self }, FlushAction::InitList)
            } else {
                (MidiFlush { phase: FlushPhase::Finished, ..self }, FlushAction::Done)
            },
        }
    }

    /// Starts handing out `num_packets` packets of `num_events` events. Without events there is
    /// nothing to do.
    pub fn flush_output_events(num_events: usize, num_packets: usize) -> (started: (
        Self,
        FlushAction,
    ))
        ensures
            started.0.wf(),
            started == Self::at_first(num_events, num_packets),
    {
        if num_events == 0 {
            (
                MidiFlush { num_packets, next: 0, listed: 0, phase: FlushPhase::Finished },
                FlushAction::Done,
            )
        } else {
            (
                MidiFlush { num_packets, next: 0, listed: 0, phase: FlushPhase::Preparing },
                FlushAction::InitList,
            )
        }
    }

    fn go_on(&mut self) -> (action: FlushAction)
        requires
            old(self).next <= old(self).num_packets,
        ensures
            (*final(self), action) == old(self).going_on(),
    {
        if self.next < self.num_packets {
            self.phase = FlushPhase::Adding;
            FlushAction::AddPacket(self.next)
        } else if self.listed > 0 {
            self.phase = FlushPhase::SendingLastList;
            FlushAction::SendList
        } else {
            self.phase = FlushPhase::Finished;
            FlushAction::Done
        }
    }

    /// Goes on with what came of the last action.
    pub fn add_midi_packet(&mut self, event: FlushEvent) -> (action: FlushAction)
        requires
            old(self).wf(),
            old(self).expects(event),
        ensures
            final(self).wf(),
            (*final(self), action) == old(self).after(event),
    {
        match event {
            FlushEvent::ListReady => {
                self.listed = 0;
                if self.phase == FlushPhase::Emptying {
                    self.phase = FlushPhase::AddingToEmptyList;
                    FlushAction::AddPacket(self.next)
                } else {
                    self.go_on()
                }
            },
            FlushEvent::Added { num_packets } => {
                self.listed = num_packets;
                self.next += 1;
                self.go_on()
            },
            FlushEvent::Full { num_packets } => {
                self.listed = num_packets;
                if self.phase == FlushPhase::AddingToEmptyList {
                    self.phase = FlushPhase::Finished;
                    FlushAction::Fail(K_AUDIO_UNIT_ERR_CANNOT_DO_IN_CURRENT_CONTEXT)
                } else if num_packets > 0 {
                    self.phase = FlushPhase::SendingFullList;
                    FlushAction::SendList
                } else {
                    self.phase = FlushPhase::Emptying;
                    FlushAction::InitList
                }
            },
            FlushEvent::Sent(status) => {
                if status != 0 {
                    self.phase = FlushPhase::Finished;
                    FlushAction::Fail(status)
                } else if self.phase == FlushPhase::SendingFullList {
                    self.phase = FlushPhase::Emptying;
                    FlushAction::InitList
                } else {
                    self.phase = FlushPhase::Finished;
                    FlushAction::Done
                }
            },
        }
    }

    /// Handing out packets ends well only when every packet had room in a list.
    pub proof fn done_means_all_packets_were_added(self, event: FlushEvent)
        requires
            self.wf(),
            self.expects(event),
        ensures
            self.after(event).1 == FlushAction::Done ==> self.after(event).0.next
                == self.num_packets,
    {
    }

    /// Handing out packets starts with none in the list, and only where there are events.
    pub proof fn packets_start_with_an_empty_list(num_events: usize, num_packets: usize)
        ensures
            Self::at_first(num_events, num_packets).0.next == 0,
            Self::at_first(num_events, num_packets).0.listed == 0,
            Self::at_first(num_events, num_packets).0.num_packets == num_packets,
            num_events == 0 ==> Self::at_first(num_events, num_packets).1 == FlushAction::Done,
            num_events > 0 ==> Self::at_first(num_events, num_packets).1 == FlushAction::InitList
                && Self::at_first(num_events, num_packets).0.expects(FlushEvent::ListReady),
    {
    }

    /// No list goes to the host empty, and none with packets in it is left behind: handing out
    /// ends well only where the last list is empty or the host has just taken it. A list that had
    /// no room goes to the host and is made empty before the packet is tried again, and a packet
    /// that has no room in an empty list is an error. So is every error of the host.
    pub proof fn lists_reach_the_host(self, event: FlushEvent)
        requires
            self.wf(),
            self.expects(event),
        ensures
            ({
                let (after, action) = self.after(event);
                &&& after.num_packets == self.num_packets
                &&& action == FlushAction::SendList ==> after.listed > 0 && !(event is Sent)
                    && after.expects(FlushEvent::Sent(0))
                &&& action == FlushAction::Done ==> after.listed == 0 || event == FlushEvent::Sent(
                    0,
                )
                &&& event matches FlushEvent::Sent(status) ==> status != 0 ==> action
                    == FlushAction::Fail(status)
                &&& action matches FlushAction::Fail(status) ==> status != 0
                &&& event is ListReady ==> after.listed == 0
                &&& event matches FlushEvent::Added { num_packets } ==> after.listed == num_packets
                &&& event matches FlushEvent::Full { num_packets } ==> {
                    &&& after.next == self.next
                    &&& self.phase == FlushPhase::Adding && num_packets > 0 ==> action
                        == FlushAction::SendList
                    &&& self.phase == FlushPhase::Adding && num_packets == 0 ==> action
                        == FlushAction::InitList
                    &&& self.phase != FlushPhase::Adding ==> action == FlushAction::Fail(
                        K_AUDIO_UNIT_ERR_CANNOT_DO_IN_CURRENT_CONTEXT,
                    )
                }
                &&& event == FlushEvent::Sent(0) && self.next < self.num_packets ==> action
                    == FlushAction::InitList && after.phase == FlushPhase::Emptying
                &&& event is ListReady && self.phase == FlushPhase::Emptying ==> action
                    == FlushAction::AddPacket(self.next) && after.phase
                    == FlushPhase::AddingToEmptyList
                &&& event is Added && self.next + 1 < self.num_packets ==> action
                    == FlushAction::AddPacket((self.next + 1) as usize) && after.phase
                    == FlushPhase::Adding
                &&& event is Added && self.next + 1 == self.num_packets && after.listed > 0
                    ==> action == FlushAction::SendList
            }),
    {
    }

    /// Packets go to the list in their order: the one that is asked for is the one behind those
    /// that had room, and only a packet that had room counts as such.
    pub proof fn packets_are_added_in_order(self, event: FlushEvent)
        requires
            self.wf(),
            self.expects(event),
        ensures
            self.after(event).1 matches FlushAction::AddPacket(i) ==> i == self.after(event).0.next
                && i < self.num_packets,
            self.after(event).0.next == self.next + if event is Added {
                1int
            } else {
                0
            },
    {
    }
}

/// How many bytes a message with this status byte has, where there is such a message.
pub open spec fn message_len(status: int) -> Option<nat> {
    if status / 16 == 0xC || status / 16 == 0xD {
        Some(2)
    } else if status / 16 != 0xF {
        Some(3)
    } else if status == 0xF1 || status == 0xF3 {
        Some(2)
    } else if status == 0xF2 {
        Some(3)
    } else if status == 0xF6 || status == 0xF8 || status == 0xFA || status == 0xFB || status == 0xFC
        || status == 0xFE || status == 0xFF {
        Some(1)
    } else {
        None
    }
}

/// The bytes of a message that a host gives as numbers: the lowest byte of the status, and the
/// lowest seven bits of each data byte.
pub open spec fn message_bytes(in_status: u32, in_data1: u32, in_data2: u32) -> Seq<u8> {
    seq![(in_status % 256) as u8, (in_data1 % 128) as u8, (in_data2 % 128) as u8]
}

/// The message that a host gives as numbers to a plugin with a MIDI input, or why it is refused.
pub open spec fn midi_message(
    midi_input: MidiConfig,
    in_status: u32,
    in_data1: u32,
    in_data2: u32,
) -> Result<Seq<u8>, OSStatus> {
    if midi_input == MidiConfig::Disabled {
        Err(K_AUDIO_UNIT_ERR_INVALID_PROPERTY)
    } else {
        match message_len(in_status as int % 256) {
            Some(len) => Ok(message_bytes(in_status, in_data1, in_data2).take(len as int)),
            None => Err(K_AUDIO_UNIT_ERR_INVALID_PARAMETER),
        }
    }
}

/// Whether a plugin with a MIDI input can take a SysEx message.
pub open spec fn sysex_accepted(
    midi_input: MidiConfig,
    data_is_null: bool,
    in_length: u32,
) -> Result<(), OSStatus> {
    if midi_input == MidiConfig::Disabled {
        Err(K_AUDIO_UNIT_ERR_INVALID_PROPERTY)
    } else if data_is_null && in_length != 0 {
        Err(K_AUDIO_UNIT_ERR_INVALID_PROPERTY_VALUE)
    } else {
        Ok(())
    }
}

/// A message starts with the lowest byte of its status, and the lowest seven bits of each data
/// number follow where the message has data: one byte behind a program change, a channel pressure,
/// a time code and a song select, and two behind all others that have any. Real-time messages and
/// the tune request have none. What is left of the system messages is refused, and so is
/// everything where the plugin takes no MIDI.
pub proof fn messages_have_their_bytes(
    midi_input: MidiConfig,
    in_status: u32,
    in_data1: u32,
    in_data2: u32,
)
    ensures
        ({
            let status = in_status % 256;
            let message = midi_message(midi_input, in_status, in_data1, in_data2);
            let one = status == 0xF6 || status == 0xF8 || (0xFA <= status <= 0xFC) || status >= 0xFE;
            let two = (0xC0 <= status <= 0xDF) || status == 0xF1 || status == 0xF3;
            let three = status < 0xC0 || (0xE0 <= status <= 0xEF) || status == 0xF2;
            &&& midi_input == MidiConfig::Disabled ==> message == Err::<Seq<u8>, OSStatus>(
                K_AUDIO_UNIT_ERR_INVALID_PROPERTY,
            )
            &&& midi_input != MidiConfig::Disabled && !one && !two && !three ==> message == Err::<
                Seq<u8>,
                OSStatus,
            >(K_AUDIO_UNIT_ERR_INVALID_PARAMETER)
            &&& midi_input != MidiConfig::Disabled && (one || two || three) ==> message is Ok
            &&& message matches Ok(bytes) ==> {
                &&& one ==> bytes.len() == 1
                &&& two ==> bytes.len() == 2
                &&& three ==> bytes.len() == 3
                &&& bytes[0] == status
                &&& bytes.len() > 1 ==> bytes[1] == in_data1 % 128
                &&& bytes.len() > 2 ==> bytes[2] == in_data2 % 128
            }
        }),
{
}

/// A SysEx message is taken by every plugin that takes MIDI, as long as it has its bytes; an empty
/// one needs none.
pub proof fn sysex_needs_its_bytes(midi_input: MidiConfig, data_is_null: bool, in_length: u32)
    ensures
        sysex_accepted(midi_input, data_is_null, in_length) is Ok <==> midi_input
            != MidiConfig::Disabled && (!data_is_null || in_length == 0),
        midi_input == MidiConfig::Disabled ==> sysex_accepted(midi_input, data_is_null, in_length)
            == Err::<(), OSStatus>(K_AUDIO_UNIT_ERR_INVALID_PROPERTY),
        midi_input != MidiConfig::Disabled && data_is_null && in_length > 0 ==> sysex_accepted(
            midi_input,
            data_is_null,
            in_length,
        ) == Err::<(), OSStatus>(K_AUDIO_UNIT_ERR_INVALID_PROPERTY_VALUE),
{
}

/// The MIDI message that a host gives as numbers.
pub fn music_device_midi_event<P: Auv2Plugin>(
    in_status: u32,
    in_data1: u32,
    in_data2: u32,
) -> (message: Result<Vec<u8>, OSStatus>)
    ensures
        match message {
            Ok(bytes) => midi_message(P::MIDI_INPUT, in_status, in_data1, in_data2) == Ok::<
                Seq<u8>,
                OSStatus,
            >(bytes@),
            Err(status) => midi_message(P::MIDI_INPUT, in_status, in_data1, in_data2) == Err::<
                Seq<u8>,
                OSStatus,
            >(status),
        },
{
    if P::MIDI_INPUT == MidiConfig::Disabled {
        return Err(K_AUDIO_UNIT_ERR_INVALID_PROPERTY);
    }
    let status: u8 = (in_status % 256) as u8;
    let len: usize = match status / 16 {
        0xC | 0xD => 2,
        0xF => match status {
            0xF1 | 0xF3 => 2,
            0xF2 => 3,
            0xF6 | 0xF8 | 0xFA | 0xFB | 0xFC | 0xFE | 0xFF => 1,
            _ => return Err(K_AUDIO_UNIT_ERR_INVALID_PARAMETER),
        },
        _ => 3,
    };
    let mut bytes: Vec<u8> = Vec::new();
    bytes.push(status);
    if len > 1 {
        bytes.push((in_data1 % 128) as u8);
    }
    if len > 2 {
        bytes.push((in_data2 % 128) as u8);
    }
    assert(bytes@ =~= message_bytes(in_status, in_data1, in_data2).take(len as int));
    Ok(bytes)
}

/// Whether a SysEx message can be taken: the plugin receives MIDI, and there are bytes unless the
/// message is empty.
pub fn music_device_sysex<P: Auv2Plugin>(data_is_null: bool, in_length: u32) -> (accepted: Result<
    (),
    OSStatus,
>)
    ensures
        accepted == sysex_accepted(P::MIDI_INPUT, data_is_null, in_length),
{
    if P::MIDI_INPUT == MidiConfig::Disabled {
        return Err(K_AUDIO_UNIT_ERR_INVALID_PROPERTY);
    }
    if data_is_null && in_length != 0 {
        return Err(K_AUDIO_UNIT_ERR_INVALID_PROPERTY_VALUE);
    }
    Ok(())
}

/// All packets of a message but the last one are full.
pub proof fn packets_are_full(bytes: Seq<u8>, i: int)
    requires
        0 <= i < chunks(bytes).len() - 1,
    ensures
        chunks(bytes)[i].len() == 256,
    decreases bytes.len(),
{
    let rest = bytes.skip(MIDI_PACKET_CHUNK_SIZE as int);
    assert(bytes.len() > MIDI_PACKET_CHUNK_SIZE);
    if i > 0 {
        packets_are_full(rest, i - 1);
        assert(chunks(bytes)[i] == chunks(rest)[i - 1]);
    }
}

/// The packets of a message hold its bytes in their order at its own time, or at the last sample
/// of the cycle where it happens behind it. What is no MIDI message has no packet.
pub proof fn packets_tell_message_and_time(message: OutputMessage, num_frames: u32, i: int)
    requires
        0 <= i < message_packets(message, num_frames).len(),
    ensures
        message.midi is Some,
        joined(
            message_packets(message, num_frames).map_values(|packet: PacketView| packet.bytes),
        ) == message.midi->Some_0.bytes(),
        message.timing < num_frames ==> message_packets(message, num_frames)[i].time
            == message.timing,
        0 < num_frames <= message.timing ==> message_packets(message, num_frames)[i].time
            == num_frames - 1,
{
    let bytes = message.midi->Some_0.bytes();
    chunks_hold_the_message(bytes);
    assert(message_packets(message, num_frames).map_values(|packet: PacketView| packet.bytes)
        =~= chunks(bytes));
}

/// A short message is sent with its three bytes, and a SysEx message with the bytes at the start
/// of its buffer.
pub proof fn message_bytes_are_sent(bytes: [u8; 3], buffer: Vec<u8>, length: usize)
    requires
        length <= buffer@.len(),
    ensures
        MidiResult::Basic(bytes).bytes() == seq![bytes[0], bytes[1], bytes[2]],
        MidiResult::SysEx(buffer, length).bytes().len() == length,
        forall|i: int|
            0 <= i < length ==> MidiResult::SysEx(buffer, length).bytes()[i] == buffer@[i],
{
    assert(MidiResult::Basic(bytes).bytes() =~= seq![bytes[0], bytes[1], bytes[2]]);
}

/// The packets of events stand in the order of the events: those of later events follow those of
/// earlier ones.
pub proof fn packets_follow_the_events(
    earlier: Seq<OutputMessage>,
    later: Seq<OutputMessage>,
    num_frames: u32,
)
    ensures
        all_packets(earlier + later, num_frames) == all_packets(earlier, num_frames) + all_packets(
            later,
            num_frames,
        ),
    decreases later.len(),
{
    if later.len() == 0 {
        assert(earlier + later =~= earlier);
        assert(all_packets(earlier, num_frames) + all_packets(later, num_frames) =~= all_packets(
            earlier,
            num_frames,
        ));
    } else {
        packets_follow_the_events(earlier, later.drop_last(), num_frames);
        assert((earlier + later).drop_last() =~= earlier + later.drop_last());
        assert((earlier + later).last() == later.last());
        assert(all_packets(earlier + later, num_frames) =~= all_packets(earlier, num_frames)
            + all_packets(later, num_frames));
    }
}

/// The packets of one event are the packets of that message.
pub proof fn one_event_has_its_packets(message: OutputMessage, num_frames: u32)
    ensures
        all_packets(seq![message], num_frames) == message_packets(message, num_frames),
        all_packets(Seq::<OutputMessage>::empty(), num_frames).len() == 0,
        message.midi is None ==> message_packets(message, num_frames).len() == 0,
        (message.midi matches Some(midi) && midi.bytes().len() > 0) ==> message_packets(
            message,
            num_frames,
        ).len() > 0,
{
    assert(seq![message].drop_last() =~= Seq::<OutputMessage>::empty());
    assert(seq![message].last() == message);
    assert(all_packets(seq![message].drop_last(), num_frames) =~= Seq::<PacketView>::empty());
    assert(all_packets(seq![message], num_frames) =~= message_packets(message, num_frames));
}

} // verus!
