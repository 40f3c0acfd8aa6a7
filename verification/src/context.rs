//! What a plugin sees and does while it processes a block.
use vstd::prelude::*;

use crate::event::{add_event_timing, saturating_sum, PluginNoteEvent};
use crate::plugin::{Auv2Plugin, MidiConfig};
use crate::transport::Transport;

verus! {

/// The events and the transport of one block. Events that the plugin sends count from the start of
/// the block; those that are collected count from the start of the cycle.
pub struct WrapperProcessContext {
    pub midi_output: MidiConfig,
    pub input_events: Vec<PluginNoteEvent>,
    pub input_event_idx: usize,
    pub output_events: Vec<PluginNoteEvent>,
    pub event_timing_offset: u32,
    pub transport: Transport,
}

impl WrapperProcessContext {
    /// At most all events were taken.
    pub open spec fn wf(self) -> bool {
        self.input_event_idx <= self.input_events@.len()
    }

    /// The context of a block that starts at `event_timing_offset`, before the plugin took any
    /// event.
    pub open spec fn for_block(
        midi_output: MidiConfig,
        input_events: Vec<PluginNoteEvent>,
        output_events: Vec<PluginNoteEvent>,
        event_timing_offset: u32,
        transport: Transport,
    ) -> Self {
        WrapperProcessContext {
            midi_output,
            input_events,
            input_event_idx: 0,
            output_events,
            event_timing_offset,
            transport,
        }
    }

    /// The events that the plugin has not taken yet.
    pub open spec fn left(self) -> Seq<PluginNoteEvent> {
        self.input_events@.skip(self.input_event_idx as int)
    }

    /// The events that are collected after the plugin sent one more.
    pub open spec fn collected_after(self, event: PluginNoteEvent) -> Seq<PluginNoteEvent> {
        if self.midi_output == MidiConfig::Disabled {
            self.output_events@
        } else {
            self.output_events@.push(
                event.at(saturating_sum(event.time(), self.event_timing_offset)),
            )
        }
    }

    /// At the start of a block the plugin can take all of its events, those that it sent in earlier
    /// blocks are kept, and it sees the transport of the block.
    pub proof fn block_starts_with_all_events(
        midi_output: MidiConfig,
        input_events: Vec<PluginNoteEvent>,
        output_events: Vec<PluginNoteEvent>,
        offset: u32,
        transport: Transport,
    )
        ensures
            ({
                let context = Self::for_block(
                    midi_output,
                    input_events,
                    output_events,
                    offset,
                    transport,
                );
                &&& context.left() == input_events@
                &&& context.output_events@ == output_events@
                &&& context.transport == transport
                &&& context.event_timing_offset == offset
                &&& context.midi_output == midi_output
            }),
    {
        assert(input_events@.skip(0) =~= input_events@);
    }

    /// A plugin that sends MIDI has its events collected in the order in which it sends them, at
    /// their place in the cycle: as far behind the start of the block as the plugin says, held at
    /// the largest offset. Of a plugin that sends none, nothing is collected.
    pub proof fn sent_events_are_collected(self, event: PluginNoteEvent)
        ensures
            self.midi_output == MidiConfig::Disabled ==> self.collected_after(event)
                == self.output_events@,
            self.midi_output != MidiConfig::Disabled ==> {
                &&& self.collected_after(event).len() == self.output_events@.len() + 1
                &&& self.collected_after(event).drop_last() == self.output_events@
                &&& event.time() + self.event_timing_offset <= 0xFFFF_FFFF
                    ==> self.collected_after(event).last().time() == event.time()
                    + self.event_timing_offset
                &&& event.time() + self.event_timing_offset > 0xFFFF_FFFF ==> self.collected_after(
                    event,
                ).last().time() == 0xFFFF_FFFF
                &&& self.collected_after(event).last().at(event.time()) == event
            },
    {
        if self.midi_output != MidiConfig::Disabled {
            assert(self.collected_after(event).drop_last() =~= self.output_events@);
        }
    }

    /// The context of a block that starts at `event_timing_offset`. `output_events` are those that
    /// the plugin sent in earlier blocks of the cycle.
    pub fn make_process_context<P: Auv2Plugin>(
        input_events: Vec<PluginNoteEvent>,
        output_events: Vec<PluginNoteEvent>,
        event_timing_offset: u32,
        transport: Transport,
    ) -> (context: Self)
        ensures
            context == Self::for_block(
                P::MIDI_OUTPUT,
                input_events,
                output_events,
                event_timing_offset,
                transport,
            ),
            context.wf(),
    {
        Self {
            midi_output: P::MIDI_OUTPUT,
            input_events,
            input_event_idx: 0,
            output_events,
            event_timing_offset,
            transport,
        }
    }

    /// The transport at the start of the block.
    pub fn transport(&self) -> (transport: &Transport)
        ensures
            *transport == self.transport,
    {
        &self.transport
    }

    /// The next input event, if there is one left.
    pub fn next_event(&mut self) -> (event: Option<PluginNoteEvent>)
        requires
            old(self).wf(),
        ensures
            final(self).wf(),
            event == if old(self).left().len() > 0 {
                Some(old(self).left()[0])
            } else {
                None
            },
            old(self).left().len() > 0 ==> final(self).left() == old(self).left().drop_first(),
            if old(self).input_event_idx < old(self).input_events@.len() {
                &&& event == Some(old(self).input_events@[old(self).input_event_idx as int])
                &&& *final(self) == (WrapperProcessContext {
                    input_event_idx: (old(self).input_event_idx + 1) as usize,
                    ..*old(self)
                })
            } else {
                event is None && *final(self) == *old(self)
            },
    {
        if self.input_event_idx < self.input_events.len() {
            let event = self.input_events[self.input_event_idx];
            self.input_event_idx += 1;
            Some(event)
        } else {
            None
        }
    }

    /// Sends an event. It is dropped where the plugin sends no MIDI.
    pub fn send_event(&mut self, event: PluginNoteEvent)
        ensures
            *final(self) == (WrapperProcessContext {
                output_events: final(self).output_events,
                ..*old(self)
            }),
            final(self).output_events@ == old(self).collected_after(event),
    {
        if self.midi_output == MidiConfig::Disabled {
            return;
        }
        let mut sent = event;
        add_event_timing(&mut sent, self.event_timing_offset);
        self.output_events.push(sent);
    }
}

} // verus!
