//! Parameter changes: from the host, from the editor and from a saved state.
use vstd::prelude::*;

use crate::event::{saturating_sum, PluginNoteEvent};
use crate::host::{
    AudioUnitElement, AudioUnitParameterID, AudioUnitScope, OSStatus,
    K_AUDIO_UNIT_ERR_INVALID_PARAMETER, K_AUDIO_UNIT_ERR_INVALID_PROPERTY,
    K_AUDIO_UNIT_ERR_INVALID_PROPERTY_VALUE, K_AUDIO_UNIT_ERR_INVALID_SCOPE,
    K_AUDIO_UNIT_SCOPE_GLOBAL, NO_ERR,
};
use crate::layout::AudioIOLayout;
use crate::params::{ParamPtr, ParamTable};
use crate::plugin::{Auv2Plugin, MidiConfig};
use crate::queue::{
    pushed_to, ScheduledParameterChange, MIDI_EVENT_QUEUE_CAPACITY, PARAMETER_QUEUE_CAPACITY,
};
use crate::wrapper::{BufferConfig, Wrapper};

verus! {

/// What waits for the thread of the editor.
#[derive(Clone, Copy, Debug, PartialEq, Eq, Structural)]
pub enum Task {
    ParameterValuesChanged,
    /// The parameter with this hash has the value with these bits.
    ParameterValueChanged(u32, u32),
}

/// What a parameter change leads to.
#[derive(Clone, Copy, Debug, PartialEq, Eq, Structural)]
pub enum ParameterAction {
    /// The call ends with an error.
    Refuse(OSStatus),
    /// The parameter takes the value with these bits now.
    Apply { param: ParamPtr, hash: u32, normalized_value: u32 },
    /// The change waits for the next render cycle.
    Queued,
}

/// What follows a parameter's new value.
#[derive(Clone, Copy, Debug, PartialEq, Eq, Structural)]
pub struct ChangeEffects {
    /// The smoother of the parameter moves towards the new value, at the sample rate of this
    /// configuration.
    pub update_smoother: Option<BufferConfig>,
    pub task: Option<Task>,
}

/// A value that a parameter takes at an offset. The value is the bits of an `f32`.
#[derive(Clone, Copy, Debug, PartialEq, Eq, Structural)]
pub struct AudioUnitParameterImmediate {
    pub bufferOffset: u32,
    pub value: u32,
}

/// Two values between which a parameter moves. The values are the bits of an `f32`.
#[derive(Clone, Copy, Debug, PartialEq, Eq, Structural)]
pub struct AudioUnitParameterRamp {
    pub startBufferOffset: i32,
    pub durationInFrames: u32,
    pub startValue: u32,
    pub endValue: u32,
}

/// What an event says: which of the two it is depends on the type of the event.
#[derive(Clone, Copy, Debug, PartialEq, Eq, Structural)]
pub enum ParameterEventValues {
    Immediate(AudioUnitParameterImmediate),
    Ramp(AudioUnitParameterRamp),
    /// The event has a type that there is not.
    Unknown,
}

pub const PARAMETER_EVENT_IMMEDIATE: u32 = 1;

pub const PARAMETER_EVENT_RAMPED: u32 = 2;

/// A parameter event, as hosts schedule it. Its values are four words, which hold an
/// `AudioUnitParameterImmediate` or an `AudioUnitParameterRamp`.
#[derive(Clone, Copy, Debug, PartialEq, Eq, Structural)]
pub struct AudioUnitParameterEvent {
    pub scope: AudioUnitScope,
    pub element: AudioUnitElement,
    pub parameter: AudioUnitParameterID,
    pub eventType: u32,
    pub word0: u32,
    pub word1: u32,
    pub word2: u32,
    pub word3: u32,
}

impl AudioUnitParameterEvent {
    /// What the words of the event mean.
    pub open spec fn meaning(self) -> ParameterEventValues {
        if self.eventType == PARAMETER_EVENT_IMMEDIATE {
            ParameterEventValues::Immediate(
                AudioUnitParameterImmediate { bufferOffset: self.word0, value: self.word1 },
            )
        } else if self.eventType == PARAMETER_EVENT_RAMPED {
            ParameterEventValues::Ramp(
                AudioUnitParameterRamp {
                    startBufferOffset: crate::class_info::signed(self.word0 as int),
                    durationInFrames: self.word1,
                    startValue: self.word2,
                    endValue: self.word3,
                },
            )
        } else {
            ParameterEventValues::Unknown
        }
    }

    /// What the words of the event mean.
    pub fn values(&self) -> (values: ParameterEventValues)
        ensures
            values == self.meaning(),
    {
        match self.eventType {
            PARAMETER_EVENT_IMMEDIATE => ParameterEventValues::Immediate(
                AudioUnitParameterImmediate { bufferOffset: self.word0, value: self.word1 },
            ),
            PARAMETER_EVENT_RAMPED => ParameterEventValues::Ramp(
                AudioUnitParameterRamp {
                    startBufferOffset: crate::class_info::with_sign(self.word0),
                    durationInFrames: self.word1,
                    startValue: self.word2,
                    endValue: self.word3,
                },
            ),
            _ => ParameterEventValues::Unknown,
        }
    }
}

/// A parameter event, with the normalized values of the one or two values that it gives.
#[derive(Clone, Copy, Debug, PartialEq, Eq, Structural)]
pub struct NormalizedEvent {
    pub event: AudioUnitParameterEvent,
    pub start: u32,
    pub end: u32,
}

/// What a parameter change at an offset leads to: it is applied where it takes effect at once, and
/// waits otherwise.
pub open spec fn change_action(
    params: ParamTable,
    hash: u32,
    normalized_value: u32,
    offset: u32,
) -> ParameterAction {
    if !params.knows(hash) {
        ParameterAction::Refuse(K_AUDIO_UNIT_ERR_INVALID_PARAMETER)
    } else if offset == 0 {
        ParameterAction::Apply { param: params.meant(hash).ptr, hash, normalized_value }
    } else {
        ParameterAction::Queued
    }
}

/// The changes that wait after one more change at an offset: only one that is not applied at once
/// waits.
pub open spec fn waiting_after(
    params: ParamTable,
    waiting: Seq<ScheduledParameterChange>,
    change: ScheduledParameterChange,
) -> Seq<ScheduledParameterChange> {
    if params.knows(change.param_hash) && change.sample_offset != 0 {
        pushed_to(waiting, change, PARAMETER_QUEUE_CAPACITY as nat)
    } else {
        waiting
    }
}

/// Where a ramp starts: not in front of the block.
pub open spec fn ramp_start(ramp: AudioUnitParameterRamp) -> u32 {
    if ramp.startBufferOffset < 0 {
        0
    } else {
        ramp.startBufferOffset as u32
    }
}

/// What a scheduled event leads to. A ramp starts with a change at its start.
pub open spec fn event_action(params: ParamTable, given: NormalizedEvent) -> ParameterAction {
    if given.event.scope != K_AUDIO_UNIT_SCOPE_GLOBAL {
        ParameterAction::Refuse(K_AUDIO_UNIT_ERR_INVALID_SCOPE)
    } else {
        match given.event.meaning() {
            ParameterEventValues::Immediate(immediate) => change_action(
                params,
                given.event.parameter,
                given.start,
                immediate.bufferOffset,
            ),
            ParameterEventValues::Ramp(ramp) => change_action(
                params,
                given.event.parameter,
                given.start,
                ramp_start(ramp),
            ),
            ParameterEventValues::Unknown => ParameterAction::Refuse(
                K_AUDIO_UNIT_ERR_INVALID_PARAMETER,
            ),
        }
    }
}

/// The changes that wait after a scheduled event. A ramp with a duration ends with a second change.
pub open spec fn waiting_after_event(
    params: ParamTable,
    waiting: Seq<ScheduledParameterChange>,
    given: NormalizedEvent,
) -> Seq<ScheduledParameterChange> {
    if event_action(params, given) is Refuse {
        waiting
    } else {
        let hash = given.event.parameter;
        match given.event.meaning() {
            ParameterEventValues::Immediate(immediate) => waiting_after(
                params,
                waiting,
                ScheduledParameterChange {
                    param_hash: hash,
                    sample_offset: immediate.bufferOffset,
                    normalized_value: given.start,
                },
            ),
            ParameterEventValues::Ramp(ramp) => {
                let started = waiting_after(
                    params,
                    waiting,
                    ScheduledParameterChange {
                        param_hash: hash,
                        sample_offset: ramp_start(ramp),
                        normalized_value: given.start,
                    },
                );
                if ramp.durationInFrames > 0 {
                    pushed_to(
                        started,
                        ScheduledParameterChange {
                            param_hash: hash,
                            sample_offset: saturating_sum(ramp_start(ramp), ramp.durationInFrames),
                            normalized_value: given.end,
                        },
                        PARAMETER_QUEUE_CAPACITY as nat,
                    )
                } else {
                    started
                }
            },
            ParameterEventValues::Unknown => waiting,
        }
    }
}

/// How many events are served: all in front of the first one that is refused.
pub open spec fn served(params: ParamTable, events: Seq<NormalizedEvent>) -> nat
    decreases events.len(),
{
    if events.len() == 0 || event_action(params, events[0]) is Refuse {
        0
    } else {
        1 + served(params, events.drop_first())
    }
}

/// The changes that wait after the first `n` events.
pub open spec fn waiting_after_events(
    params: ParamTable,
    waiting: Seq<ScheduledParameterChange>,
    events: Seq<NormalizedEvent>,
    n: nat,
) -> Seq<ScheduledParameterChange>
    decreases n,
{
    if n == 0 {
        waiting
    } else {
        waiting_after_event(
            params,
            waiting_after_events(params, waiting, events, (n - 1) as nat),
            events[n - 1],
        )
    }
}

/// The changes of the first `n` events that are applied at once.
pub open spec fn applied_by_events(
    params: ParamTable,
    events: Seq<NormalizedEvent>,
    n: nat,
) -> Seq<ParameterAction>
    decreases n,
{
    if n == 0 {
        seq![]
    } else {
        let fewer = applied_by_events(params, events, (n - 1) as nat);
        if event_action(params, events[n - 1]) is Apply {
            fewer.push(event_action(params, events[n - 1]))
        } else {
            fewer
        }
    }
}

proof fn lemma_served(params: ParamTable, events: Seq<NormalizedEvent>, n: int)
    requires
        0 <= n <= events.len(),
        forall|i: int| 0 <= i < n ==> !(event_action(params, #[trigger] events[i]) is Refuse),
        n < events.len() ==> event_action(params, events[n]) is Refuse,
    ensures
        served(params, events) == n,
    decreases events.len(),
{
    if n > 0 {
        let rest = events.drop_first();
        assert forall|i: int| 0 <= i < n - 1 implies !(event_action(
            params,
            #[trigger] rest[i],
        ) is Refuse) by {
            assert(rest[i] == events[i + 1]);
        }
        lemma_served(params, rest, n - 1);
    }
}

/// How a saved state is taken over.
#[derive(Clone, Copy, Debug)]
pub enum StateStep {
    /// The state is refused.
    Rejected,
    /// The plugin is initialized anew. What it answers goes to `finish_set_state`.
    Reinitialize { layout: AudioIOLayout, config: BufferConfig },
    /// The state is taken over. The plugin is reset where it was initialized anew, and the editor
    /// is told that all values changed.
    Restored { reset: bool },
}

/// What follows after a saved state was read into the parameters of a unit with a layout and a
/// configuration, or could not be.
pub open spec fn state_step(
    layout: AudioIOLayout,
    config: Option<BufferConfig>,
    deserialized: bool,
) -> StateStep {
    if !deserialized {
        StateStep::Rejected
    } else {
        match config {
            Some(config) => StateStep::Reinitialize { layout, config },
            None => StateStep::Restored { reset: false },
        }
    }
}

/// What follows after the plugin was initialized anew, or could not be.
pub open spec fn step_after(reinitialized: bool) -> StateStep {
    if reinitialized {
        StateStep::Restored { reset: true }
    } else {
        StateStep::Rejected
    }
}

/// What follows a parameter's new value in a unit with a configuration.
pub open spec fn change_effects(
    config: Option<BufferConfig>,
    hash: u32,
    normalized_value: u32,
    changed: bool,
) -> ChangeEffects {
    if changed {
        ChangeEffects {
            update_smoother: config,
            task: Some(Task::ParameterValueChanged(hash, normalized_value)),
        }
    } else {
        ChangeEffects { update_smoother: None, task: None }
    }
}

/// The status of taking a MIDI message, and the events that wait after it.
pub open spec fn taken_message(
    midi_input: MidiConfig,
    waiting: Seq<PluginNoteEvent>,
    parsed: Option<PluginNoteEvent>,
) -> (OSStatus, Seq<PluginNoteEvent>) {
    if midi_input == MidiConfig::Disabled {
        (K_AUDIO_UNIT_ERR_INVALID_PROPERTY, waiting)
    } else {
        match parsed {
            Some(event) => (
                NO_ERR,
                pushed_to(waiting, event, MIDI_EVENT_QUEUE_CAPACITY as nat),
            ),
            None => (K_AUDIO_UNIT_ERR_INVALID_PARAMETER, waiting),
        }
    }
}

/// The parameter whose value a host asks for, or why it does not get it.
pub open spec fn asked_parameter(
    params: ParamTable,
    hash: u32,
    scope: AudioUnitScope,
    element: AudioUnitElement,
    out_is_null: bool,
) -> Result<ParamPtr, OSStatus> {
    if out_is_null {
        Err(K_AUDIO_UNIT_ERR_INVALID_PROPERTY_VALUE)
    } else if scope != K_AUDIO_UNIT_SCOPE_GLOBAL || element != 0 {
        Err(K_AUDIO_UNIT_ERR_INVALID_SCOPE)
    } else if !params.knows(hash) {
        Err(K_AUDIO_UNIT_ERR_INVALID_PARAMETER)
    } else {
        Ok(params.meant(hash).ptr)
    }
}

impl<P: Auv2Plugin> Wrapper<P> {
    /// Goes on after a saved state was read into the parameters, or could not be.
    pub fn set_state_inner(&self, deserialized: bool) -> (step: StateStep)
        ensures
            step == state_step(self.layout(), self.state.current_buffer_config, deserialized),
    {
        if !deserialized {
            return StateStep::Rejected;
        }
        match self.state.current_buffer_config {
            Some(config) => StateStep::Reinitialize {
                layout: self.state.current_audio_io_layout,
                config,
            },
            None => StateStep::Restored { reset: false },
        }
    }

    /// Goes on after the plugin was initialized anew, or could not be.
    pub fn finish_set_state(reinitialized: bool) -> (step: StateStep)
        ensures
            step == step_after(reinitialized),
    {
        if reinitialized {
            StateStep::Restored { reset: true }
        } else {
            StateStep::Rejected
        }
    }

    /// Whether these are the parameters that go back to their default values, with the configuration
    /// for which their smoothers jump there.
    pub open spec fn are_defaults(self, defaults: (Vec<ParamPtr>, Option<BufferConfig>)) -> bool {
        &&& defaults.0@ == self.params.reached_ptrs(self.params.entries@.len())
        &&& defaults.1 == self.state.current_buffer_config
    }

    /// The defaults are restored for every parameter that a host can reach, and the smoothers jump
    /// where the plugin is initialized, at the sample rate that it was initialized with.
    pub proof fn all_parameters_get_their_defaults(
        self,
        defaults: (Vec<ParamPtr>, Option<BufferConfig>),
        i: int,
    )
        requires
            self.wf(),
            self.are_defaults(defaults),
            0 <= i < self.params.entries@.len(),
            forall|j: int|
                i < j < self.params.entries@.len() ==> (#[trigger] self.params.entries@[j]).hash
                    != self.params.entries@[i].hash,
        ensures
            defaults.0@.contains(self.params.entries@[i].ptr),
            defaults.1 is Some ==> self.state.is_initialized,
            defaults.1 matches Some(config) ==> config.sample_rate == self.state.sample_rate,
    {
        self.params.unhidden_parameter_is_reached(self.params.entries@.len(), i);
    }

    /// The parameters that go back to their default values, and the configuration for which their
    /// smoothers jump there. The editor is then told that all values changed.
    pub fn restore_defaults(&self) -> (defaults: (Vec<ParamPtr>, Option<BufferConfig>))
        requires
            self.wf(),
        ensures
            self.are_defaults(defaults),
    {
        (self.params.reachable_params(), self.state.current_buffer_config)
    }

    /// Lets a parameter change wait for the next render cycle. It is dropped where there is no
    /// room.
    pub fn push_parameter_change(&mut self, change: ScheduledParameterChange)
        requires
            old(self).wf(),
        ensures
            final(self).wf(),
            *final(self) == (Wrapper {
                pending_parameter_changes: final(self).pending_parameter_changes,
                ..*old(self)
            }),
            final(self).pending_parameter_changes@ == pushed_to(
                old(self).pending_parameter_changes@,
                change,
                PARAMETER_QUEUE_CAPACITY as nat,
            ),
    {
        let _ = self.pending_parameter_changes.push(change);
    }

    /// The parameter that takes a new value, where there is one with this hash.
    pub fn apply_parameter_change(&self, param_hash: u32) -> (param: Result<ParamPtr, OSStatus>)
        requires
            self.wf(),
        ensures
            param == if self.params.knows(param_hash) {
                Ok::<ParamPtr, OSStatus>(self.params.meant(param_hash).ptr)
            } else {
                Err(K_AUDIO_UNIT_ERR_INVALID_PARAMETER)
            },
    {
        match self.params.param_by_hash(param_hash) {
            Some(param) => Ok(param),
            None => Err(K_AUDIO_UNIT_ERR_INVALID_PARAMETER),
        }
    }

    /// What follows a parameter's new value: nothing where it had that value before.
    pub fn parameter_changed(
        &self,
        param_hash: u32,
        normalized_value: u32,
        changed: bool,
    ) -> (effects: ChangeEffects)
        ensures
            effects == change_effects(
                self.state.current_buffer_config,
                param_hash,
                normalized_value,
                changed,
            ),
    {
        if changed {
            ChangeEffects {
                update_smoother: self.state.current_buffer_config,
                task: Some(Task::ParameterValueChanged(param_hash, normalized_value)),
            }
        } else {
            ChangeEffects { update_smoother: None, task: None }
        }
    }

    /// Gives a parameter a value at an offset. `normalized_value` is the bits of the value that the
    /// parameter's own scale gives for it.
    pub fn set_plain_parameter(
        &mut self,
        param_id: AudioUnitParameterID,
        normalized_value: u32,
        buffer_offset: u32,
    ) -> (action: ParameterAction)
        requires
            old(self).wf(),
        ensures
            final(self).wf(),
            action == change_action(old(self).params, param_id, normalized_value, buffer_offset),
            *final(self) == (Wrapper {
                pending_parameter_changes: final(self).pending_parameter_changes,
                ..*old(self)
            }),
            final(self).pending_parameter_changes@ == waiting_after(
                old(self).params,
                old(self).pending_parameter_changes@,
                ScheduledParameterChange {
                    param_hash: param_id,
                    sample_offset: buffer_offset,
                    normalized_value,
                },
            ),
    {
        match self.params.param_by_hash(param_id) {
            None => ParameterAction::Refuse(K_AUDIO_UNIT_ERR_INVALID_PARAMETER),
            Some(param) => {
                if buffer_offset == 0 {
                    ParameterAction::Apply { param, hash: param_id, normalized_value }
                } else {
                    self.push_parameter_change(
                        ScheduledParameterChange {
                            param_hash: param_id,
                            sample_offset: buffer_offset,
                            normalized_value,
                        },
                    );
                    ParameterAction::Queued
                }
            },
        }
    }

    /// Takes one scheduled event.
    pub fn queue_parameter_event(&mut self, given: &NormalizedEvent) -> (action: ParameterAction)
        requires
            old(self).wf(),
        ensures
            final(self).wf(),
            action == event_action(old(self).params, *given),
            *final(self) == (Wrapper {
                pending_parameter_changes: final(self).pending_parameter_changes,
                ..*old(self)
            }),
            final(self).pending_parameter_changes@ == waiting_after_event(
                old(self).params,
                old(self).pending_parameter_changes@,
                *given,
            ),
    {
        if given.event.scope != K_AUDIO_UNIT_SCOPE_GLOBAL {
            return ParameterAction::Refuse(K_AUDIO_UNIT_ERR_INVALID_SCOPE);
        }
        let hash = given.event.parameter;
        match given.event.values() {
            ParameterEventValues::Immediate(immediate) => self.set_plain_parameter(
                hash,
                given.start,
                immediate.bufferOffset,
            ),
            ParameterEventValues::Ramp(ramp) => {
                let start_offset: u32 = if ramp.startBufferOffset < 0 {
                    0
                } else {
                    ramp.startBufferOffset as u32
                };
                let action = self.set_plain_parameter(hash, given.start, start_offset);
                match action {
                    ParameterAction::Refuse(_) => {},
                    _ => {
                        if ramp.durationInFrames > 0 {
                            self.push_parameter_change(
                                ScheduledParameterChange {
                                    param_hash: hash,
                                    sample_offset: start_offset.saturating_add(
                                        ramp.durationInFrames,
                                    ),
                                    normalized_value: given.end,
                                },
                            );
                        }
                    },
                }
                action
            },
            ParameterEventValues::Unknown => ParameterAction::Refuse(
                K_AUDIO_UNIT_ERR_INVALID_PARAMETER,
            ),
        }
    }

    /// Scheduled events turn the unit `before` into this one, with a status and the changes that are
    /// applied at once.
    pub open spec fn takes_events(
        self,
        before: Self,
        events: Option<Seq<NormalizedEvent>>,
        num_events: u32,
        result: (OSStatus, Seq<ParameterAction>),
    ) -> bool {
        match events {
            None => {
                &&& result.0 == if num_events != 0 {
                    K_AUDIO_UNIT_ERR_INVALID_PROPERTY_VALUE
                } else {
                    NO_ERR
                }
                &&& result.1.len() == 0
                &&& self == before
            },
            Some(list) => {
                let n = served(before.params, list);
                &&& result.0 == if n == list.len() {
                    NO_ERR
                } else {
                    event_action(before.params, list[n as int])->Refuse_0
                }
                &&& result.1 == applied_by_events(before.params, list, n)
                &&& self.pending_parameter_changes@ == waiting_after_events(
                    before.params,
                    before.pending_parameter_changes@,
                    list,
                    n,
                )
            },
        }
    }

    /// A host that announces events and gives none gets an error; one that announces none succeeds.
    /// A single event that is refused gives its reason as the status and changes nothing, and one
    /// that is not refused succeeds: it is applied at once, or waits, as it would alone.
    pub proof fn events_succeed_where_none_is_refused(
        self,
        before: Self,
        num_events: u32,
        result: (OSStatus, Seq<ParameterAction>),
        event: NormalizedEvent,
    )
        ensures
            self.takes_events(before, None, num_events, result) ==> {
                &&& num_events == 0 ==> result.0 == 0
                &&& num_events > 0 ==> result.0 == K_AUDIO_UNIT_ERR_INVALID_PROPERTY_VALUE
                &&& result.1.len() == 0
                &&& self == before
            },
            self.takes_events(before, Some(seq![event]), num_events, result) ==> match event_action(
                before.params,
                event,
            ) {
                ParameterAction::Refuse(status) => result.0 == status && result.1.len() == 0
                    && self.pending_parameter_changes@ == before.pending_parameter_changes@,
                ParameterAction::Queued => result.0 == 0 && result.1.len() == 0
                    && self.pending_parameter_changes@ == waiting_after_event(
                    before.params,
                    before.pending_parameter_changes@,
                    event,
                ),
                ParameterAction::Apply { .. } => result.0 == 0 && result.1 == seq![
                    event_action(before.params, event),
                ],
            },
    {
        reveal_with_fuel(served, 2);
        assert(seq![event].drop_first() =~= Seq::<NormalizedEvent>::empty());
        one_event_is_scheduled(before.params, before.pending_parameter_changes@, event);
    }

    /// Takes scheduled events up to the first one that is refused. The result is the status of the
    /// call, with the changes that are applied at once. `events` is none where the host gave a null
    /// pointer, which is an error unless there are no events.
    pub fn schedule_parameters(
        &mut self,
        events: Option<&Vec<NormalizedEvent>>,
        num_events: u32,
    ) -> (result: (OSStatus, Vec<ParameterAction>))
        requires
            old(self).wf(),
        ensures
            final(self).wf(),
            *final(self) == (Wrapper {
                pending_parameter_changes: final(self).pending_parameter_changes,
                ..*old(self)
            }),
            final(self).takes_events(
                *old(self),
                match events {
                    Some(list) => Some(list@),
                    None => None,
                },
                num_events,
                (result.0, result.1@),
            ),
    {
        let mut applied: Vec<ParameterAction> = Vec::new();
        match events {
            None => {
                if num_events != 0 {
                    (K_AUDIO_UNIT_ERR_INVALID_PROPERTY_VALUE, applied)
                } else {
                    (NO_ERR, applied)
                }
            },
            Some(list) => {
                let ghost before = *self;
                let mut i: usize = 0;
                assert(applied@ =~= applied_by_events(before.params, list@, 0));
                while i < list.len()
                    invariant
                        i <= list@.len(),
                        events == Some(list),
                        self.wf(),
                        before == *old(self),
                        *self == (Wrapper {
                            pending_parameter_changes: self.pending_parameter_changes,
                            ..before
                        }),
                        forall|j: int|
                            0 <= j < i ==> !(event_action(
                                before.params,
                                #[trigger] list@[j],
                            ) is Refuse),
                        applied@ == applied_by_events(before.params, list@, i as nat),
                        self.pending_parameter_changes@ == waiting_after_events(
                            before.params,
                            before.pending_parameter_changes@,
                            list@,
                            i as nat,
                        ),
                    decreases list@.len() - i,
                {
                    let action = self.queue_parameter_event(&list[i]);
                    match action {
                        ParameterAction::Refuse(status) => {
                            proof {
                                lemma_served(before.params, list@, i as int);
                            }
                            return (status, applied);
                        },
                        ParameterAction::Apply { .. } => {
                            applied.push(action);
                        },
                        ParameterAction::Queued => {},
                    }
                    i += 1;
                }
                proof {
                    lemma_served(before.params, list@, i as int);
                }
                (NO_ERR, applied)
            },
        }
    }

    /// The parameter whose value a host asks for. `out_is_null` says that the host gave no place
    /// for it.
    pub fn get_parameter(
        &self,
        param_id: AudioUnitParameterID,
        scope: AudioUnitScope,
        element: AudioUnitElement,
        out_is_null: bool,
    ) -> (param: Result<ParamPtr, OSStatus>)
        requires
            self.wf(),
        ensures
            param == asked_parameter(self.params, param_id, scope, element, out_is_null),
    {
        if out_is_null {
            return Err(K_AUDIO_UNIT_ERR_INVALID_PROPERTY_VALUE);
        }
        if scope != K_AUDIO_UNIT_SCOPE_GLOBAL || element != 0 {
            return Err(K_AUDIO_UNIT_ERR_INVALID_SCOPE);
        }
        self.apply_parameter_change(param_id)
    }

    /// A value that a host sets turns the unit `before` into this one and leads to an action.
    pub open spec fn takes_value(
        self,
        before: Self,
        param_id: AudioUnitParameterID,
        scope: AudioUnitScope,
        element: AudioUnitElement,
        normalized_value: u32,
        buffer_offset: u32,
        action: ParameterAction,
    ) -> bool {
        if scope != K_AUDIO_UNIT_SCOPE_GLOBAL || element != 0 {
            &&& action == ParameterAction::Refuse(K_AUDIO_UNIT_ERR_INVALID_SCOPE)
            &&& self == before
        } else {
            &&& action == change_action(before.params, param_id, normalized_value, buffer_offset)
            &&& self.pending_parameter_changes@ == waiting_after(
                before.params,
                before.pending_parameter_changes@,
                ScheduledParameterChange {
                    param_hash: param_id,
                    sample_offset: buffer_offset,
                    normalized_value,
                },
            )
        }
    }

    /// A value is set for the whole unit only. It is applied at once where it has no offset, and
    /// otherwise waits behind all other changes for the sample at its offset, as long as there is
    /// room. A value for a parameter that is not known is refused.
    pub proof fn values_are_set_for_the_whole_unit(
        self,
        before: Self,
        param_id: AudioUnitParameterID,
        scope: AudioUnitScope,
        element: AudioUnitElement,
        normalized_value: u32,
        buffer_offset: u32,
        action: ParameterAction,
    )
        requires
            self.takes_value(
                before,
                param_id,
                scope,
                element,
                normalized_value,
                buffer_offset,
                action,
            ),
        ensures
            ({
                let waiting = before.pending_parameter_changes@;
                let after = self.pending_parameter_changes@;
                &&& scope != 0 || element != 0 ==> action == ParameterAction::Refuse(
                    K_AUDIO_UNIT_ERR_INVALID_SCOPE,
                ) && self == before
                &&& scope == 0 && element == 0 && !before.params.knows(param_id) ==> action
                    == ParameterAction::Refuse(K_AUDIO_UNIT_ERR_INVALID_PARAMETER) && after
                    == waiting
                &&& scope == 0 && element == 0 && before.params.knows(param_id) && buffer_offset
                    == 0 ==> action == (ParameterAction::Apply {
                    param: before.params.meant(param_id).ptr,
                    hash: param_id,
                    normalized_value,
                }) && after == waiting
                &&& scope == 0 && element == 0 && before.params.knows(param_id) && buffer_offset > 0
                    ==> {
                    &&& action is Queued
                    &&& waiting.len() >= 2048 ==> after == waiting
                    &&& waiting.len() < 2048 ==> {
                        &&& after.len() == waiting.len() + 1
                        &&& after.last().param_hash == param_id
                        &&& after.last().sample_offset == buffer_offset
                        &&& after.last().normalized_value == normalized_value
                        &&& after.drop_last() == waiting
                    }
                }
            }),
    {
    }

    /// Gives a parameter a value that a host sets.
    pub fn set_parameter(
        &mut self,
        param_id: AudioUnitParameterID,
        scope: AudioUnitScope,
        element: AudioUnitElement,
        normalized_value: u32,
        buffer_offset: u32,
    ) -> (action: ParameterAction)
        requires
            old(self).wf(),
        ensures
            final(self).wf(),
            *final(self) == (Wrapper {
                pending_parameter_changes: final(self).pending_parameter_changes,
                ..*old(self)
            }),
            final(self).takes_value(
                *old(self),
                param_id,
                scope,
                element,
                normalized_value,
                buffer_offset,
                action,
            ),
    {
        if scope != K_AUDIO_UNIT_SCOPE_GLOBAL || element != 0 {
            return ParameterAction::Refuse(K_AUDIO_UNIT_ERR_INVALID_SCOPE);
        }
        self.set_plain_parameter(param_id, normalized_value, buffer_offset)
    }

    /// Lets an input event wait for the next render cycle. It is dropped where there is no room.
    pub fn queue_input_event(&mut self, event: PluginNoteEvent)
        requires
            old(self).wf(),
        ensures
            final(self).wf(),
            *final(self) == (Wrapper {
                pending_input_events: final(self).pending_input_events,
                ..*old(self)
            }),
            final(self).pending_input_events@ == pushed_to(
                old(self).pending_input_events@,
                event,
                MIDI_EVENT_QUEUE_CAPACITY as nat,
            ),
    {
        let _ = self.pending_input_events.push(event);
    }

    /// Takes a MIDI message. `parsed` is the event that it means, where it means any.
    pub fn queue_midi_message(&mut self, parsed: Option<PluginNoteEvent>) -> (status: OSStatus)
        requires
            old(self).wf(),
        ensures
            final(self).wf(),
            *final(self) == (Wrapper {
                pending_input_events: final(self).pending_input_events,
                ..*old(self)
            }),
            (status, final(self).pending_input_events@) == taken_message(
                P::MIDI_INPUT,
                old(self).pending_input_events@,
                parsed,
            ),
            status != NO_ERR ==> *final(self) == *old(self),
    {
        if P::MIDI_INPUT == MidiConfig::Disabled {
            return K_AUDIO_UNIT_ERR_INVALID_PROPERTY;
        }
        match parsed {
            Some(event) => {
                self.queue_input_event(event);
                NO_ERR
            },
            None => K_AUDIO_UNIT_ERR_INVALID_PARAMETER,
        }
    }
}

/// A change that is accepted is applied at once or waits, and never both. One that is refused does
/// neither.
pub proof fn change_is_applied_or_waits(
    params: ParamTable,
    waiting: Seq<ScheduledParameterChange>,
    change: ScheduledParameterChange,
)
    requires
        waiting.len() < PARAMETER_QUEUE_CAPACITY,
    ensures
        match change_action(
            params,
            change.param_hash,
            change.normalized_value,
            change.sample_offset,
        ) {
            ParameterAction::Queued => waiting_after(params, waiting, change) == waiting.push(
                change,
            ),
            _ => waiting_after(params, waiting, change) == waiting,
        },
{
}

/// The words of a ramped event are a ramp as it lies in memory: the offset with its sign, the
/// duration, the value at the start and the value at the end.
pub proof fn words_of_a_ramp_mean_the_ramp(
    event: AudioUnitParameterEvent,
    ramp: AudioUnitParameterRamp,
)
    requires
        event.eventType == 2,
        (ramp.startBufferOffset - event.word0) % 0x1_0000_0000 == 0,
        event.word1 == ramp.durationInFrames,
        event.word2 == ramp.startValue,
        event.word3 == ramp.endValue,
    ensures
        event.meaning() == ParameterEventValues::Ramp(ramp),
{
}

/// The words of an immediate event are an offset and a value as they lie in memory.
pub proof fn words_of_an_immediate_change_mean_the_change(
    event: AudioUnitParameterEvent,
    immediate: AudioUnitParameterImmediate,
)
    requires
        event.eventType == 1,
        event.word0 == immediate.bufferOffset,
        event.word1 == immediate.value,
    ensures
        event.meaning() == ParameterEventValues::Immediate(immediate),
{
}

/// An event of any other type is refused, and so is one that is not about the whole unit. Neither
/// changes anything.
pub proof fn other_events_are_refused(
    params: ParamTable,
    waiting: Seq<ScheduledParameterChange>,
    given: NormalizedEvent,
)
    requires
        given.event.scope != 0 || (given.event.eventType != 1 && given.event.eventType != 2)
            || !params.knows(given.event.parameter),
    ensures
        event_action(params, given) is Refuse,
        given.event.scope != 0 ==> event_action(params, given) == ParameterAction::Refuse(
            K_AUDIO_UNIT_ERR_INVALID_SCOPE,
        ),
        given.event.scope == 0 ==> event_action(params, given) == ParameterAction::Refuse(
            K_AUDIO_UNIT_ERR_INVALID_PARAMETER,
        ),
        waiting_after_event(params, waiting, given) == waiting,
{
}

/// A change of a parameter that the plugin has takes effect at its offset: at once where that is
/// the first sample, and otherwise it waits behind all others with the offset and the value that
/// were asked for. Where there is no room it is dropped. A change of any other parameter is
/// refused.
pub proof fn change_takes_effect_at_its_offset(
    params: ParamTable,
    waiting: Seq<ScheduledParameterChange>,
    hash: u32,
    value: u32,
    offset: u32,
)
    ensures
        ({
            let change = ScheduledParameterChange {
                param_hash: hash,
                sample_offset: offset,
                normalized_value: value,
            };
            let action = change_action(params, hash, value, offset);
            let after = waiting_after(params, waiting, change);
            &&& params.knows(hash) && offset == 0 ==> {
                &&& action == ParameterAction::Apply {
                    param: params.meant(hash).ptr,
                    hash,
                    normalized_value: value,
                }
                &&& after == waiting
            }
            &&& params.knows(hash) && offset > 0 ==> {
                &&& action == ParameterAction::Queued
                &&& waiting.len() < 2048 ==> after.len() == waiting.len() + 1 && after.last()
                    == change && after.drop_last() == waiting
                &&& waiting.len() >= 2048 ==> after == waiting
            }
            &&& !params.knows(hash) ==> action is Refuse && after == waiting
        }),
{
    let change = ScheduledParameterChange {
        param_hash: hash,
        sample_offset: offset,
        normalized_value: value,
    };
    let after = waiting_after(params, waiting, change);
    if params.knows(hash) && offset > 0 && waiting.len() < 2048 {
        assert(after.drop_last() =~= waiting);
    }
}

/// A scheduled immediate event is the same as setting the parameter at the event's offset.
pub proof fn immediate_event_is_a_change_at_its_offset(
    params: ParamTable,
    waiting: Seq<ScheduledParameterChange>,
    given: NormalizedEvent,
)
    requires
        given.event.scope == 0,
        given.event.eventType == 1,
    ensures
        event_action(params, given) == change_action(
            params,
            given.event.parameter,
            given.start,
            given.event.word0,
        ),
        waiting_after_event(params, waiting, given) == waiting_after(
            params,
            waiting,
            ScheduledParameterChange {
                param_hash: given.event.parameter,
                sample_offset: given.event.word0,
                normalized_value: given.start,
            },
        ),
{
}

/// A ramp sets the value at its start, not in front of the cycle, and where it lasts, the value at
/// its end so many samples later. The start comes first.
pub proof fn ramp_goes_from_its_start_to_its_end(
    params: ParamTable,
    waiting: Seq<ScheduledParameterChange>,
    given: NormalizedEvent,
    ramp: AudioUnitParameterRamp,
)
    requires
        given.event.scope == 0,
        given.event.meaning() == ParameterEventValues::Ramp(ramp),
        params.knows(given.event.parameter),
        waiting.len() + 2 <= 2048,
    ensures
        ({
            let hash = given.event.parameter;
            let action = event_action(params, given);
            let after = waiting_after_event(params, waiting, given);
            let start: int = if ramp.startBufferOffset > 0 {
                ramp.startBufferOffset as int
            } else {
                0
            };
            let last: int = start + ramp.durationInFrames;
            let at_start = if start == 0 {
                Seq::<ScheduledParameterChange>::empty()
            } else {
                seq![ScheduledParameterChange {
                    param_hash: hash,
                    sample_offset: start as u32,
                    normalized_value: given.start,
                }]
            };
            let at_end = if ramp.durationInFrames == 0 {
                Seq::<ScheduledParameterChange>::empty()
            } else {
                seq![ScheduledParameterChange {
                    param_hash: hash,
                    sample_offset: if last <= 0xFFFF_FFFF {
                        last as u32
                    } else {
                        0xFFFF_FFFF
                    },
                    normalized_value: given.end,
                }]
            };
            &&& after == waiting + at_start + at_end
            &&& start == 0 ==> action == ParameterAction::Apply {
                param: params.meant(hash).ptr,
                hash,
                normalized_value: given.start,
            }
            &&& start > 0 ==> action == ParameterAction::Queued
        }),
{
    let after = waiting_after_event(params, waiting, given);
    let empty = Seq::<ScheduledParameterChange>::empty();
    assert(waiting + empty =~= waiting);
    assert(waiting + empty + empty =~= waiting);
    if ramp.startBufferOffset > 0 {
        let first = ScheduledParameterChange {
            param_hash: given.event.parameter,
            sample_offset: ramp.startBufferOffset as u32,
            normalized_value: given.start,
        };
        assert(waiting.push(first) =~= waiting + seq![first]);
        assert(waiting + seq![first] + empty =~= waiting + seq![first]);
    }
}

/// Events are served in their order up to the first one that is refused, and what is served does
/// not depend on what comes behind it.
pub proof fn events_are_served_up_to_the_first_refusal(
    params: ParamTable,
    events: Seq<NormalizedEvent>,
)
    ensures
        served(params, events) <= events.len(),
        forall|i: int|
            0 <= i < served(params, events) ==> !(event_action(
                params,
                #[trigger] events[i],
            ) is Refuse),
        served(params, events) < events.len() ==> event_action(
            params,
            events[served(params, events) as int],
        ) is Refuse,
    decreases events.len(),
{
    if events.len() > 0 && !(event_action(params, events[0]) is Refuse) {
        let rest = events.drop_first();
        events_are_served_up_to_the_first_refusal(params, rest);
        assert forall|i: int| 0 <= i < served(params, events) implies !(event_action(
            params,
            #[trigger] events[i],
        ) is Refuse) by {
            if i > 0 {
                assert(rest[i - 1] == events[i]);
            }
        }
    }
}

/// Scheduling events in two calls is the same as scheduling them in one.
pub proof fn events_can_come_in_two_calls(
    params: ParamTable,
    waiting: Seq<ScheduledParameterChange>,
    first: Seq<NormalizedEvent>,
    second: Seq<NormalizedEvent>,
    n: nat,
)
    requires
        n <= second.len(),
    ensures
        waiting_after_events(params, waiting, first + second, first.len() + n)
            == waiting_after_events(
            params,
            waiting_after_events(params, waiting, first, first.len()),
            second,
            n,
        ),
        applied_by_events(params, first + second, first.len() + n) == applied_by_events(
            params,
            first,
            first.len(),
        ) + applied_by_events(params, second, n),
    decreases n,
{
    let both = first + second;
    if n == 0 {
        lemma_events_in_front(params, waiting, first, second, first.len());
        assert(applied_by_events(params, first, first.len()) + applied_by_events(
            params,
            second,
            0,
        ) =~= applied_by_events(params, first, first.len()));
    } else {
        events_can_come_in_two_calls(params, waiting, first, second, (n - 1) as nat);
        assert(both[first.len() + n - 1] == second[n - 1]);
        assert(applied_by_events(params, both, first.len() + n) =~= applied_by_events(
            params,
            first,
            first.len(),
        ) + applied_by_events(params, second, n));
    }
}

proof fn lemma_events_in_front(
    params: ParamTable,
    waiting: Seq<ScheduledParameterChange>,
    first: Seq<NormalizedEvent>,
    second: Seq<NormalizedEvent>,
    n: nat,
)
    requires
        n <= first.len(),
    ensures
        waiting_after_events(params, waiting, first + second, n) == waiting_after_events(
            params,
            waiting,
            first,
            n,
        ),
        applied_by_events(params, first + second, n) == applied_by_events(params, first, n),
    decreases n,
{
    if n > 0 {
        lemma_events_in_front(params, waiting, first, second, (n - 1) as nat);
        assert((first + second)[n - 1] == first[n - 1]);
    }
}

/// The changes that a call applies at once are those of the served events that take effect at
/// once, in their order, and scheduling one more event adds at most its own.
pub proof fn one_event_is_scheduled(
    params: ParamTable,
    waiting: Seq<ScheduledParameterChange>,
    given: NormalizedEvent,
)
    ensures
        waiting_after_events(params, waiting, seq![given], 1) == waiting_after_event(
            params,
            waiting,
            given,
        ),
        event_action(params, given) is Apply ==> applied_by_events(params, seq![given], 1)
            == seq![event_action(params, given)],
        !(event_action(params, given) is Apply) ==> applied_by_events(params, seq![given], 1).len()
            == 0,
{
    reveal_with_fuel(waiting_after_events, 2);
    reveal_with_fuel(applied_by_events, 2);
    assert(Seq::<ParameterAction>::empty().push(event_action(params, given))
        =~= seq![event_action(params, given)]);
}

/// A host reads the parameter that it would set: the one that its hash means, and only where it
/// asks for the whole unit and gives a place for the value.
pub proof fn host_reads_the_parameter_that_it_sets(
    params: ParamTable,
    hash: u32,
    value: u32,
    scope: AudioUnitScope,
    element: AudioUnitElement,
    out_is_null: bool,
)
    ensures
        asked_parameter(params, hash, 0, 0, false) matches Ok(param) ==> change_action(
            params,
            hash,
            value,
            0,
        ) == (ParameterAction::Apply { param, hash, normalized_value: value }),
        asked_parameter(params, hash, 0, 0, false) matches Err(status) ==> change_action(
            params,
            hash,
            value,
            0,
        ) == ParameterAction::Refuse(status),
        asked_parameter(params, hash, 0, 0, false) is Ok == params.knows(hash),
        out_is_null ==> asked_parameter(params, hash, scope, element, out_is_null)
            == Err::<ParamPtr, OSStatus>(K_AUDIO_UNIT_ERR_INVALID_PROPERTY_VALUE),
        !out_is_null && (scope != 0 || element != 0) ==> asked_parameter(
            params,
            hash,
            scope,
            element,
            out_is_null,
        ) == Err::<ParamPtr, OSStatus>(K_AUDIO_UNIT_ERR_INVALID_SCOPE),
        !params.knows(hash) ==> asked_parameter(params, hash, 0, 0, false)
            == Err::<ParamPtr, OSStatus>(K_AUDIO_UNIT_ERR_INVALID_PARAMETER),
{
}

/// A state that cannot be read is refused. One that can be read is taken over at once by a plugin
/// that is not initialized; a plugin that is initialized starts anew with what it had, and is
/// reset where it does, while the state is refused where it does not.
pub proof fn restored_plugin_starts_anew(layout: AudioIOLayout, config: BufferConfig)
    ensures
        state_step(layout, None, false) is Rejected,
        state_step(layout, Some(config), false) is Rejected,
        state_step(layout, None, true) matches StateStep::Restored { reset } && !reset,
        state_step(layout, Some(config), true) == (StateStep::Reinitialize { layout, config }),
        step_after(true) matches StateStep::Restored { reset } && reset,
        step_after(false) is Rejected,
{
}

/// The editor and the smoother learn of a value that is new, and of no other. The smoother moves
/// only while the plugin is initialized.
pub proof fn only_new_values_are_told(
    config: Option<BufferConfig>,
    hash: u32,
    value: u32,
    changed: bool,
)
    ensures
        change_effects(config, hash, value, changed).task == if changed {
            Some(Task::ParameterValueChanged(hash, value))
        } else {
            None
        },
        changed ==> change_effects(config, hash, value, changed).update_smoother == config,
        !changed ==> change_effects(config, hash, value, changed).update_smoother is None,
{
}

/// A message that means an event waits behind all others, where the plugin takes MIDI; where there
/// is no room it is dropped. Anything else is refused, and nothing waits for it.
pub proof fn understood_messages_wait(
    midi_input: MidiConfig,
    waiting: Seq<PluginNoteEvent>,
    event: PluginNoteEvent,
)
    ensures
        midi_input == MidiConfig::Disabled ==> taken_message(midi_input, waiting, Some(event)) == (
            K_AUDIO_UNIT_ERR_INVALID_PROPERTY,
            waiting,
        ),
        midi_input == MidiConfig::Disabled ==> taken_message(midi_input, waiting, None) == (
            K_AUDIO_UNIT_ERR_INVALID_PROPERTY,
            waiting,
        ),
        midi_input != MidiConfig::Disabled ==> {
            &&& taken_message(midi_input, waiting, None) == (
                K_AUDIO_UNIT_ERR_INVALID_PARAMETER,
                waiting,
            )
            &&& taken_message(midi_input, waiting, Some(event)).0 == 0
            &&& waiting.len() < 2048 ==> taken_message(midi_input, waiting, Some(event)).1
                == waiting.push(event)
            &&& waiting.len() >= 2048 ==> taken_message(midi_input, waiting, Some(event)).1
                == waiting
        },
{
}

} // verus!
