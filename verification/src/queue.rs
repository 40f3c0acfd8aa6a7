//! The bounded queues in which parameter changes and input events wait for the next render cycle.
use crossbeam::queue::ArrayQueue;
use vstd::prelude::*;

use crate::event::PluginNoteEvent;
use crate::sort::Timed;

verus! {

/// How many parameter changes can wait.
pub const PARAMETER_QUEUE_CAPACITY: usize = 2048;

/// How many input events can wait.
pub const MIDI_EVENT_QUEUE_CAPACITY: usize = 2048;

/// A parameter value that takes effect at a sample offset.
#[derive(Clone, Copy, Debug, PartialEq, Eq, Structural)]
pub struct ScheduledParameterChange {
    pub param_hash: u32,
    pub sample_offset: u32,
    /// The bits of the normalized value, an `f32`.
    pub normalized_value: u32,
}

impl Timed for ScheduledParameterChange {
    open spec fn sample_time(self) -> u32 {
        self.sample_offset
    }

    fn get_sample_time(&self) -> (time: u32) {
        self.sample_offset
    }
}

impl Timed for PluginNoteEvent {
    open spec fn sample_time(self) -> u32 {
        self.time()
    }

    fn get_sample_time(&self) -> (time: u32) {
        self.timing()
    }
}

/// What waits in a queue.
#[derive(Clone, Copy, Debug, PartialEq, Eq, Structural)]
pub enum Pending {
    ParameterChange(ScheduledParameterChange),
    InputEvent(PluginNoteEvent),
}

#[verifier::external_type_specification]
#[verifier::external_body]
#[verifier::reject_recursive_types(T)]
pub struct ExArrayQueue<T>(crossbeam::queue::ArrayQueue<T>);

/// What an `ArrayQueue` holds, the oldest item first.
pub uninterp spec fn queue_items(queue: ArrayQueue<Pending>) -> Seq<Pending>;

/// The capacity with which an `ArrayQueue` was made.
pub uninterp spec fn queue_capacity(queue: ArrayQueue<Pending>) -> nat;

/// Calls `ArrayQueue::new`, which makes an empty queue for up to `capacity` items. It panics on a
/// capacity of zero, and on one that is too large to allocate.
#[verifier::external_body]
fn new_queue(capacity: usize) -> (queue: ArrayQueue<Pending>)
    requires
        0 < capacity <= 0x1_0000,
    ensures
        queue_items(queue) == Seq::<Pending>::empty(),
        queue_capacity(queue) == capacity,
{
    ArrayQueue::new(capacity)
}

/// Calls `ArrayQueue::push`, which puts the item behind the others, or hands it back and changes
/// nothing where the queue is full. The queue is borrowed exclusively, so nothing else uses it
/// during the call.
#[verifier::external_body]
fn push_back(queue: &mut ArrayQueue<Pending>, item: Pending) -> (result: Result<(), Pending>)
    ensures
        queue_capacity(*final(queue)) == queue_capacity(*old(queue)),
        queue_items(*old(queue)).len() < queue_capacity(*old(queue)) ==> result is Ok
            && queue_items(*final(queue)) == queue_items(*old(queue)).push(item),
        queue_items(*old(queue)).len() >= queue_capacity(*old(queue)) ==> result is Err
            && result->Err_0 == item && queue_items(*final(queue)) == queue_items(*old(queue)),
{
    queue.push(item)
}

/// Calls `ArrayQueue::pop`, which takes the oldest item out, if there is any. The queue is
/// borrowed exclusively, so nothing else uses it during the call.
#[verifier::external_body]
fn pop_front(queue: &mut ArrayQueue<Pending>) -> (item: Option<Pending>)
    ensures
        queue_capacity(*final(queue)) == queue_capacity(*old(queue)),
        queue_items(*old(queue)).len() == 0 ==> item is None && queue_items(*final(queue))
            == queue_items(*old(queue)),
        queue_items(*old(queue)).len() > 0 ==> item == Some(queue_items(*old(queue))[0])
            && queue_items(*final(queue)) == queue_items(*old(queue)).drop_first(),
{
    queue.pop()
}

/// The parameter changes that wait for the next render cycle.
pub struct ParameterQueue {
    queue: ArrayQueue<Pending>,
}

impl ParameterQueue {
    /// Every item is a parameter change, and there are no more of them than there is room for.
    pub closed spec fn wf(self) -> bool {
        &&& queue_capacity(self.queue) == PARAMETER_QUEUE_CAPACITY
        &&& queue_items(self.queue).len() <= PARAMETER_QUEUE_CAPACITY
        &&& forall|i: int|
            0 <= i < queue_items(self.queue).len() ==> (#[trigger] queue_items(
                self.queue,
            )[i]) is ParameterChange
    }

    /// The waiting changes, the oldest one first.
    pub closed spec fn view(self) -> Seq<ScheduledParameterChange> {
        queue_items(self.queue).map_values(|item: Pending| item->ParameterChange_0)
    }

    pub fn new() -> (queue: Self)
        ensures
            queue.wf(),
            queue@ == Seq::<ScheduledParameterChange>::empty(),
    {
        let queue = Self { queue: new_queue(PARAMETER_QUEUE_CAPACITY) };
        assert(queue@ =~= Seq::empty());
        queue
    }

    /// Puts a change behind the others. A change for which there is no room is dropped, and the
    /// result is false.
    pub fn push(&mut self, change: ScheduledParameterChange) -> (pushed: bool)
        requires
            old(self).wf(),
        ensures
            final(self).wf(),
            pushed == (old(self)@.len() < PARAMETER_QUEUE_CAPACITY),
            final(self)@ == pushed_to(old(self)@, change, PARAMETER_QUEUE_CAPACITY as nat),
    {
        let pushed = push_back(&mut self.queue, Pending::ParameterChange(change)).is_ok();
        assert(self@ =~= pushed_to(old(self)@, change, PARAMETER_QUEUE_CAPACITY as nat));
        pushed
    }

    /// Takes all changes out, the oldest one first.
    pub fn drain(&mut self) -> (changes: Vec<ScheduledParameterChange>)
        requires
            old(self).wf(),
        ensures
            final(self).wf(),
            changes@ == old(self)@,
            final(self)@ == Seq::<ScheduledParameterChange>::empty(),
    {
        let mut changes: Vec<ScheduledParameterChange> = Vec::new();
        let ghost all = self@;
        assert(changes@ + self@ =~= all);
        loop
            invariant
                self.wf(),
                changes@ + self@ == all,
            ensures
                self.wf(),
                changes@ == all,
                self@.len() == 0,
            decreases self@.len(),
        {
            let ghost before = self@;
            match pop_front(&mut self.queue) {
                Some(Pending::ParameterChange(change)) => {
                    assert(change == before[0]);
                    assert(self@ =~= before.drop_first());
                    changes.push(change);
                    assert(changes@ + self@ =~= all);
                },
                _ => {
                    assert(before.len() == 0);
                    assert(changes@ =~= all);
                    break ;
                },
            }
        }
        changes
    }
}

/// The input events that wait for the next render cycle.
pub struct EventQueue {
    queue: ArrayQueue<Pending>,
}

impl EventQueue {
    /// Every item is an input event, and there are no more of them than there is room for.
    pub closed spec fn wf(self) -> bool {
        &&& queue_capacity(self.queue) == MIDI_EVENT_QUEUE_CAPACITY
        &&& queue_items(self.queue).len() <= MIDI_EVENT_QUEUE_CAPACITY
        &&& forall|i: int|
            0 <= i < queue_items(self.queue).len() ==> (#[trigger] queue_items(
                self.queue,
            )[i]) is InputEvent
    }

    /// The waiting events, the oldest one first.
    pub closed spec fn view(self) -> Seq<PluginNoteEvent> {
        queue_items(self.queue).map_values(|item: Pending| item->InputEvent_0)
    }

    pub fn new() -> (queue: Self)
        ensures
            queue.wf(),
            queue@ == Seq::<PluginNoteEvent>::empty(),
    {
        let queue = Self { queue: new_queue(MIDI_EVENT_QUEUE_CAPACITY) };
        assert(queue@ =~= Seq::empty());
        queue
    }

    /// Puts an event behind the others. An event for which there is no room is dropped, and the
    /// result is false.
    pub fn push(&mut self, event: PluginNoteEvent) -> (pushed: bool)
        requires
            old(self).wf(),
        ensures
            final(self).wf(),
            pushed == (old(self)@.len() < MIDI_EVENT_QUEUE_CAPACITY),
            final(self)@ == pushed_to(old(self)@, event, MIDI_EVENT_QUEUE_CAPACITY as nat),
    {
        let pushed = push_back(&mut self.queue, Pending::InputEvent(event)).is_ok();
        assert(self@ =~= pushed_to(old(self)@, event, MIDI_EVENT_QUEUE_CAPACITY as nat));
        pushed
    }

    /// Takes all events out, the oldest one first.
    pub fn drain(&mut self) -> (events: Vec<PluginNoteEvent>)
        requires
            old(self).wf(),
        ensures
            final(self).wf(),
            events@ == old(self)@,
            final(self)@ == Seq::<PluginNoteEvent>::empty(),
    {
        let mut events: Vec<PluginNoteEvent> = Vec::new();
        let ghost all = self@;
        assert(events@ + self@ =~= all);
        loop
            invariant
                self.wf(),
                events@ + self@ == all,
            ensures
                self.wf(),
                events@ == all,
                self@.len() == 0,
            decreases self@.len(),
        {
            let ghost before = self@;
            match pop_front(&mut self.queue) {
                Some(Pending::InputEvent(event)) => {
                    assert(event == before[0]);
                    assert(self@ =~= before.drop_first());
                    events.push(event);
                    assert(events@ + self@ =~= all);
                },
                _ => {
                    assert(before.len() == 0);
                    assert(events@ =~= all);
                    break ;
                },
            }
        }
        events
    }
}

/// What a queue with room for `capacity` items holds after a push.
pub open spec fn pushed_to<T>(items: Seq<T>, item: T, capacity: nat) -> Seq<T> {
    if items.len() < capacity {
        items.push(item)
    } else {
        items
    }
}

/// A queue keeps its items in the order in which they came, and takes up to 2048 of them. Behind
/// that, the newest item is dropped and the others stay.
pub proof fn items_wait_in_order<T>(items: Seq<T>, item: T)
    ensures
        ({
            let after = pushed_to(items, item, PARAMETER_QUEUE_CAPACITY as nat);
            &&& items.len() < 2048 ==> after.len() == items.len() + 1 && after.last() == item
            &&& items.len() >= 2048 ==> after == items
            &&& forall|i: int| 0 <= i < items.len() ==> after[i] == items[i]
        }),
        ({
            let after = pushed_to(items, item, MIDI_EVENT_QUEUE_CAPACITY as nat);
            &&& items.len() < 2048 ==> after.len() == items.len() + 1 && after.last() == item
            &&& items.len() >= 2048 ==> after == items
            &&& forall|i: int| 0 <= i < items.len() ==> after[i] == items[i]
        }),
{
}

/// A change waits for the sample at its offset, and an event for the sample at its time.
pub proof fn items_wait_for_their_sample(change: ScheduledParameterChange, event: PluginNoteEvent)
    ensures
        change.sample_time() == change.sample_offset,
        event.sample_time() == event.time(),
{
}

} // verus!
