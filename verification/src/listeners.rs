//! The host functions that want to know when a property changes.
use vstd::prelude::*;

use crate::host::{AudioUnitPropertyID, OSStatus, K_AUDIO_UNIT_ERR_INVALID_PROPERTY_VALUE, NO_ERR};

verus! {

/// A host function that is called when a property changes, with the address that it gets back.
#[derive(Clone, Copy, Debug, PartialEq, Eq, Structural)]
pub struct PropertyListener {
    pub property_id: AudioUnitPropertyID,
    pub proc: usize,
    pub user_data: usize,
}

pub open spec fn listens_to(property_id: AudioUnitPropertyID) -> spec_fn(PropertyListener) -> bool {
    |listener: PropertyListener| listener.property_id == property_id
}

pub open spec fn is_not(property_id: AudioUnitPropertyID, proc: usize) -> spec_fn(
    PropertyListener,
) -> bool {
    |listener: PropertyListener| listener.property_id != property_id || listener.proc != proc
}

pub open spec fn is_not_with(
    property_id: AudioUnitPropertyID,
    proc: usize,
    user_data: usize,
) -> spec_fn(PropertyListener) -> bool {
    |listener: PropertyListener|
        listener.property_id != property_id || listener.proc != proc || listener.user_data
            != user_data
}

/// The status of adding a listener, and the listeners after it.
pub open spec fn added_to(
    listeners: Seq<PropertyListener>,
    property_id: AudioUnitPropertyID,
    listener: Option<usize>,
    user_data: usize,
) -> (OSStatus, Seq<PropertyListener>) {
    match listener {
        Some(proc) => (NO_ERR, listeners.push(PropertyListener { property_id, proc, user_data })),
        None => (K_AUDIO_UNIT_ERR_INVALID_PROPERTY_VALUE, listeners),
    }
}

/// The status of removing a function for a property, and the listeners after it.
pub open spec fn removed_from(
    listeners: Seq<PropertyListener>,
    property_id: AudioUnitPropertyID,
    listener: Option<usize>,
) -> (OSStatus, Seq<PropertyListener>) {
    match listener {
        Some(proc) => (NO_ERR, listeners.filter(is_not(property_id, proc))),
        None => (K_AUDIO_UNIT_ERR_INVALID_PROPERTY_VALUE, listeners),
    }
}

/// The status of removing a function with an address for a property, and the listeners after it.
pub open spec fn removed_with(
    listeners: Seq<PropertyListener>,
    property_id: AudioUnitPropertyID,
    listener: Option<usize>,
    user_data: usize,
) -> (OSStatus, Seq<PropertyListener>) {
    match listener {
        Some(proc) => (NO_ERR, listeners.filter(is_not_with(property_id, proc, user_data))),
        None => (K_AUDIO_UNIT_ERR_INVALID_PROPERTY_VALUE, listeners),
    }
}

/// The listeners, in the order in which the host added them.
pub struct PropertyListeners {
    pub entries: Vec<PropertyListener>,
}

impl View for PropertyListeners {
    type V = Seq<PropertyListener>;

    open spec fn view(&self) -> Seq<PropertyListener> {
        self.entries@
    }
}

proof fn lemma_filter_step(s: Seq<PropertyListener>, i: int, keep: spec_fn(PropertyListener) -> bool)
    requires
        0 <= i < s.len(),
    ensures
        s.take(i + 1).filter(keep) == if keep(s[i]) {
            s.take(i).filter(keep).push(s[i])
        } else {
            s.take(i).filter(keep)
        },
{
    reveal(Seq::filter);
    assert(s.take(i + 1).drop_last() =~= s.take(i));
}

proof fn lemma_filter_none(s: Seq<PropertyListener>, keep: spec_fn(PropertyListener) -> bool)
    ensures
        s.take(0).filter(keep) == Seq::<PropertyListener>::empty(),
{
    reveal(Seq::filter);
}

impl PropertyListeners {
    pub fn new() -> (listeners: Self)
        ensures
            listeners@ == Seq::<PropertyListener>::empty(),
    {
        Self { entries: Vec::new() }
    }

    /// Adds a listener behind the others. A listener without a function is an error.
    pub fn add_property_listener(
        &mut self,
        property_id: AudioUnitPropertyID,
        listener: Option<usize>,
        user_data: usize,
    ) -> (status: OSStatus)
        ensures
            (status, final(self)@) == added_to(old(self)@, property_id, listener, user_data),
    {
        match listener {
            Some(proc) => {
                self.entries.push(PropertyListener { property_id, proc, user_data });
                NO_ERR
            },
            None => K_AUDIO_UNIT_ERR_INVALID_PROPERTY_VALUE,
        }
    }

    /// Removes the listeners with this function, whatever address they get back.
    pub fn remove_property_listener(
        &mut self,
        property_id: AudioUnitPropertyID,
        listener: Option<usize>,
    ) -> (status: OSStatus)
        ensures
            (status, final(self)@) == removed_from(old(self)@, property_id, listener),
    {
        match listener {
            Some(proc) => {
                let ghost all = self.entries@;
                let ghost keep = is_not(property_id, proc);
                let mut kept: Vec<PropertyListener> = Vec::new();
                let mut i: usize = 0;
                proof {
                    lemma_filter_none(all, keep);
                }
                while i < self.entries.len()
                    invariant
                        i <= all.len(),
                        self.entries@ == all,
                        keep == is_not(property_id, proc),
                        kept@ == all.take(i as int).filter(keep),
                    decreases all.len() - i,
                {
                    proof {
                        lemma_filter_step(all, i as int, keep);
                    }
                    let entry = self.entries[i];
                    if entry.property_id != property_id || entry.proc != proc {
                        kept.push(entry);
                    }
                    i += 1;
                }
                assert(all.take(i as int) =~= all);
                self.entries = kept;
                NO_ERR
            },
            None => K_AUDIO_UNIT_ERR_INVALID_PROPERTY_VALUE,
        }
    }

    /// Removes the listeners with this function that get this address back.
    pub fn remove_property_listener_with_user_data(
        &mut self,
        property_id: AudioUnitPropertyID,
        listener: Option<usize>,
        user_data: usize,
    ) -> (status: OSStatus)
        ensures
            (status, final(self)@) == removed_with(
                old(self)@,
                property_id,
                listener,
                user_data,
            ),
    {
        match listener {
            Some(proc) => {
                let ghost all = self.entries@;
                let ghost keep = is_not_with(property_id, proc, user_data);
                let mut kept: Vec<PropertyListener> = Vec::new();
                let mut i: usize = 0;
                proof {
                    lemma_filter_none(all, keep);
                }
                while i < self.entries.len()
                    invariant
                        i <= all.len(),
                        self.entries@ == all,
                        keep == is_not_with(property_id, proc, user_data),
                        kept@ == all.take(i as int).filter(keep),
                    decreases all.len() - i,
                {
                    proof {
                        lemma_filter_step(all, i as int, keep);
                    }
                    let entry = self.entries[i];
                    if entry.property_id != property_id || entry.proc != proc || entry.user_data
                        != user_data {
                        kept.push(entry);
                    }
                    i += 1;
                }
                assert(all.take(i as int) =~= all);
                self.entries = kept;
                NO_ERR
            },
            None => K_AUDIO_UNIT_ERR_INVALID_PROPERTY_VALUE,
        }
    }

    /// The listeners that are called when a property changes, in their order.
    pub fn listeners_of(&self, property_id: AudioUnitPropertyID) -> (called: Vec<PropertyListener>)
        ensures
            called@ == self@.filter(listens_to(property_id)),
    {
        let ghost all = self.entries@;
        let ghost keep = listens_to(property_id);
        let mut called: Vec<PropertyListener> = Vec::new();
        let mut i: usize = 0;
        proof {
            lemma_filter_none(all, keep);
        }
        while i < self.entries.len()
            invariant
                i <= all.len(),
                self.entries@ == all,
                keep == listens_to(property_id),
                called@ == all.take(i as int).filter(keep),
            decreases all.len() - i,
        {
            proof {
                lemma_filter_step(all, i as int, keep);
            }
            let entry = self.entries[i];
            if entry.property_id == property_id {
                called.push(entry);
            }
            i += 1;
        }
        assert(all.take(i as int) =~= all);
        called
    }
}

/// A listener that was added is called, behind those that were there before. One for another
/// property is not.
pub proof fn added_listener_is_called(
    listeners: Seq<PropertyListener>,
    added: PropertyListener,
    property_id: AudioUnitPropertyID,
)
    ensures
        listeners.push(added).filter(listens_to(property_id)) == if added.property_id
            == property_id {
            listeners.filter(listens_to(property_id)).push(added)
        } else {
            listeners.filter(listens_to(property_id))
        },
{
    reveal(Seq::filter);
    assert(listeners.push(added).drop_last() =~= listeners);
}

/// A function that was removed for a property is not called for it any more, and the other
/// listeners stay as they were.
pub proof fn removed_listener_is_not_called(
    listeners: Seq<PropertyListener>,
    property_id: AudioUnitPropertyID,
    proc: usize,
    other: AudioUnitPropertyID,
)
    ensures
        forall|i: int|
            0 <= i < listeners.filter(is_not(property_id, proc)).filter(
                listens_to(property_id),
            ).len() ==> (#[trigger] listeners.filter(is_not(property_id, proc)).filter(
                listens_to(property_id),
            )[i]).proc != proc,
        other != property_id ==> listeners.filter(is_not(property_id, proc)).filter(
            listens_to(other),
        ) == listeners.filter(listens_to(other)),
    decreases listeners.len(),
{
    reveal(Seq::filter);
    if listeners.len() > 0 {
        let fewer = listeners.drop_last();
        let last = listeners.last();
        removed_listener_is_not_called(fewer, property_id, proc, other);
        let keep = is_not(property_id, proc);
        let kept = fewer.filter(keep);
        if keep(last) {
            assert(kept.push(last).drop_last() =~= kept);
            let called = kept.push(last).filter(listens_to(property_id));
            let before = kept.filter(listens_to(property_id));
            assert forall|i: int| 0 <= i < called.len() implies (
            #[trigger] called[i]).proc != proc by {
                if i < before.len() {
                    assert(called[i] == before[i]);
                }
            }
        }
    }
}

/// Removing a listener right after it was added leaves the listeners as they were, where none of
/// them was the same.
pub proof fn removing_undoes_adding(
    listeners: Seq<PropertyListener>,
    property_id: AudioUnitPropertyID,
    proc: usize,
    user_data: usize,
)
    requires
        !listeners.contains(PropertyListener { property_id, proc, user_data }),
    ensures
        listeners.push(PropertyListener { property_id, proc, user_data }).filter(
            is_not_with(property_id, proc, user_data),
        ) == listeners,
    decreases listeners.len(),
{
    reveal(Seq::filter);
    let added = PropertyListener { property_id, proc, user_data };
    let keep = is_not_with(property_id, proc, user_data);
    assert(listeners.push(added).drop_last() =~= listeners);
    if listeners.len() == 0 {
        assert(listeners.filter(keep) =~= listeners);
    } else {
        let fewer = listeners.drop_last();
        assert(listeners[listeners.len() - 1] == listeners.last());
        assert forall|i: int| 0 <= i < fewer.len() implies fewer[i] != added by {
            assert(listeners[i] == fewer[i]);
        }
        removing_undoes_adding(fewer, property_id, proc, user_data);
        assert(fewer.push(added).drop_last() =~= fewer);
        assert(!keep(added));
        assert(fewer.push(added).filter(keep) == fewer.filter(keep));
        assert(keep(listeners.last()));
        assert(fewer.push(listeners.last()) =~= listeners);
        assert(listeners.filter(keep) == listeners);
    }
    assert(listeners.push(added).filter(keep) == listeners.filter(keep));
}

proof fn lemma_filter_contains(
    s: Seq<PropertyListener>,
    keep: spec_fn(PropertyListener) -> bool,
    listener: PropertyListener,
)
    ensures
        s.filter(keep).contains(listener) <==> s.contains(listener) && keep(listener),
    decreases s.len(),
{
    reveal(Seq::filter);
    if s.len() > 0 {
        let fewer = s.drop_last();
        let last = s.last();
        lemma_filter_contains(fewer, keep, listener);
        assert(s =~= fewer.push(last));
        if s.contains(listener) && !fewer.contains(listener) {
            let i = choose|i: int| 0 <= i < s.len() && s[i] == listener;
            if i < fewer.len() {
                assert(fewer[i] == listener);
            }
        }
        if fewer.contains(listener) {
            let i = choose|i: int| 0 <= i < fewer.len() && fewer[i] == listener;
            assert(s[i] == listener);
        }
        if keep(last) {
            let kept = fewer.filter(keep);
            assert(s.filter(keep) == kept.push(last));
            if kept.contains(listener) {
                let i = choose|i: int| 0 <= i < kept.len() && kept[i] == listener;
                assert(s.filter(keep)[i] == listener);
            }
            assert(s.filter(keep)[kept.len() as int] == last);
            if s.filter(keep).contains(listener) {
                let i = choose|i: int|
                    0 <= i < s.filter(keep).len() && s.filter(keep)[i] == listener;
                if i < kept.len() {
                    assert(kept[i] == listener);
                }
            }
            assert(s[s.len() - 1] == last);
        }
    }
}

/// The listeners that are called are exactly those of the property.
pub proof fn listeners_of_the_property_are_called(
    listeners: Seq<PropertyListener>,
    property_id: AudioUnitPropertyID,
    listener: PropertyListener,
)
    ensures
        listeners.filter(listens_to(property_id)).contains(listener) <==> listeners.contains(
            listener,
        ) && listener.property_id == property_id,
{
    lemma_filter_contains(listeners, listens_to(property_id), listener);
}

/// Removing a function for a property removes all listeners with that function and property, and
/// no other. With an address, it removes those with that address, and no other.
pub proof fn other_listeners_stay(
    listeners: Seq<PropertyListener>,
    property_id: AudioUnitPropertyID,
    proc: usize,
    user_data: usize,
    listener: PropertyListener,
)
    ensures
        listeners.filter(is_not(property_id, proc)).contains(listener) <==> listeners.contains(
            listener,
        ) && !(listener.property_id == property_id && listener.proc == proc),
        listeners.filter(is_not_with(property_id, proc, user_data)).contains(listener)
            <==> listeners.contains(listener) && !(listener.property_id == property_id
            && listener.proc == proc && listener.user_data == user_data),
{
    lemma_filter_contains(listeners, is_not(property_id, proc), listener);
    lemma_filter_contains(listeners, is_not_with(property_id, proc, user_data), listener);
}

/// Listeners stay in the order in which they were added.
pub proof fn listeners_stay_in_order(
    listeners: Seq<PropertyListener>,
    added: PropertyListener,
    property_id: AudioUnitPropertyID,
    proc: usize,
    user_data: usize,
)
    ensures
        listeners.push(added).filter(is_not(property_id, proc)) == if added.property_id
            == property_id && added.proc == proc {
            listeners.filter(is_not(property_id, proc))
        } else {
            listeners.filter(is_not(property_id, proc)).push(added)
        },
        listeners.push(added).filter(is_not_with(property_id, proc, user_data))
            == if added.property_id == property_id && added.proc == proc && added.user_data
            == user_data {
            listeners.filter(is_not_with(property_id, proc, user_data))
        } else {
            listeners.filter(is_not_with(property_id, proc, user_data)).push(added)
        },
{
    reveal(Seq::filter);
    assert(listeners.push(added).drop_last() =~= listeners);
}

/// A host that adds a function for a property has it called last for that property, with its
/// address, and for no other property; removing it again, with or without the address, has it not
/// called any more, while listeners with another function or another address stay. A host that
/// gives no function gets an error, and nothing changes.
pub proof fn listeners_come_and_go(
    listeners: Seq<PropertyListener>,
    property_id: AudioUnitPropertyID,
    proc: usize,
    user_data: usize,
    other: PropertyListener,
)
    ensures
        ({
            let listener = PropertyListener { property_id, proc, user_data };
            let (status, added) = added_to(listeners, property_id, Some(proc), user_data);
            &&& status == 0
            &&& added.len() == listeners.len() + 1
            &&& added.last() == listener
            &&& added.drop_last() == listeners
            &&& removed_from(added, property_id, Some(proc)).0 == 0
            &&& removed_with(added, property_id, Some(proc), user_data).0 == 0
            &&& !removed_from(added, property_id, Some(proc)).1.contains(listener)
            &&& !removed_with(added, property_id, Some(proc), user_data).1.contains(listener)
            &&& listeners.contains(other) && (other.property_id != property_id || other.proc != proc)
                ==> removed_from(added, property_id, Some(proc)).1.contains(other)
            &&& listeners.contains(other) && other != listener ==> removed_with(
                added,
                property_id,
                Some(proc),
                user_data,
            ).1.contains(other)
        }),
        added_to(listeners, property_id, None, user_data) == (
            K_AUDIO_UNIT_ERR_INVALID_PROPERTY_VALUE,
            listeners,
        ),
        removed_from(listeners, property_id, None) == (
            K_AUDIO_UNIT_ERR_INVALID_PROPERTY_VALUE,
            listeners,
        ),
        removed_with(listeners, property_id, None, user_data) == (
            K_AUDIO_UNIT_ERR_INVALID_PROPERTY_VALUE,
            listeners,
        ),
{
    let listener = PropertyListener { property_id, proc, user_data };
    let added = listeners.push(listener);
    assert(added.drop_last() =~= listeners);
    other_listeners_stay(added, property_id, proc, user_data, listener);
    other_listeners_stay(added, property_id, proc, user_data, other);
    if listeners.contains(other) {
        let i = choose|i: int| 0 <= i < listeners.len() && listeners[i] == other;
        assert(added[i] == other);
    }
}

} // verus!
