//! Which unit a host means with an address.
use std::collections::HashMap;
use vstd::prelude::*;

use crate::host::{OSStatus, K_AUDIO_UNIT_ERR_INVALID_PROPERTY_VALUE, NO_ERR};
use crate::plugin::Auv2Plugin;
use crate::wrapper::{UnitState, Wrapper};

verus! {

broadcast use vstd::std_specs::hash::group_hash_axioms;

/// The units that are open: where the wrapper of each of them is, by the address under which the
/// host knows the unit.
pub struct InstanceRegistry {
    pub wrappers: HashMap<usize, usize>,
}

impl View for InstanceRegistry {
    type V = Map<usize, usize>;

    open spec fn view(&self) -> Map<usize, usize> {
        self.wrappers@
    }
}

/// Whether a unit can be opened or closed: there has to be a wrapper.
pub fn check_wrapper(self_ptr: usize) -> (status: OSStatus)
    ensures
        status == if self_ptr == 0 {
            K_AUDIO_UNIT_ERR_INVALID_PROPERTY_VALUE
        } else {
            NO_ERR
        },
{
    if self_ptr == 0 {
        K_AUDIO_UNIT_ERR_INVALID_PROPERTY_VALUE
    } else {
        NO_ERR
    }
}

/// The units that are open after one more was opened. A null address opens none.
pub open spec fn registered(
    units: Map<usize, usize>,
    self_ptr: usize,
    instance: usize,
) -> Map<usize, usize> {
    if self_ptr == 0 || instance == 0 {
        units
    } else {
        units.insert(instance, self_ptr)
    }
}

/// The units that are open after one was closed. A unit that no host knows leaves them as they
/// are.
pub open spec fn unregistered(units: Map<usize, usize>, instance: usize) -> Map<usize, usize> {
    if instance == 0 {
        units
    } else {
        units.remove(instance)
    }
}

/// Where the wrapper of a unit is, where the unit is open.
pub open spec fn found(units: Map<usize, usize>, audio_unit: usize) -> Option<usize> {
    if units.contains_key(audio_unit) && units[audio_unit] != 0 {
        Some(units[audio_unit])
    } else {
        None
    }
}

impl UnitState {
    /// The state of a unit whose wrapper is at `self_ptr` after a host opened it under an address.
    pub open spec fn opened(self, self_ptr: usize, instance: usize) -> Self {
        if self_ptr == 0 || instance == 0 {
            self
        } else {
            UnitState { component_instance: instance, ..self }
        }
    }

    /// The state of a unit whose wrapper is at `self_ptr` after a host closed it.
    pub open spec fn closed(self, self_ptr: usize) -> Self {
        if self_ptr == 0 {
            self
        } else {
            UnitState { component_instance: 0, ..self }
        }
    }

    /// A unit knows the address under which its host opened it, until the host closes it. Closing
    /// takes exactly that address out of the open units.
    pub proof fn unit_knows_its_address(
        self,
        units: Map<usize, usize>,
        self_ptr: usize,
        instance: usize,
    )
        requires
            self_ptr != 0,
            instance != 0,
        ensures
            self.opened(self_ptr, instance).component_instance == instance,
            self.opened(self_ptr, instance).closed(self_ptr).component_instance == 0,
            self.component_instance == 0 ==> self.opened(self_ptr, instance).closed(self_ptr)
                == self,
            self.opened(0, instance) == self,
            self.opened(self_ptr, 0) == self,
            self.closed(0) == self,
            unregistered(
                registered(units, self_ptr, instance),
                self.opened(self_ptr, instance).component_instance,
            ) == units.remove(instance),
            unregistered(units, 0) == units,
    {
        assert(units.insert(instance, self_ptr).remove(instance) =~= units.remove(instance));
    }
}

impl InstanceRegistry {
    pub fn new() -> (registry: Self)
        ensures
            registry@ == Map::<usize, usize>::empty(),
    {
        Self { wrappers: HashMap::new() }
    }

    /// Notes that the host knows the wrapper at `self_ptr` under the address `instance`.
    pub fn register_audio_unit_instance<P: Auv2Plugin>(
        &mut self,
        wrapper: &mut Wrapper<P>,
        self_ptr: usize,
        instance: usize,
    )
        ensures
            final(self)@ == registered(old(self)@, self_ptr, instance),
            *final(wrapper) == (Wrapper {
                state: old(wrapper).state.opened(self_ptr, instance),
                ..*old(wrapper)
            }),
            old(wrapper).wf() ==> final(wrapper).wf(),
    {
        if self_ptr == 0 || instance == 0 {
            return;
        }
        wrapper.state.component_instance = instance;
        self.wrappers.insert(instance, self_ptr);
    }

    /// Notes that the host does not know the wrapper at `self_ptr` any more.
    pub fn unregister_audio_unit_instance<P: Auv2Plugin>(
        &mut self,
        wrapper: &mut Wrapper<P>,
        self_ptr: usize,
    )
        ensures
            final(self)@ == if self_ptr == 0 {
                old(self)@
            } else {
                unregistered(old(self)@, old(wrapper).state.component_instance)
            },
            *final(wrapper) == (Wrapper {
                state: old(wrapper).state.closed(self_ptr),
                ..*old(wrapper)
            }),
            old(wrapper).wf() ==> final(wrapper).wf(),
    {
        if self_ptr == 0 {
            return;
        }
        let instance = wrapper.state.component_instance;
        wrapper.state.component_instance = 0;
        if instance != 0 {
            self.wrappers.remove(&instance);
        }
    }

    /// Where the wrapper is that the host knows under an address.
    pub fn wrapper_from_audio_unit_instance(&self, audio_unit: usize) -> (self_ptr: Option<usize>)
        ensures
            self_ptr == found(self@, audio_unit),
    {
        match self.wrappers.get(&audio_unit) {
            Some(self_ptr) => {
                if *self_ptr == 0 {
                    None
                } else {
                    Some(*self_ptr)
                }
            },
            None => None,
        }
    }
}

/// A unit that was opened is found under its address, and the others are found as before.
pub proof fn opened_unit_is_found(
    units: Map<usize, usize>,
    self_ptr: usize,
    instance: usize,
    other: usize,
)
    requires
        self_ptr != 0,
        instance != 0,
    ensures
        found(registered(units, self_ptr, instance), instance) == Some(self_ptr),
        other != instance ==> found(registered(units, self_ptr, instance), other) == found(
            units,
            other,
        ),
{
}

/// A unit that was closed is not found any more, and the others are found as before.
pub proof fn closed_unit_is_not_found(units: Map<usize, usize>, instance: usize, other: usize)
    requires
        instance != 0,
    ensures
        found(unregistered(units, instance), instance) is None,
        other != instance ==> found(unregistered(units, instance), other) == found(units, other),
{
}

/// Closing a unit undoes opening it, where its address was not in use before.
pub proof fn closing_undoes_opening(units: Map<usize, usize>, self_ptr: usize, instance: usize)
    requires
        !units.contains_key(instance),
    ensures
        unregistered(registered(units, self_ptr, instance), instance) == units,
{
    assert(units.insert(instance, self_ptr).remove(instance) =~= units);
    assert(units.remove(instance) =~= units);
}

} // verus!
