//! The editor of a plugin: its views, what it is told and what it changes.
use vstd::prelude::*;

use crate::automation::Task;
use crate::host::{
    AudioUnitEvent, AudioUnitParameter, OSStatus, K_AUDIO_UNIT_SCOPE_GLOBAL,
};
use crate::params::{last_hash_of, ParamPtr};
use crate::plugin::Auv2Plugin;
use crate::wrapper::{UnitState, Wrapper};

verus! {

pub const K_AUDIO_UNIT_EVENT_BEGIN_PARAMETER_CHANGE_GESTURE: u32 = 1;

pub const K_AUDIO_UNIT_EVENT_END_PARAMETER_CHANGE_GESTURE: u32 = 2;

/// What the editor is told.
pub enum EditorCall {
    Nothing,
    ValuesChanged,
    /// The parameter with this ID has the normalized value with these bits.
    ValueChanged { id: String, normalized_value: u32 },
}

/// What follows when the editor gives a parameter a value.
#[derive(Clone, Copy, Debug, PartialEq, Eq, Structural)]
pub enum EditorChange {
    /// The plugin has no such parameter.
    Ignore,
    /// The parameter takes the value at once, because no host knows the unit.
    Apply { hash: u32 },
    /// The host sets the parameter. Where it answers with an error, the parameter takes the value
    /// at once.
    SetOnHost { parameter: AudioUnitParameter },
}

impl UnitState {
    /// The state after a view was made.
    pub open spec fn with_view(self, view: usize) -> Self {
        UnitState { cocoa_view: view, ..self }
    }

    /// The state after the editor was opened in the view.
    pub open spec fn with_editor(self) -> Self {
        UnitState {
            open_editor_count: if self.open_editor_count == u32::MAX {
                0
            } else {
                (self.open_editor_count + 1) as u32
            },
            ..self
        }
    }

    /// The state after a view was closed. A view that was opened later stays in use.
    pub open spec fn without_view(self, view: usize) -> Self {
        UnitState {
            cocoa_view: if self.cocoa_view == view {
                0
            } else {
                self.cocoa_view
            },
            open_editor_count: if self.open_editor_count == 0 {
                u32::MAX
            } else {
                (self.open_editor_count - 1) as u32
            },
            ..self
        }
    }

    /// Closing a view undoes opening it, where no other view was in use. In any case as many views
    /// are open as before.
    pub proof fn closing_undoes_opening(self, view: usize)
        ensures
            self.with_view(view).with_editor().without_view(view).open_editor_count
                == self.open_editor_count,
            self.cocoa_view == 0 ==> self.with_view(view).with_editor().without_view(view) == self,
    {
    }

    /// As many editors are open as views were opened and not closed, counted in 32 bits, and
    /// nothing but the view and the count changes.
    pub proof fn open_editors_are_counted(self, view: usize)
        ensures
            self.with_view(view).cocoa_view == view,
            self.with_view(view).open_editor_count == self.open_editor_count,
            self.with_editor().open_editor_count == (self.open_editor_count + 1) % 0x1_0000_0000,
            self.with_editor().cocoa_view == self.cocoa_view,
            (self.without_view(view).open_editor_count + 1) % 0x1_0000_0000
                == self.open_editor_count,
            self.cocoa_view == view ==> self.without_view(view).cocoa_view == 0,
            self.cocoa_view != view ==> self.without_view(view).cocoa_view == self.cocoa_view,
            self.with_view(view).config() == self.config(),
            self.with_editor().config() == self.config(),
            self.without_view(view).config() == self.config(),
            self.with_editor().is_initialized == self.is_initialized,
            self.without_view(view).is_initialized == self.is_initialized,
    {
    }

    /// Closing an older view keeps the newer one in use.
    pub proof fn newer_view_stays_in_use(self, older: usize, newer: usize)
        requires
            older != newer,
        ensures
            self.with_view(older).with_editor().with_view(newer).with_editor().without_view(
                older,
            ).cocoa_view == newer,
    {
    }
}

impl<P: Auv2Plugin> Wrapper<P> {
    /// Whether a view for the editor can be made.
    pub fn can_open_editor(&self) -> (can: bool)
        ensures
            can == self.state.has_editor,
    {
        self.state.has_editor
    }

    /// Notes that a view was made.
    pub fn view_made(&mut self, view: usize)
        ensures
            *final(self) == (Wrapper { state: old(self).state.with_view(view), ..*old(self) }),
            old(self).wf() ==> final(self).wf(),
    {
        self.state.cocoa_view = view;
    }

    /// Notes that the editor was opened in the view.
    pub fn editor_opened(&mut self)
        ensures
            *final(self) == (Wrapper { state: old(self).state.with_editor(), ..*old(self) }),
            old(self).wf() ==> final(self).wf(),
    {
        self.state.open_editor_count = if self.state.open_editor_count == u32::MAX {
            0
        } else {
            self.state.open_editor_count + 1
        };
    }

    /// Notes that a view was closed.
    pub fn editor_closed(&mut self, view: usize)
        ensures
            *final(self) == (Wrapper { state: old(self).state.without_view(view), ..*old(self) }),
            old(self).wf() ==> final(self).wf(),
    {
        if self.state.cocoa_view == view {
            self.state.cocoa_view = 0;
        }
        self.state.open_editor_count = if self.state.open_editor_count == 0 {
            u32::MAX
        } else {
            self.state.open_editor_count - 1
        };
    }

    /// Whether a call is what the editor is told about a task.
    pub open spec fn is_told(self, task: Task, call: EditorCall) -> bool {
        match call {
            EditorCall::Nothing => {
                ||| self.state.open_editor_count == 0
                ||| !self.state.has_editor
                ||| (task matches Task::ParameterValueChanged(hash, _) && !self.params.knows(hash))
            },
            EditorCall::ValuesChanged => {
                &&& self.state.open_editor_count > 0
                &&& self.state.has_editor
                &&& task == Task::ParameterValuesChanged
            },
            EditorCall::ValueChanged { id, normalized_value } => {
                &&& self.state.open_editor_count > 0
                &&& self.state.has_editor
                &&& task matches Task::ParameterValueChanged(hash, value) && {
                    &&& self.params.knows(hash)
                    &&& id@ == self.params.meant(hash).id@
                    &&& normalized_value == value
                }
            },
        }
    }

    /// An editor with an open view hears that all values changed, and of the new value of each
    /// parameter that the plugin has, under the parameter's own ID. One without a view hears
    /// nothing.
    pub proof fn open_editor_hears_of_changes(
        self,
        task: Task,
        call: EditorCall,
        hash: u32,
        value: u32,
    )
        requires
            self.is_told(task, call),
        ensures
            self.state.open_editor_count == 0 || !self.state.has_editor ==> call is Nothing,
            self.state.open_editor_count > 0 && self.state.has_editor ==> {
                &&& task == Task::ParameterValuesChanged ==> call is ValuesChanged
                &&& task == Task::ParameterValueChanged(hash, value) && self.params.knows(hash) ==> (
                call matches EditorCall::ValueChanged { id, normalized_value } && id@
                    == self.params.meant(hash).id@ && normalized_value == value)
                &&& task == Task::ParameterValueChanged(hash, value) && !self.params.knows(hash)
                    ==> call is Nothing
            },
    {
    }

    /// The view that gets another size: the one in use, of a plugin with an editor.
    pub open spec fn resized_view(self) -> Option<usize> {
        if self.state.cocoa_view != 0 && self.state.has_editor {
            Some(self.state.cocoa_view)
        } else {
            None
        }
    }

    /// What follows when the editor gives a parameter a value.
    pub open spec fn change_by_editor(self, param: ParamPtr) -> EditorChange {
        match last_hash_of(self.params.entries@, param) {
            Some(hash) => if self.state.component_instance == 0 {
                EditorChange::Apply { hash }
            } else {
                EditorChange::SetOnHost { parameter: self.host_parameter(hash) }
            },
            None => EditorChange::Ignore,
        }
    }

    /// What follows when the host answered to setting a parameter.
    pub open spec fn change_after_host(
        parameter: AudioUnitParameter,
        status: OSStatus,
    ) -> EditorChange {
        if status != 0 {
            EditorChange::Apply { hash: parameter.mParameterID }
        } else {
            EditorChange::Ignore
        }
    }

    /// The view that was opened last can be given another size, while it is open, and no other.
    pub proof fn last_view_can_be_resized(self, view: usize)
        requires
            view != 0,
            self.state.has_editor,
        ensures
            (Wrapper { state: self.state.with_view(view), ..self }).resized_view() == Some(view),
            (Wrapper {
                state: self.state.with_view(view).without_view(view),
                ..self
            }).resized_view() is None,
            (Wrapper {
                state: UnitState { has_editor: false, ..self.state.with_view(view) },
                ..self
            }).resized_view() is None,
    {
    }

    /// While a host knows the unit, it hears of every move of a parameter that the plugin has: that
    /// it starts, that it ends, and what it leads to, always of the same parameter, which is the
    /// unit's own with the hash of its last entry. Of a parameter that the plugin does not have,
    /// nobody hears.
    pub proof fn host_hears_of_moved_parameters(self, param: ParamPtr)
        ensures
            match last_hash_of(self.params.entries@, param) {
                Some(hash) => if self.state.component_instance != 0 {
                    &&& self.gesture(param, 1) matches Some(event) && {
                        &&& event.mEventType == 1
                        &&& event.mArgument.mAudioUnit == self.state.component_instance
                        &&& event.mArgument.mParameterID == hash
                        &&& event.mArgument.mScope == 0
                        &&& event.mArgument.mElement == 0
                        &&& self.change_by_editor(param) == (EditorChange::SetOnHost {
                            parameter: event.mArgument,
                        })
                    }
                    &&& self.gesture(param, 2) matches Some(event) && {
                        &&& event.mEventType == 2
                        &&& event.mArgument == self.gesture(param, 1)->Some_0.mArgument
                    }
                } else {
                    &&& self.gesture(param, 1) is None
                    &&& self.gesture(param, 2) is None
                    &&& self.change_by_editor(param) == (EditorChange::Apply { hash })
                },
                None => {
                    &&& self.gesture(param, 1) is None
                    &&& self.gesture(param, 2) is None
                    &&& self.change_by_editor(param) == EditorChange::Ignore
                },
            },
            K_AUDIO_UNIT_EVENT_BEGIN_PARAMETER_CHANGE_GESTURE == 1,
            K_AUDIO_UNIT_EVENT_END_PARAMETER_CHANGE_GESTURE == 2,
    {
    }

    /// A parameter that the host does not set takes the editor's value all the same, under the same
    /// hash; one that it sets takes it from the host alone.
    pub proof fn value_is_taken_once(self, param: ParamPtr, status: OSStatus)
        ensures
            self.change_by_editor(param) matches EditorChange::SetOnHost { parameter } ==> {
                &&& status == 0 ==> Self::change_after_host(parameter, status)
                    == EditorChange::Ignore
                &&& status != 0 ==> (last_hash_of(self.params.entries@, param) matches Some(hash)
                    && Self::change_after_host(parameter, status) == (EditorChange::Apply { hash }))
            },
    {
    }

    /// What the editor is told about a task: nothing while no view is open, and nothing about a
    /// parameter that the plugin does not have.
    pub fn execute(&self, task: Task) -> (call: EditorCall)
        requires
            self.wf(),
        ensures
            self.is_told(task, call),
    {
        if self.state.open_editor_count == 0 || !self.state.has_editor {
            return EditorCall::Nothing;
        }
        match task {
            Task::ParameterValuesChanged => EditorCall::ValuesChanged,
            Task::ParameterValueChanged(hash, normalized_value) => {
                match self.params.param_id_by_hash(hash) {
                    Some(id) => EditorCall::ValueChanged { id: id.to_owned(), normalized_value },
                    None => EditorCall::Nothing,
                }
            },
        }
    }

    /// The view that gets the size that the editor asks for, where there is one.
    pub fn request_resize(&self) -> (view: Option<usize>)
        ensures
            view == self.resized_view(),
    {
        if self.state.cocoa_view == 0 || !self.state.has_editor {
            return None;
        }
        Some(self.state.cocoa_view)
    }

    /// The parameter that a host knows under a hash.
    pub open spec fn host_parameter(self, hash: u32) -> AudioUnitParameter {
        AudioUnitParameter {
            mAudioUnit: self.state.component_instance,
            mParameterID: hash,
            mScope: K_AUDIO_UNIT_SCOPE_GLOBAL,
            mElement: 0,
        }
    }

    /// What hosts are told about a parameter that the editor moves: nothing about one that the
    /// plugin does not have, and nothing while no host knows the unit.
    pub open spec fn gesture(self, param: ParamPtr, event_type: u32) -> Option<AudioUnitEvent> {
        match last_hash_of(self.params.entries@, param) {
            Some(hash) => if self.state.component_instance != 0 {
                Some(
                    AudioUnitEvent {
                        mEventType: event_type,
                        mArgument: self.host_parameter(hash),
                    },
                )
            } else {
                None
            },
            None => None,
        }
    }

    fn notify_gesture(&self, param: ParamPtr, event_type: u32) -> (event: Option<AudioUnitEvent>)
        ensures
            event == self.gesture(param, event_type),
    {
        match self.params.hash_of_param(param) {
            Some(hash) => {
                if self.state.component_instance == 0 {
                    return None;
                }
                Some(
                    AudioUnitEvent {
                        mEventType: event_type,
                        mArgument: AudioUnitParameter {
                            mAudioUnit: self.state.component_instance,
                            mParameterID: hash,
                            mScope: K_AUDIO_UNIT_SCOPE_GLOBAL,
                            mElement: 0,
                        },
                    },
                )
            },
            None => None,
        }
    }

    /// What hosts are told when the editor starts to move a parameter.
    pub fn raw_begin_set_parameter(&self, param: ParamPtr) -> (event: Option<AudioUnitEvent>)
        ensures
            event == self.gesture(param, K_AUDIO_UNIT_EVENT_BEGIN_PARAMETER_CHANGE_GESTURE),
    {
        self.notify_gesture(param, K_AUDIO_UNIT_EVENT_BEGIN_PARAMETER_CHANGE_GESTURE)
    }

    /// What hosts are told when the editor stops to move a parameter.
    pub fn raw_end_set_parameter(&self, param: ParamPtr) -> (event: Option<AudioUnitEvent>)
        ensures
            event == self.gesture(param, K_AUDIO_UNIT_EVENT_END_PARAMETER_CHANGE_GESTURE),
    {
        self.notify_gesture(param, K_AUDIO_UNIT_EVENT_END_PARAMETER_CHANGE_GESTURE)
    }

    /// What follows when the editor gives a parameter a value.
    pub fn raw_set_parameter_normalized(&self, param: ParamPtr) -> (change: EditorChange)
        ensures
            change == self.change_by_editor(param),
    {
        match self.params.hash_of_param(param) {
            Some(hash) => {
                if self.state.component_instance == 0 {
                    return EditorChange::Apply { hash };
                }
                EditorChange::SetOnHost {
                    parameter: AudioUnitParameter {
                        mAudioUnit: self.state.component_instance,
                        mParameterID: hash,
                        mScope: K_AUDIO_UNIT_SCOPE_GLOBAL,
                        mElement: 0,
                    },
                }
            },
            None => EditorChange::Ignore,
        }
    }

    /// What follows when the host answered to setting a parameter: one that it did not set takes
    /// the value at once.
    pub fn host_set_parameter(parameter: AudioUnitParameter, status: OSStatus) -> (change:
        EditorChange)
        ensures
            change == Self::change_after_host(parameter, status),
    {
        if status != 0 {
            EditorChange::Apply { hash: parameter.mParameterID }
        } else {
            EditorChange::Ignore
        }
    }
}

} // verus!
