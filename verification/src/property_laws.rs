//! What holds between reading and writing properties.
use vstd::prelude::*;
use vstd::utf8::encode_utf8;

use crate::format::AudioStreamBasicDescription;
use crate::host::{
    AUChannelInfo, AUMIDIOutputCallbackStruct, AURenderCallbackStruct, AudioUnitConnection,
    AudioUnitElement, AudioUnitPropertyID, AudioUnitScope, HostCallbackInfo, OSStatus,
    K_AUDIO_UNIT_ERR_INITIALIZED, K_AUDIO_UNIT_ERR_INVALID_PARAMETER,
    K_AUDIO_UNIT_ERR_INVALID_PROPERTY, K_AUDIO_UNIT_ERR_INVALID_PROPERTY_VALUE,
    K_AUDIO_UNIT_ERR_PROPERTY_NOT_WRITABLE, K_AUDIO_UNIT_SCOPE_GLOBAL, NO_ERR,
};
use crate::layout::channel_info;
use crate::listeners::PropertyListener;
use crate::param_info::AudioUnitParameterInfo;
use crate::plugin::{Auv2Plugin, MidiConfig};
use crate::property::{
    PropertyInfo, PropertyInput, PropertyQuery, PropertyValue, SetAction, K_AUDIO_UNIT_PROPERTY_BYPASS_EFFECT,
    K_AUDIO_UNIT_PROPERTY_IN_PLACE_PROCESSING, K_AUDIO_UNIT_PROPERTY_MAKE_CONNECTION,
    K_AUDIO_UNIT_PROPERTY_MAXIMUM_FRAMES_PER_SLICE, K_AUDIO_UNIT_PROPERTY_MIDI_OUTPUT_CALLBACK,
    K_AUDIO_UNIT_PROPERTY_SAMPLE_RATE, K_AUDIO_UNIT_PROPERTY_SET_RENDER_CALLBACK,
    K_AUDIO_UNIT_PROPERTY_STREAM_FORMAT,
};
use crate::wrapper::Wrapper;

verus! {

impl<P: Auv2Plugin> Wrapper<P> {
    /// A host is told about every property that it can read, and the size that it is told is the
    /// one that it gets.
    pub proof fn readable_property_is_announced(
        self,
        id: AudioUnitPropertyID,
        scope: AudioUnitScope,
        element: AudioUnitElement,
        query: PropertyQuery,
    )
        requires
            self.wf(),
            self.read_refusal(id, scope, element, query) is None,
        ensures
            self.info_of(id, scope, element) matches Ok(info) && info.size
                == self.type_of(id).bytes() as u32,
    {
    }

    /// A property that a host is told to be writable is never refused as one that is not. Without
    /// data, and with a size other than the one that the host is told, the data is refused.
    pub proof fn announced_writable_property_can_be_written(
        self,
        id: AudioUnitPropertyID,
        scope: AudioUnitScope,
        element: AudioUnitElement,
        input: PropertyInput,
        in_data_size: u32,
    )
        requires
            self.wf(),
            self.info_of(id, scope, element) is Ok,
            self.info_of(id, scope, element)->Ok_0.writable,
        ensures
            self.write_refusal(id, scope, element, input, in_data_size) != Some(
                K_AUDIO_UNIT_ERR_PROPERTY_NOT_WRITABLE,
            ),
            input is Null || in_data_size != self.info_of(id, scope, element)->Ok_0.size
                ==> self.write_refusal(id, scope, element, input, in_data_size) == Some(
                K_AUDIO_UNIT_ERR_INVALID_PROPERTY_VALUE,
            ),
    {
    }

    /// The sample rate and the largest block are those that the host wrote last.
    pub proof fn written_numbers_are_read_back(
        self,
        after: Self,
        action: SetAction,
        id: AudioUnitPropertyID,
        scope: AudioUnitScope,
        element: AudioUnitElement,
        input: PropertyInput,
        query: PropertyQuery,
        bypass_value: u32,
    )
        requires
            self.writes(after, action, id, scope, element, input),
            Self::has_type(id, input),
            action == SetAction::Return(NO_ERR) || action is NotifyListeners,
        ensures
            id == K_AUDIO_UNIT_PROPERTY_SAMPLE_RATE ==> after.is_value(
                PropertyValue::Double(input->Double_0),
                id,
                scope,
                element,
                query,
                bypass_value,
            ),
            id == K_AUDIO_UNIT_PROPERTY_MAXIMUM_FRAMES_PER_SLICE ==> after.is_value(
                PropertyValue::UInt32(input->UInt32_0),
                id,
                scope,
                element,
                query,
                bypass_value,
            ),
    {
    }

    /// The source of a bus is the one that the host wrote last. A null connection and a null
    /// function remove the source, and are read back with nothing else in them.
    pub proof fn written_sources_are_read_back(
        self,
        after: Self,
        action: SetAction,
        scope: AudioUnitScope,
        element: AudioUnitElement,
        connection: AudioUnitConnection,
        callback: AURenderCallbackStruct,
        query: PropertyQuery,
        bypass_value: u32,
    )
        requires
            self.wf(),
            element < self.input_connections@.len(),
        ensures
            self.writes(
                after,
                action,
                K_AUDIO_UNIT_PROPERTY_MAKE_CONNECTION,
                scope,
                element,
                PropertyInput::Connection(connection),
            ) ==> after.is_value(
                PropertyValue::Connection(
                    if connection.sourceAudioUnit != 0 {
                        connection
                    } else {
                        AudioUnitConnection {
                            sourceAudioUnit: 0,
                            sourceOutputNumber: 0,
                            destInputNumber: element,
                        }
                    },
                ),
                K_AUDIO_UNIT_PROPERTY_MAKE_CONNECTION,
                scope,
                element,
                query,
                bypass_value,
            ),
            self.writes(
                after,
                action,
                K_AUDIO_UNIT_PROPERTY_SET_RENDER_CALLBACK,
                scope,
                element,
                PropertyInput::RenderCallback(callback),
            ) ==> after.is_value(
                PropertyValue::RenderCallback(
                    if callback.inputProc is Some {
                        callback
                    } else {
                        AURenderCallbackStruct { inputProc: None, inputProcRefCon: 0 }
                    },
                ),
                K_AUDIO_UNIT_PROPERTY_SET_RENDER_CALLBACK,
                scope,
                element,
                query,
                bypass_value,
            ),
    {
    }

    /// The host's MIDI callback is the one that it wrote last.
    pub proof fn written_midi_callback_is_read_back(
        self,
        after: Self,
        action: SetAction,
        scope: AudioUnitScope,
        element: AudioUnitElement,
        callback: AUMIDIOutputCallbackStruct,
        query: PropertyQuery,
        bypass_value: u32,
    )
        requires
            self.writes(
                after,
                action,
                K_AUDIO_UNIT_PROPERTY_MIDI_OUTPUT_CALLBACK,
                scope,
                element,
                PropertyInput::MidiOutputCallback(callback),
            ),
        ensures
            after.is_value(
                PropertyValue::MidiOutputCallback(callback),
                K_AUDIO_UNIT_PROPERTY_MIDI_OUTPUT_CALLBACK,
                scope,
                element,
                query,
                bypass_value,
            ),
    {
    }

    /// The format of a bus is the one that the host wrote last, with a reserved field of zero.
    pub proof fn written_format_is_read_back(
        self,
        after: Self,
        scope: AudioUnitScope,
        element: AudioUnitElement,
        format: AudioStreamBasicDescription,
        query: PropertyQuery,
        bypass_value: u32,
    )
        requires
            self.wf(),
            self.writes(
                after,
                SetAction::Return(NO_ERR),
                K_AUDIO_UNIT_PROPERTY_STREAM_FORMAT,
                scope,
                element,
                PropertyInput::StreamFormat(format),
            ),
        ensures
            after.is_value(
                PropertyValue::StreamFormat(AudioStreamBasicDescription { mReserved: 0, ..format }),
                K_AUDIO_UNIT_PROPERTY_STREAM_FORMAT,
                scope,
                element,
                query,
                bypass_value,
            ),
    {
        self.asked_format_is_reported(after, scope, element, format);
    }

    /// A plugin without a bypass parameter is switched off as the host wrote last, and in-place
    /// processing is off whatever the host writes.
    pub proof fn written_switches_are_read_back(
        self,
        after: Self,
        action: SetAction,
        id: AudioUnitPropertyID,
        scope: AudioUnitScope,
        element: AudioUnitElement,
        number: u32,
        query: PropertyQuery,
        bypass_value: u32,
    )
        requires
            self.writes(after, action, id, scope, element, PropertyInput::UInt32(number)),
        ensures
            id == K_AUDIO_UNIT_PROPERTY_BYPASS_EFFECT && self.params.bypass_param is None
                ==> after.is_value(
                PropertyValue::UInt32(
                    if number != 0 {
                        1
                    } else {
                        0
                    },
                ),
                id,
                scope,
                element,
                query,
                bypass_value,
            ),
            id == K_AUDIO_UNIT_PROPERTY_IN_PLACE_PROCESSING ==> after.is_value(
                PropertyValue::UInt32(0),
                id,
                scope,
                element,
                query,
                bypass_value,
            ),
    {
    }

    /// In every state, whatever the host asked for before, a host that can read whether samples
    /// are processed in place reads that they are not.
    pub proof fn samples_are_never_processed_in_place(
        self,
        scope: AudioUnitScope,
        element: AudioUnitElement,
        query: PropertyQuery,
        bypass_value: u32,
        value: PropertyValue,
    )
        requires
            self.wf(),
        ensures
            self.is_value(
                value,
                K_AUDIO_UNIT_PROPERTY_IN_PLACE_PROCESSING,
                scope,
                element,
                query,
                bypass_value,
            ) <==> value == PropertyValue::UInt32(0),
            scope == K_AUDIO_UNIT_SCOPE_GLOBAL && element == 0 && !query.out_data_is_null
                ==> self.read_refusal(
                K_AUDIO_UNIT_PROPERTY_IN_PLACE_PROCESSING,
                scope,
                element,
                query,
            ) is None,
    {
    }

    /// What a host reads about the bypass is what rendering does: with a bypass parameter its
    /// value decides, from one half on, and without one the host's switch.
    pub proof fn bypass_is_read_as_it_is_rendered(
        self,
        query: PropertyQuery,
        bypass_value: u32,
        value: PropertyValue,
    )
        ensures
            self.is_value(value, 21, 0, 0, query, bypass_value) <==> value == PropertyValue::UInt32(
                if self.bypassed(bypass_value) {
                    1
                } else {
                    0
                },
            ),
            self.params.bypass_param is Some && 0x3F00_0000 <= bypass_value <= 0x7F80_0000
                ==> self.is_value(PropertyValue::UInt32(1), 21, 0, 0, query, bypass_value),
            self.params.bypass_param is Some && bypass_value < 0x3F00_0000 ==> self.is_value(
                PropertyValue::UInt32(0),
                21,
                0,
                0,
                query,
                bypass_value,
            ),
            self.params.bypass_param is Some && bypass_value > 0x7F80_0000 ==> self.is_value(
                PropertyValue::UInt32(0),
                21,
                0,
                0,
                query,
                bypass_value,
            ),
    {
    }

    /// A plugin with a bypass parameter is switched as the host wrote: when the parameter has
    /// taken the value that writing asks for, a host reads that the plugin is off where it wrote
    /// anything but zero, and that it is on where it wrote zero. It is the bypass parameter that
    /// takes the value, under a hash that leads to it.
    pub proof fn written_bypass_is_read_back(
        self,
        after: Self,
        action: SetAction,
        number: u32,
        query: PropertyQuery,
    )
        requires
            self.params.bypass_param is Some,
            self.writes(after, action, 21, 0, 0, PropertyInput::UInt32(number)),
        ensures
            action matches SetAction::ApplyParameter { param, hash, normalized_value } && {
                &&& Some(param) == self.params.bypass_param
                &&& self.params.knows(hash)
                &&& self.params.meant(hash).ptr == param
                &&& number != 0 ==> after.is_value(
                    PropertyValue::UInt32(1),
                    21,
                    0,
                    0,
                    query,
                    normalized_value,
                ) && after.bypassed(normalized_value)
                &&& number == 0 ==> after.is_value(
                    PropertyValue::UInt32(0),
                    21,
                    0,
                    0,
                    query,
                    normalized_value,
                ) && !after.bypassed(normalized_value)
            },
            after == self,
    {
    }

    /// The plugin is initialized with the sample rate that the host wrote last, as a rate or with
    /// a format, and with the largest block that it wrote last, whichever it wrote first.
    pub proof fn plugin_is_initialized_with_what_the_host_wrote(
        self,
        between: Self,
        after: Self,
        first: SetAction,
        second: SetAction,
        scope: AudioUnitScope,
        element: AudioUnitElement,
        rate: u64,
        format: AudioStreamBasicDescription,
        frames: u32,
    )
        requires
            first == SetAction::Return(0) || first is NotifyListeners,
            second == SetAction::Return(0) || second is NotifyListeners,
        ensures
            self.writes(between, first, 2, scope, element, PropertyInput::Double(rate))
                && between.writes(after, second, 14, 0, 0, PropertyInput::UInt32(frames)) ==> {
                &&& after.state.config().sample_rate == rate
                &&& after.state.config().max_buffer_size == frames
                &&& after.state.starting().running().current_buffer_config == Some(
                    after.state.config(),
                )
            },
            self.writes(between, first, 14, 0, 0, PropertyInput::UInt32(frames)) && between.writes(
                after,
                second,
                2,
                scope,
                element,
                PropertyInput::Double(rate),
            ) ==> {
                &&& after.state.config().sample_rate == rate
                &&& after.state.config().max_buffer_size == frames
            },
            self.writes(between, first, 8, scope, element, PropertyInput::StreamFormat(format))
                && between.writes(after, second, 14, 0, 0, PropertyInput::UInt32(frames)) ==> {
                &&& after.state.config().sample_rate == format.mSampleRate
                &&& after.state.config().max_buffer_size == frames
                &&& after.state.starting().running().current_buffer_config == Some(
                    after.state.config(),
                )
            },
            self.writes(between, first, 2, scope, element, PropertyInput::Double(rate))
                && between.writes(
                after,
                second,
                8,
                scope,
                element,
                PropertyInput::StreamFormat(format),
            ) ==> after.state.config().sample_rate == format.mSampleRate,
    {
    }

    /// A host can write every sample rate above zero while the unit is not initialized, infinity
    /// and what is no number among them, and no other.
    pub proof fn rates_above_zero_can_be_written(
        self,
        after: Self,
        action: SetAction,
        scope: AudioUnitScope,
        element: AudioUnitElement,
        rate: u64,
    )
        requires
            self.writes(after, action, 2, scope, element, PropertyInput::Double(rate)),
        ensures
            self.state.is_initialized ==> action == SetAction::Return(K_AUDIO_UNIT_ERR_INITIALIZED)
                && after == self,
            !self.state.is_initialized && 0 < rate < 0x8000_0000_0000_0000 ==> action
                == SetAction::Return(0) && after.state.sample_rate == rate,
            !self.state.is_initialized && (rate == 0 || 0x8000_0000_0000_0000 <= rate
                <= 0xFFF0_0000_0000_0000) ==> action == SetAction::Return(
                K_AUDIO_UNIT_ERR_INVALID_PROPERTY_VALUE,
            ) && after == self,
            !self.state.is_initialized && rate > 0xFFF0_0000_0000_0000 ==> action
                == SetAction::Return(0) && after.state.sample_rate == rate,
    {
    }

    /// The listeners of the largest block are called exactly where it changes, and all of them.
    pub proof fn listeners_hear_of_another_largest_block(
        self,
        after: Self,
        action: SetAction,
        frames: u32,
    )
        requires
            !self.state.is_initialized,
            self.writes(after, action, 14, 0, 0, PropertyInput::UInt32(frames)),
        ensures
            after.state.maximum_frames_per_slice == frames,
            frames == self.state.maximum_frames_per_slice ==> action == SetAction::Return(0),
            frames != self.state.maximum_frames_per_slice ==> (
            action matches SetAction::NotifyListeners(called) && called@
                == self.property_listeners@.filter(
                |listener: PropertyListener| listener.property_id == 14,
            )),
    {
        assert(crate::listeners::listens_to(14)
            =~= (|listener: PropertyListener| listener.property_id == 14));
    }

    /// What a host writes about itself is kept as it is, and nothing else changes.
    pub proof fn host_is_remembered_as_it_is(
        self,
        after: Self,
        action: SetAction,
        callbacks: HostCallbackInfo,
        callback: AUMIDIOutputCallbackStruct,
    )
        ensures
            self.writes(after, action, 27, 0, 0, PropertyInput::HostCallbacks(callbacks)) ==> {
                &&& after.state.host_callbacks == Some(callbacks)
                &&& after.state.midi_output_callback == self.state.midi_output_callback
                &&& after.state.config() == self.state.config()
                &&& after.layout() == self.layout()
                &&& action == SetAction::Return(0)
            },
            self.writes(after, action, 48, 0, 0, PropertyInput::MidiOutputCallback(callback)) ==> {
                &&& after.state.midi_output_callback == Some(callback)
                &&& after.state.host_callbacks == self.state.host_callbacks
                &&& after.state.config() == self.state.config()
                &&& after.layout() == self.layout()
                &&& action == SetAction::Return(0)
            },
    {
    }

    /// A source belongs to the one bus to which it is written: the other buses keep theirs, and a
    /// callback does not touch the connection of a bus nor a connection its callback.
    pub proof fn sources_belong_to_their_bus(
        self,
        after: Self,
        action: SetAction,
        element: AudioUnitElement,
        other: int,
        connection: AudioUnitConnection,
        callback: AURenderCallbackStruct,
    )
        requires
            0 <= other < self.input_callbacks@.len(),
            self.input_callbacks@.len() == self.input_connections@.len(),
            element < self.input_callbacks@.len(),
        ensures
            self.writes(after, action, 1, 1, element, PropertyInput::Connection(connection)) ==> {
                &&& after.input_callbacks@ == self.input_callbacks@
                &&& other != element ==> after.input_connections@[other]
                    == self.input_connections@[other]
                &&& connection.sourceAudioUnit != 0 ==> after.input_connections@[element as int]
                    == Some(connection)
                &&& connection.sourceAudioUnit == 0
                    ==> after.input_connections@[element as int] is None
                &&& action == SetAction::Return(0)
            },
            self.writes(after, action, 23, 1, element, PropertyInput::RenderCallback(callback)) ==> {
                &&& after.input_connections@ == self.input_connections@
                &&& other != element ==> after.input_callbacks@[other]
                    == self.input_callbacks@[other]
                &&& callback.inputProc is Some ==> after.input_callbacks@[element as int] == Some(
                    callback,
                )
                &&& callback.inputProc is None ==> after.input_callbacks@[element as int] is None
                &&& action == SetAction::Return(0)
            },
    {
    }

    /// A state is restored from the dictionary that the host gives, and a null address is refused.
    /// Every preset restores the defaults.
    pub proof fn given_dictionary_is_restored(
        self,
        after: Self,
        action: SetAction,
        dictionary: usize,
        id: AudioUnitPropertyID,
    )
        ensures
            self.writes(after, action, 0, 0, 0, PropertyInput::Pointer(dictionary)) && dictionary != 0
                ==> action == (SetAction::RestoreState { dictionary }) && after == self,
            self.writes(after, action, 0, 0, 0, PropertyInput::Pointer(0)) ==> action
                == SetAction::Return(K_AUDIO_UNIT_ERR_INVALID_PROPERTY_VALUE) && after == self,
            self.writes(after, action, id, 0, 0, PropertyInput::Preset) ==> action
                == SetAction::RestoreDefaults && after == self,
    {
    }

    /// A side of a unit has as many elements as there are buses with a format, numbered from zero,
    /// and the whole unit is one element.
    pub proof fn elements_are_the_buses(
        self,
        scope: AudioUnitScope,
        element: AudioUnitElement,
        query: PropertyQuery,
        bypass_value: u32,
        count: u32,
    )
        requires
            scope == 0 || scope == 1 || scope == 2,
            self.is_value(PropertyValue::UInt32(count), 11, scope, 0, query, bypass_value),
        ensures
            scope == 0 ==> count == 1,
            scope != 0 ==> (self.has_property(8, scope, element) <==> element < count),
            scope != 0 ==> (self.has_property(2, scope, element) <==> element < count),
            scope == 1 ==> (self.has_property(1, scope, element) <==> element < count),
            scope == 1 ==> (self.has_property(23, scope, element) <==> element < count),
            scope == 2 ==> !self.has_property(1, scope, element) && !self.has_property(
                23,
                scope,
                element,
            ),
    {
    }

    /// A host finds out about every parameter that it finds in the list of parameters, and about
    /// no other, and what it is told is about a parameter with that hash.
    pub proof fn listed_parameters_are_described(
        self,
        hashes: Vec<u32>,
        hash: u32,
        query: PropertyQuery,
        bypass_value: u32,
        info: AudioUnitParameterInfo,
    )
        requires
            self.wf(),
            self.is_value(
                PropertyValue::ParameterList(hashes),
                3,
                0,
                0,
                query,
                bypass_value,
            ),
        ensures
            hashes@.len() == self.params.entries@.len(),
            forall|i: int|
                0 <= i < hashes@.len() ==> hashes@[i] == (#[trigger] self.params.entries@[i]).hash,
            hashes@.contains(hash) <==> self.has_property(4, 0, hash),
            hashes@.contains(hash) <==> self.has_property(34, 0, hash),
            self.is_value(PropertyValue::ParameterInfo(info), 4, 0, hash, query, bypass_value)
                && hashes@.contains(hash) ==> exists|i: int|
                0 <= i < self.params.entries@.len() && (#[trigger] self.params.entries@[i]).hash
                    == hash && info.cfNameString@ == self.params.entries@[i].name@ && info.minValue
                    == self.params.entries@[i].min_value && info.maxValue
                    == self.params.entries@[i].max_value && info.defaultValue
                    == self.params.entries@[i].default_value,
            self.type_of(3).bytes() == 4 * hashes@.len() % 0x1_0000_0000,
    {
        self.params.known_hashes_are_those_of_parameters(hash);
        if hashes@.contains(hash) {
            let i = choose|i: int| 0 <= i < hashes@.len() && hashes@[i] == hash;
            assert(self.params.entries@[i].hash == hash);
            self.params.hash_means_the_last_parameter(hash);
        }
        if self.params.knows(hash) {
            let i = choose|i: int|
                0 <= i < self.params.entries@.len() && (#[trigger] self.params.entries@[i]).hash
                    == hash;
            assert(hashes@[i] == hash);
        }
    }

    /// A host reads texts only for values with steps, and a text has a unit only where there are no
    /// steps. The parameter is the one that the host means.
    pub proof fn stepped_parameters_have_texts(
        self,
        hash: u32,
        query: PropertyQuery,
        bypass_value: u32,
        value: PropertyValue,
    )
        requires
            self.params.knows(hash),
        ensures
            self.has_property(16, 0, hash) <==> self.params.meant(hash).step_count is Some,
            self.is_value(value, 16, 0, hash, query, bypass_value) ==> (
            value matches PropertyValue::ValueStrings { param, step_count } && {
                &&& param == self.params.meant(hash).ptr
                &&& self.params.meant(hash).step_count matches Some(count) ==> step_count == count
            }),
            query.param_id == hash && self.is_value(value, 33, 0, 0, query, bypass_value) ==> (
            value matches PropertyValue::StringFromValue { param, with_unit } && {
                &&& param == self.params.meant(hash).ptr
                &&& with_unit <==> self.params.meant(hash).step_count is None
            }),
            query.param_id == hash && self.is_value(value, 38, 0, 0, query, bypass_value) ==> value
                == (PropertyValue::ValueFromString { param: self.params.meant(hash).ptr }),
    {
    }

    /// A parameter's name has all of its bytes where the host asks for all of them or for at least
    /// as many, and otherwise as many as it asks for, from the start.
    pub proof fn names_are_as_long_as_asked_for(
        self,
        hash: u32,
        query: PropertyQuery,
        bypass_value: u32,
        text: String,
    )
        requires
            self.is_value(PropertyValue::Name(text), 34, 0, hash, query, bypass_value),
            encode_utf8(self.params.meant(hash).name@).len() <= i32::MAX,
        ensures
            ({
                let name = encode_utf8(self.params.meant(hash).name@);
                let cut = encode_utf8(text@);
                &&& query.desired_length < 0 ==> cut == name
                &&& query.desired_length >= name.len() ==> cut == name
                &&& 0 <= query.desired_length < name.len() ==> cut.len() == query.desired_length
                &&& forall|i: int| 0 <= i < cut.len() ==> cut[i] == name[i]
            }),
    {
    }

    /// The delay that a host reads is what the plugin said last, at the sample rate of the unit.
    pub proof fn delay_is_the_one_that_the_plugin_said(
        self,
        samples: u32,
        query: PropertyQuery,
        bypass_value: u32,
        value: PropertyValue,
    )
        ensures
            (Wrapper { state: self.state.with_latency(samples), ..self }).is_value(
                value,
                12,
                0,
                0,
                query,
                bypass_value,
            ) <==> value == (PropertyValue::Latency {
                samples,
                sample_rate: self.state.sample_rate,
            }),
            self.state.with_latency(samples).config() == self.state.config(),
            self.state.with_latency(samples).is_initialized == self.state.is_initialized,
    {
    }

    /// A unit has one preset, no tail, the channels of its layouts, and where it sends MIDI, one
    /// MIDI output.
    pub proof fn unit_tells_what_it_is(
        self,
        query: PropertyQuery,
        bypass_value: u32,
        value: PropertyValue,
        infos: Vec<AUChannelInfo>,
    )
        requires
            self.wf(),
        ensures
            self.is_value(value, 20, 0, 0, query, bypass_value) <==> value
                == PropertyValue::Double(0),
            self.is_value(value, 28, 0, 0, query, bypass_value) ==> (
            value matches PropertyValue::Preset { number, .. } && number == 0),
            self.is_value(value, 28, 0, 0, query, bypass_value) <==> self.is_value(
                value,
                36,
                0,
                0,
                query,
                bypass_value,
            ),
            self.is_value(value, 0, 0, 0, query, bypass_value) <==> value is ClassInfo,
            self.is_value(value, 31, 0, 0, query, bypass_value) <==> value is CocoaView,
            self.has_property(31, 0, 0) <==> self.state.has_editor,
            self.has_property(47, 0, 0) <==> P::MIDI_OUTPUT != MidiConfig::Disabled,
            self.has_property(48, 0, 0) <==> P::MIDI_OUTPUT != MidiConfig::Disabled,
            self.is_value(PropertyValue::ChannelInfos(infos), 13, 0, 0, query, bypass_value)
                ==> exists|i: int|
                0 <= i < infos@.len() && {
                    let info = #[trigger] infos@[i];
                    &&& self.layout().main_input_channels matches Some(channels) ==> info.inChannels
                        == channels
                    &&& self.layout().main_output_channels matches Some(channels)
                        ==> info.outChannels == channels
                    &&& self.layout().main_input_channels is None ==> info.inChannels == 0
                    &&& self.layout().main_output_channels is None ==> info.outChannels == 0
                },
    {
        self.layout_in_use_is_served();
        let layouts = self.supported_audio_io_layouts@;
        let k = choose|k: int| 0 <= k < layouts.len() && layouts[k] == self.layout();
        crate::layout::channel_info_tells_the_main_channels(self.layout());
        assert(channel_info(layouts[k]) == channel_info(self.layout()));
        if self.is_value(PropertyValue::ChannelInfos(infos), 13, 0, 0, query, bypass_value) {
            assert(infos@.contains(channel_info(self.layout())));
            let i = choose|i: int|
                0 <= i < infos@.len() && infos@[i] == channel_info(self.layout());
            assert(infos@[i] == channel_info(self.layout()));
        }
    }

    /// The properties of the whole unit are there for the whole unit, and for nothing else.
    pub proof fn unit_properties_belong_to_the_unit(
        self,
        id: AudioUnitPropertyID,
        scope: AudioUnitScope,
        element: AudioUnitElement,
    )
        requires
            id == 0 || id == 12 || id == 13 || id == 14 || id == 20 || id == 21 || id == 27 || id
                == 28 || id == 29 || id == 36,
        ensures
            self.has_property(id, scope, element) <==> scope == 0 && element == 0,
    {
    }

    /// What a unit has depends on nothing but the property, the layout, the parameters, the editor
    /// and the MIDI output; there are no other properties than these.
    pub proof fn other_properties_are_not_there(
        self,
        id: AudioUnitPropertyID,
        scope: AudioUnitScope,
        element: AudioUnitElement,
    )
        ensures
            self.has_property(id, scope, element) ==> id <= 4 || id == 8 || (11 <= id <= 14) || id
                == 16 || id == 20 || id == 21 || id == 23 || (27 <= id <= 29) || id == 31 || id == 33
                || id == 34 || id == 36 || id == 38 || id == 47 || id == 48,
            self.has_property(id, scope, element) ==> scope <= 2,
            (id == 3 || id == 33 || id == 38) ==> (self.has_property(id, scope, element) <==> scope
                == 0),
            (id == 4 || id == 34 || id == 16) && scope != 0 ==> !self.has_property(
                id,
                scope,
                element,
            ),
            (id == 31 || id == 47 || id == 48) && !(scope == 0 && element == 0)
                ==> !self.has_property(id, scope, element),
            id == 11 ==> (self.has_property(id, scope, element) <==> scope <= 2),
            !self.has_property(id, scope, element) && (id == 4 || id == 16 || id == 33 || id == 34
                || id == 38) ==> self.info_of(id, scope, element) == Err::<PropertyInfo, OSStatus>(
                K_AUDIO_UNIT_ERR_INVALID_PARAMETER,
            ),
            !self.has_property(id, scope, element) && !(id == 4 || id == 16 || id == 33 || id == 34
                || id == 38) ==> self.info_of(id, scope, element) == Err::<PropertyInfo, OSStatus>(
                K_AUDIO_UNIT_ERR_INVALID_PROPERTY,
            ),
    {
    }

    /// Every property that a host is told about can be read, where the host gives a place for it,
    /// except the host's own callbacks. The texts of values need a parameter that is there, and a
    /// place for the size.
    pub proof fn announced_property_can_be_read(
        self,
        id: AudioUnitPropertyID,
        scope: AudioUnitScope,
        element: AudioUnitElement,
        query: PropertyQuery,
    )
        requires
            self.info_of(id, scope, element) is Ok,
            id != 27,
            !query.out_data_is_null,
            id == 33 || id == 38 ==> !query.io_data_size_is_null && self.params.knows(
                query.param_id,
            ),
        ensures
            self.read_refusal(id, scope, element, query) is None,
    {
    }

    /// A read that is refused says why: without a place for the value, for want of a property, or
    /// for want of a parameter.
    pub proof fn refused_reads_say_why(
        self,
        id: AudioUnitPropertyID,
        scope: AudioUnitScope,
        element: AudioUnitElement,
        query: PropertyQuery,
    )
        ensures
            query.out_data_is_null ==> self.read_refusal(id, scope, element, query) == Some(
                K_AUDIO_UNIT_ERR_INVALID_PROPERTY_VALUE,
            ),
            !query.out_data_is_null && id == 27 ==> self.read_refusal(id, scope, element, query)
                == Some(K_AUDIO_UNIT_ERR_INVALID_PROPERTY),
            !query.out_data_is_null && scope != 0 && !self.has_property(id, scope, element)
                ==> self.read_refusal(id, scope, element, query) == Some(
                K_AUDIO_UNIT_ERR_INVALID_PROPERTY,
            ),
            !query.out_data_is_null && scope == 0 && !self.has_property(id, scope, element) ==> (
            self.read_refusal(id, scope, element, query) == Some(
                if id == 4 || id == 16 || id == 34 {
                    K_AUDIO_UNIT_ERR_INVALID_PARAMETER
                } else {
                    K_AUDIO_UNIT_ERR_INVALID_PROPERTY
                },
            )),
            !query.out_data_is_null && scope == 0 && (id == 33 || id == 38) ==> (self.read_refusal(
                id,
                scope,
                element,
                query,
            ) == if query.io_data_size_is_null {
                Some(K_AUDIO_UNIT_ERR_INVALID_PROPERTY_VALUE)
            } else if !self.params.knows(query.param_id) {
                Some(K_AUDIO_UNIT_ERR_INVALID_PARAMETER)
            } else {
                None
            }),
    {
    }

    /// A host can write what it is told to be writable, and the presets besides. Everything else is
    /// refused as not writable.
    pub proof fn only_writable_properties_and_presets_are_written(
        self,
        id: AudioUnitPropertyID,
        scope: AudioUnitScope,
        element: AudioUnitElement,
        input: PropertyInput,
        in_data_size: u32,
    )
        ensures
            self.write_refusal(id, scope, element, input, in_data_size) == Some(
                K_AUDIO_UNIT_ERR_PROPERTY_NOT_WRITABLE,
            ) <==> !((self.info_of(id, scope, element) matches Ok(info) && info.writable) || ((id
                == 28 || id == 36) && self.has_property(id, scope, element))),
            self.write_refusal(id, scope, element, input, in_data_size) is None ==> {
                &&& !(input is Null)
                &&& in_data_size == self.type_of(id).bytes()
            },
            self.info_of(id, scope, element) matches Ok(info) ==> (info.writable <==> id == 0 || id
                == 1 || id == 2 || id == 8 || id == 14 || id == 21 || id == 23 || id == 27 || id
                == 29 || id == 48),
    {
    }

    /// The size of a property is that of its value in memory, where an address has `p` bytes.
    pub proof fn sizes_are_those_of_the_values(self, p: int)
        requires
            p * 8 == usize::BITS,
            self.params.entries@.len() <= usize::MAX,
            self.supported_channel_infos@.len() <= usize::MAX,
        ensures
            p == 4 || p == 8,
            self.type_of(0).bytes() == p,
            self.type_of(1).bytes() == p + 4 + 4,
            self.type_of(2).bytes() == 8,
            self.type_of(3).bytes() == 4 * self.params.entries@.len() % 0x1_0000_0000,
            p == 8 ==> self.type_of(4).bytes() == 52 + 4 + 8 + 4 + 4 + 8 + 4 + 4 + 4 + 4 + 4 + 4,
            p == 4 ==> self.type_of(4).bytes() == 52 + 4 + 4 + 4 + 4 + 4 + 4 + 4 + 4,
            self.type_of(8).bytes() == 8 + 8 * 4,
            self.type_of(11).bytes() == 4,
            self.type_of(12).bytes() == 8,
            self.type_of(13).bytes() == 4 * self.supported_channel_infos@.len() % 0x1_0000_0000,
            self.type_of(14).bytes() == 4,
            self.type_of(16).bytes() == p,
            self.type_of(20).bytes() == 8,
            self.type_of(21).bytes() == 4,
            self.type_of(23).bytes() == 2 * p,
            self.type_of(27).bytes() == 5 * p,
            self.type_of(28).bytes() == 2 * p,
            self.type_of(29).bytes() == 4,
            self.type_of(31).bytes() == 2 * p,
            self.type_of(33).bytes() == 3 * p,
            self.type_of(34).bytes() == p + 8,
            self.type_of(36).bytes() == 2 * p,
            self.type_of(38).bytes() == 3 * p,
            self.type_of(47).bytes() == p,
            self.type_of(48).bytes() == 2 * p,
    {
    }

    /// While the unit is initialized, its format and its largest block stay as they are.
    pub proof fn initialized_unit_keeps_its_format(
        self,
        after: Self,
        action: SetAction,
        id: AudioUnitPropertyID,
        scope: AudioUnitScope,
        element: AudioUnitElement,
        input: PropertyInput,
    )
        requires
            self.state.is_initialized,
            self.writes(after, action, id, scope, element, input),
            Self::has_type(id, input),
        ensures
            after.layout() == self.layout(),
            after.state.config() == self.state.config(),
            id == K_AUDIO_UNIT_PROPERTY_SAMPLE_RATE || id == K_AUDIO_UNIT_PROPERTY_STREAM_FORMAT
                || id == K_AUDIO_UNIT_PROPERTY_MAXIMUM_FRAMES_PER_SLICE ==> action
                == SetAction::Return(K_AUDIO_UNIT_ERR_INITIALIZED),
    {
    }
}

} // verus!
