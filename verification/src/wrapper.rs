//! A unit: what a host sees of a plugin, and what the host said to it.
use core::marker::PhantomData;
use vstd::prelude::*;

use crate::buffers::IOBuffers;
use crate::format::{
    at_least_half, format_is_supported, is_at_least_half, make_stream_format, stream_format,
    stream_format_is_supported, AudioStreamBasicDescription,
};
use crate::host::{
    AUChannelInfo, AUMIDIOutputCallbackStruct, AURenderCallbackStruct, AudioUnitConnection,
    AudioUnitElement, AudioUnitScope, HostCallbackInfo, OSStatus,
    K_AUDIO_UNIT_ERR_FAILED_INITIALIZATION, K_AUDIO_UNIT_ERR_FORMAT_NOT_SUPPORTED,
    K_AUDIO_UNIT_ERR_INITIALIZED, K_AUDIO_UNIT_ERR_INVALID_ELEMENT, K_AUDIO_UNIT_ERR_INVALID_SCOPE,
    K_AUDIO_UNIT_SCOPE_GLOBAL, K_AUDIO_UNIT_SCOPE_INPUT, K_AUDIO_UNIT_SCOPE_OUTPUT, NO_ERR,
};
use crate::layout::{
    agree_on_main_buses, bus_channel_counts_for_layout, bus_channels_for_layout,
    bus_count_for_layout, can_process_in_place, channel_info, channels_of, info_less, is_supported,
    layout_for_stream_format, lemma_first_layout, has_buses, has_buses_in,
    match_audio_io_layout_for_stream_format, servable, supported_audio_io_layouts,
    supported_channel_infos, AudioIOLayout,
};
use crate::listeners::{PropertyListener, PropertyListeners};
use crate::params::{ParamEntry, ParamPtr, ParamTable};
use crate::plugin::Auv2Plugin;
use crate::queue::{EventQueue, ParameterQueue};
use crate::render::RenderState;

verus! {

/// The bits of 44100.0.
pub const DEFAULT_SAMPLE_RATE: u64 = 0x40E5_8880_0000_0000;

pub const DEFAULT_MAX_FRAMES_PER_SLICE: u32 = 512;

/// How a plugin processes samples.
#[derive(Clone, Copy, Debug, PartialEq, Eq, Structural)]
pub enum ProcessMode {
    Realtime,
    Buffered,
    Offline,
}

/// What a plugin is told about the blocks that it gets. The sample rate is the bits of an `f64`.
#[derive(Clone, Copy, Debug, PartialEq, Eq, Structural)]
pub struct BufferConfig {
    pub sample_rate: u64,
    pub min_buffer_size: Option<u32>,
    pub max_buffer_size: u32,
    pub process_mode: ProcessMode,
}

/// How a plugin is to be initialized: first the smoothers of the parameters jump to their values
/// at the sample rate, then the plugin is asked once.
pub struct InitializeStart {
    pub params: Vec<ParamPtr>,
    pub layout: AudioIOLayout,
    pub config: BufferConfig,
}

/// How initializing a plugin ends.
#[derive(Clone, Copy, Debug, PartialEq, Eq, Structural)]
pub struct InitializeEnd {
    pub status: OSStatus,
    /// Whether the plugin is to be reset now, once.
    pub reset: bool,
}

/// The values that hosts read and change.
#[derive(Clone, Copy, Debug)]
pub struct UnitState {
    pub current_audio_io_layout: AudioIOLayout,
    /// The address under which the host knows the unit; zero where it does not.
    pub component_instance: usize,
    /// The address of the view that was opened last; zero where it is closed.
    pub cocoa_view: usize,
    pub open_editor_count: u32,
    /// Whether the plugin has an editor.
    pub has_editor: bool,
    /// The bits of an `f64`.
    pub sample_rate: u64,
    pub maximum_frames_per_slice: u32,
    /// What the plugin was initialized with, while it is.
    pub current_buffer_config: Option<BufferConfig>,
    pub current_latency: u32,
    pub is_initialized: bool,
    /// Whether the host switched the plugin off. It counts where no parameter says so.
    pub bypass_enabled: bool,
    pub host_callbacks: Option<HostCallbackInfo>,
    pub midi_output_callback: Option<AUMIDIOutputCallbackStruct>,
    pub in_place_processing: bool,
}

impl UnitState {
    /// The state after the plugin said by how many samples it delays its input.
    pub open spec fn with_latency(self, samples: u32) -> Self {
        UnitState { current_latency: samples, ..self }
    }

    /// What a plugin is initialized with.
    pub open spec fn config(self) -> BufferConfig {
        BufferConfig {
            sample_rate: self.sample_rate,
            min_buffer_size: None,
            max_buffer_size: self.maximum_frames_per_slice,
            process_mode: ProcessMode::Realtime,
        }
    }

    /// The state while the plugin initializes itself.
    pub open spec fn starting(self) -> Self {
        UnitState { is_initialized: true, ..self }
    }

    /// The state after the plugin initialized itself.
    pub open spec fn running(self) -> Self {
        UnitState { current_buffer_config: Some(self.config()), ..self }
    }

    /// The state after the unit was uninitialized, or after the plugin did not initialize itself.
    pub open spec fn stopped(self) -> Self {
        UnitState { is_initialized: false, current_buffer_config: None, ..self }
    }

    /// Uninitializing undoes initializing, and so does a plugin that refuses to be initialized.
    pub proof fn stopping_undoes_starting(self)
        requires
            !self.is_initialized,
            self.current_buffer_config is None,
        ensures
            self.starting().running().stopped() == self,
            self.starting().stopped() == self,
    {
    }

    /// The state of a unit that no host has seen yet.
    pub open spec fn initial(layout: AudioIOLayout, has_editor: bool) -> Self {
        UnitState {
            current_audio_io_layout: layout,
            component_instance: 0,
            cocoa_view: 0,
            open_editor_count: 0,
            has_editor,
            sample_rate: DEFAULT_SAMPLE_RATE,
            maximum_frames_per_slice: DEFAULT_MAX_FRAMES_PER_SLICE,
            current_buffer_config: None,
            current_latency: 0,
            is_initialized: false,
            bypass_enabled: false,
            host_callbacks: None,
            midi_output_callback: None,
            in_place_processing: false,
        }
    }
}

/// The largest number of input buses that one of the layouts has.
pub open spec fn max_input_buses(layouts: Seq<AudioIOLayout>) -> nat
    decreases layouts.len(),
{
    if layouts.len() == 0 {
        0
    } else {
        let fewer = max_input_buses(layouts.drop_last());
        let last = layouts.last().buses(K_AUDIO_UNIT_SCOPE_INPUT).len();
        if last > fewer {
            last
        } else {
            fewer
        }
    }
}

proof fn lemma_max_input_buses(layouts: Seq<AudioIOLayout>, i: int)
    requires
        0 <= i < layouts.len(),
    ensures
        layouts[i].buses(K_AUDIO_UNIT_SCOPE_INPUT).len() <= max_input_buses(layouts),
    decreases layouts.len(),
{
    if i < layouts.len() - 1 {
        lemma_max_input_buses(layouts.drop_last(), i);
        assert(layouts.drop_last()[i] == layouts[i]);
    }
}

/// Whether a plugin with the `declared` layouts is offered at all.
pub open spec fn has_offer(declared: Seq<AudioIOLayout>) -> bool {
    declared.len() == 0 || (servable(declared).len() > 0 && agree_on_main_buses(servable(declared)))
}

/// The layouts with which a plugin with the `declared` layouts is offered: those that can be
/// served, or one without buses where none is declared.
pub open spec fn is_offer(declared: Seq<AudioIOLayout>, layouts: Seq<AudioIOLayout>) -> bool {
    if declared.len() == 0 {
        &&& layouts.len() == 1
        &&& layouts[0].buses(K_AUDIO_UNIT_SCOPE_INPUT).len() == 0
        &&& layouts[0].buses(K_AUDIO_UNIT_SCOPE_OUTPUT).len() == 0
    } else {
        layouts == servable(declared)
    }
}

/// The channel infos are those of the layouts, each of them once, by channels.
pub open spec fn are_channel_infos(infos: Seq<AUChannelInfo>, layouts: Seq<AudioIOLayout>) -> bool {
    &&& forall|i: int, j: int|
        0 <= i < j < infos.len() ==> info_less(#[trigger] infos[i], #[trigger] infos[j])
    &&& forall|info: AUChannelInfo|
        infos.contains(info) <==> exists|k: int|
            0 <= k < layouts.len() && channel_info(#[trigger] layouts[k]) == info
}

proof fn lemma_servable(declared: Seq<AudioIOLayout>)
    ensures
        forall|i: int|
            0 <= i < servable(declared).len() ==> is_supported(#[trigger] servable(declared)[i]),
    decreases declared.len(),
{
    reveal(Seq::filter);
    if declared.len() > 0 {
        let fewer = declared.drop_last();
        lemma_servable(fewer);
        assert forall|i: int| 0 <= i < servable(declared).len() implies is_supported(
            #[trigger] servable(declared)[i],
        ) by {
            if i < servable(fewer).len() {
                assert(servable(declared)[i] == servable(fewer)[i]);
            }
        }
    }
}

/// Whether a host can reset a part of a unit with a layout: the whole unit, or one of its buses.
pub open spec fn reset_status(
    layout: AudioIOLayout,
    scope: AudioUnitScope,
    element: AudioUnitElement,
) -> OSStatus {
    if scope == K_AUDIO_UNIT_SCOPE_GLOBAL {
        if element == 0 {
            NO_ERR
        } else {
            K_AUDIO_UNIT_ERR_INVALID_SCOPE
        }
    } else if scope == K_AUDIO_UNIT_SCOPE_INPUT || scope == K_AUDIO_UNIT_SCOPE_OUTPUT {
        if element < layout.buses(scope).len() {
            NO_ERR
        } else {
            K_AUDIO_UNIT_ERR_INVALID_ELEMENT
        }
    } else {
        K_AUDIO_UNIT_ERR_INVALID_SCOPE
    }
}

/// A host can reset the whole unit and each bus that it has, and nothing else.
pub proof fn whole_unit_and_buses_can_be_reset(
    layout: AudioIOLayout,
    scope: AudioUnitScope,
    element: AudioUnitElement,
)
    ensures
        reset_status(layout, scope, element) == 0 <==> (scope == 0 && element == 0) || channels_of(
            layout,
            scope,
            element,
        ) is Some,
        (scope == 1 || scope == 2) && channels_of(layout, scope, element) is None ==> reset_status(
            layout,
            scope,
            element,
        ) == K_AUDIO_UNIT_ERR_INVALID_ELEMENT,
        (scope == 0 && element != 0) || scope > 2 ==> reset_status(layout, scope, element)
            == K_AUDIO_UNIT_ERR_INVALID_SCOPE,
{
}

/// There is a unit for every plugin that declares no layout, and for every plugin with a layout
/// that can be served whose layouts of that kind agree on having a main input and a main output.
/// The unit has those layouts, and starts with the first of them.
pub proof fn plugins_with_layouts_have_units(
    declared: Seq<AudioIOLayout>,
    layout: AudioIOLayout,
    other: AudioIOLayout,
)
    requires
        servable(declared).contains(layout),
        servable(declared).contains(other),
    ensures
        has_offer(Seq::<AudioIOLayout>::empty()),
        layout.main_input_channels is Some != other.main_input_channels is Some ==> !has_offer(
            declared,
        ),
        layout.main_output_channels is Some != other.main_output_channels is Some ==> !has_offer(
            declared,
        ),
        (forall|i: int|
            0 <= i < servable(declared).len() ==> (
            #[trigger] servable(declared)[i]).main_input_channels is Some
                == layout.main_input_channels is Some
                && servable(declared)[i].main_output_channels is Some
                == layout.main_output_channels is Some) ==> has_offer(declared),
        is_offer(declared, servable(declared)),
        is_offer(declared, seq![layout]) ==> servable(declared) == seq![layout],
{
    reveal(Seq::filter);
    let offered = servable(declared);
    let i = choose|i: int| 0 <= i < offered.len() && offered[i] == layout;
    let j = choose|j: int| 0 <= j < offered.len() && offered[j] == other;
    assert(offered[i] == layout);
    assert(offered[j] == other);
    assert(declared.len() > 0);
    if forall|k: int|
        0 <= k < offered.len() ==> (#[trigger] offered[k]).main_input_channels is Some
            == layout.main_input_channels is Some && offered[k].main_output_channels is Some
            == layout.main_output_channels is Some {
        assert(agree_on_main_buses(offered)) by {
            assert(offered[0].main_input_channels is Some == layout.main_input_channels is Some);
        }
    }
}

/// Where no declared layout can be served, there is no unit.
pub proof fn plugins_without_servable_layouts_have_no_unit(declared: Seq<AudioIOLayout>)
    requires
        declared.len() > 0,
        forall|layout: AudioIOLayout| declared.contains(layout) ==> !servable(declared).contains(
            layout,
        ),
    ensures
        !has_offer(declared),
    decreases declared.len(),
{
    if servable(declared).len() > 0 {
        let layout = servable(declared)[0];
        assert(servable(declared).contains(layout));
        crate::layout::offer_keeps_the_order(declared, layout);
    }
}

/// There are sources for as many input buses as the layout with the most of them has.
pub proof fn largest_layout_decides_the_sources(layouts: Seq<AudioIOLayout>, i: int)
    requires
        0 <= i < layouts.len(),
    ensures
        layouts[i].buses(1).len() <= max_input_buses(layouts),
        exists|k: int|
            0 <= k < layouts.len() && (#[trigger] layouts[k]).buses(1).len() == max_input_buses(
                layouts,
            ),
    decreases layouts.len(),
{
    lemma_max_input_buses(layouts, i);
    let fewer = layouts.drop_last();
    assert(fewer.len() == 0 ==> max_input_buses(fewer) == 0);
    if fewer.len() == 0 || layouts.last().buses(1).len() > max_input_buses(fewer) {
        assert(layouts[layouts.len() - 1].buses(1).len() == max_input_buses(layouts));
    } else {
        largest_layout_decides_the_sources(fewer, 0);
        let k = choose|k: int|
            0 <= k < fewer.len() && (#[trigger] fewer[k]).buses(1).len() == max_input_buses(fewer);
        assert(layouts[k] == fewer[k]);
    }
}

/// A plugin gets the sample rate and the largest block that the host has set, processes in real
/// time, and blocks can be as short as they like. What it was told stays known while it is
/// initialized.
pub proof fn plugin_gets_the_host_settings(state: UnitState)
    ensures
        state.config().sample_rate == state.sample_rate,
        state.config().max_buffer_size == state.maximum_frames_per_slice,
        state.config().min_buffer_size is None,
        state.config().process_mode == ProcessMode::Realtime,
        state.starting().is_initialized,
        state.starting().current_buffer_config == state.current_buffer_config,
        state.running().current_buffer_config is Some,
        state.running().current_buffer_config->Some_0.sample_rate == state.sample_rate,
        state.running().current_buffer_config->Some_0.max_buffer_size
            == state.maximum_frames_per_slice,
        state.running().is_initialized == state.is_initialized,
        !state.stopped().is_initialized,
        state.stopped().current_buffer_config is None,
{
}

/// Initializing and uninitializing leave everything as it is that a host has set.
pub proof fn host_settings_stay(state: UnitState, after: UnitState)
    requires
        after == state.starting() || after == state.running() || after == state.stopped(),
    ensures
        after.current_audio_io_layout == state.current_audio_io_layout,
        after.component_instance == state.component_instance,
        after.cocoa_view == state.cocoa_view,
        after.open_editor_count == state.open_editor_count,
        after.has_editor == state.has_editor,
        after.sample_rate == state.sample_rate,
        after.maximum_frames_per_slice == state.maximum_frames_per_slice,
        after.current_latency == state.current_latency,
        after.bypass_enabled == state.bypass_enabled,
        after.host_callbacks == state.host_callbacks,
        after.midi_output_callback == state.midi_output_callback,
        after.in_place_processing == state.in_place_processing,
{
}

/// A new unit is not initialized, not switched off, adds no delay, and knows nothing of a host.
pub proof fn new_unit_knows_no_host(layout: AudioIOLayout, has_editor: bool)
    ensures
        ({
            let state = UnitState::initial(layout, has_editor);
            &&& state.current_audio_io_layout == layout
            &&& state.has_editor == has_editor
            &&& !state.is_initialized
            &&& state.current_buffer_config is None
            &&& !state.bypass_enabled
            &&& !state.in_place_processing
            &&& state.current_latency == 0
            &&& state.component_instance == 0
            &&& state.cocoa_view == 0
            &&& state.open_editor_count == 0
            &&& state.host_callbacks is None
            &&& state.midi_output_callback is None
            &&& state.sample_rate == 0x40E5_8880_0000_0000
            &&& state.maximum_frames_per_slice == 512
        }),
{
}

/// A unit. `P` is the plugin that it wraps.
pub struct Wrapper<P: Auv2Plugin> {
    pub plugin: PhantomData<P>,
    /// Whether the machine keeps the highest byte of a number first.
    pub big_endian: bool,
    pub params: ParamTable,
    pub supported_audio_io_layouts: Vec<AudioIOLayout>,
    pub supported_channel_infos: Vec<AUChannelInfo>,
    pub state: UnitState,
    /// Where each input bus takes its samples from.
    pub input_callbacks: Vec<Option<AURenderCallbackStruct>>,
    pub input_connections: Vec<Option<AudioUnitConnection>>,
    pub property_listeners: PropertyListeners,
    pub io_buffers: IOBuffers,
    pub render_state: RenderState,
    pub pending_parameter_changes: ParameterQueue,
    pub pending_input_events: EventQueue,
}

fn no_callbacks(count: usize) -> (callbacks: Vec<Option<AURenderCallbackStruct>>)
    ensures
        callbacks@ == Seq::new(count as nat, |i: int| None::<AURenderCallbackStruct>),
{
    let mut callbacks: Vec<Option<AURenderCallbackStruct>> = Vec::new();
    let mut i: usize = 0;
    while i < count
        invariant
            i <= count,
            callbacks@.len() == i,
            forall|j: int| 0 <= j < i ==> callbacks@[j] is None,
        decreases count - i,
    {
        callbacks.push(None);
        i += 1;
    }
    assert(callbacks@ =~= Seq::new(count as nat, |i: int| None::<AURenderCallbackStruct>));
    callbacks
}

fn no_connections(count: usize) -> (connections: Vec<Option<AudioUnitConnection>>)
    ensures
        connections@ == Seq::new(count as nat, |i: int| None::<AudioUnitConnection>),
{
    let mut connections: Vec<Option<AudioUnitConnection>> = Vec::new();
    let mut i: usize = 0;
    while i < count
        invariant
            i <= count,
            connections@.len() == i,
            forall|j: int| 0 <= j < i ==> connections@[j] is None,
        decreases count - i,
    {
        connections.push(None);
        i += 1;
    }
    assert(connections@ =~= Seq::new(count as nat, |i: int| None::<AudioUnitConnection>));
    connections
}

fn count_input_buses(layouts: &Vec<AudioIOLayout>) -> (count: usize)
    requires
        forall|i: int| 0 <= i < layouts@.len() ==> is_supported(#[trigger] layouts@[i]),
    ensures
        count == max_input_buses(layouts@),
{
    let mut count: usize = 0;
    let mut i: usize = 0;
    assert(layouts@.take(0).len() == 0);
    while i < layouts.len()
        invariant
            i <= layouts@.len(),
            forall|i: int| 0 <= i < layouts@.len() ==> is_supported(#[trigger] layouts@[i]),
            count == max_input_buses(layouts@.take(i as int)),
        decreases layouts@.len() - i,
    {
        let buses = bus_count_for_layout(layouts[i], K_AUDIO_UNIT_SCOPE_INPUT) as usize;
        assert(layouts@.take(i + 1).drop_last() =~= layouts@.take(i as int));
        if buses > count {
            count = buses;
        }
        i += 1;
    }
    assert(layouts@.take(i as int) =~= layouts@);
    count
}

impl<P: Auv2Plugin> Wrapper<P> {
    /// The layout that is in use.
    pub open spec fn layout(self) -> AudioIOLayout {
        self.state.current_audio_io_layout
    }

    /// The layouts are ones that can be served, and the one in use is one of them. There is a
    /// source for each input bus. The output never takes the memory of the input. While the plugin
    /// is initialized, it is so with what the host asked for, and there is room for the samples of
    /// each block.
    pub open spec fn wf(self) -> bool {
        &&& self.params.wf()
        &&& forall|i: int|
            0 <= i < self.supported_audio_io_layouts@.len() ==> is_supported(
                #[trigger] self.supported_audio_io_layouts@[i],
            )
        &&& self.supported_audio_io_layouts@.contains(self.layout())
        &&& are_channel_infos(self.supported_channel_infos@, self.supported_audio_io_layouts@)
        &&& self.input_callbacks@.len() == max_input_buses(self.supported_audio_io_layouts@)
        &&& self.input_connections@.len() == max_input_buses(self.supported_audio_io_layouts@)
        &&& self.pending_parameter_changes.wf()
        &&& self.pending_input_events.wf()
        &&& !self.state.in_place_processing
        &&& self.state.current_buffer_config matches Some(config) ==> {
            &&& self.state.is_initialized
            &&& config == self.state.config()
            &&& self.io_buffers.fits(self.layout(), self.state.maximum_frames_per_slice as int)
        }
    }

    /// Whether the plugin was asked to initialize itself and has not answered yet.
    pub open spec fn is_initializing(self) -> bool {
        self.state.is_initialized && self.state.current_buffer_config is None
    }

    /// The layout in use is well formed and can be served, and there is a source for each of its
    /// input buses.
    pub proof fn layout_in_use_is_served(self)
        requires
            self.wf(),
        ensures
            self.layout().wf(),
            is_supported(self.layout()),
            self.layout().buses(K_AUDIO_UNIT_SCOPE_INPUT).len() <= self.input_callbacks@.len(),
            self.layout().buses(K_AUDIO_UNIT_SCOPE_INPUT).len() <= self.input_connections@.len(),
    {
        let layouts = self.supported_audio_io_layouts@;
        let i = choose|i: int| 0 <= i < layouts.len() && layouts[i] == self.layout();
        lemma_max_input_buses(layouts, i);
    }

    /// A unit for a plugin with the given parameters, in the order in which it lists them. There
    /// is none where the plugin has no layout that can be served, or where some of its layouts
    /// have a main input or output and others do not. `big_endian` is the byte order of the
    /// machine.
    pub fn new(params: Vec<ParamEntry>, has_editor: bool, big_endian: bool) -> (wrapper: Option<
        Self,
    >)
        ensures
            wrapper is Some == has_offer(P::AUDIO_IO_LAYOUTS@),
            wrapper matches Some(unit) ==> {
                &&& unit.wf()
                &&& unit.params.entries == params
                &&& unit.big_endian == big_endian
                &&& is_offer(P::AUDIO_IO_LAYOUTS@, unit.supported_audio_io_layouts@)
                &&& unit.state == UnitState::initial(
                    unit.supported_audio_io_layouts@[0],
                    has_editor,
                )
                &&& unit.input_callbacks@ == Seq::new(
                    max_input_buses(unit.supported_audio_io_layouts@),
                    |i: int| None::<AURenderCallbackStruct>,
                )
                &&& unit.input_connections@ == Seq::new(
                    max_input_buses(unit.supported_audio_io_layouts@),
                    |i: int| None::<AudioUnitConnection>,
                )
                &&& unit.property_listeners@.len() == 0
                &&& unit.io_buffers.fits(unit.layout(), 0)
                &&& unit.render_state.is_new(unit.layout())
                &&& unit.pending_parameter_changes@.len() == 0
                &&& unit.pending_input_events@.len() == 0
            },
    {
        let supported = supported_audio_io_layouts(P::AUDIO_IO_LAYOUTS);
        match supported {
            None => None,
            Some(layouts) => {
                proof {
                    lemma_servable(P::AUDIO_IO_LAYOUTS@);
                    assert forall|i: int| 0 <= i < layouts@.len() implies is_supported(
                        #[trigger] layouts@[i],
                    ) by {}
                }
                let layout = layouts[0];
                assert(layouts@.contains(layout));
                let infos = supported_channel_infos(&layouts);
                let input_buses = count_input_buses(&layouts);
                Some(
                    Wrapper {
                        plugin: PhantomData,
                        big_endian,
                        params: ParamTable::new(params),
                        supported_audio_io_layouts: layouts,
                        supported_channel_infos: infos,
                        state: UnitState {
                            current_audio_io_layout: layout,
                            component_instance: 0,
                            cocoa_view: 0,
                            open_editor_count: 0,
                            has_editor,
                            sample_rate: DEFAULT_SAMPLE_RATE,
                            maximum_frames_per_slice: DEFAULT_MAX_FRAMES_PER_SLICE,
                            current_buffer_config: None,
                            current_latency: 0,
                            is_initialized: false,
                            bypass_enabled: false,
                            host_callbacks: None,
                            midi_output_callback: None,
                            in_place_processing: can_process_in_place(layout),
                        },
                        input_callbacks: no_callbacks(input_buses),
                        input_connections: no_connections(input_buses),
                        property_listeners: PropertyListeners::new(),
                        io_buffers: IOBuffers::new(0, layout),
                        render_state: RenderState::new(layout),
                        pending_parameter_changes: ParameterQueue::new(),
                        pending_input_events: EventQueue::new(),
                    },
                )
            },
        }
    }

    /// How many buses there are in a scope.
    pub fn bus_count(&self, scope: AudioUnitScope) -> (count: u32)
        requires
            self.wf(),
        ensures
            count == self.layout().buses(scope).len(),
    {
        proof {
            self.layout_in_use_is_served();
        }
        bus_count_for_layout(self.state.current_audio_io_layout, scope)
    }

    /// How many channels a bus has, where there is such a bus.
    pub fn bus_channels(&self, scope: AudioUnitScope, element: AudioUnitElement) -> (channels:
        Option<u32>)
        ensures
            channels == channels_of(self.layout(), scope, element),
    {
        bus_channels_for_layout(self.state.current_audio_io_layout, scope, element)
    }

    /// Notes by how many samples the plugin delays its input.
    pub fn set_latency_samples(&mut self, samples: u32)
        ensures
            *final(self) == (Wrapper {
                state: old(self).state.with_latency(samples),
                ..*old(self)
            }),
            old(self).wf() ==> final(self).wf(),
    {
        self.state.current_latency = samples;
    }

    /// Whether the plugin is switched off, where its bypass parameter has the value with these
    /// bits.
    pub open spec fn bypassed(self, bypass_value: u32) -> bool {
        if self.params.bypass_param is Some {
            at_least_half(bypass_value)
        } else {
            self.state.bypass_enabled
        }
    }

    /// Whether the plugin is switched off. `bypass_value` is the bits of the bypass parameter's
    /// value, where there is such a parameter.
    pub fn is_bypassed(&self, bypass_value: u32) -> (bypassed: bool)
        ensures
            bypassed == self.bypassed(bypass_value),
    {
        if self.params.bypass_param.is_some() {
            is_at_least_half(bypass_value)
        } else {
            self.state.bypass_enabled
        }
    }

    /// A bypass parameter switches the plugin off from one half on, up to infinity, and not with
    /// anything less, with anything negative or with what is no number. Without such a parameter
    /// the host's switch decides.
    pub proof fn parameter_or_switch_decides(self, bypass_value: u32)
        ensures
            self.params.bypass_param is Some ==> (self.bypassed(bypass_value) <==> 0x3F00_0000
                <= bypass_value <= 0x7F80_0000),
            self.params.bypass_param is None ==> self.bypassed(bypass_value)
                == self.state.bypass_enabled,
    {
    }

    /// The listeners that are called when a property changes.
    pub fn notify_property_listeners(&self, property_id: u32) -> (called: Vec<PropertyListener>)
        ensures
            called@ == self.property_listeners@.filter(
                crate::listeners::listens_to(property_id),
            ),
    {
        self.property_listeners.listeners_of(property_id)
    }

    /// The format of the samples on a bus, where there is such a bus.
    pub open spec fn format_of(self, scope: AudioUnitScope, element: AudioUnitElement) -> Result<
        AudioStreamBasicDescription,
        OSStatus,
    > {
        match channels_of(self.layout(), scope, element) {
            Some(channels) => Ok(stream_format(self.state.sample_rate, channels, self.big_endian)),
            None => Err(K_AUDIO_UNIT_ERR_INVALID_ELEMENT),
        }
    }

    /// The format of the samples on a bus.
    pub fn current_stream_format(&self, scope: AudioUnitScope, element: AudioUnitElement) -> (format:
        Result<AudioStreamBasicDescription, OSStatus>)
        ensures
            format == self.format_of(scope, element),
    {
        match self.bus_channels(scope, element) {
            Some(channels) => Ok(
                make_stream_format(self.state.sample_rate, channels, self.big_endian),
            ),
            None => Err(K_AUDIO_UNIT_ERR_INVALID_ELEMENT),
        }
    }

    /// The buses of a scope after one of them got other channels.
    pub open spec fn changed_buses(
        self,
        scope: AudioUnitScope,
        changed: AudioUnitScope,
        element: AudioUnitElement,
        channels: u32,
    ) -> Seq<u32> {
        if scope == changed {
            self.layout().buses(scope).update(element as int, channels)
        } else {
            self.layout().buses(scope)
        }
    }

    /// The layout that a unit has after a host asked for a format on a bus, or why it cannot have
    /// it. The buses of the other scope may change as well.
    pub open spec fn layout_after(
        self,
        scope: AudioUnitScope,
        element: AudioUnitElement,
        format: AudioStreamBasicDescription,
    ) -> Result<AudioIOLayout, OSStatus> {
        if self.state.is_initialized {
            Err(K_AUDIO_UNIT_ERR_INITIALIZED)
        } else if !format_is_supported(format, self.big_endian) {
            Err(K_AUDIO_UNIT_ERR_FORMAT_NOT_SUPPORTED)
        } else if scope != K_AUDIO_UNIT_SCOPE_INPUT && scope != K_AUDIO_UNIT_SCOPE_OUTPUT {
            Err(K_AUDIO_UNIT_ERR_INVALID_SCOPE)
        } else if element >= self.layout().buses(scope).len() {
            Err(K_AUDIO_UNIT_ERR_INVALID_ELEMENT)
        } else {
            let channels = format.mChannelsPerFrame;
            match layout_for_stream_format(
                self.supported_audio_io_layouts@,
                scope,
                self.changed_buses(K_AUDIO_UNIT_SCOPE_INPUT, scope, element, channels),
                self.changed_buses(K_AUDIO_UNIT_SCOPE_OUTPUT, scope, element, channels),
            ) {
                Some(layout) => Ok(layout),
                None => Err(K_AUDIO_UNIT_ERR_FORMAT_NOT_SUPPORTED),
            }
        }
    }

    /// A layout that a unit has after a host asked for a format is one that can be served, and its
    /// bus has the channels that the host asked for.
    pub proof fn asked_channels_are_given(
        self,
        scope: AudioUnitScope,
        element: AudioUnitElement,
        format: AudioStreamBasicDescription,
    )
        ensures
            self.layout_after(scope, element, format) matches Ok(layout)
                ==> self.supported_audio_io_layouts@.contains(layout) && channels_of(
                layout,
                scope,
                element,
            ) == Some(format.mChannelsPerFrame),
    {
        let layouts = self.supported_audio_io_layouts@;
        let channels = format.mChannelsPerFrame;
        let input = self.changed_buses(K_AUDIO_UNIT_SCOPE_INPUT, scope, element, channels);
        let output = self.changed_buses(K_AUDIO_UNIT_SCOPE_OUTPUT, scope, element, channels);
        lemma_first_layout(layouts, has_buses(input, output));
        lemma_first_layout(layouts, has_buses_in(scope, input));
        lemma_first_layout(layouts, has_buses_in(scope, output));
    }

    /// A bus reports the sample rate of the unit and its own channels, as packed floats of four
    /// bytes with a buffer for each channel. There is a format exactly where there is a bus.
    pub proof fn bus_reports_its_channels(self, scope: AudioUnitScope, element: AudioUnitElement)
        ensures
            match channels_of(self.layout(), scope, element) {
                Some(channels) => self.format_of(scope, element) matches Ok(format) && {
                    &&& format.mSampleRate == self.state.sample_rate
                    &&& format.mChannelsPerFrame == channels
                    &&& format.mBytesPerFrame == 4
                    &&& format.mBytesPerPacket == 4
                    &&& format.mFramesPerPacket == 1
                    &&& format.mBitsPerChannel == 32
                    &&& format.mReserved == 0
                },
                None => self.format_of(scope, element) is Err,
            },
    {
    }

    /// A host gets another format only while the unit is not initialized, only on a bus that is
    /// there, and only with what samples are: packed floats with a buffer for each channel.
    pub proof fn refused_formats_say_why(
        self,
        scope: AudioUnitScope,
        element: AudioUnitElement,
        format: AudioStreamBasicDescription,
    )
        ensures
            self.state.is_initialized ==> self.layout_after(scope, element, format) == Err::<
                AudioIOLayout,
                OSStatus,
            >(K_AUDIO_UNIT_ERR_INITIALIZED),
            !self.state.is_initialized && (format.mBytesPerFrame != 4 || format.mBytesPerPacket != 4
                || format.mFramesPerPacket != 1 || format.mBitsPerChannel != 32
                || format.mChannelsPerFrame == 0) ==> self.layout_after(scope, element, format)
                == Err::<AudioIOLayout, OSStatus>(K_AUDIO_UNIT_ERR_FORMAT_NOT_SUPPORTED),
            self.layout_after(scope, element, format) is Ok ==> {
                &&& !self.state.is_initialized
                &&& scope == 1 || scope == 2
                &&& channels_of(self.layout(), scope, element) is Some
            },
            self.layout_after(scope, element, format) matches Err(status) ==> status != 0,
            !self.state.is_initialized && format_is_supported(format, self.big_endian) ==> {
                &&& scope != 1 && scope != 2 ==> self.layout_after(scope, element, format) == Err::<
                    AudioIOLayout,
                    OSStatus,
                >(K_AUDIO_UNIT_ERR_INVALID_SCOPE)
                &&& (scope == 1 || scope == 2) && channels_of(
                    self.layout(),
                    scope,
                    element,
                ) is None ==> self.layout_after(scope, element, format) == Err::<
                    AudioIOLayout,
                    OSStatus,
                >(K_AUDIO_UNIT_ERR_INVALID_ELEMENT)
            },
    {
    }

    /// Asking for more or fewer channels on a bus leaves the other buses of its side as they are,
    /// and where a layout has the other side as it is too, that one is taken.
    pub proof fn other_buses_keep_their_channels(
        self,
        scope: AudioUnitScope,
        element: AudioUnitElement,
        format: AudioStreamBasicDescription,
        other: AudioUnitElement,
        i: int,
    )
        requires
            self.layout_after(scope, element, format) is Ok,
            other != element,
            0 <= i < self.supported_audio_io_layouts@.len(),
        ensures
            ({
                let layout = self.layout_after(scope, element, format)->Ok_0;
                let offered = self.supported_audio_io_layouts@[i];
                let wanted = self.layout().buses(scope).update(
                    element as int,
                    format.mChannelsPerFrame,
                );
                &&& channels_of(layout, scope, other) == channels_of(self.layout(), scope, other)
                &&& scope == 1 && offered.buses(1) == wanted && offered.buses(2)
                    == self.layout().buses(2) ==> layout.buses(2) == self.layout().buses(2)
                &&& scope == 2 && offered.buses(2) == wanted && offered.buses(1)
                    == self.layout().buses(1) ==> layout.buses(1) == self.layout().buses(1)
            }),
    {
        let channels = format.mChannelsPerFrame;
        crate::layout::changed_side_decides_the_layout(
            self.supported_audio_io_layouts@,
            scope,
            self.changed_buses(K_AUDIO_UNIT_SCOPE_INPUT, scope, element, channels),
            self.changed_buses(K_AUDIO_UNIT_SCOPE_OUTPUT, scope, element, channels),
            i,
        );
    }

    /// Gives a bus another format. The unit may not be initialized.
    pub fn set_stream_format(
        &mut self,
        scope: AudioUnitScope,
        element: AudioUnitElement,
        format: &AudioStreamBasicDescription,
    ) -> (status: OSStatus)
        requires
            old(self).wf(),
        ensures
            final(self).wf(),
            match old(self).layout_after(scope, element, *format) {
                Ok(layout) => {
                    &&& status == NO_ERR
                    &&& *final(self) == (Wrapper {
                        state: UnitState {
                            current_audio_io_layout: layout,
                            in_place_processing: false,
                            sample_rate: format.mSampleRate,
                            ..old(self).state
                        },
                        ..*old(self)
                    })
                },
                Err(error) => status == error && *final(self) == *old(self),
            },
    {
        if self.state.is_initialized {
            return K_AUDIO_UNIT_ERR_INITIALIZED;
        }
        if !stream_format_is_supported(format, self.big_endian) {
            return K_AUDIO_UNIT_ERR_FORMAT_NOT_SUPPORTED;
        }
        let layout = self.state.current_audio_io_layout;
        let mut input_channels = bus_channel_counts_for_layout(layout, K_AUDIO_UNIT_SCOPE_INPUT);
        let mut output_channels = bus_channel_counts_for_layout(layout, K_AUDIO_UNIT_SCOPE_OUTPUT);
        let target_channels = format.mChannelsPerFrame;
        if scope == K_AUDIO_UNIT_SCOPE_INPUT {
            if element as usize >= input_channels.len() {
                return K_AUDIO_UNIT_ERR_INVALID_ELEMENT;
            }
            input_channels[element as usize] = target_channels;
        } else if scope == K_AUDIO_UNIT_SCOPE_OUTPUT {
            if element as usize >= output_channels.len() {
                return K_AUDIO_UNIT_ERR_INVALID_ELEMENT;
            }
            output_channels[element as usize] = target_channels;
        } else {
            return K_AUDIO_UNIT_ERR_INVALID_SCOPE;
        }
        proof {
            self.asked_channels_are_given(scope, element, *format);
        }
        let new_layout = match_audio_io_layout_for_stream_format(
            &self.supported_audio_io_layouts,
            scope,
            &input_channels,
            &output_channels,
        );
        match new_layout {
            Some(layout) => {
                self.state.current_audio_io_layout = layout;
                self.state.in_place_processing = can_process_in_place(layout);
                self.state.sample_rate = format.mSampleRate;
                NO_ERR
            },
            None => K_AUDIO_UNIT_ERR_FORMAT_NOT_SUPPORTED,
        }
    }

    /// A bus reports the format that the host asked for. Only the reserved field is zero, whatever
    /// the host put there.
    pub proof fn asked_format_is_reported(
        self,
        after: Self,
        scope: AudioUnitScope,
        element: AudioUnitElement,
        format: AudioStreamBasicDescription,
    )
        requires
            self.wf(),
            self.layout_after(scope, element, format) is Ok,
            after.layout() == self.layout_after(scope, element, format)->Ok_0,
            after.state.sample_rate == format.mSampleRate,
            after.big_endian == self.big_endian,
        ensures
            after.format_of(scope, element) == Ok::<AudioStreamBasicDescription, OSStatus>(
                AudioStreamBasicDescription { mReserved: 0, ..format },
            ),
    {
        self.asked_channels_are_given(scope, element, format);
    }

    /// Asking for the format that a bus has changes no channel of it.
    pub proof fn reported_format_is_accepted(
        self,
        scope: AudioUnitScope,
        element: AudioUnitElement,
    )
        requires
            self.wf(),
            !self.state.is_initialized,
            self.format_of(scope, element) is Ok,
        ensures
            self.layout_after(scope, element, self.format_of(scope, element)->Ok_0) matches Ok(layout)
                && layout.buses(K_AUDIO_UNIT_SCOPE_INPUT) == self.layout().buses(
                K_AUDIO_UNIT_SCOPE_INPUT,
            ) && layout.buses(K_AUDIO_UNIT_SCOPE_OUTPUT) == self.layout().buses(
                K_AUDIO_UNIT_SCOPE_OUTPUT,
            ),
    {
        self.layout_in_use_is_served();
        let channels = self.layout().buses(scope)[element as int];
        let layouts = self.supported_audio_io_layouts@;
        let input = self.changed_buses(K_AUDIO_UNIT_SCOPE_INPUT, scope, element, channels);
        let output = self.changed_buses(K_AUDIO_UNIT_SCOPE_OUTPUT, scope, element, channels);
        assert(input =~= self.layout().buses(K_AUDIO_UNIT_SCOPE_INPUT));
        assert(output =~= self.layout().buses(K_AUDIO_UNIT_SCOPE_OUTPUT));
        lemma_first_layout(layouts, has_buses(input, output));
        lemma_some_layout(layouts, has_buses(input, output), self.layout());
    }

    /// Whether `start` is how the plugin is to be initialized.
    pub open spec fn starts_with(self, start: InitializeStart) -> bool {
        &&& start.params@ == self.params.reached_ptrs(self.params.entries@.len())
        &&& start.layout == self.layout()
        &&& start.config == self.state.config()
    }

    /// Starting to initialize turns the unit `before` into this one, and gives how the plugin is to
    /// be initialized or why it is not.
    pub open spec fn starts(self, before: Self, start: Result<InitializeStart, OSStatus>) -> bool {
        &&& match start {
            Err(status) => {
                &&& before.state.is_initialized
                &&& status == K_AUDIO_UNIT_ERR_INITIALIZED
            },
            Ok(start) => !before.state.is_initialized && before.starts_with(start),
        }
        &&& self == (Wrapper { state: before.state.starting(), ..before })
    }

    /// The plugin's answer turns the unit `before` into this one.
    pub open spec fn has_started(self, before: Self, initialized: bool) -> bool {
        if initialized {
            &&& self == (Wrapper {
                state: before.state.running(),
                io_buffers: self.io_buffers,
                render_state: self.render_state,
                ..before
            })
            &&& self.io_buffers.fits(before.layout(), before.state.maximum_frames_per_slice as int)
            &&& self.io_buffers.is_silent(before.state.maximum_frames_per_slice as int)
            &&& self.render_state.is_new(before.layout())
        } else {
            self == (Wrapper { state: before.state.stopped(), ..before })
        }
    }

    /// Uninitializing turns the unit `before` into this one and says whether the plugin is to be
    /// deactivated.
    pub open spec fn stops(self, before: Self, deactivate: bool) -> bool {
        &&& deactivate == before.state.is_initialized
        &&& if deactivate {
            &&& self == (Wrapper {
                state: before.state.stopped(),
                render_state: self.render_state,
                ..before
            })
            &&& self.render_state.is_new(before.layout())
        } else {
            self == before
        }
    }

    /// A unit is initialized once: one that is initialized refuses and stays as it is. The plugin of
    /// another is asked, and the unit counts as initialized from then on unless the plugin refuses.
    /// A plugin that does not refuse runs with exactly the configuration that it was asked with, and
    /// a unit whose plugin refuses is as it was before.
    pub proof fn unit_is_initialized_once(
        self,
        before: Self,
        start: Result<InitializeStart, OSStatus>,
        after: Self,
        initialized: bool,
    )
        requires
            before.wf(),
            self.starts(before, start),
            after.has_started(self, initialized),
        ensures
            before.state.is_initialized ==> self == before && start == Err::<
                InitializeStart,
                OSStatus,
            >(K_AUDIO_UNIT_ERR_INITIALIZED),
            !before.state.is_initialized ==> start is Ok && self.state.is_initialized,
            start is Ok ==> self.is_initializing() && !after.is_initializing(),
            start is Ok && initialized ==> {
                &&& after.state.is_initialized
                &&& after.state.current_buffer_config == Some(start->Ok_0.config)
                &&& after.layout() == start->Ok_0.layout
                &&& after.render_state.last_cycle_key is None
            },
            start is Ok && !initialized ==> !after.state.is_initialized && after == before,
            after.params == before.params,
            after.pending_parameter_changes == before.pending_parameter_changes,
            after.pending_input_events == before.pending_input_events,
    {
    }

    /// A plugin is deactivated exactly where it was initialized, and not twice. The unit then waits
    /// to be initialized anew, with the settings that the host made.
    pub proof fn plugin_is_deactivated_once(
        self,
        before: Self,
        deactivate: bool,
        after: Self,
        again: bool,
    )
        requires
            before.wf(),
            self.stops(before, deactivate),
            after.stops(self, again),
        ensures
            deactivate <==> before.state.is_initialized,
            !again,
            after == self,
            !self.state.is_initialized,
            self.state.current_buffer_config is None,
            self.layout() == before.layout(),
            self.state.sample_rate == before.state.sample_rate,
            self.state.maximum_frames_per_slice == before.state.maximum_frames_per_slice,
            deactivate ==> self.render_state.last_cycle_key is None,
            !deactivate ==> self == before,
    {
    }

    /// How initializing the plugin ends, with what it answered.
    pub open spec fn initialize_end(initialized: bool) -> InitializeEnd {
        InitializeEnd {
            status: if initialized {
                NO_ERR
            } else {
                K_AUDIO_UNIT_ERR_FAILED_INITIALIZATION
            },
            reset: initialized,
        }
    }

    /// The plugin is initialized with the layout, the sample rate and the largest block that the
    /// host reads from the unit, and its parameters get that sample rate: all of them that a host
    /// can reach.
    pub proof fn plugin_starts_with_what_the_host_reads(
        self,
        start: InitializeStart,
        scope: AudioUnitScope,
        element: AudioUnitElement,
        i: int,
    )
        requires
            self.wf(),
            self.starts_with(start),
            0 <= i < self.params.entries@.len(),
            forall|j: int|
                i < j < self.params.entries@.len() ==> (#[trigger] self.params.entries@[j]).hash
                    != self.params.entries@[i].hash,
        ensures
            channels_of(start.layout, scope, element) == channels_of(self.layout(), scope, element),
            self.format_of(scope, element) matches Ok(format) ==> format.mSampleRate
                == start.config.sample_rate,
            start.config.max_buffer_size == self.state.maximum_frames_per_slice,
            start.config.min_buffer_size is None,
            start.config.process_mode == ProcessMode::Realtime,
            start.params@.contains(self.params.entries@[i].ptr),
    {
        self.params.unhidden_parameter_is_reached(self.params.entries@.len(), i);
    }

    /// A plugin that answers that it is initialized is reset and the call succeeds; any other is
    /// not reset and the call fails.
    pub proof fn initialized_plugin_is_reset(initialized: bool)
        ensures
            Self::initialize_end(true).reset,
            Self::initialize_end(true).status == 0,
            !Self::initialize_end(false).reset,
            Self::initialize_end(false).status == K_AUDIO_UNIT_ERR_FAILED_INITIALIZATION,
            Self::initialize_end(initialized).reset <==> Self::initialize_end(initialized).status
                == 0,
    {
    }

    /// The channels that a host reads for the main buses are those of the offered layouts, each
    /// pair once, and by input channels and then output channels.
    pub proof fn offered_channels_are_listed(self, i: int, j: int)
        requires
            self.wf(),
            0 <= i < j < self.supported_channel_infos@.len(),
        ensures
            ({
                let a = self.supported_channel_infos@[i];
                let b = self.supported_channel_infos@[j];
                &&& a.inChannels <= b.inChannels
                &&& a.inChannels == b.inChannels ==> a.outChannels < b.outChannels
                &&& exists|k: int|
                    0 <= k < self.supported_audio_io_layouts@.len() && {
                        let layout = #[trigger] self.supported_audio_io_layouts@[k];
                        &&& layout.main_input_channels is Some ==> a.inChannels
                            == layout.main_input_channels->Some_0
                        &&& layout.main_input_channels is None ==> a.inChannels == 0
                        &&& layout.main_output_channels is Some ==> a.outChannels
                            == layout.main_output_channels->Some_0
                        &&& layout.main_output_channels is None ==> a.outChannels == 0
                    }
            }),
    {
        let infos = self.supported_channel_infos@;
        let layouts = self.supported_audio_io_layouts@;
        assert(infos.contains(infos[i]));
        let k = choose|k: int|
            0 <= k < layouts.len() && channel_info(#[trigger] layouts[k]) == infos[i];
        crate::layout::channel_info_tells_the_main_channels(layouts[k]);
    }

    /// Starts initializing the plugin. The result is how it is to be initialized; what it answers
    /// goes to `finish_initialize`. A plugin that is initialized already is not asked.
    pub fn initialize_inner(&mut self) -> (start: Result<InitializeStart, OSStatus>)
        requires
            old(self).wf(),
        ensures
            final(self).wf(),
            final(self).starts(*old(self), start),
    {
        if self.state.is_initialized {
            return Err(K_AUDIO_UNIT_ERR_INITIALIZED);
        }
        self.state.is_initialized = true;
        Ok(
            InitializeStart {
                params: self.params.reachable_params(),
                layout: self.state.current_audio_io_layout,
                config: BufferConfig {
                    sample_rate: self.state.sample_rate,
                    min_buffer_size: None,
                    max_buffer_size: self.state.maximum_frames_per_slice,
                    process_mode: ProcessMode::Realtime,
                },
            },
        )
    }

    /// Ends initializing the plugin, with what it answered. Where it did, it is reset, there is
    /// silent memory for the samples of each block, and no cycle was rendered yet. Where it did
    /// not, it is not reset, and the unit is as before.
    pub fn finish_initialize(&mut self, initialized: bool) -> (end: InitializeEnd)
        requires
            old(self).wf(),
            old(self).is_initializing(),
        ensures
            final(self).wf(),
            !final(self).is_initializing(),
            end == Self::initialize_end(initialized),
            final(self).has_started(*old(self), initialized),
    {
        if !initialized {
            self.state.is_initialized = false;
            return InitializeEnd {
                status: K_AUDIO_UNIT_ERR_FAILED_INITIALIZATION,
                reset: false,
            };
        }
        let frames = self.state.maximum_frames_per_slice;
        let layout = self.state.current_audio_io_layout;
        proof {
            self.layout_in_use_is_served();
        }
        self.io_buffers = IOBuffers::new(frames as usize, layout);
        self.render_state = RenderState::new(layout);
        self.state.current_buffer_config = Some(
            BufferConfig {
                sample_rate: self.state.sample_rate,
                min_buffer_size: None,
                max_buffer_size: frames,
                process_mode: ProcessMode::Realtime,
            },
        );
        InitializeEnd { status: NO_ERR, reset: true }
    }

    /// Uninitializes the unit, which always succeeds. The result says whether the plugin is to be
    /// deactivated, which it is where the unit was initialized.
    pub fn uninitialize_inner(&mut self) -> (deactivate: bool)
        requires
            old(self).wf(),
        ensures
            final(self).wf(),
            final(self).stops(*old(self), deactivate),
    {
        if !self.state.is_initialized {
            return false;
        }
        proof {
            self.layout_in_use_is_served();
        }
        self.state.is_initialized = false;
        self.state.current_buffer_config = None;
        self.render_state = RenderState::new(self.state.current_audio_io_layout);
        true
    }

    /// Whether the plugin is reset: a host resets the whole unit or one of its buses.
    pub fn reset_inner(&self, scope: AudioUnitScope, element: AudioUnitElement) -> (status: OSStatus)
        requires
            self.wf(),
        ensures
            status == reset_status(self.layout(), scope, element),
    {
        if scope == K_AUDIO_UNIT_SCOPE_GLOBAL && element == 0 {
            return NO_ERR;
        }
        if scope == K_AUDIO_UNIT_SCOPE_INPUT || scope == K_AUDIO_UNIT_SCOPE_OUTPUT {
            if element < self.bus_count(scope) {
                return NO_ERR;
            }
            return K_AUDIO_UNIT_ERR_INVALID_ELEMENT;
        }
        K_AUDIO_UNIT_ERR_INVALID_SCOPE
    }
}

proof fn lemma_some_layout(
    layouts: Seq<AudioIOLayout>,
    wanted: spec_fn(AudioIOLayout) -> bool,
    layout: AudioIOLayout,
)
    requires
        layouts.contains(layout),
        wanted(layout),
    ensures
        crate::layout::first_layout(layouts, wanted) is Some,
    decreases layouts.len(),
{
    if !wanted(layouts[0]) {
        let i = choose|i: int| 0 <= i < layouts.len() && layouts[i] == layout;
        assert(layouts.drop_first()[i - 1] == layout);
        lemma_some_layout(layouts.drop_first(), wanted, layout);
    }
}

} // verus!
