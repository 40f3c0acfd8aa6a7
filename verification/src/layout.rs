//! Audio layouts: which buses a plugin has and how many channels each of them has.
use vstd::prelude::*;

use crate::host::{
    AUChannelInfo, AudioUnitElement, AudioUnitScope, K_AUDIO_UNIT_SCOPE_INPUT,
    K_AUDIO_UNIT_SCOPE_OUTPUT, MAX_AUDIO_CHANNELS,
};

verus! {

/// The channels of the main and the auxiliary buses. A bus that is there has at least one
/// channel.
#[derive(Clone, Copy, Debug)]
pub struct AudioIOLayout {
    pub main_input_channels: Option<u32>,
    pub main_output_channels: Option<u32>,
    pub aux_input_ports: &'static [u32],
    pub aux_output_ports: &'static [u32],
}

/// The channels of all buses on one side: the main bus first, where there is one.
pub open spec fn bus_list(main: Option<u32>, aux: Seq<u32>) -> Seq<u32> {
    match main {
        Some(channels) => seq![channels] + aux,
        None => aux,
    }
}

/// Whether each bus has a channel.
pub open spec fn all_have_channels(buses: Seq<u32>) -> bool {
    forall|i: int| 0 <= i < buses.len() ==> (#[trigger] buses[i]) > 0
}

impl AudioIOLayout {
    /// There are few enough buses to number them.
    pub open spec fn is_numbered(self) -> bool {
        &&& self.aux_input_ports@.len() < u32::MAX
        &&& self.aux_output_ports@.len() < u32::MAX
    }

    /// There are few enough buses to number them, and each of them has a channel.
    pub open spec fn wf(self) -> bool {
        &&& self.is_numbered()
        &&& all_have_channels(self.buses(K_AUDIO_UNIT_SCOPE_INPUT))
        &&& all_have_channels(self.buses(K_AUDIO_UNIT_SCOPE_OUTPUT))
    }

    /// The channels of the buses in a scope. Only the input and the output scope have buses.
    pub open spec fn buses(self, scope: AudioUnitScope) -> Seq<u32> {
        if scope == K_AUDIO_UNIT_SCOPE_INPUT {
            bus_list(self.main_input_channels, self.aux_input_ports@)
        } else if scope == K_AUDIO_UNIT_SCOPE_OUTPUT {
            bus_list(self.main_output_channels, self.aux_output_ports@)
        } else {
            seq![]
        }
    }

    /// The layout of a plugin that declares none: no bus at all.
    pub fn without_buses() -> (layout: Self)
        ensures
            layout.main_input_channels is None,
            layout.main_output_channels is None,
            layout.aux_input_ports@.len() == 0,
            layout.aux_output_ports@.len() == 0,
    {
        Self {
            main_input_channels: None,
            main_output_channels: None,
            aux_input_ports: &[],
            aux_output_ports: &[],
        }
    }
}

fn is_main_present(main: Option<u32>) -> (count: u32)
    ensures
        count == if main is Some {
            1int
        } else {
            0
        },
{
    if main.is_some() {
        1
    } else {
        0
    }
}

/// How many buses a layout has in a scope.
pub fn bus_count_for_layout(layout: AudioIOLayout, scope: AudioUnitScope) -> (count: u32)
    requires
        layout.is_numbered(),
    ensures
        count == layout.buses(scope).len(),
{
    if scope == K_AUDIO_UNIT_SCOPE_INPUT {
        is_main_present(layout.main_input_channels) + layout.aux_input_ports.len() as u32
    } else if scope == K_AUDIO_UNIT_SCOPE_OUTPUT {
        is_main_present(layout.main_output_channels) + layout.aux_output_ports.len() as u32
    } else {
        0
    }
}

/// How many channels a bus has, where the layout has that bus.
pub open spec fn channels_of(layout: AudioIOLayout, scope: AudioUnitScope, element: u32) -> Option<
    u32,
> {
    if element < layout.buses(scope).len() {
        Some(layout.buses(scope)[element as int])
    } else {
        None
    }
}

fn bus_channels_in(main: Option<u32>, aux: &[u32], element: usize) -> (channels: Option<u32>)
    ensures
        channels == if element < bus_list(main, aux@).len() {
            Some(bus_list(main, aux@)[element as int])
        } else {
            None
        },
{
    match main {
        Some(main_channels) => {
            if element == 0 {
                Some(main_channels)
            } else if element - 1 < aux.len() {
                Some(aux[element - 1])
            } else {
                None
            }
        },
        None => {
            if element < aux.len() {
                Some(aux[element])
            } else {
                None
            }
        },
    }
}

/// How many channels a bus has, where the layout has that bus.
pub fn bus_channels_for_layout(
    layout: AudioIOLayout,
    scope: AudioUnitScope,
    element: AudioUnitElement,
) -> (channels: Option<u32>)
    ensures
        channels == channels_of(layout, scope, element),
{
    if scope == K_AUDIO_UNIT_SCOPE_INPUT {
        bus_channels_in(layout.main_input_channels, layout.aux_input_ports, element as usize)
    } else if scope == K_AUDIO_UNIT_SCOPE_OUTPUT {
        bus_channels_in(layout.main_output_channels, layout.aux_output_ports, element as usize)
    } else {
        None
    }
}

fn list_buses(main: Option<u32>, aux: &[u32]) -> (counts: Vec<u32>)
    ensures
        counts@ == bus_list(main, aux@),
{
    let mut counts: Vec<u32> = Vec::new();
    if let Some(channels) = main {
        counts.push(channels);
    }
    let ghost first = counts@;
    let mut i: usize = 0;
    assert(counts@ =~= first + aux@.take(0));
    while i < aux.len()
        invariant
            i <= aux@.len(),
            counts@ == first + aux@.take(i as int),
        decreases aux@.len() - i,
    {
        counts.push(aux[i]);
        i += 1;
        assert(first + aux@.take(i as int) =~= (first + aux@.take(i - 1)).push(aux@[i - 1]));
    }
    assert(counts@ =~= bus_list(main, aux@));
    counts
}

/// The channels of all buses in a scope.
pub fn bus_channel_counts_for_layout(layout: AudioIOLayout, scope: AudioUnitScope) -> (counts: Vec<
    u32,
>)
    ensures
        counts@ == layout.buses(scope),
{
    if scope == K_AUDIO_UNIT_SCOPE_INPUT {
        list_buses(layout.main_input_channels, layout.aux_input_ports)
    } else if scope == K_AUDIO_UNIT_SCOPE_OUTPUT {
        list_buses(layout.main_output_channels, layout.aux_output_ports)
    } else {
        let counts: Vec<u32> = Vec::new();
        assert(counts@ =~= seq![]);
        counts
    }
}

/// Whether a host may give the input and the output of a unit the same memory. Output is rendered
/// into memory of its own and then copied, so it may not.
pub fn can_process_in_place(layout: AudioIOLayout) -> (can: bool)
    ensures
        !can,
{
    false
}

/// Whether all channel counts are ones for which there is room.
pub open spec fn ports_fit(ports: Seq<u32>) -> bool {
    forall|i: int| 0 <= i < ports.len() ==> (#[trigger] ports[i]) <= MAX_AUDIO_CHANNELS
}

pub open spec fn channels_or(main: Option<u32>, other: u32) -> u32 {
    match main {
        Some(channels) => channels,
        None => other,
    }
}

/// Whether the wrapper can serve a layout: its buses can be numbered and have channels, the main
/// output has at least as many channels as the main input, where there is a main output, and no bus
/// has more channels than there is room for.
pub open spec fn is_supported(layout: AudioIOLayout) -> bool {
    &&& layout.wf()
    &&& channels_or(layout.main_input_channels, 0) <= channels_or(
        layout.main_output_channels,
        u32::MAX,
    )
    &&& channels_or(layout.main_input_channels, 0) <= MAX_AUDIO_CHANNELS
    &&& channels_or(layout.main_output_channels, 0) <= MAX_AUDIO_CHANNELS
    &&& ports_fit(layout.aux_input_ports@)
    &&& ports_fit(layout.aux_output_ports@)
}

fn all_ports_fit(ports: &[u32]) -> (fit: bool)
    ensures
        fit == ports_fit(ports@),
{
    let mut i: usize = 0;
    while i < ports.len()
        invariant
            i <= ports@.len(),
            forall|j: int| 0 <= j < i ==> (#[trigger] ports@[j]) <= MAX_AUDIO_CHANNELS,
        decreases ports@.len() - i,
    {
        if ports[i] as usize > MAX_AUDIO_CHANNELS {
            return false;
        }
        i += 1;
    }
    true
}

fn side_is_well_formed(main: Option<u32>, aux: &[u32]) -> (well_formed: bool)
    ensures
        well_formed == (aux@.len() < u32::MAX && all_have_channels(bus_list(main, aux@))),
{
    if aux.len() >= u32::MAX as usize {
        return false;
    }
    if let Some(channels) = main {
        if channels == 0 {
            assert(bus_list(main, aux@)[0] == 0);
            return false;
        }
    }
    let ghost first: int = if main is Some {
        1
    } else {
        0
    };
    let mut i: usize = 0;
    while i < aux.len()
        invariant
            i <= aux@.len(),
            first == if main is Some {
                1int
            } else {
                0
            },
            forall|j: int| 0 <= j < i ==> (#[trigger] aux@[j]) > 0,
        decreases aux@.len() - i,
    {
        if aux[i] == 0 {
            assert(bus_list(main, aux@)[first + i] == 0);
            return false;
        }
        i += 1;
    }
    true
}

fn layout_is_supported(layout: &AudioIOLayout) -> (supported: bool)
    ensures
        supported == is_supported(*layout),
{
    let input: u32 = layout.main_input_channels.unwrap_or(0);
    let output: u32 = layout.main_output_channels.unwrap_or(0);
    side_is_well_formed(layout.main_input_channels, layout.aux_input_ports) && side_is_well_formed(
        layout.main_output_channels,
        layout.aux_output_ports,
    ) && input <= layout.main_output_channels.unwrap_or(u32::MAX) && input as usize
        <= MAX_AUDIO_CHANNELS && output as usize <= MAX_AUDIO_CHANNELS && all_ports_fit(
        layout.aux_input_ports,
    ) && all_ports_fit(layout.aux_output_ports)
}

/// Whether two layouts agree on having a main input and on having a main output.
pub open spec fn same_main_buses(a: AudioIOLayout, b: AudioIOLayout) -> bool {
    &&& a.main_input_channels is Some == b.main_input_channels is Some
    &&& a.main_output_channels is Some == b.main_output_channels is Some
}

/// The declared layouts that the wrapper can serve, in their order.
pub open spec fn servable(declared: Seq<AudioIOLayout>) -> Seq<AudioIOLayout> {
    declared.filter(|layout: AudioIOLayout| is_supported(layout))
}

/// Whether all layouts agree on having a main input and on having a main output.
pub open spec fn agree_on_main_buses(layouts: Seq<AudioIOLayout>) -> bool {
    forall|i: int| 0 <= i < layouts.len() ==> same_main_buses(#[trigger] layouts[i], layouts[0])
}

/// The layouts that a plugin with the `declared` layouts is offered with: those that the wrapper
/// can serve. A plugin that declares none gets one without buses. There is no offer where no
/// layout is left, or where some of them have a main input or output and others do not.
pub fn supported_audio_io_layouts(declared: &[AudioIOLayout]) -> (supported: Option<
    Vec<AudioIOLayout>,
>)
    ensures
        declared@.len() == 0 ==> supported is Some && supported->Some_0@.len() == 1
            && supported->Some_0@[0].main_input_channels is None
            && supported->Some_0@[0].main_output_channels is None
            && supported->Some_0@[0].aux_input_ports@.len() == 0
            && supported->Some_0@[0].aux_output_ports@.len() == 0,
        declared@.len() > 0 ==> match supported {
            Some(layouts) => {
                &&& layouts@ == servable(declared@)
                &&& layouts@.len() > 0
                &&& agree_on_main_buses(layouts@)
            },
            None => servable(declared@).len() == 0 || !agree_on_main_buses(servable(declared@)),
        },
{
    let mut layouts: Vec<AudioIOLayout> = Vec::new();
    if declared.len() == 0 {
        layouts.push(AudioIOLayout::without_buses());
        return Some(layouts);
    }
    let mut i: usize = 0;
    assert(servable(declared@.take(0)) =~= seq![]) by {
        reveal(Seq::filter);
    }
    while i < declared.len()
        invariant
            i <= declared@.len(),
            layouts@ == servable(declared@.take(i as int)),
        decreases declared@.len() - i,
    {
        let layout = declared[i];
        if layout_is_supported(&layout) {
            layouts.push(layout);
        }
        i += 1;
        proof {
            reveal(Seq::filter);
            assert(declared@.take(i as int).drop_last() =~= declared@.take(i - 1));
        }
    }
    assert(declared@.take(i as int) =~= declared@);
    if layouts.len() == 0 {
        return None;
    }
    let first = layouts[0];
    let mut j: usize = 0;
    while j < layouts.len()
        invariant
            j <= layouts@.len(),
            first == layouts@[0],
            forall|k: int| 0 <= k < j ==> same_main_buses(#[trigger] layouts@[k], first),
            layouts@.len() > 0,
            layouts@ == servable(declared@),
        decreases layouts@.len() - j,
    {
        let layout = layouts[j];
        if layout.main_input_channels.is_some() != first.main_input_channels.is_some()
            || layout.main_output_channels.is_some() != first.main_output_channels.is_some() {
            assert(!same_main_buses(layouts@[j as int], layouts@[0]));
            return None;
        }
        j += 1;
    }
    Some(layouts)
}

/// The channel counts of the main buses as a host reads them.
pub open spec fn channel_info(layout: AudioIOLayout) -> AUChannelInfo {
    AUChannelInfo {
        inChannels: channels_or(layout.main_input_channels, 0) as i16,
        outChannels: channels_or(layout.main_output_channels, 0) as i16,
    }
}

/// Whether `a` comes before `b`: by input channels, then by output channels.
pub open spec fn info_less(a: AUChannelInfo, b: AUChannelInfo) -> bool {
    a.inChannels < b.inChannels || (a.inChannels == b.inChannels && a.outChannels < b.outChannels)
}

/// The channel counts that the layouts have on their main buses, in order and each once.
pub fn supported_channel_infos(layouts: &Vec<AudioIOLayout>) -> (infos: Vec<AUChannelInfo>)
    ensures
        forall|i: int, j: int|
            0 <= i < j < infos@.len() ==> info_less(#[trigger] infos@[i], #[trigger] infos@[j]),
        forall|info: AUChannelInfo|
            infos@.contains(info) <==> exists|k: int|
                0 <= k < layouts@.len() && channel_info(#[trigger] layouts@[k]) == info,
{
    let mut infos: Vec<AUChannelInfo> = Vec::new();
    let mut n: usize = 0;
    while n < layouts.len()
        invariant
            n <= layouts@.len(),
            forall|i: int, j: int|
                0 <= i < j < infos@.len() ==> info_less(#[trigger] infos@[i], #[trigger] infos@[j]),
            forall|i: int|
                0 <= i < infos@.len() ==> exists|k: int|
                    0 <= k < n && channel_info(#[trigger] layouts@[k]) == #[trigger] infos@[i],
            forall|k: int| 0 <= k < n ==> infos@.contains(channel_info(#[trigger] layouts@[k])),
        decreases layouts@.len() - n,
    {
        let layout = layouts[n];
        let info = AUChannelInfo {
            inChannels: layout.main_input_channels.unwrap_or(0) as i16,
            outChannels: layout.main_output_channels.unwrap_or(0) as i16,
        };
        assert(info == channel_info(layouts@[n as int]));
        let ghost before = infos@;
        let mut p: usize = 0;
        while p < infos.len() && (infos[p].inChannels < info.inChannels || (infos[p].inChannels
            == info.inChannels && infos[p].outChannels < info.outChannels))
            invariant
                p <= infos@.len(),
                forall|i: int| 0 <= i < p ==> info_less(#[trigger] infos@[i], info),
            decreases infos@.len() - p,
        {
            p += 1;
        }
        if p < infos.len() && infos[p].inChannels == info.inChannels && infos[p].outChannels
            == info.outChannels {
            assert(infos@[p as int] == info);
        } else {
            infos.insert(p, info);
            proof {
                assert(infos@[p as int] == info);
                assert forall|k: int| 0 <= k < n implies infos@.contains(
                    channel_info(#[trigger] layouts@[k]),
                ) by {
                    let q = choose|q: int|
                        0 <= q < before.len() && before[q] == channel_info(layouts@[k]);
                    assert(infos@[if q < p {
                        q
                    } else {
                        q + 1
                    }] == before[q]);
                }
                assert forall|i: int| 0 <= i < infos@.len() implies exists|k: int|
                    0 <= k < n + 1 && channel_info(#[trigger] layouts@[k]) == #[trigger] infos@[i] by {
                    if i == p {
                        assert(channel_info(layouts@[n as int]) == infos@[i]);
                    } else {
                        let o = if i < p {
                            i
                        } else {
                            i - 1
                        };
                        assert(infos@[i] == before[o]);
                        let k = choose|k: int|
                            0 <= k < n && channel_info(#[trigger] layouts@[k]) == before[o];
                        assert(channel_info(layouts@[k]) == infos@[i]);
                    }
                }
                assert forall|i: int, j: int| 0 <= i < j < infos@.len() implies info_less(
                    #[trigger] infos@[i],
                    #[trigger] infos@[j],
                ) by {
                    if p < before.len() && j == p + 1 {
                        assert(info_less(info, before[p as int]));
                    }
                    if j > p {
                        if i == p {
                            if j > p + 1 {
                                assert(info_less(before[p as int], before[j - 1]));
                            }
                        } else if i < p {
                            assert(info_less(before[i], before[j - 1]));
                        } else {
                            assert(info_less(before[i - 1], before[j - 1]));
                        }
                    } else if j == p {
                        assert(info_less(before[i], info));
                    } else {
                        assert(info_less(before[i], before[j]));
                    }
                }
            }
        }
        n += 1;
    }
    proof {
        assert forall|info: AUChannelInfo|
            infos@.contains(info) implies exists|k: int|
                0 <= k < layouts@.len() && channel_info(#[trigger] layouts@[k]) == info by {
            let i = choose|i: int| 0 <= i < infos@.len() && infos@[i] == info;
            assert(infos@[i] == info);
        }
    }
    infos
}

/// The first of the layouts that `wanted` holds of.
pub open spec fn first_layout(
    layouts: Seq<AudioIOLayout>,
    wanted: spec_fn(AudioIOLayout) -> bool,
) -> Option<AudioIOLayout>
    decreases layouts.len(),
{
    if layouts.len() == 0 {
        None
    } else if wanted(layouts[0]) {
        Some(layouts[0])
    } else {
        first_layout(layouts.drop_first(), wanted)
    }
}

/// Whether a layout has exactly the given channels on its buses.
pub open spec fn has_buses(input: Seq<u32>, output: Seq<u32>) -> spec_fn(AudioIOLayout) -> bool {
    |layout: AudioIOLayout|
        layout.buses(K_AUDIO_UNIT_SCOPE_INPUT) == input && layout.buses(K_AUDIO_UNIT_SCOPE_OUTPUT)
            == output
}

/// Whether a layout has exactly the given channels on the buses of one side.
pub open spec fn has_buses_in(scope: AudioUnitScope, buses: Seq<u32>) -> spec_fn(
    AudioIOLayout,
) -> bool {
    |layout: AudioIOLayout| layout.buses(scope) == buses
}

fn same_counts(a: &Vec<u32>, b: &Vec<u32>) -> (same: bool)
    ensures
        same == (a@ == b@),
{
    if a.len() != b.len() {
        return false;
    }
    let mut i: usize = 0;
    while i < a.len()
        invariant
            i <= a@.len() == b@.len(),
            forall|j: int| 0 <= j < i ==> a@[j] == b@[j],
        decreases a@.len() - i,
    {
        if a[i] != b[i] {
            return false;
        }
        i += 1;
    }
    assert(a@ =~= b@);
    true
}

/// The first layout with exactly these channels on its buses.
pub fn match_audio_io_layout_by_busses(
    layouts: &Vec<AudioIOLayout>,
    input_channels: &Vec<u32>,
    output_channels: &Vec<u32>,
) -> (matched: Option<AudioIOLayout>)
    ensures
        matched == first_layout(layouts@, has_buses(input_channels@, output_channels@)),
{
    let ghost wanted = has_buses(input_channels@, output_channels@);
    let mut i: usize = 0;
    assert(layouts@.skip(0) =~= layouts@);
    while i < layouts.len()
        invariant
            i <= layouts@.len(),
            wanted == has_buses(input_channels@, output_channels@),
            first_layout(layouts@, wanted) == first_layout(layouts@.skip(i as int), wanted),
        decreases layouts@.len() - i,
    {
        let layout = layouts[i];
        let input = bus_channel_counts_for_layout(layout, K_AUDIO_UNIT_SCOPE_INPUT);
        let output = bus_channel_counts_for_layout(layout, K_AUDIO_UNIT_SCOPE_OUTPUT);
        if same_counts(&input, input_channels) && same_counts(&output, output_channels) {
            return Some(layout);
        }
        i += 1;
        assert(layouts@.skip(i - 1).drop_first() =~= layouts@.skip(i as int));
    }
    None
}

/// The layout that a unit moves to when a host asks for these channels by changing one side.
pub open spec fn layout_for_stream_format(
    layouts: Seq<AudioIOLayout>,
    scope: AudioUnitScope,
    input: Seq<u32>,
    output: Seq<u32>,
) -> Option<AudioIOLayout> {
    match first_layout(layouts, has_buses(input, output)) {
        Some(layout) => Some(layout),
        None => if scope == K_AUDIO_UNIT_SCOPE_INPUT {
            first_layout(layouts, has_buses_in(scope, input))
        } else if scope == K_AUDIO_UNIT_SCOPE_OUTPUT {
            first_layout(layouts, has_buses_in(scope, output))
        } else {
            None
        },
    }
}

/// The layout that a unit moves to when a host asks for these channels by changing the side
/// `scope`. A host changes input and output independently, so where no layout has both sides,
/// the side that was changed decides, and the other side follows.
pub fn match_audio_io_layout_for_stream_format(
    layouts: &Vec<AudioIOLayout>,
    scope: AudioUnitScope,
    input_channels: &Vec<u32>,
    output_channels: &Vec<u32>,
) -> (matched: Option<AudioIOLayout>)
    ensures
        matched == layout_for_stream_format(
            layouts@,
            scope,
            input_channels@,
            output_channels@,
        ),
{
    if let Some(layout) = match_audio_io_layout_by_busses(layouts, input_channels, output_channels) {
        return Some(layout);
    }
    if scope != K_AUDIO_UNIT_SCOPE_INPUT && scope != K_AUDIO_UNIT_SCOPE_OUTPUT {
        return None;
    }
    let wanted_channels = if scope == K_AUDIO_UNIT_SCOPE_INPUT {
        input_channels
    } else {
        output_channels
    };
    let ghost wanted = has_buses_in(scope, wanted_channels@);
    let mut i: usize = 0;
    assert(layouts@.skip(0) =~= layouts@);
    while i < layouts.len()
        invariant
            i <= layouts@.len(),
            wanted == has_buses_in(scope, wanted_channels@),
            first_layout(layouts@, wanted) == first_layout(layouts@.skip(i as int), wanted),
            layout_for_stream_format(layouts@, scope, input_channels@, output_channels@)
                == first_layout(layouts@, wanted),
        decreases layouts@.len() - i,
    {
        let layout = layouts[i];
        let counts = bus_channel_counts_for_layout(layout, scope);
        if same_counts(&counts, wanted_channels) {
            return Some(layout);
        }
        i += 1;
        assert(layouts@.skip(i - 1).drop_first() =~= layouts@.skip(i as int));
    }
    None
}

/// What a search finds is one of the layouts, and it is wanted.
pub(crate) proof fn lemma_first_layout(
    layouts: Seq<AudioIOLayout>,
    wanted: spec_fn(AudioIOLayout) -> bool,
)
    ensures
        first_layout(layouts, wanted) matches Some(layout) ==> layouts.contains(layout) && wanted(
            layout,
        ),
    decreases layouts.len(),
{
    if layouts.len() > 0 {
        lemma_first_layout(layouts.drop_first(), wanted);
        assert(layouts.contains(layouts[0]));
        if let Some(layout) = first_layout(layouts.drop_first(), wanted) {
            let i = choose|i: int|
                0 <= i < layouts.drop_first().len() && layouts.drop_first()[i] == layout;
            if !wanted(layouts[0]) {
                assert(layouts[i + 1] == layout);
            }
        }
    }
}

proof fn lemma_servable_contains(declared: Seq<AudioIOLayout>, layout: AudioIOLayout)
    ensures
        servable(declared).contains(layout) <==> declared.contains(layout) && is_supported(layout),
    decreases declared.len(),
{
    reveal(Seq::filter);
    if declared.len() > 0 {
        let fewer = declared.drop_last();
        let last = declared.last();
        lemma_servable_contains(fewer, layout);
        assert(declared =~= fewer.push(last));
        if fewer.contains(layout) {
            let i = choose|i: int| 0 <= i < fewer.len() && fewer[i] == layout;
            assert(declared[i] == layout);
        }
        if servable(fewer).contains(layout) {
            let i = choose|i: int| 0 <= i < servable(fewer).len() && servable(fewer)[i] == layout;
            assert(servable(declared)[i] == layout);
        }
        if declared.contains(layout) && !fewer.contains(layout) {
            let i = choose|i: int| 0 <= i < declared.len() && declared[i] == layout;
            if i < fewer.len() {
                assert(fewer[i] == layout);
            }
            assert(last == layout);
        }
        if is_supported(last) {
            assert(servable(declared).last() == last);
            assert(servable(declared)[servable(declared).len() - 1] == last);
            assert(declared[declared.len() - 1] == last);
            if servable(declared).contains(layout) {
                let i = choose|i: int|
                    0 <= i < servable(declared).len() && servable(declared)[i] == layout;
                if i < servable(fewer).len() {
                    assert(servable(fewer)[i] == layout);
                }
            }
        }
    }
}

/// Of an effect, a host is offered every declared layout with from one to 64 channels on each bus
/// whose main output has as many channels as its main input, or more. One whose main output has
/// fewer channels is not offered, nor is one with more than 64 channels on a bus.
pub proof fn effects_are_offered_by_their_channels(
    declared: Seq<AudioIOLayout>,
    layout: AudioIOLayout,
    input: u32,
    output: u32,
)
    requires
        declared.contains(layout),
        layout.main_input_channels == Some(input),
        layout.main_output_channels == Some(output),
        layout.aux_input_ports@.len() < 0xFFFF_FFFF,
        layout.aux_output_ports@.len() < 0xFFFF_FFFF,
        forall|i: int|
            0 <= i < layout.aux_input_ports@.len() ==> 1 <= (#[trigger] layout.aux_input_ports@[i])
                <= 64,
        forall|i: int|
            0 <= i < layout.aux_output_ports@.len() ==> 1 <= (
            #[trigger] layout.aux_output_ports@[i]) <= 64,
    ensures
        1 <= input <= output <= 64 ==> servable(declared).contains(layout),
        input > output ==> !servable(declared).contains(layout),
        input == 0 || output == 0 || output > 64 ==> !servable(declared).contains(layout),
{
    lemma_servable_contains(declared, layout);
    let inputs = layout.buses(K_AUDIO_UNIT_SCOPE_INPUT);
    let outputs = layout.buses(K_AUDIO_UNIT_SCOPE_OUTPUT);
    assert(inputs[0] == input);
    assert(outputs[0] == output);
    assert forall|i: int| 0 <= i < inputs.len() implies inputs[i] == if i == 0 {
        input
    } else {
        layout.aux_input_ports@[i - 1]
    } by {}
    assert forall|i: int| 0 <= i < outputs.len() implies outputs[i] == if i == 0 {
        output
    } else {
        layout.aux_output_ports@[i - 1]
    } by {}
}

/// Of a plugin without a main input or without a main output, a host is offered every declared
/// layout with from one to 64 channels on each bus.
pub proof fn other_plugins_are_offered_by_their_channels(
    declared: Seq<AudioIOLayout>,
    layout: AudioIOLayout,
)
    requires
        declared.contains(layout),
        layout.main_input_channels is None || layout.main_output_channels is None,
        layout.aux_input_ports@.len() < 0xFFFF_FFFF,
        layout.aux_output_ports@.len() < 0xFFFF_FFFF,
    ensures
        servable(declared).contains(layout) <==> {
            &&& layout.main_input_channels matches Some(channels) ==> 1 <= channels <= 64
            &&& layout.main_output_channels matches Some(channels) ==> 1 <= channels <= 64
            &&& forall|i: int|
                0 <= i < layout.aux_input_ports@.len() ==> 1 <= (
                #[trigger] layout.aux_input_ports@[i]) <= 64
            &&& forall|i: int|
                0 <= i < layout.aux_output_ports@.len() ==> 1 <= (
                #[trigger] layout.aux_output_ports@[i]) <= 64
        },
{
    lemma_servable_contains(declared, layout);
    let inputs = layout.buses(K_AUDIO_UNIT_SCOPE_INPUT);
    let outputs = layout.buses(K_AUDIO_UNIT_SCOPE_OUTPUT);
    let first_in: int = if layout.main_input_channels is Some {
        1
    } else {
        0
    };
    let first_out: int = if layout.main_output_channels is Some {
        1
    } else {
        0
    };
    assert forall|i: int| 0 <= i < layout.aux_input_ports@.len() implies inputs[first_in + i] == (
    #[trigger] layout.aux_input_ports@[i]) by {}
    assert forall|i: int| 0 <= i < layout.aux_output_ports@.len() implies outputs[first_out + i]
        == (#[trigger] layout.aux_output_ports@[i]) by {}
    assert forall|i: int| first_in <= i < inputs.len() implies (#[trigger] inputs[i])
        == layout.aux_input_ports@[i - first_in] by {}
    assert forall|i: int| first_out <= i < outputs.len() implies (#[trigger] outputs[i])
        == layout.aux_output_ports@[i - first_out] by {}
    assert(layout.main_input_channels matches Some(channels) ==> inputs[0] == channels);
    assert(layout.main_output_channels matches Some(channels) ==> outputs[0] == channels);
}

/// Layouts are offered in the order in which they are declared, and nothing is offered that is not
/// declared.
pub proof fn offer_keeps_the_order(declared: Seq<AudioIOLayout>, layout: AudioIOLayout)
    ensures
        servable(declared.push(layout)) == servable(declared) || servable(declared.push(layout))
            == servable(declared).push(layout),
        servable(declared).contains(layout) ==> declared.contains(layout) && servable(
            declared.push(layout),
        ) == servable(declared).push(layout),
{
    reveal(Seq::filter);
    assert(declared.push(layout).drop_last() =~= declared);
    lemma_servable_contains(declared, layout);
}

/// Whether layouts agree on their main buses: either all of them have a main input or none has,
/// and so with the main output.
pub proof fn agreement_is_about_all_layouts(layouts: Seq<AudioIOLayout>, i: int, j: int)
    requires
        0 <= i < layouts.len(),
        0 <= j < layouts.len(),
    ensures
        agree_on_main_buses(layouts) ==> layouts[i].main_input_channels is Some
            == layouts[j].main_input_channels is Some && layouts[i].main_output_channels is Some
            == layouts[j].main_output_channels is Some,
        (forall|k: int|
            0 <= k < layouts.len() ==> (#[trigger] layouts[k]).main_input_channels is Some
                && layouts[k].main_output_channels is Some) ==> agree_on_main_buses(layouts),
        (forall|k: int|
            0 <= k < layouts.len() ==> (#[trigger] layouts[k]).main_input_channels is None
                && layouts[k].main_output_channels is Some) ==> agree_on_main_buses(layouts),
        (forall|k: int|
            0 <= k < layouts.len() ==> (#[trigger] layouts[k]).main_input_channels is Some
                && layouts[k].main_output_channels is None) ==> agree_on_main_buses(layouts),
        (forall|k: int|
            0 <= k < layouts.len() ==> (#[trigger] layouts[k]).main_input_channels is None
                && layouts[k].main_output_channels is None) ==> agree_on_main_buses(layouts),
{
}

/// Buses are numbered from the main bus on, where there is one, and the auxiliary buses follow in
/// their order. Only the two sides of a unit have buses.
pub proof fn buses_are_numbered_from_the_main_bus(
    layout: AudioIOLayout,
    element: u32,
    scope: AudioUnitScope,
)
    ensures
        layout.main_input_channels matches Some(channels) ==> {
            &&& channels_of(layout, 1, 0) == Some(channels)
            &&& element < layout.aux_input_ports@.len() && element < 0xFFFF_FFFF ==> channels_of(
                layout,
                1,
                (element + 1) as u32,
            ) == Some(layout.aux_input_ports@[element as int])
            &&& layout.buses(1).len() == layout.aux_input_ports@.len() + 1
        },
        layout.main_output_channels matches Some(channels) ==> {
            &&& channels_of(layout, 2, 0) == Some(channels)
            &&& element < layout.aux_output_ports@.len() && element < 0xFFFF_FFFF ==> channels_of(
                layout,
                2,
                (element + 1) as u32,
            ) == Some(layout.aux_output_ports@[element as int])
            &&& layout.buses(2).len() == layout.aux_output_ports@.len() + 1
        },
        layout.main_input_channels is None ==> {
            &&& element < layout.aux_input_ports@.len() ==> channels_of(layout, 1, element) == Some(
                layout.aux_input_ports@[element as int],
            )
            &&& layout.buses(1).len() == layout.aux_input_ports@.len()
        },
        layout.main_output_channels is None ==> {
            &&& element < layout.aux_output_ports@.len() ==> channels_of(layout, 2, element)
                == Some(layout.aux_output_ports@[element as int])
            &&& layout.buses(2).len() == layout.aux_output_ports@.len()
        },
        channels_of(layout, scope, element) is Some <==> element < layout.buses(scope).len(),
        scope != 1 && scope != 2 ==> channels_of(layout, scope, element) is None,
{
}

/// A host reads the channels of the main buses, with none where there is no such bus.
pub proof fn channel_info_tells_the_main_channels(layout: AudioIOLayout)
    requires
        is_supported(layout),
    ensures
        layout.main_input_channels matches Some(channels) ==> channel_info(layout).inChannels
            == channels,
        layout.main_output_channels matches Some(channels) ==> channel_info(layout).outChannels
            == channels,
        layout.main_input_channels is None ==> channel_info(layout).inChannels == 0,
        layout.main_output_channels is None ==> channel_info(layout).outChannels == 0,
{
}

/// A search finds the first layout that is wanted, and finds none only where none is.
pub proof fn search_finds_the_first_layout(
    layouts: Seq<AudioIOLayout>,
    wanted: spec_fn(AudioIOLayout) -> bool,
)
    ensures
        match first_layout(layouts, wanted) {
            Some(layout) => exists|i: int|
                0 <= i < layouts.len() && #[trigger] layouts[i] == layout && wanted(layout) && (
                forall|j: int| 0 <= j < i ==> !wanted(#[trigger] layouts[j])),
            None => forall|j: int| 0 <= j < layouts.len() ==> !wanted(#[trigger] layouts[j]),
        },
    decreases layouts.len(),
{
    if layouts.len() > 0 {
        if wanted(layouts[0]) {
            assert(layouts[0] == first_layout(layouts, wanted)->Some_0);
        } else {
            let rest = layouts.drop_first();
            search_finds_the_first_layout(rest, wanted);
            match first_layout(rest, wanted) {
                Some(layout) => {
                    let i = choose|i: int|
                        0 <= i < rest.len() && #[trigger] rest[i] == layout && wanted(layout) && (
                        forall|j: int| 0 <= j < i ==> !wanted(#[trigger] rest[j]));
                    assert(layouts[i + 1] == layout);
                    assert forall|j: int| 0 <= j < i + 1 implies !wanted(#[trigger] layouts[j]) by {
                        if j > 0 {
                            assert(rest[j - 1] == layouts[j]);
                        }
                    }
                },
                None => {
                    assert forall|j: int| 0 <= j < layouts.len() implies !wanted(
                        #[trigger] layouts[j],
                    ) by {
                        if j > 0 {
                            assert(rest[j - 1] == layouts[j]);
                        }
                    }
                },
            }
        }
    }
}

/// A host that changes one side of a unit gets the first layout with what it asks for on that
/// side and with the other side as it is, or else the first one with what it asks for on that
/// side. Where no layout has it, the host gets none.
pub proof fn changed_side_decides_the_layout(
    layouts: Seq<AudioIOLayout>,
    scope: AudioUnitScope,
    input: Seq<u32>,
    output: Seq<u32>,
    i: int,
)
    requires
        scope == 1 || scope == 2,
        0 <= i < layouts.len(),
    ensures
        match layout_for_stream_format(layouts, scope, input, output) {
            Some(layout) => {
                &&& layouts.contains(layout)
                &&& scope == 1 ==> layout.buses(1) == input
                &&& scope == 2 ==> layout.buses(2) == output
                &&& layouts[i].buses(1) == input && layouts[i].buses(2) == output
                    ==> layout.buses(1) == input && layout.buses(2) == output && exists|k: int|
                    0 <= k <= i && #[trigger] layouts[k] == layout && (forall|j: int|
                        0 <= j < k ==> !((#[trigger] layouts[j]).buses(1) == input
                            && layouts[j].buses(2) == output))
                &&& layout.buses(1) != input || layout.buses(2) != output ==> exists|k: int|
                    0 <= k < layouts.len() && #[trigger] layouts[k] == layout && (forall|j: int|
                        0 <= j < k ==> (#[trigger] layouts[j]).buses(scope) != layout.buses(scope))
            },
            None => {
                &&& scope == 1 ==> layouts[i].buses(1) != input
                &&& scope == 2 ==> layouts[i].buses(2) != output
            },
        },
{
    let both = has_buses(input, output);
    search_finds_the_first_layout(layouts, both);
    search_finds_the_first_layout(layouts, has_buses_in(scope, input));
    search_finds_the_first_layout(layouts, has_buses_in(scope, output));
    lemma_first_layout(layouts, both);
    lemma_first_layout(layouts, has_buses_in(scope, input));
    lemma_first_layout(layouts, has_buses_in(scope, output));
}

} // verus!
