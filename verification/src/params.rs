//! The parameters of a plugin, found by the hash of their IDs.
use std::collections::HashMap;
use vstd::prelude::*;

verus! {

broadcast use vstd::std_specs::hash::group_hash_axioms;

/// Which parameter object of the plugin is meant: its kind and its address.
#[derive(Clone, Copy, Debug, PartialEq, Eq, Structural)]
pub enum ParamPtr {
    FloatParam(usize),
    IntParam(usize),
    BoolParam(usize),
    EnumParam(usize),
}

/// A parameter, with what stays the same about it. The values are the bits of an `f32`.
pub struct ParamEntry {
    pub id: String,
    /// The hash of the ID, under which hosts know the parameter.
    pub hash: u32,
    pub ptr: ParamPtr,
    pub name: String,
    pub unit: String,
    /// Whether the parameter switches the plugin off and on.
    pub is_bypass: bool,
    pub is_non_automatable: bool,
    /// How many steps lie between the smallest and the largest value, where there are steps.
    pub step_count: Option<usize>,
    pub min_value: u32,
    pub max_value: u32,
    pub default_value: u32,
}

/// Where each hash leads: to the last parameter that has it.
pub open spec fn hash_index(entries: Seq<ParamEntry>) -> Map<u32, usize>
    decreases entries.len(),
{
    if entries.len() == 0 {
        Map::empty()
    } else {
        hash_index(entries.drop_last()).insert(entries.last().hash, (entries.len() - 1) as usize)
    }
}

/// The hash of the last parameter with this address.
pub open spec fn last_hash_of(entries: Seq<ParamEntry>, ptr: ParamPtr) -> Option<u32>
    decreases entries.len(),
{
    if entries.len() == 0 {
        None
    } else if entries.last().ptr == ptr {
        Some(entries.last().hash)
    } else {
        last_hash_of(entries.drop_last(), ptr)
    }
}

/// The first parameter that switches the plugin off and on.
pub open spec fn first_bypass(entries: Seq<ParamEntry>) -> Option<ParamPtr>
    decreases entries.len(),
{
    if entries.len() == 0 {
        None
    } else if entries[0].is_bypass {
        Some(entries[0].ptr)
    } else {
        first_bypass(entries.drop_first())
    }
}

/// The parameters of a plugin.
pub struct ParamTable {
    pub entries: Vec<ParamEntry>,
    pub by_hash: HashMap<u32, usize>,
    pub bypass_param: Option<ParamPtr>,
}

proof fn lemma_hash_index(entries: Seq<ParamEntry>)
    requires
        entries.len() <= usize::MAX,
    ensures
        forall|hash: u32| #[trigger]
            hash_index(entries).contains_key(hash) ==> hash_index(entries)[hash] < entries.len()
                && entries[hash_index(entries)[hash] as int].hash == hash,
        forall|i: int|
            0 <= i < entries.len() ==> hash_index(entries).contains_key(
                (#[trigger] entries[i]).hash,
            ) && i <= hash_index(entries)[entries[i].hash],
    decreases entries.len(),
{
    if entries.len() > 0 {
        let fewer = entries.drop_last();
        lemma_hash_index(fewer);
        assert forall|i: int| 0 <= i < entries.len() implies hash_index(entries).contains_key(
            (#[trigger] entries[i]).hash,
        ) && i <= hash_index(entries)[entries[i].hash] by {
            if i < fewer.len() {
                assert(fewer[i] == entries[i]);
            }
        }
        assert forall|hash: u32| #[trigger]
            hash_index(entries).contains_key(hash) implies hash_index(entries)[hash] < entries.len()
            && entries[hash_index(entries)[hash] as int].hash == hash by {
            if hash != entries.last().hash {
                assert(hash_index(fewer).contains_key(hash));
                assert(fewer[hash_index(fewer)[hash] as int]
                    == entries[hash_index(fewer)[hash] as int]);
            }
        }
    }
}

proof fn lemma_first_bypass(entries: Seq<ParamEntry>)
    ensures
        match first_bypass(entries) {
            Some(ptr) => exists|i: int|
                0 <= i < entries.len() && (#[trigger] entries[i]).is_bypass && entries[i].ptr == ptr
                    && (forall|j: int| 0 <= j < i ==> !(#[trigger] entries[j]).is_bypass),
            None => forall|j: int| 0 <= j < entries.len() ==> !(#[trigger] entries[j]).is_bypass,
        },
    decreases entries.len(),
{
    if entries.len() > 0 {
        if entries[0].is_bypass {
            assert(entries[0].ptr == first_bypass(entries)->Some_0);
        } else {
            let rest = entries.drop_first();
            lemma_first_bypass(rest);
            match first_bypass(rest) {
                Some(ptr) => {
                    let i = choose|i: int|
                        0 <= i < rest.len() && (#[trigger] rest[i]).is_bypass && rest[i].ptr == ptr
                            && (forall|j: int| 0 <= j < i ==> !(#[trigger] rest[j]).is_bypass);
                    assert(entries[i + 1].is_bypass);
                    assert forall|j: int| 0 <= j < i + 1 implies !(
                    #[trigger] entries[j]).is_bypass by {
                        if j > 0 {
                            assert(rest[j - 1] == entries[j]);
                        }
                    }
                },
                None => {
                    assert forall|j: int| 0 <= j < entries.len() implies !(
                    #[trigger] entries[j]).is_bypass by {
                        if j > 0 {
                            assert(rest[j - 1] == entries[j]);
                        }
                    }
                },
            }
        }
    }
}

proof fn lemma_last_hash(entries: Seq<ParamEntry>, ptr: ParamPtr)
    ensures
        match last_hash_of(entries, ptr) {
            Some(hash) => exists|i: int|
                0 <= i < entries.len() && (#[trigger] entries[i]).ptr == ptr && entries[i].hash
                    == hash && (forall|j: int|
                    i < j < entries.len() ==> (#[trigger] entries[j]).ptr != ptr),
            None => forall|j: int| 0 <= j < entries.len() ==> (#[trigger] entries[j]).ptr != ptr,
        },
    decreases entries.len(),
{
    if entries.len() > 0 {
        let last = entries.len() - 1;
        if entries.last().ptr == ptr {
            assert(entries[last].ptr == ptr);
        } else {
            let fewer = entries.drop_last();
            lemma_last_hash(fewer, ptr);
            match last_hash_of(fewer, ptr) {
                Some(hash) => {
                    let i = choose|i: int|
                        0 <= i < fewer.len() && (#[trigger] fewer[i]).ptr == ptr && fewer[i].hash
                            == hash && (forall|j: int|
                            i < j < fewer.len() ==> (#[trigger] fewer[j]).ptr != ptr);
                    assert(entries[i].ptr == ptr);
                    assert forall|j: int| i < j < entries.len() implies (
                    #[trigger] entries[j]).ptr != ptr by {
                        if j < last {
                            assert(fewer[j] == entries[j]);
                        }
                    }
                },
                None => {
                    assert forall|j: int| 0 <= j < entries.len() implies (
                    #[trigger] entries[j]).ptr != ptr by {
                        if j < last {
                            assert(fewer[j] == entries[j]);
                        }
                    }
                },
            }
        }
    }
}

impl ParamTable {
    /// The derived fields say of the parameters what they are for.
    pub open spec fn wf(self) -> bool {
        &&& self.by_hash@ == hash_index(self.entries@)
        &&& self.bypass_param == first_bypass(self.entries@)
        &&& self.entries@.len() <= usize::MAX
    }

    /// Whether a host knows a parameter under this hash.
    pub open spec fn knows(self, hash: u32) -> bool {
        hash_index(self.entries@).contains_key(hash)
    }

    /// The parameter that a host means with a hash.
    pub open spec fn meant(self, hash: u32) -> ParamEntry {
        self.entries@[hash_index(self.entries@)[hash] as int]
    }

    /// Every hash that is known leads to a parameter that has it, and every parameter's hash is
    /// known.
    pub proof fn known_hashes_are_those_of_parameters(self, hash: u32)
        requires
            self.wf(),
        ensures
            self.knows(hash) <==> exists|i: int|
                0 <= i < self.entries@.len() && (#[trigger] self.entries@[i]).hash == hash,
            self.knows(hash) ==> self.meant(hash).hash == hash,
    {
        lemma_hash_index(self.entries@);
        if self.knows(hash) {
            let i = hash_index(self.entries@)[hash] as int;
            assert(self.entries@[i].hash == hash);
        }
    }

    /// A hash means the last parameter that has it.
    pub proof fn hash_means_the_last_parameter(self, hash: u32)
        requires
            self.wf(),
            self.knows(hash),
        ensures
            exists|i: int|
                0 <= i < self.entries@.len() && #[trigger] self.entries@[i] == self.meant(hash)
                    && self.entries@[i].hash == hash && (forall|j: int|
                    i < j < self.entries@.len() ==> (#[trigger] self.entries@[j]).hash != hash),
    {
        lemma_hash_index(self.entries@);
        let i = hash_index(self.entries@)[hash] as int;
        assert(self.entries@[i] == self.meant(hash));
        assert forall|j: int| i < j < self.entries@.len() implies (
        #[trigger] self.entries@[j]).hash != hash by {
            if self.entries@[j].hash == hash {
                assert(j <= hash_index(self.entries@)[self.entries@[j].hash]);
            }
        }
    }

    /// The bypass parameter is the first one that says so of itself.
    pub proof fn first_bypass_parameter_switches(self)
        requires
            self.wf(),
        ensures
            match self.bypass_param {
                Some(ptr) => exists|i: int|
                    0 <= i < self.entries@.len() && (#[trigger] self.entries@[i]).is_bypass
                        && self.entries@[i].ptr == ptr && (forall|j: int|
                        0 <= j < i ==> !(#[trigger] self.entries@[j]).is_bypass),
                None => forall|j: int|
                    0 <= j < self.entries@.len() ==> !(#[trigger] self.entries@[j]).is_bypass,
            },
    {
        lemma_first_bypass(self.entries@);
    }

    /// The editor's parameters are known to hosts under the hash of the last one with the same
    /// address.
    pub proof fn address_leads_to_the_last_hash(self, ptr: ParamPtr)
        ensures
            match last_hash_of(self.entries@, ptr) {
                Some(hash) => exists|i: int|
                    0 <= i < self.entries@.len() && (#[trigger] self.entries@[i]).ptr == ptr
                        && self.entries@[i].hash == hash && (forall|j: int|
                        i < j < self.entries@.len() ==> (#[trigger] self.entries@[j]).ptr != ptr),
                None => forall|j: int|
                    0 <= j < self.entries@.len() ==> (#[trigger] self.entries@[j]).ptr != ptr,
            },
    {
        lemma_last_hash(self.entries@, ptr);
    }

    /// The parameters that hosts can reach are those that no later parameter hides by having the
    /// same hash, in their order.
    pub proof fn hidden_parameters_are_not_reached(self, n: nat)
        requires
            self.wf(),
            n < self.entries@.len(),
        ensures
            (exists|j: int|
                n < j < self.entries@.len() && (#[trigger] self.entries@[j]).hash
                    == self.entries@[n as int].hash) ==> self.reached_ptrs(n + 1)
                == self.reached_ptrs(n),
            (forall|j: int|
                n < j < self.entries@.len() ==> (#[trigger] self.entries@[j]).hash
                    != self.entries@[n as int].hash) ==> self.reached_ptrs(n + 1)
                == self.reached_ptrs(n).push(self.entries@[n as int].ptr),
            self.reached_ptrs(0).len() == 0,
    {
        lemma_hash_index(self.entries@);
        let hash = self.entries@[n as int].hash;
        self.known_hashes_are_those_of_parameters(hash);
        let k = hash_index(self.entries@)[hash] as int;
        assert(n <= k);
        assert(self.entries@[k].hash == hash);
        if exists|j: int|
            n < j < self.entries@.len() && (#[trigger] self.entries@[j]).hash == hash {
            let j = choose|j: int|
                n < j < self.entries@.len() && (#[trigger] self.entries@[j]).hash == hash;
            assert(j <= hash_index(self.entries@)[self.entries@[j].hash]);
        }
    }

    /// A parameter that no later one hides is among those that hosts can reach.
    pub proof fn unhidden_parameter_is_reached(self, n: nat, i: int)
        requires
            self.wf(),
            0 <= i < n <= self.entries@.len(),
            forall|j: int|
                i < j < self.entries@.len() ==> (#[trigger] self.entries@[j]).hash
                    != self.entries@[i].hash,
        ensures
            self.reached_ptrs(n).contains(self.entries@[i].ptr),
        decreases n,
    {
        let fewer = self.reached_ptrs((n - 1) as nat);
        if i == n - 1 {
            self.hidden_parameters_are_not_reached(i as nat);
            assert(self.reached_ptrs(n)[fewer.len() as int] == self.entries@[i].ptr);
        } else {
            self.unhidden_parameter_is_reached((n - 1) as nat, i);
            let k = choose|k: int| 0 <= k < fewer.len() && fewer[k] == self.entries@[i].ptr;
            assert(self.reached_ptrs(n)[k] == self.entries@[i].ptr);
        }
    }

    /// The table of the parameters in the order in which the plugin lists them.
    pub fn new(entries: Vec<ParamEntry>) -> (table: Self)
        ensures
            table.wf(),
            table.entries == entries,
    {
        let mut by_hash: HashMap<u32, usize> = HashMap::new();
        let mut bypass_param: Option<ParamPtr> = None;
        let mut i: usize = 0;
        assert(entries@.skip(0) =~= entries@);
        assert(by_hash@ =~= hash_index(entries@.take(0)));
        while i < entries.len()
            invariant
                i <= entries@.len(),
                by_hash@ == hash_index(entries@.take(i as int)),
                match bypass_param {
                    Some(ptr) => first_bypass(entries@) == bypass_param,
                    None => first_bypass(entries@) == first_bypass(entries@.skip(i as int)),
                },
            decreases entries@.len() - i,
        {
            by_hash.insert(entries[i].hash, i);
            if bypass_param.is_none() && entries[i].is_bypass {
                bypass_param = Some(entries[i].ptr);
            }
            i += 1;
            assert(entries@.take(i as int).drop_last() =~= entries@.take(i - 1));
            assert(entries@.skip(i - 1).drop_first() =~= entries@.skip(i as int));
        }
        assert(entries@.take(i as int) =~= entries@);
        Self { entries, by_hash, bypass_param }
    }

    /// Where the parameter that a host means with a hash stands in the table.
    pub fn find(&self, hash: u32) -> (index: Option<usize>)
        requires
            self.wf(),
        ensures
            index is Some == self.knows(hash),
            index matches Some(i) ==> i < self.entries@.len() && self.entries@[i as int]
                == self.meant(hash) && self.meant(hash).hash == hash,
    {
        proof {
            lemma_hash_index(self.entries@);
        }
        match self.by_hash.get(&hash) {
            Some(i) => Some(*i),
            None => None,
        }
    }

    /// The address of the parameter that a host means with a hash.
    pub fn param_by_hash(&self, hash: u32) -> (ptr: Option<ParamPtr>)
        requires
            self.wf(),
        ensures
            ptr == if self.knows(hash) {
                Some(self.meant(hash).ptr)
            } else {
                None
            },
    {
        match self.find(hash) {
            Some(i) => Some(self.entries[i].ptr),
            None => None,
        }
    }

    /// The ID of the parameter that a host means with a hash.
    pub fn param_id_by_hash(&self, hash: u32) -> (id: Option<&str>)
        requires
            self.wf(),
        ensures
            id is Some == self.knows(hash),
            id matches Some(text) ==> text@ == self.meant(hash).id@,
    {
        match self.find(hash) {
            Some(i) => Some(self.entries[i].id.as_str()),
            None => None,
        }
    }

    /// The hash under which hosts know the parameter at an address.
    pub fn hash_of_param(&self, ptr: ParamPtr) -> (hash: Option<u32>)
        ensures
            hash == last_hash_of(self.entries@, ptr),
    {
        let mut i: usize = self.entries.len();
        assert(self.entries@.take(i as int) =~= self.entries@);
        while i > 0
            invariant
                i <= self.entries@.len(),
                last_hash_of(self.entries@, ptr) == last_hash_of(self.entries@.take(i as int), ptr),
            decreases i,
        {
            assert(self.entries@.take(i as int).drop_last() =~= self.entries@.take(i - 1));
            if self.entries[i - 1].ptr == ptr {
                return Some(self.entries[i - 1].hash);
            }
            i -= 1;
        }
        None
    }

    /// The hashes of all parameters, in their order.
    pub fn param_hashes(&self) -> (hashes: Vec<u32>)
        ensures
            hashes@ == self.entries@.map_values(|entry: ParamEntry| entry.hash),
    {
        let mut hashes: Vec<u32> = Vec::new();
        let mut i: usize = 0;
        while i < self.entries.len()
            invariant
                i <= self.entries@.len(),
                hashes@.len() == i,
                forall|j: int| 0 <= j < i ==> hashes@[j] == self.entries@[j].hash,
            decreases self.entries@.len() - i,
        {
            hashes.push(self.entries[i].hash);
            i += 1;
        }
        assert(hashes@ =~= self.entries@.map_values(|entry: ParamEntry| entry.hash));
        hashes
    }

    /// Whether a hash leads to the parameter at an address.
    pub open spec fn leads_to(self, hash: u32, ptr: ParamPtr) -> bool {
        self.knows(hash) && self.meant(hash).ptr == ptr
    }

    /// A hash that leads to the parameter at an address, where there is any.
    pub fn hash_leading_to(&self, ptr: ParamPtr) -> (hash: Option<u32>)
        requires
            self.wf(),
        ensures
            match hash {
                Some(h) => self.leads_to(h, ptr),
                None => forall|h: u32| !self.leads_to(h, ptr),
            },
    {
        let mut i: usize = 0;
        while i < self.entries.len()
            invariant
                self.wf(),
                i <= self.entries@.len(),
                forall|j: int|
                    0 <= j < i ==> !self.leads_to((#[trigger] self.entries@[j]).hash, ptr),
            decreases self.entries@.len() - i,
        {
            let hash = self.entries[i].hash;
            if let Some(k) = self.find(hash) {
                if self.entries[k].ptr == ptr {
                    return Some(hash);
                }
            }
            i += 1;
        }
        proof {
            lemma_hash_index(self.entries@);
            assert forall|h: u32| !self.leads_to(h, ptr) by {
                if self.knows(h) {
                    let k = hash_index(self.entries@)[h] as int;
                    assert(!self.leads_to(self.entries@[k].hash, ptr));
                }
            }
        }
        None
    }

    /// Whether the parameter at position `i` is the one that its hash leads to.
    pub open spec fn is_reached(self, i: int) -> bool {
        hash_index(self.entries@)[self.entries@[i].hash] == i
    }

    /// The addresses of the first `n` parameters that their hashes lead to.
    pub open spec fn reached_ptrs(self, n: nat) -> Seq<ParamPtr>
        decreases n,
    {
        if n == 0 {
            seq![]
        } else {
            let fewer = self.reached_ptrs((n - 1) as nat);
            if self.is_reached(n - 1) {
                fewer.push(self.entries@[n - 1].ptr)
            } else {
                fewer
            }
        }
    }

    /// The addresses of all parameters that hosts can reach, one for each known hash.
    pub fn reachable_params(&self) -> (ptrs: Vec<ParamPtr>)
        requires
            self.wf(),
        ensures
            ptrs@ == self.reached_ptrs(self.entries@.len()),
    {
        let mut ptrs: Vec<ParamPtr> = Vec::new();
        let mut i: usize = 0;
        assert(ptrs@ =~= self.reached_ptrs(0));
        while i < self.entries.len()
            invariant
                self.wf(),
                i <= self.entries@.len(),
                ptrs@ == self.reached_ptrs(i as nat),
            decreases self.entries@.len() - i,
        {
            proof {
                lemma_hash_index(self.entries@);
                assert(self.knows(self.entries@[i as int].hash));
            }
            if let Some(k) = self.by_hash.get(&self.entries[i].hash) {
                if *k == i {
                    ptrs.push(self.entries[i].ptr);
                }
            }
            i += 1;
        }
        ptrs
    }
}

} // verus!
