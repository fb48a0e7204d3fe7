//! Resource management for Luna4.
//!
//! Each lunar phase enables a different set of basic resources; complex
//! resources are never available on Luna4 (Type D planet limitation).
use vstd::prelude::*;

use crate::cycle::LunarPhase;

verus! {

/// The kinds of basic resource a planet can generate.
#[derive(Debug, Clone, Copy, PartialEq, Eq, Hash, Structural)]
pub enum BasicResourceType {
    Oxygen,
    Hydrogen,
    Carbon,
    Silicon,
}

/// The kinds of complex resource a planet can combine.
#[derive(Debug, Clone, Copy, PartialEq, Eq, Hash, Structural)]
pub enum ComplexResourceType {
    Diamond,
    Water,
    Life,
    Robot,
    Dolphin,
    AIPartner,
}

/// `s` with every repeated item dropped, first occurrences kept in order.
pub open spec fn dedup<T>(s: Seq<T>) -> Seq<T>
    decreases s.len(),
{
    if s.len() == 0 {
        Seq::empty()
    } else {
        let d = dedup(s.drop_last());
        if d.contains(s.last()) {
            d
        } else {
            d.push(s.last())
        }
    }
}

/// Dropping repeats keeps exactly the same items, each once, and leaves a
/// sequence without repeats unchanged.
pub proof fn lemma_dedup<T>(s: Seq<T>)
    ensures
        dedup(s).no_duplicates(),
        dedup(s).to_set() == s.to_set(),
        s.no_duplicates() ==> dedup(s) == s,
        dedup(s).len() <= s.len(),
    decreases s.len(),
{
    if s.len() > 0 {
        let p = s.drop_last();
        lemma_dedup(p);
        let d = dedup(p);
        assert(s == p.push(s.last()));
        p.lemma_push_to_set_commute(s.last());
        if d.contains(s.last()) {
            assert(d.to_set().contains(s.last()));
            assert(p.to_set().insert(s.last()) =~= p.to_set());
            if s.no_duplicates() {
                assert(p.to_set().contains(s.last()));
                let k = choose|k: int| 0 <= k < p.len() && p[k] == s.last();
                assert(s[k] == s[s.len() - 1]);
            }
        } else {
            let e = d.push(s.last());
            d.lemma_push_to_set_commute(s.last());
            assert forall|i: int, j: int| 0 <= i < e.len() && 0 <= j < e.len() && i != j implies e[i]
                != e[j] by {
                if i == e.len() - 1 {
                    assert(d[j] == e[j]);
                    assert(d.contains(e[j]));
                } else if j == e.len() - 1 {
                    assert(d[i] == e[i]);
                    assert(d.contains(e[i]));
                }
            }
            if s.no_duplicates() {
                assert(p.no_duplicates()) by {
                    assert forall|i: int, j: int|
                        0 <= i < p.len() && 0 <= j < p.len() && i != j implies p[i] != p[j] by {
                        assert(s[i] == p[i] && s[j] == p[j]);
                    }
                }
            }
        }
    }
}

/// The basic resources that Luna4 offers during `phase`, in the order the
/// lore lists them.
pub open spec fn phase_resource_list(phase: LunarPhase) -> Seq<BasicResourceType> {
    match phase {
        LunarPhase::NewMoon => seq![BasicResourceType::Carbon],
        LunarPhase::FirstQuarter => seq![BasicResourceType::Oxygen, BasicResourceType::Hydrogen],
        LunarPhase::FullMoon => seq![
            BasicResourceType::Oxygen,
            BasicResourceType::Hydrogen,
            BasicResourceType::Carbon,
            BasicResourceType::Silicon,
        ],
        LunarPhase::LastQuarter => seq![BasicResourceType::Oxygen, BasicResourceType::Silicon],
    }
}

/// Every basic resource Luna4 can generate (unbounded generation rules).
pub open spec fn all_basic_list() -> Seq<BasicResourceType> {
    seq![
        BasicResourceType::Oxygen,
        BasicResourceType::Hydrogen,
        BasicResourceType::Carbon,
        BasicResourceType::Silicon,
    ]
}

/// Whether Luna4 can generate `r` during `phase`.
pub open spec fn phase_offers(phase: LunarPhase, r: BasicResourceType) -> bool {
    phase_resource_list(phase).contains(r)
}

/// Returns whether `v` holds `r`.
pub fn contains_resource(v: &Vec<BasicResourceType>, r: BasicResourceType) -> (b: bool)
    ensures
        b == v@.contains(r),
{
    let mut i: usize = 0;
    while i < v.len()
        invariant
            i <= v.len(),
            forall|j: int| 0 <= j < i ==> v@[j] != r,
        decreases v.len() - i,
    {
        if v[i] == r {
            return true;
        }
        i = i + 1;
    }
    false
}

/// Returns every basic resource Luna4 can generate.
pub fn all_basic_resources() -> (v: Vec<BasicResourceType>)
    ensures
        v@ == all_basic_list(),
{
    let mut v: Vec<BasicResourceType> = Vec::new();
    v.push(BasicResourceType::Oxygen);
    v.push(BasicResourceType::Hydrogen);
    v.push(BasicResourceType::Carbon);
    v.push(BasicResourceType::Silicon);
    v
}

/// Resources available during a specific lunar phase.
#[derive(Debug, Clone)]
pub struct PhaseResources {
    /// Basic resources that can be generated in this phase (`basic` and
    /// `ResourceManager::get_available_resources` list each at most once)
    pub basic: Vec<BasicResourceType>,
    /// Complex resources that can be generated in this phase (always empty for Luna4)
    pub complex: Vec<ComplexResourceType>,
}

impl PhaseResources {
    /// Creates a resource set for a phase from a list of basic resources;
    /// repeated entries are kept once.
    pub fn basic(resources: Vec<BasicResourceType>) -> (r: Self)
        ensures
            r.basic@ == dedup(resources@),
            r.basic@.no_duplicates(),
            r.basic@.to_set() == resources@.to_set(),
            r.complex@ == Seq::<ComplexResourceType>::empty(),
    {
        let mut set: Vec<BasicResourceType> = Vec::new();
        let mut i: usize = 0;
        while i < resources.len()
            invariant
                i <= resources.len(),
                set@ == dedup(resources@.take(i as int)),
            decreases resources.len() - i,
        {
            let item = resources[i];
            assert(resources@.take(i + 1).drop_last() == resources@.take(i as int));
            if !contains_resource(&set, item) {
                set.push(item);
            }
            i = i + 1;
        }
        assert(resources@.take(resources.len() as int) == resources@);
        proof {
            lemma_dedup(resources@);
        }
        PhaseResources { basic: set, complex: Vec::new() }
    }
}

/// Manages resource availability based on Luna4's lunar phases.
#[derive(Debug, Clone, Copy)]
pub struct ResourceManager;

impl ResourceManager {
    /// Creates a new resource manager with Luna4's phase-resource mappings.
    pub fn new() -> (m: Self) {
        ResourceManager
    }

    /// Retrieves the resources available during `phase`.
    pub fn get_available_resources(&self, phase: LunarPhase) -> (r: PhaseResources)
        ensures
            r.basic@ == phase_resource_list(phase),
            r.basic@.no_duplicates(),
            r.complex@ == Seq::<ComplexResourceType>::empty(),
    {
        let mut list: Vec<BasicResourceType> = Vec::new();
        match phase {
            LunarPhase::NewMoon => {
                // Rare elements in the dark: Carbon only
                list.push(BasicResourceType::Carbon);
            },
            LunarPhase::FirstQuarter => {
                // Common ones in the light: Oxygen and Hydrogen
                list.push(BasicResourceType::Oxygen);
                list.push(BasicResourceType::Hydrogen);
            },
            LunarPhase::FullMoon => {
                // Everything at full moon: all basic resources
                list = all_basic_resources();
            },
            LunarPhase::LastQuarter => {
                // Preparation phase: Oxygen and Silicon
                list.push(BasicResourceType::Oxygen);
                list.push(BasicResourceType::Silicon);
            },
        }
        assert(list@ == phase_resource_list(phase));
        assert(list@.no_duplicates());
        proof {
            lemma_dedup(list@);
        }
        PhaseResources::basic(list)
    }
}

/// Every phase offers some basic resource, only resources that Full Moon
/// offers, and Full Moon offers every basic resource.
pub proof fn lemma_phase_offers(phase: LunarPhase, r: BasicResourceType)
    ensures
        phase_resource_list(phase).len() > 0,
        phase_offers(phase, r) ==> phase_offers(LunarPhase::FullMoon, r),
        phase_offers(LunarPhase::FullMoon, r),
        all_basic_list() == phase_resource_list(LunarPhase::FullMoon),
        all_basic_list().contains(r),
{
    match r {
        BasicResourceType::Oxygen => assert(all_basic_list()[0] == r),
        BasicResourceType::Hydrogen => assert(all_basic_list()[1] == r),
        BasicResourceType::Carbon => assert(all_basic_list()[2] == r),
        BasicResourceType::Silicon => assert(all_basic_list()[3] == r),
    }
}

} // verus!
