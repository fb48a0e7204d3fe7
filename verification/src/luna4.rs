//! The Luna4 planet: its identifier and its parts.
use vstd::prelude::*;

use crate::ai::Luna4AI;
use crate::energy::{EnergyManager, LUNA4_ENERGY_CELL_COUNT};
use crate::errors::Luna4Error;
use crate::resources::{
    all_basic_list, all_basic_resources, BasicResourceType, ComplexResourceType, ResourceManager,
};
use crate::text::{decimal, decimal_string};

verus! {

/// Unique identifier for Luna4 planets.
#[derive(Debug, Clone, Copy, PartialEq, Eq, Hash, Structural)]
pub struct Luna4Id(u32);

impl View for Luna4Id {
    type V = u32;

    closed spec fn view(&self) -> u32 {
        self.0
    }
}

impl Luna4Id {
    /// Creates a new Luna4 identifier.
    pub fn new(id: u32) -> (r: Self)
        ensures
            r@ == id,
    {
        Luna4Id(id)
    }

    /// Returns the underlying numeric ID.
    pub fn as_u32(&self) -> (id: u32)
        ensures
            id == self@,
    {
        self.0
    }

    /// The text of the identifier, `Luna4#` followed by the number.
    pub open spec fn text(&self) -> Seq<char> {
        "Luna4#"@ + decimal(self@ as nat)
    }

    /// Renders the identifier as `Luna4#<id>`.
    pub fn to_text(&self) -> (s: String)
        ensures
            s@ == self.text(),
    {
        let mut s = String::from_str("Luna4#");
        let digits = decimal_string(self.0 as u64);
        s.append(digits.as_str());
        s
    }
}

impl From<u32> for Luna4Id {
    fn from(id: u32) -> (r: Self)
        ensures
            r@ == id,
    {
        Luna4Id::new(id)
    }
}

impl vstd::std_specs::convert::FromSpecImpl<u32> for Luna4Id {
    open spec fn obeys_from_spec() -> bool {
        true
    }

    closed spec fn from_spec(id: u32) -> Self {
        Luna4Id(id)
    }
}

/// The values a Luna4 planet is built from: its numeric identifier, its
/// AI, and the generation and combination rules it declares.
pub struct PlanetBlueprint {
    /// Identifier of the planet
    pub id: u32,
    /// The planet AI
    pub ai: Luna4AI,
    /// Basic resources the planet can generate (all four: unbounded generation)
    pub gen_rules: Vec<BasicResourceType>,
    /// Complex resources the planet can combine (none on Luna4)
    pub comb_rules: Vec<ComplexResourceType>,
}

/// Main Luna4 planet implementation.
#[derive(Debug)]
pub struct Luna4 {
    /// Planet identifier
    id: Luna4Id,
    /// Energy management system
    energy: EnergyManager,
    /// Resource management system
    resources: ResourceManager,
}

impl Luna4 {
    /// The planet's identifier.
    pub closed spec fn identifier(&self) -> Luna4Id {
        self.id
    }

    /// Creates a new Luna4 planet instance; Luna4 has exactly five energy
    /// cells, so creation always succeeds.
    pub fn new(id: u32) -> (r: Result<Self, Luna4Error>)
        ensures
            r matches Ok(luna) && luna.identifier()@ == id,
    {
        let id = Luna4Id::new(id);
        let energy = match EnergyManager::new(LUNA4_ENERGY_CELL_COUNT) {
            Ok(energy) => energy,
            Err(e) => return Err(e),
        };
        let resources = ResourceManager::new();
        Ok(Luna4 { id, energy, resources })
    }

    /// Returns the planet identifier.
    pub fn id(&self) -> (r: Luna4Id)
        ensures
            r == self.identifier(),
    {
        self.id
    }

    /// Takes the planet apart into what the game's planet wrapper is built
    /// from: the identifier, a fresh AI, all four basic resources as
    /// generation rules and no combination rules.
    pub fn into_blueprint(self) -> (b: PlanetBlueprint)
        ensures
            b.id == self.identifier()@,
            b.ai@.id == self.identifier()@,
            b.ai@.current_phase == crate::cycle::LunarPhase::NewMoon,
            b.ai@.present_explorers@ == Set::<u32>::empty(),
            b.ai@.stats.is_zero(),
            b.gen_rules@ == all_basic_list(),
            b.comb_rules@ == Seq::<ComplexResourceType>::empty(),
    {
        // Luna4 can generate all basic resources (unbounded generation)
        let gen_rules = all_basic_resources();
        // Luna4 cannot create complex resources (no combination rules)
        let comb_rules: Vec<ComplexResourceType> = Vec::new();
        let id = self.id.as_u32();
        let ai = Luna4AI::new(self.id, self.energy, self.resources);
        PlanetBlueprint { id, ai, gen_rules, comb_rules }
    }
}

} // verus!
