//! The parts of the shared game crate (`common_game`) that Luna4's logic
//! calls: the planet state with its energy cells, the resource generator,
//! and the values handed around (sunrays, resources, rockets).
//!
//! Every item here is trusted: its contract restates what the game crate's
//! source does, and Verus does not check it.
use vstd::prelude::*;

use common_game::components::planet::PlanetState;
use common_game::components::resource::BasicResourceType as GameResource;
use common_game::components::resource::{BasicResource, GenericResource, Generator};
use common_game::components::rocket::Rocket;
use common_game::components::sunray::Sunray;

use crate::resources::BasicResourceType;

verus! {

#[verifier::external_type_specification]
#[verifier::external_body]
pub struct ExPlanetState(PlanetState);

#[verifier::external_type_specification]
#[verifier::external_body]
pub struct ExGenerator(Generator);

#[verifier::external_type_specification]
#[verifier::external_body]
pub struct ExBasicResource(BasicResource);

#[verifier::external_type_specification]
#[verifier::external_body]
pub struct ExGenericResource(GenericResource);

#[verifier::external_type_specification]
#[verifier::external_body]
pub struct ExSunray(Sunray);

#[verifier::external_type_specification]
#[verifier::external_body]
pub struct ExRocket(Rocket);

/// Whether each energy cell of the planet state is charged, in cell order.
pub uninterp spec fn cell_charges(state: PlanetState) -> Seq<bool>;

/// Whether the planet state holds a built rocket.
pub uninterp spec fn planet_has_rocket(state: PlanetState) -> bool;

/// The basic resources the generator holds a recipe for.
pub uninterp spec fn generator_recipes(generator: Generator) -> Set<BasicResourceType>;

/// The first position of `b` in `s`, or `s.len()` when `b` does not occur.
pub open spec fn first_index_of(s: Seq<bool>, b: bool) -> int
    decreases s.len(),
{
    if s.len() == 0 {
        0
    } else if s[0] == b {
        0
    } else {
        1 + first_index_of(s.drop_first(), b)
    }
}

/// `first_index_of` finds the first occurrence, or runs to the end when there is none.
pub proof fn lemma_first_index_of(s: Seq<bool>, b: bool)
    ensures
        0 <= first_index_of(s, b) <= s.len(),
        s.contains(b) <==> first_index_of(s, b) < s.len(),
        first_index_of(s, b) < s.len() ==> s[first_index_of(s, b)] == b,
        forall|j: int| 0 <= j < first_index_of(s, b) ==> s[j] != b,
    decreases s.len(),
{
    if s.len() > 0 {
        lemma_first_index_of(s.drop_first(), b);
        if s[0] != b {
            assert forall|j: int| 0 <= j < first_index_of(s, b) implies s[j] != b by {
                if j > 0 {
                    assert(s[j] == s.drop_first()[j - 1]);
                }
            }
            if s.contains(b) {
                let k = choose|k: int| 0 <= k < s.len() && s[k] == b;
                assert(s.drop_first()[k - 1] == b);
            }
            if s.drop_first().contains(b) {
                let k = choose|k: int| 0 <= k < s.drop_first().len() && s.drop_first()[k] == b;
                assert(s[k + 1] == b);
            }
        } else {
            assert(s.contains(b)) by {
                assert(s[0] == b);
            }
        }
    }
}

/// The number of charged cells among `cells`.
pub open spec fn count_charged(cells: Seq<bool>) -> nat
    decreases cells.len(),
{
    if cells.len() == 0 {
        0
    } else {
        count_charged(cells.drop_last()) + if cells.last() {
            1nat
        } else {
            0nat
        }
    }
}

/// A count of charged cells never exceeds the number of cells.
pub proof fn lemma_count_charged_bound(cells: Seq<bool>)
    ensures
        count_charged(cells) <= cells.len(),
    decreases cells.len(),
{
    if cells.len() > 0 {
        lemma_count_charged_bound(cells.drop_last());
    }
}

/// Setting one cell changes the count of charged cells by what it held and
/// what it now holds.
pub proof fn lemma_count_charged_update(cells: Seq<bool>, i: int, v: bool)
    requires
        0 <= i < cells.len(),
    ensures
        count_charged(cells.update(i, v)) == count_charged(cells) - (if cells[i] {
            1int
        } else {
            0int
        }) + (if v {
            1int
        } else {
            0int
        }),
    decreases cells.len(),
{
    let u = cells.update(i, v);
    if i == cells.len() - 1 {
        assert(u.drop_last() =~= cells.drop_last());
    } else {
        lemma_count_charged_update(cells.drop_last(), i, v);
        assert(u.drop_last() =~= cells.drop_last().update(i, v));
    }
}

/// Calls `PlanetState::charge_cell`, which charges the first discharged cell
/// with the sunray, or hands the sunray back when every cell is charged.
#[verifier::external_body]
pub(crate) fn charge_first_empty_cell(state: &mut PlanetState, sunray: Sunray) -> (wasted: Option<Sunray>)
    ensures
        cell_charges(*old(state)).contains(false) ==> {
            &&& wasted is None
            &&& cell_charges(*final(state)) == cell_charges(*old(state)).update(
                first_index_of(cell_charges(*old(state)), false),
                true,
            )
            &&& planet_has_rocket(*final(state)) == planet_has_rocket(*old(state))
        },
        !cell_charges(*old(state)).contains(false) ==> {
            &&& wasted is Some
            &&& *final(state) == *old(state)
        },
{
    state.charge_cell(sunray)
}

/// Calls `PlanetState::full_cell` and keeps the index of the first charged
/// cell it finds, if any. `full_cell` only reads: the planet state is left
/// as it was.
#[verifier::external_body]
pub(crate) fn first_charged_cell(state: &mut PlanetState) -> (index: Option<usize>)
    ensures
        *final(state) == *old(state),
        index is Some <==> cell_charges(*old(state)).contains(true),
        index matches Some(i) ==> i as int == first_index_of(cell_charges(*old(state)), true),
{
    state.full_cell().map(|(_, i)| i)
}

/// Calls `EnergyCell::is_charged` on cell `i` of the planet state
/// (`PlanetState::cell` panics past the last cell, hence the requirement).
#[verifier::external_body]
pub(crate) fn cell_is_charged(state: &PlanetState, i: usize) -> (charged: bool)
    requires
        i < cell_charges(*state).len(),
    ensures
        charged == cell_charges(*state)[i as int],
{
    state.cell(i).is_charged()
}

/// The name the game gives a basic resource.
pub open spec fn resource_name(r: BasicResourceType) -> Seq<char> {
    match r {
        BasicResourceType::Oxygen => "Oxygen"@,
        BasicResourceType::Hydrogen => "Hydrogen"@,
        BasicResourceType::Carbon => "Carbon"@,
        BasicResourceType::Silicon => "Silicon"@,
    }
}

/// The error `Generator::try_make` reports: an uncharged cell first, else
/// the missing recipe, the resource's name written in quotes.
pub open spec fn try_make_error_text(cell_charged: bool, r: BasicResourceType) -> Seq<char> {
    if !cell_charged {
        "The energy is not charged"@
    } else {
        "Missing recipe for \""@ + resource_name(r) + "\""@
    }
}

/// Calls `Generator::try_make` with cell `i` of the planet state. It fails
/// when the cell is not charged or the generator has no recipe for the
/// resource, leaving the planet state as it was; otherwise it discharges
/// the cell, keeps the rest of the planet state, and hands out the
/// resource. That the resource is of the requested kind is not stated:
/// `BasicResource` is opaque here.
#[verifier::external_body]
pub(crate) fn generator_try_make(
    generator: &Generator,
    resource: BasicResourceType,
    state: &mut PlanetState,
    i: usize,
) -> (made: Result<BasicResource, String>)
    requires
        i < cell_charges(*old(state)).len(),
    ensures
        made is Ok <==> (cell_charges(*old(state))[i as int] && generator_recipes(*generator).contains(resource)),
        made is Ok ==> cell_charges(*final(state)) == cell_charges(*old(state)).update(i as int, false),
        made is Ok ==> planet_has_rocket(*final(state)) == planet_has_rocket(*old(state)),
        made is Err ==> *final(state) == *old(state),
        made matches Err(e) ==> e@ == try_make_error_text(cell_charges(*old(state))[i as int], resource),
{
    let kind = match resource {
        BasicResourceType::Oxygen => GameResource::Oxygen,
        BasicResourceType::Hydrogen => GameResource::Hydrogen,
        BasicResourceType::Carbon => GameResource::Carbon,
        BasicResourceType::Silicon => GameResource::Silicon,
    };
    generator.try_make(kind, state.cell_mut(i))
}

/// An overview of a planet's state: the charge of each energy cell, how
/// many are charged, and whether a rocket is built.
#[derive(Debug, Clone)]
pub struct PlanetSnapshot {
    /// Whether each energy cell is charged, in cell order
    pub energy_cells: Vec<bool>,
    /// Number of charged energy cells
    pub charged_cells_count: usize,
    /// Whether a rocket is built
    pub has_rocket: bool,
}

/// Calls `PlanetState::to_dummy`, which lists each cell's charge, counts
/// the charged cells and tells whether a rocket is built; its fields are
/// moved into a `PlanetSnapshot`.
#[verifier::external_body]
pub(crate) fn planet_snapshot(state: &PlanetState) -> (snapshot: PlanetSnapshot)
    ensures
        snapshot.energy_cells@ == cell_charges(*state),
        snapshot.charged_cells_count == count_charged(cell_charges(*state)),
        snapshot.has_rocket == planet_has_rocket(*state),
{
    let dummy = state.to_dummy();
    PlanetSnapshot {
        energy_cells: dummy.energy_cells,
        charged_cells_count: dummy.charged_cells_count,
        has_rocket: dummy.has_rocket,
    }
}

} // verus!
