//! Energy cell management for Luna4.
//!
//! Luna4, a Type D planet, has exactly five energy cells; this module
//! validates that and charges, uses and counts them.
use vstd::prelude::*;

use common_game::components::planet::PlanetState;
use common_game::components::resource::{BasicResource, Generator};
use common_game::components::sunray::Sunray;

use crate::errors::Luna4Error;
use crate::game::{
    cell_charges, cell_is_charged, charge_first_empty_cell, count_charged, first_charged_cell,
    first_index_of, generator_recipes, generator_try_make, lemma_count_charged_bound,
    lemma_count_charged_update, lemma_first_index_of, planet_has_rocket, try_make_error_text,
};
use crate::resources::BasicResourceType;
use crate::text::{decimal, decimal_string};

verus! {

/// Number of energy cells in a Luna4 planet (fixed by the Type D specification).
pub const LUNA4_ENERGY_CELL_COUNT: usize = 5;

/// The message of a wrong number of energy cells.
pub open spec fn cell_count_message(cell_count: nat) -> Seq<char> {
    "Luna4 must have exactly "@ + decimal(LUNA4_ENERGY_CELL_COUNT as nat) + " energy cells, got "@
        + decimal(cell_count)
}

/// The detail message when no cell holds a charge.
pub open spec fn no_charged_cell_message() -> Seq<char> {
    "No charged energy cells available"@
}

/// The cells after charging the first discharged one (all charged: unchanged).
pub open spec fn charged_once(cells: Seq<bool>) -> Seq<bool> {
    if cells.contains(false) {
        cells.update(first_index_of(cells, false), true)
    } else {
        cells
    }
}

/// Manages Luna4's energy cells with constraint validation.
#[derive(Debug)]
pub struct EnergyManager {
    /// Number of energy cells (always 5 for Luna4)
    cell_count: usize,
}

impl EnergyManager {
    #[verifier::type_invariant]
    spec fn has_luna4_cell_count(&self) -> bool {
        self.cell_count == LUNA4_ENERGY_CELL_COUNT
    }

    /// Creates a new energy manager; Luna4 must have exactly five cells.
    pub fn new(cell_count: usize) -> (r: Result<Self, Luna4Error>)
        ensures
            cell_count == LUNA4_ENERGY_CELL_COUNT <==> r is Ok,
            r matches Err(e) ==> e matches Luna4Error::EnergyError(m) && m@ == cell_count_message(
                cell_count as nat,
            ),
    {
        if cell_count != LUNA4_ENERGY_CELL_COUNT {
            let mut m = String::from_str("Luna4 must have exactly ");
            let expected = decimal_string(LUNA4_ENERGY_CELL_COUNT as u64);
            m.append(expected.as_str());
            m.append(" energy cells, got ");
            let got = decimal_string(cell_count as u64);
            m.append(got.as_str());
            return Err(Luna4Error::EnergyError(m));
        }
        Ok(EnergyManager { cell_count })
    }

    /// Charges the first discharged energy cell with a sunray; when every
    /// cell is charged the sunray is wasted, which is normal operation.
    pub fn charge_cell(&self, sunray: Sunray, state: &mut PlanetState) -> (r: Result<(), Luna4Error>)
        ensures
            r is Ok,
            cell_charges(*final(state)) == charged_once(cell_charges(*old(state))),
            planet_has_rocket(*final(state)) == planet_has_rocket(*old(state)),
            !cell_charges(*old(state)).contains(false) ==> *final(state) == *old(state),
    {
        match charge_first_empty_cell(state, sunray) {
            Some(_wasted_sunray) => Ok(()),
            None => Ok(()),
        }
    }

    /// Uses the first charged energy cell to generate `resource` with the
    /// planet's generator.
    pub fn use_energy_cell(
        &self,
        state: &mut PlanetState,
        generator: &Generator,
        resource: BasicResourceType,
    ) -> (r: Result<BasicResource, Luna4Error>)
        ensures
            !cell_charges(*old(state)).contains(true) ==> {
                &&& (r matches Err(Luna4Error::EnergyError(m)) && m@ == no_charged_cell_message())
                &&& *final(state) == *old(state)
            },
            cell_charges(*old(state)).contains(true) ==> {
                &&& (r is Ok <==> generator_recipes(*generator).contains(resource))
                &&& r is Ok ==> cell_charges(*final(state)) == cell_charges(*old(state)).update(
                    first_index_of(cell_charges(*old(state)), true),
                    false,
                )
                &&& r is Ok ==> planet_has_rocket(*final(state)) == planet_has_rocket(*old(state))
                &&& r is Err ==> (r matches Err(Luna4Error::EnergyError(m)) && m@
                    == try_make_error_text(true, resource))
                &&& r is Err ==> *final(state) == *old(state)
            },
    {
        proof {
            lemma_first_index_of(cell_charges(*state), true);
        }
        match first_charged_cell(state) {
            Some(index) => {
                match generator_try_make(generator, resource, state, index) {
                    Ok(made) => Ok(made),
                    Err(e) => Err(Luna4Error::EnergyError(e)),
                }
            },
            None => Err(Luna4Error::EnergyError(String::from_str("No charged energy cells available"))),
        }
    }

    /// Returns the number of currently charged energy cells among the five.
    pub fn available_charged_cells(&self, state: &PlanetState) -> (n: usize)
        requires
            cell_charges(*state).len() >= LUNA4_ENERGY_CELL_COUNT,
        ensures
            n == count_charged(cell_charges(*state).take(LUNA4_ENERGY_CELL_COUNT as int)),
            n <= LUNA4_ENERGY_CELL_COUNT,
    {
        proof {
            use_type_invariant(self);
        }
        let ghost cells = cell_charges(*state);
        let mut n: usize = 0;
        let mut i: usize = 0;
        while i < self.cell_count
            invariant
                self.cell_count == LUNA4_ENERGY_CELL_COUNT,
                cells == cell_charges(*state),
                cells.len() >= LUNA4_ENERGY_CELL_COUNT,
                i <= self.cell_count,
                n == count_charged(cells.take(i as int)),
                n <= i,
            decreases self.cell_count - i,
        {
            assert(cells.take(i + 1).drop_last() == cells.take(i as int));
            if cell_is_charged(state, i) {
                n = n + 1;
            }
            i = i + 1;
        }
        proof {
            lemma_count_charged_bound(cells.take(i as int));
        }
        n
    }

    /// Returns the total number of energy cells (always 5 for Luna4).
    pub fn total_cells(&self) -> (n: usize)
        ensures
            n == LUNA4_ENERGY_CELL_COUNT,
    {
        proof {
            use_type_invariant(self);
        }
        self.cell_count
    }
}

/// A sunray charges exactly one more cell unless every cell is already
/// charged, and afterwards some cell holds a charge (when there are cells).
pub proof fn lemma_sunray_charges_one_cell(cells: Seq<bool>)
    ensures
        cells.contains(false) ==> count_charged(charged_once(cells)) == count_charged(cells) + 1,
        !cells.contains(false) ==> count_charged(charged_once(cells)) == count_charged(cells),
        cells.len() > 0 ==> charged_once(cells).contains(true),
        charged_once(cells).len() == cells.len(),
{
    lemma_first_index_of(cells, false);
    if cells.contains(false) {
        let i = first_index_of(cells, false);
        lemma_count_charged_update(cells, i, true);
        assert(charged_once(cells)[i]);
    } else if cells.len() > 0 {
        assert(cells[0] == true);
    }
}

} // verus!
