//! The decisions of the Luna4 planet AI.
//!
//! Each handler keeps the lunar phase up to date, tracks explorers and
//! statistics, and answers requests according to the current phase:
//! only the basic resources of the phase can be generated, each
//! generation uses the first charged energy cell, and Luna4 (Type D)
//! never combines resources nor builds rockets.
use vstd::prelude::*;

use common_game::components::planet::PlanetState;
use common_game::components::resource::{BasicResource, GenericResource, Generator};
use common_game::components::rocket::Rocket;
use common_game::components::sunray::Sunray;

use crate::clock::Moment;
use crate::cycle::{LunarPhase, PHASE_SECONDS};
use crate::energy::{charged_once, EnergyManager, LUNA4_ENERGY_CELL_COUNT};
use crate::game::{
    cell_charges, count_charged, first_index_of, generator_recipes, lemma_count_charged_update,
    lemma_first_index_of, planet_has_rocket, planet_snapshot, PlanetSnapshot,
};
use crate::luna4::Luna4Id;
use crate::resources::{
    all_basic_list, all_basic_resources, contains_resource, phase_offers, phase_resource_list,
    BasicResourceType, ComplexResourceType, ResourceManager,
};
use crate::state::Luna4State;
use crate::stats::Luna4Stats;

verus! {

/// A request an explorer sends to the planet.
#[derive(Debug)]
pub enum ExplorerRequest {
    /// Which basic resources can be generated now?
    SupportedResourceRequest { explorer_id: u32 },
    /// Which complex resources can be combined?
    SupportedCombinationRequest { explorer_id: u32 },
    /// Generate one basic resource.
    GenerateResourceRequest { explorer_id: u32, resource: BasicResourceType },
    /// Combine the two resources `lhs` and `rhs` into a complex one.
    CombineResourceRequest { explorer_id: u32, lhs: GenericResource, rhs: GenericResource },
    /// How many energy cells are charged?
    AvailableEnergyCellRequest { explorer_id: u32 },
}

impl ExplorerRequest {
    /// The explorer that sent the request.
    pub open spec fn sender(self) -> u32 {
        match self {
            ExplorerRequest::SupportedResourceRequest { explorer_id } => explorer_id,
            ExplorerRequest::SupportedCombinationRequest { explorer_id } => explorer_id,
            ExplorerRequest::GenerateResourceRequest { explorer_id, .. } => explorer_id,
            ExplorerRequest::CombineResourceRequest { explorer_id, .. } => explorer_id,
            ExplorerRequest::AvailableEnergyCellRequest { explorer_id } => explorer_id,
        }
    }

    /// Returns the explorer that sent the request.
    pub fn explorer_id(&self) -> (id: u32)
        ensures
            id == self.sender(),
    {
        match self {
            ExplorerRequest::SupportedResourceRequest { explorer_id } => *explorer_id,
            ExplorerRequest::SupportedCombinationRequest { explorer_id } => *explorer_id,
            ExplorerRequest::GenerateResourceRequest { explorer_id, .. } => *explorer_id,
            ExplorerRequest::CombineResourceRequest { explorer_id, .. } => *explorer_id,
            ExplorerRequest::AvailableEnergyCellRequest { explorer_id } => *explorer_id,
        }
    }
}

/// The planet's answer to an explorer request.
#[derive(Debug)]
pub enum ExplorerResponse {
    /// The basic resources that can be generated now.
    SupportedResourceResponse { resource_list: Vec<BasicResourceType> },
    /// The complex resources that can be combined.
    SupportedCombinationResponse { combination_list: Vec<ComplexResourceType> },
    /// The generated resource, or `None` when generation failed.
    GenerateResourceResponse { resource: Option<BasicResource> },
    /// Combination refused, with the reason; the two resources of the
    /// request go back to the explorer.
    CombineResourceRefused { reason: String, lhs: GenericResource, rhs: GenericResource },
    /// The number of charged energy cells.
    AvailableEnergyCellResponse { available_cells: u32 },
}

/// Why Luna4 refuses every combination request.
pub open spec fn combination_refusal() -> Seq<char> {
    "Luna4 (Type D) does not support resource combination"@
}

/// Whether a request to generate `resource` during `phase` succeeds: the
/// phase offers it, some cell is charged and the generator has its recipe.
pub open spec fn generation_succeeds(
    phase: LunarPhase,
    cells: Seq<bool>,
    recipes: Set<BasicResourceType>,
    resource: BasicResourceType,
) -> bool {
    &&& phase_offers(phase, resource)
    &&& cells.contains(true)
    &&& recipes.contains(resource)
}

/// The counters after answering `msg` during `phase`: one more explorer
/// message, plus one success or one failure for generation requests and
/// one failure for combination requests.
pub open spec fn stats_after(
    pre: Luna4Stats,
    phase: LunarPhase,
    cells: Seq<bool>,
    recipes: Set<BasicResourceType>,
    msg: ExplorerRequest,
) -> Luna4Stats {
    let s = Luna4Stats {
        explorer_messages_processed: (pre.explorer_messages_processed + 1) as usize,
        ..pre
    };
    match msg {
        ExplorerRequest::GenerateResourceRequest { resource, .. } => {
            if generation_succeeds(phase, cells, recipes, resource) {
                Luna4Stats { successful_generations: (s.successful_generations + 1) as usize, ..s }
            } else {
                Luna4Stats { failed_generations: (s.failed_generations + 1) as usize, ..s }
            }
        },
        ExplorerRequest::CombineResourceRequest { .. } => {
            Luna4Stats { failed_generations: (s.failed_generations + 1) as usize, ..s }
        },
        _ => s,
    }
}

/// The energy cells after answering `msg`: a successful generation
/// discharges the first charged cell; nothing else touches the cells.
pub open spec fn cells_after(
    phase: LunarPhase,
    cells: Seq<bool>,
    recipes: Set<BasicResourceType>,
    msg: ExplorerRequest,
) -> Seq<bool> {
    match msg {
        ExplorerRequest::GenerateResourceRequest { resource, .. } => {
            if generation_succeeds(phase, cells, recipes, resource) {
                cells.update(first_index_of(cells, true), false)
            } else {
                cells
            }
        },
        _ => cells,
    }
}

/// Whether `resp` is the planet's answer to `msg` during `phase`.
pub open spec fn answers(
    phase: LunarPhase,
    cells: Seq<bool>,
    recipes: Set<BasicResourceType>,
    msg: ExplorerRequest,
    resp: ExplorerResponse,
) -> bool {
    match msg {
        ExplorerRequest::SupportedResourceRequest { .. } => {
            resp matches ExplorerResponse::SupportedResourceResponse { resource_list }
                && resource_list@ == phase_resource_list(phase)
        },
        ExplorerRequest::SupportedCombinationRequest { .. } => {
            resp matches ExplorerResponse::SupportedCombinationResponse { combination_list }
                && combination_list@ == Seq::<ComplexResourceType>::empty()
        },
        ExplorerRequest::GenerateResourceRequest { resource: wanted, .. } => {
            resp matches ExplorerResponse::GenerateResourceResponse { resource }
                && (resource is Some <==> generation_succeeds(phase, cells, recipes, wanted))
        },
        ExplorerRequest::CombineResourceRequest { lhs, rhs, .. } => {
            &&& resp matches ExplorerResponse::CombineResourceRefused {
                reason,
                lhs: returned_lhs,
                rhs: returned_rhs,
            }
            &&& reason@ == combination_refusal()
            &&& returned_lhs == lhs
            &&& returned_rhs == rhs
        },
        ExplorerRequest::AvailableEnergyCellRequest { .. } => {
            resp matches ExplorerResponse::AvailableEnergyCellResponse { available_cells }
                && available_cells == count_charged(cells.take(LUNA4_ENERGY_CELL_COUNT as int))
        },
    }
}

/// What answering `msg` during `phase` needs: the counters it bumps are
/// below their maximum, and counting charged cells needs all five cells.
pub open spec fn can_answer(
    stats: Luna4Stats,
    phase: LunarPhase,
    cells: Seq<bool>,
    recipes: Set<BasicResourceType>,
    msg: ExplorerRequest,
) -> bool {
    &&& stats.explorer_messages_processed < usize::MAX
    &&& match msg {
        ExplorerRequest::GenerateResourceRequest { resource, .. } => {
            &&& generation_succeeds(phase, cells, recipes, resource) ==> stats.successful_generations
                < usize::MAX
            &&& !generation_succeeds(phase, cells, recipes, resource) ==> stats.failed_generations
                < usize::MAX
        },
        ExplorerRequest::CombineResourceRequest { .. } => stats.failed_generations < usize::MAX,
        ExplorerRequest::AvailableEnergyCellRequest { .. } => cells.len()
            >= LUNA4_ENERGY_CELL_COUNT,
        _ => true,
    }
}

/// Available resources information for the visualizer.
#[derive(Debug, Clone)]
pub struct AvailableResources {
    /// Current lunar phase (real-time)
    pub current_phase: LunarPhase,
    /// Basic resources available in the current phase
    pub basic_resources: Vec<BasicResourceType>,
    /// All possible resources Luna4 can generate (unbounded generation list)
    pub all_possible_resources: Vec<BasicResourceType>,
}

impl AvailableResources {
    /// Creates a new AvailableResources value.
    pub fn new(
        current_phase: LunarPhase,
        basic_resources: Vec<BasicResourceType>,
        all_possible_resources: Vec<BasicResourceType>,
    ) -> (r: Self)
        ensures
            r.current_phase == current_phase,
            r.basic_resources@ == basic_resources@,
            r.all_possible_resources@ == all_possible_resources@,
    {
        AvailableResources { current_phase, basic_resources, all_possible_resources }
    }
}

/// Real-time access to a planet's state for the visualizer.
pub trait PlanetVisualizer {
    /// The current lunar phase and the resources available right now.
    fn get_current_resources(&self) -> AvailableResources;
}

/// Luna4 AI: the planet state, its energy management (5 cells) and its
/// phase-based resource management.
#[derive(Debug)]
pub struct Luna4AI {
    /// Planet state (current phase, explorer presence, statistics)
    state: Luna4State,
    /// Energy management system (5 energy cells)
    energy: EnergyManager,
    /// Resource management system (phase-based availability)
    resources: ResourceManager,
}

/// The AI is seen as the planet state it tracks.
impl View for Luna4AI {
    type V = Luna4State;

    closed spec fn view(&self) -> Luna4State {
        self.state
    }
}

impl Luna4AI {
    /// The AI's energy and resource managers.
    pub closed spec fn parts(&self) -> (EnergyManager, ResourceManager) {
        (self.energy, self.resources)
    }

    /// Returns the planet state the AI tracks.
    pub fn state(&self) -> (s: &Luna4State)
        ensures
            *s == self@,
    {
        &self.state
    }

    /// Returns the AI's energy manager.
    pub fn energy(&self) -> (e: &EnergyManager)
        ensures
            *e == self.parts().0,
    {
        &self.energy
    }

    /// Whether the phase of `post` is the phase of `pre` or the one after it.
    pub open spec fn phase_kept_or_advanced(pre: &Luna4AI, post: &Luna4AI) -> bool {
        ||| post@.current_phase == pre@.current_phase
        ||| post@.current_phase == pre@.current_phase.following()
    }

    /// Whether `post` is `pre` after a phase update: the clock was read from
    /// the start of `pre`'s phase, and the phase moved to the next one
    /// exactly when a whole phase (105 s) had elapsed, the new phase then
    /// starting at a fresh clock reading.
    pub open spec fn phase_updated(pre: &Luna4AI, post: &Luna4AI) -> bool {
        &&& post@.phase_age.started_at() == pre@.phase_start_time
        &&& post@.phase_age.seconds() >= PHASE_SECONDS ==> {
            &&& post@.current_phase == pre@.current_phase.following()
            &&& post@.phase_start_time == post@.phase_started.instant()
        }
        &&& post@.phase_age.seconds() < PHASE_SECONDS ==> {
            &&& post@.current_phase == pre@.current_phase
            &&& post@.phase_start_time == pre@.phase_start_time
        }
    }

    /// Creates a new Luna4 AI instance in its initial state.
    pub fn new(id: Luna4Id, energy: EnergyManager, resources: ResourceManager) -> (ai: Self)
        ensures
            ai@.id == id@,
            ai@.current_phase == LunarPhase::NewMoon,
            ai@.present_explorers@ == Set::<u32>::empty(),
            ai@.stats.is_zero(),
            ai.parts() == (energy, resources),
    {
        Luna4AI { state: Luna4State::new(id.as_u32()), energy, resources }
    }

    /// Handles a sunray: updates the phase, counts the sunray and charges
    /// the first discharged cell (the sunray is wasted when all are charged).
    pub fn handle_sunray(&mut self, state: &mut PlanetState, sunray: Sunray)
        requires
            old(self)@.stats.sunrays_received < usize::MAX,
        ensures
            Self::phase_kept_or_advanced(old(self), final(self)),
            Self::phase_updated(old(self), final(self)),
            final(self)@.stats == (Luna4Stats {
                sunrays_received: (old(self)@.stats.sunrays_received + 1) as usize,
                ..old(self)@.stats
            }),
            final(self)@.present_explorers@ == old(self)@.present_explorers@,
            final(self)@.id == old(self)@.id,
            cell_charges(*final(state)) == charged_once(cell_charges(*old(state))),
            planet_has_rocket(*final(state)) == planet_has_rocket(*old(state)),
            !cell_charges(*old(state)).contains(false) ==> *final(state) == *old(state),
    {
        self.state.update_phase();
        self.state.stats.record_sunray_received();
        if let Err(_e) = self.energy.charge_cell(sunray, state) {
            self.state.stats.record_failed_generation();
        }
    }

    /// Handles an asteroid: updates the phase; a Type D planet has no rockets.
    pub fn handle_asteroid(&mut self) -> (rocket: Option<Rocket>)
        ensures
            rocket is None,
            Self::phase_kept_or_advanced(old(self), final(self)),
            Self::phase_updated(old(self), final(self)),
            final(self)@.stats == old(self)@.stats,
            final(self)@.present_explorers@ == old(self)@.present_explorers@,
            final(self)@.id == old(self)@.id,
    {
        self.state.update_phase();
        None
    }

    /// Handles a request for the planet's internal state: updates the phase
    /// and returns a snapshot of the planet state.
    pub fn handle_internal_state_req(&mut self, state: &PlanetState) -> (snapshot: PlanetSnapshot)
        ensures
            snapshot.energy_cells@ == cell_charges(*state),
            snapshot.charged_cells_count == count_charged(cell_charges(*state)),
            snapshot.has_rocket == planet_has_rocket(*state),
            Self::phase_kept_or_advanced(old(self), final(self)),
            Self::phase_updated(old(self), final(self)),
            final(self)@.stats == old(self)@.stats,
            final(self)@.present_explorers@ == old(self)@.present_explorers@,
            final(self)@.id == old(self)@.id,
    {
        self.state.update_phase();
        planet_snapshot(state)
    }

    /// Answers an explorer request during the current phase: registers the
    /// explorer, then answers as `answers` describes.
    pub fn respond_to_explorer(
        &mut self,
        state: &mut PlanetState,
        generator: &Generator,
        msg: ExplorerRequest,
    ) -> (resp: ExplorerResponse)
        requires
            can_answer(
                old(self)@.stats,
                old(self)@.current_phase,
                cell_charges(*old(state)),
                generator_recipes(*generator),
                msg,
            ),
        ensures
            answers(
                old(self)@.current_phase,
                cell_charges(*old(state)),
                generator_recipes(*generator),
                msg,
                resp,
            ),
            final(self)@.stats == stats_after(
                old(self)@.stats,
                old(self)@.current_phase,
                cell_charges(*old(state)),
                generator_recipes(*generator),
                msg,
            ),
            cell_charges(*final(state)) == cells_after(
                old(self)@.current_phase,
                cell_charges(*old(state)),
                generator_recipes(*generator),
                msg,
            ),
            planet_has_rocket(*final(state)) == planet_has_rocket(*old(state)),
            !request_generates(
                old(self)@.current_phase,
                cell_charges(*old(state)),
                generator_recipes(*generator),
                msg,
            ) ==> *final(state) == *old(state),
            final(self)@.present_explorers@ == old(self)@.present_explorers@.insert(
                msg.sender(),
            ),
            final(self)@.current_phase == old(self)@.current_phase,
            final(self)@.phase_start_time == old(self)@.phase_start_time,
            final(self)@.phase_started == old(self)@.phase_started,
            final(self)@.phase_age == old(self)@.phase_age,
            final(self)@.id == old(self)@.id,
            final(self).parts() == old(self).parts(),
            msg matches ExplorerRequest::GenerateResourceRequest { resource: wanted, .. } ==> (
            resp matches ExplorerResponse::GenerateResourceResponse { resource } && (resource is Some
                <==> (phase_offers(old(self)@.current_phase, wanted) && cell_charges(
                *old(state),
            ).contains(true) && generator_recipes(*generator).contains(wanted)))),
    {
        let current_phase = self.state.current_phase;
        let available = self.resources.get_available_resources(current_phase);
        self.state.register_explorer_arrival(msg.explorer_id());
        self.state.stats.record_explorer_message_processed();
        match msg {
            ExplorerRequest::SupportedResourceRequest { .. } => {
                ExplorerResponse::SupportedResourceResponse { resource_list: available.basic }
            },
            ExplorerRequest::SupportedCombinationRequest { .. } => {
                // Luna4 doesn't support complex resources
                ExplorerResponse::SupportedCombinationResponse { combination_list: available.complex }
            },
            ExplorerRequest::GenerateResourceRequest { resource, .. } => {
                // The resource must be available in the current phase
                if !contains_resource(&available.basic, resource) {
                    self.state.stats.record_failed_generation();
                    return ExplorerResponse::GenerateResourceResponse { resource: None };
                }
                match self.energy.use_energy_cell(state, generator, resource) {
                    Ok(generated) => {
                        self.state.stats.record_successful_generation();
                        ExplorerResponse::GenerateResourceResponse { resource: Some(generated) }
                    },
                    Err(_) => {
                        self.state.stats.record_failed_generation();
                        ExplorerResponse::GenerateResourceResponse { resource: None }
                    },
                }
            },
            ExplorerRequest::AvailableEnergyCellRequest { .. } => {
                let available_cells = self.energy.available_charged_cells(state);
                ExplorerResponse::AvailableEnergyCellResponse {
                    available_cells: available_cells as u32,
                }
            },
            ExplorerRequest::CombineResourceRequest { lhs, rhs, .. } => {
                // Type D: no combination support; both resources go back
                self.state.stats.record_failed_generation();
                ExplorerResponse::CombineResourceRefused {
                    reason: String::from_str("Luna4 (Type D) does not support resource combination"),
                    lhs,
                    rhs,
                }
            },
        }
    }

    /// Handles an explorer request: updates the lunar phase, then answers
    /// during the resulting phase as `respond_to_explorer` does.
    pub fn handle_explorer_msg(
        &mut self,
        state: &mut PlanetState,
        generator: &Generator,
        msg: ExplorerRequest,
    ) -> (resp: ExplorerResponse)
        requires
            can_answer(
                old(self)@.stats,
                old(self)@.current_phase,
                cell_charges(*old(state)),
                generator_recipes(*generator),
                msg,
            ),
            can_answer(
                old(self)@.stats,
                old(self)@.current_phase.following(),
                cell_charges(*old(state)),
                generator_recipes(*generator),
                msg,
            ),
        ensures
            Self::phase_kept_or_advanced(old(self), final(self)),
            Self::phase_updated(old(self), final(self)),
            msg matches ExplorerRequest::GenerateResourceRequest { resource: wanted, .. } ==> (
            resp matches ExplorerResponse::GenerateResourceResponse { resource } && (resource is Some
                <==> (phase_offers(final(self)@.current_phase, wanted) && cell_charges(
                *old(state),
            ).contains(true) && generator_recipes(*generator).contains(wanted)))),
            answers(
                final(self)@.current_phase,
                cell_charges(*old(state)),
                generator_recipes(*generator),
                msg,
                resp,
            ),
            final(self)@.stats == stats_after(
                old(self)@.stats,
                final(self)@.current_phase,
                cell_charges(*old(state)),
                generator_recipes(*generator),
                msg,
            ),
            cell_charges(*final(state)) == cells_after(
                final(self)@.current_phase,
                cell_charges(*old(state)),
                generator_recipes(*generator),
                msg,
            ),
            planet_has_rocket(*final(state)) == planet_has_rocket(*old(state)),
            !request_generates(
                final(self)@.current_phase,
                cell_charges(*old(state)),
                generator_recipes(*generator),
                msg,
            ) ==> *final(state) == *old(state),
            final(self)@.present_explorers@ == old(self)@.present_explorers@.insert(
                msg.sender(),
            ),
            final(self)@.id == old(self)@.id,
            final(self)@.current_phase == old(self)@.current_phase
                ==> final(self)@.phase_start_time == old(self)@.phase_start_time,
            final(self).parts() == old(self).parts(),
    {
        proof {
            crate::cycle::lemma_next_cycles(self.state.current_phase);
        }
        self.state.update_phase();
        self.respond_to_explorer(state, generator, msg)
    }

    /// Registers an explorer landing on the planet.
    pub fn on_explorer_arrival(&mut self, explorer_id: u32)
        ensures
            final(self)@.present_explorers@ == old(self)@.present_explorers@.insert(
                explorer_id,
            ),
            final(self)@.stats == old(self)@.stats,
            final(self)@.current_phase == old(self)@.current_phase,
            final(self)@.id == old(self)@.id,
    {
        self.state.register_explorer_arrival(explorer_id);
    }

    /// Registers an explorer leaving the planet.
    pub fn on_explorer_departure(&mut self, explorer_id: u32)
        ensures
            final(self)@.present_explorers@ == old(self)@.present_explorers@.remove(
                explorer_id,
            ),
            final(self)@.stats == old(self)@.stats,
            final(self)@.current_phase == old(self)@.current_phase,
            final(self)@.id == old(self)@.id,
    {
        self.state.register_explorer_departure(explorer_id);
    }

    /// The planet starts operating: the current phase starts now, at a
    /// fresh clock reading.
    pub fn on_start(&mut self)
        ensures
            final(self)@.phase_start_time == final(self)@.phase_started.instant(),
            final(self)@.current_phase == old(self)@.current_phase,
            final(self)@.present_explorers@ == old(self)@.present_explorers@,
            final(self)@.stats == old(self)@.stats,
            final(self)@.id == old(self)@.id,
    {
        let started = Moment::now();
        self.state.phase_start_time = started.at();
        self.state.phase_started = started;
    }
}

impl PlanetVisualizer for Luna4AI {
    /// The current phase, the resources it offers, and every resource
    /// Luna4 can generate.
    fn get_current_resources(&self) -> (r: AvailableResources)
        ensures
            r.current_phase == self@.current_phase,
            r.basic_resources@ == phase_resource_list(self@.current_phase),
            r.all_possible_resources@ == all_basic_list(),
    {
        let current_phase = self.state.current_phase;
        let phase_resources = self.resources.get_available_resources(current_phase);
        AvailableResources {
            current_phase,
            basic_resources: phase_resources.basic,
            all_possible_resources: all_basic_resources(),
        }
    }
}

/// Whether answering `msg` during `phase` generates a resource.
pub open spec fn request_generates(
    phase: LunarPhase,
    cells: Seq<bool>,
    recipes: Set<BasicResourceType>,
    msg: ExplorerRequest,
) -> bool {
    match msg {
        ExplorerRequest::GenerateResourceRequest { resource, .. } => generation_succeeds(
            phase,
            cells,
            recipes,
            resource,
        ),
        _ => false,
    }
}

/// Answering an explorer uses energy only for a successful generation, and
/// then exactly one charged cell; a generation succeeds only for a resource
/// the current phase offers.
pub proof fn lemma_generation_uses_one_cell(
    phase: LunarPhase,
    cells: Seq<bool>,
    recipes: Set<BasicResourceType>,
    msg: ExplorerRequest,
)
    ensures
        cells_after(phase, cells, recipes, msg).len() == cells.len(),
        request_generates(phase, cells, recipes, msg) ==> count_charged(
            cells_after(phase, cells, recipes, msg),
        ) + 1 == count_charged(cells),
        !request_generates(phase, cells, recipes, msg) ==> cells_after(phase, cells, recipes, msg)
            == cells,
        msg matches ExplorerRequest::GenerateResourceRequest { resource, .. } ==> (
        request_generates(phase, cells, recipes, msg) ==> phase_offers(phase, resource)),
{
    lemma_first_index_of(cells, true);
    if request_generates(phase, cells, recipes, msg) {
        lemma_count_charged_update(cells, first_index_of(cells, true), false);
    }
}

/// Asked which basic resources can be generated, the planet lists those the
/// current phase offers; asked which complex resources can be combined, it
/// lists none. Either answer only counts the message: no generation is
/// counted and no energy cell is used.
pub proof fn lemma_supported_queries(
    stats: Luna4Stats,
    phase: LunarPhase,
    cells: Seq<bool>,
    recipes: Set<BasicResourceType>,
    msg: ExplorerRequest,
    resp: ExplorerResponse,
)
    requires
        msg is SupportedResourceRequest || msg is SupportedCombinationRequest,
        answers(phase, cells, recipes, msg, resp),
    ensures
        msg is SupportedResourceRequest ==> (resp matches ExplorerResponse::SupportedResourceResponse {
            resource_list,
        } && resource_list@ == phase_resource_list(phase)),
        msg is SupportedCombinationRequest ==> (
        resp matches ExplorerResponse::SupportedCombinationResponse { combination_list }
            && combination_list@.len() == 0),
        stats_after(stats, phase, cells, recipes, msg) == (Luna4Stats {
            explorer_messages_processed: (stats.explorer_messages_processed + 1) as usize,
            ..stats
        }),
        cells_after(phase, cells, recipes, msg) == cells,
        !request_generates(phase, cells, recipes, msg),
{
}

/// A combination request is always refused with the same reason, and the
/// refusal hands back exactly the two resources of the request; it counts
/// one failed generation and uses no energy cell.
pub proof fn lemma_combination_refused(
    stats: Luna4Stats,
    phase: LunarPhase,
    cells: Seq<bool>,
    recipes: Set<BasicResourceType>,
    msg: ExplorerRequest,
    resp: ExplorerResponse,
)
    requires
        msg is CombineResourceRequest,
        answers(phase, cells, recipes, msg, resp),
    ensures
        resp matches ExplorerResponse::CombineResourceRefused { reason, lhs, rhs } && reason@
            == combination_refusal() && lhs == msg->CombineResourceRequest_lhs && rhs
            == msg->CombineResourceRequest_rhs,
        stats_after(stats, phase, cells, recipes, msg) == (Luna4Stats {
            explorer_messages_processed: (stats.explorer_messages_processed + 1) as usize,
            failed_generations: (stats.failed_generations + 1) as usize,
            ..stats
        }),
        cells_after(phase, cells, recipes, msg) == cells,
        !request_generates(phase, cells, recipes, msg),
{
}

/// A request to generate `r` succeeds exactly when the phase offers `r`,
/// some energy cell is charged and the generator has the recipe for `r`
/// itself (a recipe for any other resource does not matter). A success
/// discharges the first charged cell and counts one successful generation;
/// a failure leaves the cells and counts one failed generation.
pub proof fn lemma_generation_request(
    stats: Luna4Stats,
    phase: LunarPhase,
    cells: Seq<bool>,
    recipes: Set<BasicResourceType>,
    msg: ExplorerRequest,
    resp: ExplorerResponse,
)
    requires
        msg is GenerateResourceRequest,
        answers(phase, cells, recipes, msg, resp),
    ensures
        ({
            let r = msg->GenerateResourceRequest_resource;
            let made = phase_offers(phase, r) && cells.contains(true) && recipes.contains(r);
            &&& resp matches ExplorerResponse::GenerateResourceResponse { resource } && (resource
                is Some <==> made)
            &&& forall|other: Set<BasicResourceType>|
                other.contains(r) == recipes.contains(r) ==> (answers(
                    phase,
                    cells,
                    other,
                    msg,
                    resp,
                ) <==> answers(phase, cells, recipes, msg, resp))
            &&& made ==> cells_after(phase, cells, recipes, msg) == cells.update(
                first_index_of(cells, true),
                false,
            )
            &&& !made ==> cells_after(phase, cells, recipes, msg) == cells
            &&& made ==> stats_after(stats, phase, cells, recipes, msg) == (Luna4Stats {
                explorer_messages_processed: (stats.explorer_messages_processed + 1) as usize,
                successful_generations: (stats.successful_generations + 1) as usize,
                ..stats
            })
            &&& !made ==> stats_after(stats, phase, cells, recipes, msg) == (Luna4Stats {
                explorer_messages_processed: (stats.explorer_messages_processed + 1) as usize,
                failed_generations: (stats.failed_generations + 1) as usize,
                ..stats
            })
        }),
{
}

/// Updates chain around the lunar cycle: four updates in a row, each
/// made after a whole phase (105 s) had elapsed, bring the planet back to
/// the phase it started in; an update made earlier leaves the phase and
/// its start as they were.
pub proof fn lemma_phase_updates_cycle(a: Luna4AI, b: Luna4AI, c: Luna4AI, d: Luna4AI, e: Luna4AI)
    requires
        Luna4AI::phase_updated(&a, &b),
        Luna4AI::phase_updated(&b, &c),
        Luna4AI::phase_updated(&c, &d),
        Luna4AI::phase_updated(&d, &e),
    ensures
        b@.phase_age.seconds() >= PHASE_SECONDS && c@.phase_age.seconds() >= PHASE_SECONDS
            && d@.phase_age.seconds() >= PHASE_SECONDS && e@.phase_age.seconds() >= PHASE_SECONDS
            ==> e@.current_phase == a@.current_phase && b@.current_phase != a@.current_phase,
        b@.phase_age.seconds() < PHASE_SECONDS ==> b@.current_phase == a@.current_phase
            && b@.phase_start_time == a@.phase_start_time,
        c@.phase_age.started_at() == b@.phase_start_time,
{
    crate::cycle::lemma_next_cycles(a@.current_phase);
}

/// An explorer asking which resources can be generated is answered for
/// the phase a phase update gives: when a whole phase (105 s) has elapsed
/// since the current phase started, the answer lists the next phase's
/// resources, otherwise the current phase's.
pub proof fn lemma_answer_after_phase_update(
    pre: Luna4AI,
    post: Luna4AI,
    cells: Seq<bool>,
    recipes: Set<BasicResourceType>,
    msg: ExplorerRequest,
    resp: ExplorerResponse,
)
    requires
        msg is SupportedResourceRequest,
        Luna4AI::phase_updated(&pre, &post),
        answers(post@.current_phase, cells, recipes, msg, resp),
    ensures
        post@.phase_age.started_at() == pre@.phase_start_time,
        post@.phase_age.seconds() >= PHASE_SECONDS ==> (
        resp matches ExplorerResponse::SupportedResourceResponse { resource_list }
            && resource_list@ == phase_resource_list(pre@.current_phase.following())),
        post@.phase_age.seconds() < PHASE_SECONDS ==> (
        resp matches ExplorerResponse::SupportedResourceResponse { resource_list }
            && resource_list@ == phase_resource_list(pre@.current_phase)),
{
}

/// After the planet starts, the next phase update measures the time
/// elapsed from the moment of the start.
pub proof fn lemma_start_then_update(started: Luna4AI, post: Luna4AI)
    requires
        started@.phase_start_time == started@.phase_started.instant(),
        Luna4AI::phase_updated(&started, &post),
    ensures
        post@.phase_age.started_at() == started@.phase_started.instant(),
        post@.phase_age.seconds() < PHASE_SECONDS ==> post@.phase_start_time
            == started@.phase_started.instant(),
{
}

} // verus!
