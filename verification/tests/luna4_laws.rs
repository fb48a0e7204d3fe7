//! Concrete checks of the library's laws, edge cases and trusted calls.

use common_game::components::planet::{
    DummyPlanetState, Planet, PlanetAI, PlanetState, PlanetType,
};
use common_game::components::energy_cell::EnergyCell;
use common_game::components::forge::Forge;
use common_game::components::resource::{
    BasicResourceType as GameResource, Combinator, GenericResource, Generator,
};
use common_game::components::rocket::Rocket;
use common_game::components::sunray::Sunray;
use common_game::protocols::orchestrator_planet::{OrchestratorToPlanet, PlanetToOrchestrator};
use common_game::protocols::planet_explorer::{ExplorerToPlanet, PlanetToExplorer};

use luna4::logging::{
    explorer_interaction_message, phase_transition_message, resource_generation_message,
};
use luna4::{
    AvailableResources, BasicResourceType, EnergyManager, ExplorerRequest, Luna4, Luna4AI,
    Luna4Error, Luna4Id, Luna4State, LunarCycle, LunarPhase, PhaseResources, PlanetVisualizer,
    ResourceManager,
};

const ALL_PHASES: [LunarPhase; 4] = [
    LunarPhase::NewMoon,
    LunarPhase::FirstQuarter,
    LunarPhase::FullMoon,
    LunarPhase::LastQuarter,
];

/// A planet AI that does nothing, only used to build a game planet whose state can be read.
struct IdleAI;

impl PlanetAI for IdleAI {
    fn handle_sunray(&mut self, _: &mut PlanetState, _: &Generator, _: &Combinator, _: Sunray) {}

    fn handle_asteroid(
        &mut self,
        _: &mut PlanetState,
        _: &Generator,
        _: &Combinator,
    ) -> Option<Rocket> {
        None
    }

    fn handle_internal_state_req(
        &mut self,
        state: &mut PlanetState,
        _: &Generator,
        _: &Combinator,
    ) -> DummyPlanetState {
        state.to_dummy()
    }

    fn handle_explorer_msg(
        &mut self,
        _: &mut PlanetState,
        _: &Generator,
        _: &Combinator,
        _: ExplorerToPlanet,
    ) -> Option<PlanetToExplorer> {
        None
    }
}

fn type_d_planet() -> Planet {
    let (_tx_orch, rx_orch) = crossbeam_channel::unbounded::<OrchestratorToPlanet>();
    let (tx_planet, _rx_planet) = crossbeam_channel::unbounded::<PlanetToOrchestrator>();
    let (_tx_expl, rx_expl) = crossbeam_channel::unbounded::<ExplorerToPlanet>();
    Planet::new(
        7,
        PlanetType::D,
        Box::new(IdleAI),
        vec![GameResource::Oxygen],
        vec![],
        (rx_orch, tx_planet),
        rx_expl,
    )
    .unwrap()
}

fn fresh_ai() -> Luna4AI {
    Luna4::new(3).unwrap().into_blueprint().ai
}

#[test]
fn test_next_is_a_four_cycle() {
    for phase in ALL_PHASES {
        assert_ne!(phase.next(), phase);
        assert_eq!(phase.next().next().next().next(), phase);
    }
}

#[test]
fn test_phase_at_time_advances_and_repeats() {
    let cycle = LunarCycle::default();
    for t in [0u64, 1, 104, 105, 333, 419, 420, 1000] {
        assert_eq!(cycle.phase_at_time(t + 105), cycle.phase_at_time(t).next());
        assert_eq!(cycle.phase_at_time(t + 420), cycle.phase_at_time(t));
    }
    // 203 seconds split in four phases of 50 s: the phases repeat every 200 s
    let odd = LunarCycle::new(203);
    assert_eq!(odd.phase_duration(LunarPhase::FullMoon), 50);
    assert_eq!(odd.phase_at_time(200), LunarPhase::NewMoon);
    assert_eq!(odd.phase_at_time(202), LunarPhase::NewMoon);
    assert_eq!(odd.phase_at_time(150), LunarPhase::LastQuarter);
}

#[test]
fn test_default_cycle_matches_phase_duration() {
    let cycle = LunarCycle::default();
    for phase in ALL_PHASES {
        assert_eq!(cycle.phase_duration(phase), phase.duration_seconds());
    }
    assert_eq!(4 * LunarPhase::NewMoon.duration_seconds(), cycle.total_cycle_seconds());
}

#[test]
fn test_every_phase_offers_only_full_moon_resources() {
    let manager = ResourceManager::new();
    let full = manager.get_available_resources(LunarPhase::FullMoon);
    for phase in ALL_PHASES {
        let offered = manager.get_available_resources(phase);
        assert!(!offered.basic.is_empty());
        assert!(offered.complex.is_empty());
        for r in &offered.basic {
            assert!(full.basic.contains(r));
        }
    }
}

#[test]
fn test_phase_resources_keeps_each_resource_once() {
    let resources = PhaseResources::basic(vec![
        BasicResourceType::Carbon,
        BasicResourceType::Oxygen,
        BasicResourceType::Carbon,
        BasicResourceType::Oxygen,
        BasicResourceType::Silicon,
    ]);
    assert_eq!(
        resources.basic,
        vec![BasicResourceType::Carbon, BasicResourceType::Oxygen, BasicResourceType::Silicon]
    );
    assert!(resources.complex.is_empty());
    assert!(PhaseResources::basic(vec![]).basic.is_empty());
}

#[test]
fn test_energy_manager_error_message() {
    match EnergyManager::new(17) {
        Err(e @ Luna4Error::EnergyError(_)) => {
            assert_eq!(
                e.message(),
                "Invalid energy configuration: Luna4 must have exactly 5 energy cells, got 17"
            );
        }
        _ => panic!("Expected EnergyError"),
    }
    match EnergyManager::new(0) {
        Err(Luna4Error::EnergyError(m)) => {
            assert_eq!(m, "Luna4 must have exactly 5 energy cells, got 0")
        }
        _ => panic!("Expected EnergyError"),
    }
}

#[test]
fn test_identifier_text() {
    assert_eq!(Luna4Id::new(0).to_text(), "Luna4#0");
    assert_eq!(Luna4Id::new(10).to_text(), "Luna4#10");
    assert_eq!(Luna4Id::new(u32::MAX).to_text(), "Luna4#4294967295");
    assert_eq!(Luna4Id::from(5), Luna4Id::new(5));
}

#[test]
fn test_advance_phase_threshold() {
    let mut state = Luna4State::new(1);
    assert_eq!(state.advance_phase(104), None);
    assert_eq!(state.current_phase, LunarPhase::NewMoon);
    assert_eq!(state.advance_phase(105), Some(LunarPhase::NewMoon));
    assert_eq!(state.current_phase, LunarPhase::FirstQuarter);
    assert_eq!(state.advance_phase(10_000), Some(LunarPhase::FirstQuarter));
    assert_eq!(state.current_phase, LunarPhase::FullMoon);
}

#[test]
fn test_explorer_presence() {
    let mut state = Luna4State::new(1);
    state.register_explorer_arrival(5);
    state.register_explorer_arrival(5);
    assert_eq!(state.explorer_count(), 1);
    state.register_explorer_departure(5);
    assert_eq!(state.explorer_count(), 0);
    assert!(!state.present_explorers.contains(&5));
}

#[test]
fn test_blueprint() {
    let blueprint = Luna4::new(12).unwrap().into_blueprint();
    assert_eq!(blueprint.id, 12);
    assert_eq!(blueprint.ai.state().id, 12);
    assert_eq!(blueprint.ai.state().current_phase, LunarPhase::NewMoon);
    assert_eq!(blueprint.gen_rules.len(), 4);
    assert!(blueprint.comb_rules.is_empty());
    assert_eq!(blueprint.ai.energy().total_cells(), 5);
}

#[test]
fn test_request_sender() {
    let msg = ExplorerRequest::GenerateResourceRequest {
        explorer_id: 31,
        resource: BasicResourceType::Silicon,
    };
    assert_eq!(msg.explorer_id(), 31);

    // Two oxygen resources made by the planet's generator from charged cells.
    let planet = type_d_planet();
    let forge = Forge::new().unwrap();
    let mut make_oxygen = || {
        let mut cell = EnergyCell::new();
        cell.charge(forge.generate_sunray());
        let oxygen = planet.generator().try_make(GameResource::Oxygen, &mut cell).unwrap();
        assert!(!cell.is_charged());
        GenericResource::BasicResources(oxygen)
    };
    let lhs = make_oxygen();
    let rhs = make_oxygen();
    let combine = ExplorerRequest::CombineResourceRequest { explorer_id: 8, lhs, rhs };
    assert_eq!(combine.explorer_id(), 8);
    match combine {
        ExplorerRequest::CombineResourceRequest { lhs, rhs, .. } => {
            assert_eq!(lhs, rhs);
            assert!(matches!(lhs, GenericResource::BasicResources(_)));
        }
        _ => panic!("Expected a combination request"),
    }
}

#[test]
fn test_visualizer_resources() {
    let ai = fresh_ai();
    let current: AvailableResources = ai.get_current_resources();
    assert_eq!(current.current_phase, LunarPhase::NewMoon);
    assert_eq!(current.basic_resources, vec![BasicResourceType::Carbon]);
    assert_eq!(
        current.all_possible_resources,
        vec![
            BasicResourceType::Oxygen,
            BasicResourceType::Hydrogen,
            BasicResourceType::Carbon,
            BasicResourceType::Silicon,
        ]
    );
}

#[test]
fn test_fresh_planet_has_no_charged_cells() {
    let planet = type_d_planet();
    let energy = EnergyManager::new(5).unwrap();
    assert_eq!(energy.available_charged_cells(planet.state()), 0);
}

#[test]
fn test_internal_state_and_asteroid() {
    let planet = type_d_planet();
    let mut ai = fresh_ai();
    let snapshot = ai.handle_internal_state_req(planet.state());
    assert_eq!(snapshot.energy_cells, vec![false; 5]);
    assert_eq!(snapshot.charged_cells_count, 0);
    assert!(!snapshot.has_rocket);
    assert!(ai.handle_asteroid().is_none());
}

#[test]
fn test_explorer_arrival_and_departure_hooks() {
    let mut ai = fresh_ai();
    ai.on_explorer_arrival(4);
    ai.on_explorer_arrival(9);
    assert_eq!(ai.state().explorer_count(), 2);
    ai.on_explorer_departure(4);
    assert!(!ai.state().present_explorers.contains(&4));
    assert!(ai.state().present_explorers.contains(&9));
    assert_eq!(ai.state().stats.explorer_messages_processed, 0);
    ai.on_start();
    assert_eq!(ai.state().current_phase, LunarPhase::NewMoon);
}

#[test]
fn test_log_messages() {
    assert_eq!(resource_generation_message("Oxygen", true), "Successfully generated Oxygen");
    assert_eq!(resource_generation_message("Carbon", false), "Failed to generate Carbon");
    assert_eq!(
        phase_transition_message(LunarPhase::FullMoon, LunarPhase::LastQuarter),
        "Phase transition: Full Moon → Last Quarter"
    );
    assert_eq!(
        explorer_interaction_message(17, "generate Silicon", true),
        "Explorer 17 successfully: generate Silicon"
    );
    assert_eq!(
        explorer_interaction_message(0, "combine", false),
        "Explorer 0 failed to: combine"
    );
}
