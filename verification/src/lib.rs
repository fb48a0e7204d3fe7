//! Luna4 - the quiet, essential resource moon.
//!
//! A Type D planet with five energy cells, no rockets, and phase-based
//! resource availability following a 7-minute lunar cycle.
pub mod ai;
pub mod clock;
pub mod cycle;
pub mod energy;
pub mod errors;
pub mod game;
pub mod logging;
pub mod luna4;
pub mod resources;
pub mod state;
pub mod stats;
pub mod text;

pub use ai::{AvailableResources, ExplorerRequest, ExplorerResponse, Luna4AI, PlanetVisualizer};
pub use cycle::{LunarCycle, LunarPhase};
pub use energy::EnergyManager;
pub use errors::Luna4Error;
pub use game::PlanetSnapshot;
pub use luna4::{Luna4, Luna4Id, PlanetBlueprint};
pub use resources::{BasicResourceType, ComplexResourceType, PhaseResources, ResourceManager};
pub use state::{Luna4State, OperationalStats};
pub use stats::Luna4Stats;
