//! Luna4 state management.
//!
//! Tracks the operational state of a Luna4 planet: the lunar phase and
//! when it started, the explorers present, and statistics.
use vstd::prelude::*;

use std::collections::HashSet;
use std::time::{Duration, Instant};

use crate::clock::{Moment, PhaseAge};
use crate::cycle::{LunarPhase, PHASE_SECONDS};
use crate::stats::Luna4Stats;

verus! {

broadcast use vstd::std_specs::hash::group_hash_axioms;

#[verifier::external_type_specification]
#[verifier::external_body]
pub struct ExInstant(Instant);

/// Calls `Instant::now`. The current time depends on the machine and the
/// moment of the call, so nothing is stated of it.
#[verifier::external_body]
pub(crate) fn instant_now() -> (t: Instant) {
    Instant::now()
}

/// Calls `Instant::elapsed`. The time elapsed depends on the moment of the
/// call, so nothing is stated of it.
#[verifier::external_body]
pub(crate) fn instant_elapsed(start: &Instant) -> (d: Duration) {
    start.elapsed()
}

/// Calls `Duration::as_secs`. `Duration` is opaque to Verus, so the whole
/// seconds it returns are not related to anything here.
#[verifier::external_body]
pub(crate) fn duration_as_secs(d: &Duration) -> (secs: u64) {
    d.as_secs()
}

/// Tracks the operational state of a Luna4 planet.
#[derive(Debug)]
pub struct Luna4State {
    /// Planet identifier
    pub id: u32,
    /// Current lunar phase
    pub current_phase: LunarPhase,
    /// When the current phase started
    pub phase_start_time: Instant,
    /// The clock reading at which this state last started a phase
    pub phase_started: Moment,
    /// How long the current phase had lasted at the last phase update
    pub phase_age: PhaseAge,
    /// Explorer presence tracking
    pub present_explorers: HashSet<u32>,
    /// Operational statistics
    pub stats: Luna4Stats,
}

impl Luna4State {
    /// Creates a new Luna4 state: New Moon, no explorers, zero statistics.
    pub fn new(id: u32) -> (s: Self)
        ensures
            s.id == id,
            s.current_phase == LunarPhase::NewMoon,
            s.present_explorers@ == Set::<u32>::empty(),
            s.stats.is_zero(),
            s.phase_start_time == s.phase_started.instant(),
            s.phase_age.started_at() == s.phase_start_time,
    {
        let started = Moment::now();
        let phase_start_time = started.at();
        let phase_age = PhaseAge::measure(&phase_start_time);
        Luna4State {
            id,
            current_phase: LunarPhase::NewMoon,
            phase_start_time,
            phase_started: started,
            phase_age,
            present_explorers: HashSet::new(),
            stats: Luna4Stats::new(),
        }
    }

    /// Moves to the next phase when a whole phase (105 s) has elapsed since
    /// the current one started. Returns the phase that was left.
    ///
    /// The clock is read once, from the current phase's start; the reading
    /// is kept in `phase_age`, and the phase advances exactly when it is
    /// 105 s or more, the new phase then starting at a fresh clock reading.
    pub fn update_phase(&mut self) -> (r: Option<LunarPhase>)
        ensures
            final(self).id == old(self).id,
            final(self).present_explorers@ == old(self).present_explorers@,
            final(self).stats == old(self).stats,
            match r {
                Some(left) => {
                    &&& left == old(self).current_phase
                    &&& final(self).current_phase == old(self).current_phase.following()
                },
                None => {
                    &&& final(self).current_phase == old(self).current_phase
                    &&& final(self).phase_start_time == old(self).phase_start_time
                },
            },
            final(self).phase_age.started_at() == old(self).phase_start_time,
            final(self).phase_age.seconds() >= PHASE_SECONDS ==> {
                &&& r == Some(old(self).current_phase)
                &&& final(self).current_phase == old(self).current_phase.following()
                &&& final(self).phase_start_time == final(self).phase_started.instant()
            },
            final(self).phase_age.seconds() < PHASE_SECONDS ==> {
                &&& r == None::<LunarPhase>
                &&& final(self).current_phase == old(self).current_phase
                &&& final(self).phase_start_time == old(self).phase_start_time
                &&& final(self).phase_started == old(self).phase_started
            },
    {
        let age = PhaseAge::measure(&self.phase_start_time);
        let elapsed_secs = age.secs();
        self.phase_age = age;
        self.advance_phase(elapsed_secs)
    }

    /// The phase update for a phase that has lasted `elapsed_secs` seconds:
    /// at 105 s or more the phase advances and its start time is reset.
    pub fn advance_phase(&mut self, elapsed_secs: u64) -> (r: Option<LunarPhase>)
        ensures
            final(self).id == old(self).id,
            final(self).present_explorers@ == old(self).present_explorers@,
            final(self).stats == old(self).stats,
            final(self).phase_age == old(self).phase_age,
            elapsed_secs >= PHASE_SECONDS ==> {
                &&& r == Some(old(self).current_phase)
                &&& final(self).current_phase == old(self).current_phase.following()
                &&& final(self).phase_start_time == final(self).phase_started.instant()
            },
            elapsed_secs < PHASE_SECONDS ==> {
                &&& r == None::<LunarPhase>
                &&& final(self).current_phase == old(self).current_phase
                &&& final(self).phase_start_time == old(self).phase_start_time
                &&& final(self).phase_started == old(self).phase_started
            },
    {
        if elapsed_secs >= PHASE_SECONDS {
            let old_phase = self.current_phase;
            self.current_phase = self.current_phase.next();
            let started = Moment::now();
            self.phase_start_time = started.at();
            self.phase_started = started;
            Some(old_phase)
        } else {
            None
        }
    }

    /// Registers an explorer arrival.
    pub fn register_explorer_arrival(&mut self, explorer_id: u32)
        ensures
            final(self).present_explorers@ == old(self).present_explorers@.insert(explorer_id),
            old(self).present_explorers@.finite() ==> {
                &&& final(self).present_explorers@.finite()
                &&& final(self).present_explorers@.len() == old(self).present_explorers@.len() + if old(
                    self,
                ).present_explorers@.contains(explorer_id) {
                    0int
                } else {
                    1int
                }
            },
            final(self).stats == old(self).stats,
            final(self).id == old(self).id,
            final(self).current_phase == old(self).current_phase,
            final(self).phase_start_time == old(self).phase_start_time,
            final(self).phase_started == old(self).phase_started,
            final(self).phase_age == old(self).phase_age,
    {
        self.present_explorers.insert(explorer_id);
    }

    /// Registers an explorer departure.
    pub fn register_explorer_departure(&mut self, explorer_id: u32)
        ensures
            final(self).present_explorers@ == old(self).present_explorers@.remove(explorer_id),
            old(self).present_explorers@.finite() ==> {
                &&& final(self).present_explorers@.finite()
                &&& final(self).present_explorers@.len() == old(self).present_explorers@.len() - if old(
                    self,
                ).present_explorers@.contains(explorer_id) {
                    1int
                } else {
                    0int
                }
            },
            final(self).stats == old(self).stats,
            final(self).id == old(self).id,
            final(self).current_phase == old(self).current_phase,
            final(self).phase_start_time == old(self).phase_start_time,
            final(self).phase_started == old(self).phase_started,
            final(self).phase_age == old(self).phase_age,
    {
        self.present_explorers.remove(&explorer_id);
    }

    /// Gets the number of present explorers.
    pub fn explorer_count(&self) -> (n: usize)
        ensures
            n == self.present_explorers@.len(),
    {
        self.present_explorers.len()
    }
}

/// An explorer is present after arriving, absent after departing, and
/// registering an arrival twice is the same as registering it once.
pub proof fn lemma_explorer_presence(present: Set<u32>, explorer_id: u32)
    requires
        present.finite(),
    ensures
        present.insert(explorer_id).contains(explorer_id),
        !present.remove(explorer_id).contains(explorer_id),
        present.insert(explorer_id).insert(explorer_id) == present.insert(explorer_id),
        !present.contains(explorer_id) ==> present.insert(explorer_id).len() == present.len() + 1,
        !present.contains(explorer_id) ==> present.insert(explorer_id).remove(explorer_id)
            == present,
        present.contains(explorer_id) ==> present.remove(explorer_id).len() + 1 == present.len(),
        !present.contains(explorer_id) ==> present.remove(explorer_id) == present,
        present.contains(explorer_id) ==> present.insert(explorer_id).len() == present.len(),
{
    assert(present.insert(explorer_id).insert(explorer_id) =~= present.insert(explorer_id));
    if !present.contains(explorer_id) {
        assert(present.insert(explorer_id).remove(explorer_id) =~= present);
        assert(present.remove(explorer_id) =~= present);
    } else {
        assert(present.insert(explorer_id) =~= present);
    }
}

/// Operational statistics for Luna4.
#[derive(Debug, Clone)]
pub struct OperationalStats {
    /// Total resources generated
    pub total_resources_generated: usize,
    /// Phase transitions observed
    pub phase_transitions: usize,
    /// Explorer arrivals
    pub explorer_arrivals: usize,
    /// Explorer departures
    pub explorer_departures: usize,
}

impl OperationalStats {
    /// Creates new operational statistics, all zero.
    pub fn new() -> (s: Self)
        ensures
            s.total_resources_generated == 0,
            s.phase_transitions == 0,
            s.explorer_arrivals == 0,
            s.explorer_departures == 0,
    {
        OperationalStats {
            total_resources_generated: 0,
            phase_transitions: 0,
            explorer_arrivals: 0,
            explorer_departures: 0,
        }
    }
}

impl Default for OperationalStats {
    fn default() -> (s: Self)
        ensures
            s.total_resources_generated == 0,
            s.phase_transitions == 0,
            s.explorer_arrivals == 0,
            s.explorer_departures == 0,
    {
        OperationalStats::new()
    }
}

} // verus!
