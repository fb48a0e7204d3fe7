//! Lunar cycle and phase management for Luna4.
//!
//! Luna4 follows a 7-minute (420 s) lunar cycle divided into four equal
//! phases; each phase decides which basic resources the planet offers.
use vstd::prelude::*;

verus! {

/// Seconds that one lunar phase lasts on Luna4 (420 s / 4 phases).
pub const PHASE_SECONDS: u64 = 105;

/// Seconds of a whole Luna4 lunar cycle (7 minutes).
pub const CYCLE_SECONDS: u64 = 420;

/// Lunar phases that determine resource availability on Luna4.
///
/// - **New Moon**: rare elements in the dark
/// - **First Quarter**: common ones in the light
/// - **Full Moon**: everything available
/// - **Last Quarter**: preparation phase with limited resources
#[derive(Debug, Clone, Copy, PartialEq, Eq, Structural)]
pub enum LunarPhase {
    /// New Moon phase - rare elements only (Carbon)
    NewMoon,
    /// First Quarter phase - common elements only (Oxygen, Hydrogen)
    FirstQuarter,
    /// Full Moon phase - all basic resources available
    FullMoon,
    /// Last Quarter phase - preparation phase, limited resources
    LastQuarter,
}

impl LunarPhase {
    /// Position of the phase in the cycle, starting at New Moon.
    pub open spec fn position(self) -> int {
        match self {
            LunarPhase::NewMoon => 0,
            LunarPhase::FirstQuarter => 1,
            LunarPhase::FullMoon => 2,
            LunarPhase::LastQuarter => 3,
        }
    }

    /// The phase at position `i` of the cycle, counted modulo 4.
    pub open spec fn at_position(i: int) -> LunarPhase {
        let k = i % 4;
        if k == 0 {
            LunarPhase::NewMoon
        } else if k == 1 {
            LunarPhase::FirstQuarter
        } else if k == 2 {
            LunarPhase::FullMoon
        } else {
            LunarPhase::LastQuarter
        }
    }

    /// The phase that follows this one.
    pub open spec fn following(self) -> LunarPhase {
        match self {
            LunarPhase::NewMoon => LunarPhase::FirstQuarter,
            LunarPhase::FirstQuarter => LunarPhase::FullMoon,
            LunarPhase::FullMoon => LunarPhase::LastQuarter,
            LunarPhase::LastQuarter => LunarPhase::NewMoon,
        }
    }

    /// Human-readable name of the phase.
    pub open spec fn name_text(self) -> Seq<char> {
        match self {
            LunarPhase::NewMoon => "New Moon"@,
            LunarPhase::FirstQuarter => "First Quarter"@,
            LunarPhase::FullMoon => "Full Moon"@,
            LunarPhase::LastQuarter => "Last Quarter"@,
        }
    }

    /// Lore description of the phase.
    pub open spec fn description_text(self) -> Seq<char> {
        match self {
            LunarPhase::NewMoon => "Rare elements in the dark"@,
            LunarPhase::FirstQuarter => "Common ones in the light"@,
            LunarPhase::FullMoon => "Everything at full moon"@,
            LunarPhase::LastQuarter => "Preparation for next cycle"@,
        }
    }

    /// Returns the human-readable name of this lunar phase.
    pub fn name(&self) -> (r: &'static str)
        ensures
            r@ == self.name_text(),
    {
        match self {
            LunarPhase::NewMoon => "New Moon",
            LunarPhase::FirstQuarter => "First Quarter",
            LunarPhase::FullMoon => "Full Moon",
            LunarPhase::LastQuarter => "Last Quarter",
        }
    }

    /// Returns the lore description of what this phase represents.
    pub fn description(&self) -> (r: &'static str)
        ensures
            r@ == self.description_text(),
    {
        match self {
            LunarPhase::NewMoon => "Rare elements in the dark",
            LunarPhase::FirstQuarter => "Common ones in the light",
            LunarPhase::FullMoon => "Everything at full moon",
            LunarPhase::LastQuarter => "Preparation for next cycle",
        }
    }

    /// Returns the duration of this phase in seconds (the same for every phase).
    pub fn duration_seconds(&self) -> (r: u64)
        ensures
            r == PHASE_SECONDS,
    {
        PHASE_SECONDS
    }

    /// Returns the next phase in the cycle.
    pub fn next(&self) -> (r: Self)
        ensures
            r == self.following(),
    {
        match self {
            LunarPhase::NewMoon => LunarPhase::FirstQuarter,
            LunarPhase::FirstQuarter => LunarPhase::FullMoon,
            LunarPhase::FullMoon => LunarPhase::LastQuarter,
            LunarPhase::LastQuarter => LunarPhase::NewMoon,
        }
    }
}

/// The order of the phases in a cycle.
pub open spec fn phase_order_spec() -> Seq<LunarPhase> {
    seq![LunarPhase::NewMoon, LunarPhase::FirstQuarter, LunarPhase::FullMoon, LunarPhase::LastQuarter]
}

/// Manages the timing and progression of Luna4's lunar cycle.
#[derive(Debug)]
pub struct LunarCycle {
    /// Total cycle duration in seconds (420 for Luna4)
    total_cycle_seconds: u64,
    /// Order of phases in the cycle (New Moon, First Quarter, Full Moon, Last Quarter)
    phase_order: Vec<LunarPhase>,
}

/// Builds the four phases in cycle order.
fn standard_phase_order() -> (v: Vec<LunarPhase>)
    ensures
        v@ == phase_order_spec(),
{
    let mut v: Vec<LunarPhase> = Vec::new();
    v.push(LunarPhase::NewMoon);
    v.push(LunarPhase::FirstQuarter);
    v.push(LunarPhase::FullMoon);
    v.push(LunarPhase::LastQuarter);
    v
}

/// A cycle is seen as its total duration in seconds.
impl View for LunarCycle {
    type V = u64;

    closed spec fn view(&self) -> u64 {
        self.total_cycle_seconds
    }
}

impl LunarCycle {
    /// The phases are kept in cycle order.
    #[verifier::type_invariant]
    spec fn phases_in_order(&self) -> bool {
        self.phase_order@ == phase_order_spec()
    }

    /// Whole seconds that each phase lasts in this cycle.
    pub open spec fn seconds_per_phase(&self) -> int {
        self@ as int / 4
    }

    /// The phase that is active `elapsed` seconds after the cycle started.
    pub open spec fn phase_at(&self, elapsed: int) -> LunarPhase {
        LunarPhase::at_position(elapsed / self.seconds_per_phase())
    }

    /// Creates a new lunar cycle lasting `total_seconds`.
    pub fn new(total_seconds: u64) -> (c: Self)
        ensures
            c@ == total_seconds,
    {
        LunarCycle { total_cycle_seconds: total_seconds, phase_order: standard_phase_order() }
    }

    /// Returns the total cycle duration in seconds.
    pub fn total_cycle_seconds(&self) -> (secs: u64)
        ensures
            secs == self@,
    {
        self.total_cycle_seconds
    }

    /// Calculates the duration of a phase, in whole seconds.
    pub fn phase_duration(&self, _phase: LunarPhase) -> (secs: u64)
        ensures
            secs == self.seconds_per_phase(),
    {
        proof {
            use_type_invariant(self);
        }
        self.total_cycle_seconds / (self.phase_order.len() as u64)
    }

    /// Determines which phase is active `elapsed_secs` seconds into the cycle.
    pub fn phase_at_time(&self, elapsed_secs: u64) -> (p: LunarPhase)
        requires
            self.seconds_per_phase() > 0,
        ensures
            p == self.phase_at(elapsed_secs as int),
    {
        proof {
            use_type_invariant(self);
        }
        let count = self.phase_order.len() as u64;
        let seconds_per_phase = self.total_cycle_seconds / count;
        let phase_index = ((elapsed_secs / seconds_per_phase) % count) as usize;
        self.phase_order[phase_index]
    }
}

impl Clone for LunarCycle {
    /// A cycle of the same duration.
    fn clone(&self) -> (c: Self)
        ensures
            c@ == self@,
    {
        proof {
            use_type_invariant(self);
        }
        LunarCycle { total_cycle_seconds: self.total_cycle_seconds, phase_order: self.phase_order.clone() }
    }
}

impl Default for LunarCycle {
    /// The Luna4 cycle: 420 seconds, four phases of 105 seconds.
    fn default() -> (c: Self)
        ensures
            c@ == CYCLE_SECONDS,
    {
        LunarCycle::new(CYCLE_SECONDS)
    }
}

/// Advancing a phase four times comes back to it, and no phase follows itself.
pub proof fn lemma_next_cycles(p: LunarPhase)
    ensures
        p.following().following().following().following() == p,
        p.following() != p,
        p.following().position() == (p.position() + 1) % 4,
        LunarPhase::at_position(p.position()) == p,
{
}

/// One phase duration later, the cycle shows the next phase.
pub proof fn lemma_phase_at_advances(cycle: LunarCycle, t: int)
    requires
        cycle.seconds_per_phase() > 0,
        t >= 0,
    ensures
        cycle.phase_at(t + cycle.seconds_per_phase()) == cycle.phase_at(t).following(),
{
    let d = cycle.seconds_per_phase();
    assert((t + d) / d == t / d + 1) by (nonlinear_arith)
        requires
            d > 0,
            t >= 0,
    {
        vstd::arithmetic::div_mod::lemma_div_plus_one(t, d);
    }
    let q = t / d;
    assert(q >= 0) by (nonlinear_arith)
        requires
            d > 0,
            t >= 0,
            q == t / d,
    ;
    assert((q + 1) % 4 == (q % 4 + 1) % 4);
}

/// The phases repeat after four phase durations.
pub proof fn lemma_phase_at_periodic(cycle: LunarCycle, t: int)
    requires
        cycle.seconds_per_phase() > 0,
        t >= 0,
    ensures
        cycle.phase_at(t + 4 * cycle.seconds_per_phase()) == cycle.phase_at(t),
{
    let d = cycle.seconds_per_phase();
    assert((t + 4 * d) / d == t / d + 4) by (nonlinear_arith)
        requires
            d > 0,
            t >= 0,
    {
        vstd::arithmetic::div_mod::lemma_hoist_over_denominator(t, 4, d as nat);
    }
    let q = t / d;
    assert((q + 4) % 4 == q % 4);
}

/// The default cycle lasts 420 seconds and each of its phases lasts the
/// 105 seconds that every phase reports.
pub proof fn lemma_default_cycle_matches_phases(cycle: LunarCycle, p: LunarPhase)
    requires
        cycle@ == CYCLE_SECONDS,
    ensures
        cycle.seconds_per_phase() == PHASE_SECONDS,
        4 * PHASE_SECONDS == CYCLE_SECONDS,
        cycle.phase_at(0) == LunarPhase::NewMoon,
{
}

/// The phase reached from `p` after `n` phase changes.
pub open spec fn advanced(p: LunarPhase, n: nat) -> LunarPhase
    decreases n,
{
    if n == 0 {
        p
    } else {
        advanced(p, (n - 1) as nat).following()
    }
}

/// Starting at New Moon and changing phase once per phase duration follows
/// the cycle: after `n` changes the phase is the cycle's phase at `n`
/// phase durations.
pub proof fn lemma_phase_changes_follow_cycle(cycle: LunarCycle, n: nat)
    requires
        cycle.seconds_per_phase() > 0,
    ensures
        cycle.phase_at(n * cycle.seconds_per_phase()) == advanced(LunarPhase::NewMoon, n),
    decreases n,
{
    let d = cycle.seconds_per_phase();
    if n == 0 {
        assert(0 * d == 0);
        assert(0int / d == 0);
    } else {
        let m = (n - 1) as nat;
        lemma_phase_changes_follow_cycle(cycle, m);
        assert(m * d >= 0) by (nonlinear_arith)
            requires
                d > 0,
        ;
        assert(n * d == m * d + d) by (nonlinear_arith)
            requires
                n == m + 1,
        ;
        lemma_phase_at_advances(cycle, m * d);
    }
}

} // verus!
