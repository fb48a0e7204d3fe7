//! Readings of the clock that drives the lunar phases.
//!
//! A value of these types can only be made by reading the clock: their
//! fields are private to this module. A contract that speaks of a reading
//! kept in the planet state therefore speaks of a reading that was taken.
use vstd::prelude::*;

use std::time::Instant;

use crate::state::{duration_as_secs, instant_elapsed, instant_now};

verus! {

/// A moment read from the clock.
#[derive(Debug)]
pub struct Moment {
    at: Instant,
}

impl Moment {
    /// The instant that was read.
    pub closed spec fn instant(&self) -> Instant {
        self.at
    }

    /// Reads the clock.
    pub fn now() -> (m: Moment) {
        Moment { at: instant_now() }
    }

    /// Returns the instant that was read.
    pub fn at(&self) -> (i: Instant)
        ensures
            i == self.instant(),
    {
        self.at
    }
}

/// How long a phase had lasted when the clock was read: the whole seconds
/// elapsed since the instant the phase started.
#[derive(Debug)]
pub struct PhaseAge {
    start: Instant,
    secs: u64,
}

impl PhaseAge {
    /// The start instant the age was measured from.
    pub closed spec fn started_at(&self) -> Instant {
        self.start
    }

    /// The whole seconds elapsed since the start, as read.
    pub closed spec fn seconds(&self) -> u64 {
        self.secs
    }

    /// Reads the clock: the whole seconds elapsed since `start`.
    pub fn measure(start: &Instant) -> (age: PhaseAge)
        ensures
            age.started_at() == *start,
    {
        let elapsed = instant_elapsed(start);
        PhaseAge { start: *start, secs: duration_as_secs(&elapsed) }
    }

    /// Returns the whole seconds elapsed since the start, as read.
    pub fn secs(&self) -> (s: u64)
        ensures
            s == self.seconds(),
    {
        self.secs
    }
}

} // verus!
