//! Statistics tracking for Luna4.
//!
//! Operational counters of a Luna4 planet, used for monitoring.
use vstd::prelude::*;

verus! {

/// Statistics tracking for Luna4 operations.
#[derive(Debug, Clone)]
pub struct Luna4Stats {
    /// Number of successful resource generations
    pub successful_generations: usize,
    /// Number of failed resource generations
    pub failed_generations: usize,
    /// Number of sunrays received
    pub sunrays_received: usize,
    /// Number of explorer messages processed
    pub explorer_messages_processed: usize,
}

impl Luna4Stats {
    /// All counters are zero.
    pub open spec fn is_zero(&self) -> bool {
        &&& self.successful_generations == 0
        &&& self.failed_generations == 0
        &&& self.sunrays_received == 0
        &&& self.explorer_messages_processed == 0
    }

    /// Creates new statistics with all counts zero.
    pub fn new() -> (s: Self)
        ensures
            s.is_zero(),
    {
        Luna4Stats {
            successful_generations: 0,
            failed_generations: 0,
            sunrays_received: 0,
            explorer_messages_processed: 0,
        }
    }

    /// Records a successful resource generation.
    pub fn record_successful_generation(&mut self)
        requires
            old(self).successful_generations < usize::MAX,
        ensures
            *final(self) == (Luna4Stats {
                successful_generations: (old(self).successful_generations + 1) as usize,
                ..*old(self)
            }),
    {
        self.successful_generations += 1;
    }

    /// Records a failed resource generation.
    pub fn record_failed_generation(&mut self)
        requires
            old(self).failed_generations < usize::MAX,
        ensures
            *final(self) == (Luna4Stats {
                failed_generations: (old(self).failed_generations + 1) as usize,
                ..*old(self)
            }),
    {
        self.failed_generations += 1;
    }

    /// Records reception of a sunray.
    pub fn record_sunray_received(&mut self)
        requires
            old(self).sunrays_received < usize::MAX,
        ensures
            *final(self) == (Luna4Stats {
                sunrays_received: (old(self).sunrays_received + 1) as usize,
                ..*old(self)
            }),
    {
        self.sunrays_received += 1;
    }

    /// Records processing of an explorer message.
    pub fn record_explorer_message_processed(&mut self)
        requires
            old(self).explorer_messages_processed < usize::MAX,
        ensures
            *final(self) == (Luna4Stats {
                explorer_messages_processed: (old(self).explorer_messages_processed + 1) as usize,
                ..*old(self)
            }),
    {
        self.explorer_messages_processed += 1;
    }
}

impl Default for Luna4Stats {
    fn default() -> (s: Self)
        ensures
            s.is_zero(),
    {
        Luna4Stats::new()
    }
}

} // verus!
