//! The activation manager fixes the common instant at which all tasks start.
use crate::time::{millis_to_ticks, wrap_ticks, TimeInstant};
use vstd::prelude::*;

verus! {

/// How long after start-up the tasks are first released, in milliseconds.
pub const RELATIVE_OFFSET: u32 = 100;

/// Holds the instant at which the tasks are first released.
pub struct ActivationManager {
    activation_time: TimeInstant,
}

impl ActivationManager {
    /// The release instant held.
    pub closed spec fn activation(self) -> TimeInstant {
        self.activation_time
    }

    /// A manager that releases the tasks `RELATIVE_OFFSET` milliseconds after `now`.
    pub fn new(now: TimeInstant) -> (r: ActivationManager)
        ensures
            r.activation().ticks == wrap_ticks(now.ticks + millis_to_ticks(RELATIVE_OFFSET as int)),
    {
        ActivationManager { activation_time: now.plus_millis(RELATIVE_OFFSET) }
    }

    /// The instant at which the tasks are first released.
    pub fn get_activation_time(&self) -> (r: TimeInstant)
        ensures
            r == self.activation(),
    {
        self.activation_time
    }
}

} // verus!
