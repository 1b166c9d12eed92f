//! The activation log: the interrupt-driven server records each activation
//! and the log reader reads the latest record.
use crate::time::TimeInstant;
use vstd::prelude::*;

verus! {

/// The activation counter counts modulo this value.
pub const LOG_CYCLE: u8 = 100;

/// The activation counter after one more write.
pub open spec fn next_activation_count(count: nat) -> nat {
    (count + 1) % (LOG_CYCLE as nat)
}

/// The activation counter after `n` writes to a fresh log.
pub open spec fn activation_count_after(n: nat) -> nat
    decreases n,
{
    if n == 0 {
        0
    } else {
        next_activation_count(activation_count_after((n - 1) as nat))
    }
}

/// The number of activations (modulo `LOG_CYCLE`) and the time of the latest.
pub struct ActivationLog {
    activation_counter: u8,
    activation_time: TimeInstant,
}

impl ActivationLog {
    #[verifier::type_invariant]
    spec fn counter_in_range(self) -> bool {
        self.activation_counter < LOG_CYCLE
    }

    /// The activation counter, always below `LOG_CYCLE`.
    pub closed spec fn count(self) -> nat {
        self.activation_counter as nat
    }

    /// The time of the latest activation (the creation time before any).
    pub closed spec fn time(self) -> TimeInstant {
        self.activation_time
    }

    /// An empty log created at `now`.
    pub fn new(now: TimeInstant) -> (r: ActivationLog)
        ensures
            r.count() == 0,
            r.time() == now,
    {
        ActivationLog { activation_counter: 0, activation_time: now }
    }

    /// Records an activation at `activation_time`.
    pub fn write(&mut self, activation_time: TimeInstant)
        ensures
            final(self).time() == activation_time,
            final(self).count() == next_activation_count(old(self).count()),
            final(self).count() < LOG_CYCLE,
    {
        proof {
            use_type_invariant(&*self);
        }
        self.activation_time = activation_time;
        self.activation_counter = (self.activation_counter + 1) % LOG_CYCLE;
    }

    /// The activation counter and the time of the latest activation.
    pub fn read(&self) -> (r: (u8, TimeInstant))
        ensures
            r.0 as nat == self.count(),
            r.0 < LOG_CYCLE,
            r.1 == self.time(),
    {
        proof {
            use_type_invariant(self);
        }
        (self.activation_counter, self.activation_time)
    }
}

/// After `n` writes to a fresh log the counter reads `n` modulo `LOG_CYCLE`.
pub proof fn lemma_activation_count_after(n: nat)
    ensures
        activation_count_after(n) == n % (LOG_CYCLE as nat),
    decreases n,
{
    if n > 0 {
        lemma_activation_count_after((n - 1) as nat);
    }
}

} // verus!
