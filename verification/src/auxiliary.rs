//! Auxiliary counters that decide when the regular producer releases the
//! sporadic tasks.
use vstd::prelude::*;

verus! {

/// The run counter marks a run as due when it is a multiple of this factor.
pub const FACTOR: u16 = 3;

/// The request counter counts modulo this value.
pub const REQUEST_CYCLE: u8 = 5;

/// The run counter counts modulo this value.
pub const RUN_CYCLE: u16 = 1000;

/// The request counter after one more request.
pub open spec fn next_request_count(count: nat) -> nat {
    (count + 1) % (REQUEST_CYCLE as nat)
}

/// The run counter after one more run.
pub open spec fn next_run_count(count: nat) -> nat {
    (count + 1) % (RUN_CYCLE as nat)
}

/// A run counter value that makes a run due.
pub open spec fn run_is_due(count: nat) -> bool {
    count % (FACTOR as nat) == 0
}

/// The request counter after `n` calls of `due_activation` on a fresh value.
pub open spec fn request_count_after(n: nat) -> nat
    decreases n,
{
    if n == 0 {
        0
    } else {
        next_request_count(request_count_after((n - 1) as nat))
    }
}

/// The run counter after `n` calls of `check_due` on a fresh value.
pub open spec fn run_count_after(n: nat) -> nat
    decreases n,
{
    if n == 0 {
        0
    } else {
        next_run_count(run_count_after((n - 1) as nat))
    }
}

/// Counters of activation requests and of runs of the regular producer.
pub struct Auxiliary {
    request_counter: u8,
    run_counter: u16,
}

impl Auxiliary {
    #[verifier::type_invariant]
    spec fn counters_in_range(self) -> bool {
        &&& self.request_counter < REQUEST_CYCLE
        &&& self.run_counter < RUN_CYCLE
    }

    /// The request counter, always below `REQUEST_CYCLE`.
    pub closed spec fn request_count(self) -> nat {
        self.request_counter as nat
    }

    /// The run counter, always below `RUN_CYCLE`.
    pub closed spec fn run_count(self) -> nat {
        self.run_counter as nat
    }

    /// Both counters start at zero.
    pub fn new() -> (r: Auxiliary)
        ensures
            r.request_count() == 0,
            r.run_count() == 0,
    {
        Auxiliary { request_counter: 0, run_counter: 0 }
    }

    /// Counts one more activation request (modulo `REQUEST_CYCLE`) and answers
    /// whether the counter now equals `param` modulo `REQUEST_CYCLE`.
    pub fn due_activation(&mut self, param: u8) -> (due: bool)
        ensures
            final(self).request_count() == next_request_count(old(self).request_count()),
            final(self).run_count() == old(self).run_count(),
            final(self).request_count() < REQUEST_CYCLE,
            due == (final(self).request_count() == (param % REQUEST_CYCLE) as nat),
    {
        proof {
            use_type_invariant(&*self);
        }
        self.request_counter = (self.request_counter + 1) % REQUEST_CYCLE;
        self.request_counter == (param % REQUEST_CYCLE)
    }

    /// Counts one more run (modulo `RUN_CYCLE`) and answers whether the counter
    /// is now a multiple of `FACTOR`.
    pub fn check_due(&mut self) -> (due: bool)
        ensures
            final(self).run_count() == next_run_count(old(self).run_count()),
            final(self).request_count() == old(self).request_count(),
            final(self).run_count() < RUN_CYCLE,
            due == run_is_due(final(self).run_count()),
    {
        proof {
            use_type_invariant(&*self);
        }
        self.run_counter = (self.run_counter + 1) % RUN_CYCLE;
        let divisor = self.run_counter / FACTOR;
        proof {
            assert(divisor * FACTOR == self.run_counter <==> self.run_counter % FACTOR == 0)
                by (nonlinear_arith)
                requires
                    divisor == self.run_counter / FACTOR,
            ;
        }
        (divisor * FACTOR) == self.run_counter
    }
}

/// After `n` requests from a fresh value the request counter is `n` modulo
/// `REQUEST_CYCLE`: `due_activation(param)` answers true on the `n`-th call
/// exactly when `n` and `param` agree modulo `REQUEST_CYCLE`, that is on one
/// call out of every `REQUEST_CYCLE` consecutive calls.
pub proof fn lemma_request_count_after(n: nat, param: u8)
    ensures
        request_count_after(n) == n % (REQUEST_CYCLE as nat),
        (request_count_after(n) == (param % REQUEST_CYCLE) as nat) <==> (n % 5 == param % 5),
    decreases n,
{
    if n > 0 {
        lemma_request_count_after((n - 1) as nat, param);
    }
}

/// After `n` runs from a fresh value the run counter is `n` modulo `RUN_CYCLE`:
/// `check_due` answers true on the `n`-th call exactly when `n` modulo
/// `RUN_CYCLE` is a multiple of `FACTOR`.
pub proof fn lemma_run_count_after(n: nat)
    ensures
        run_count_after(n) == n % (RUN_CYCLE as nat),
        run_is_due(run_count_after(n)) <==> (n % 1000) % 3 == 0,
    decreases n,
{
    if n > 0 {
        lemma_run_count_after((n - 1) as nat);
    }
}

} // verus!
