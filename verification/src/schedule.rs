//! The timing decisions of the tasks: when a periodic task is released next
//! and by when it must finish, what the regular producer triggers after its
//! workload, and how much slack a task had left.
use crate::auxiliary::{next_request_count, next_run_count, run_is_due, Auxiliary, REQUEST_CYCLE};
use crate::time::{
    lemma_plus_millis_then_since, millis_to_ticks, not_before, tick_modulus, ticks_between,
    wrap_ticks, TimeInstant,
};
use vstd::prelude::*;

verus! {

/// The regular producer releases the on-call producer when its request counter
/// equals this value (modulo the request cycle).
pub const ON_CALL_ACTIVATION_PARAM: u8 = 2;

/// One release of a periodic task.
#[derive(Clone, Copy, Debug, PartialEq, Eq, Structural)]
pub struct Release {
    /// The start of the next period, which is also the next release.
    pub next_release: TimeInstant,
    /// The instant by which this release must have finished.
    pub deadline: TimeInstant,
}

/// What the regular producer sets in motion after its workload.
#[derive(Clone, Copy, Debug, PartialEq, Eq, Structural)]
pub struct ProducerActions {
    /// Send a request to the on-call producer.
    pub request_on_call: bool,
    /// Wake the activation log reader.
    pub signal_log_reader: bool,
}

/// The release starting at `release`, with a period of `period_ms` and a
/// relative deadline of `deadline_ms` milliseconds.
pub fn release_window(release: TimeInstant, period_ms: u32, deadline_ms: u32) -> (r: Release)
    requires
        millis_to_ticks(period_ms as int) <= u32::MAX,
        millis_to_ticks(deadline_ms as int) <= u32::MAX,
    ensures
        r.next_release.ticks == wrap_ticks(release.ticks + millis_to_ticks(period_ms as int)),
        r.deadline.ticks == wrap_ticks(release.ticks + millis_to_ticks(deadline_ms as int)),
{
    Release { next_release: release.plus_millis(period_ms), deadline: release.plus_millis(deadline_ms) }
}

/// After a run of the regular producer: counts the request and the run and
/// decides whether to release the on-call producer and the log reader.
pub fn regular_producer_actions(aux: &mut Auxiliary) -> (r: ProducerActions)
    ensures
        final(aux).request_count() == next_request_count(old(aux).request_count()),
        final(aux).run_count() == next_run_count(old(aux).run_count()),
        r.request_on_call == (final(aux).request_count() == (ON_CALL_ACTIVATION_PARAM
            % REQUEST_CYCLE) as nat),
        r.signal_log_reader == run_is_due(final(aux).run_count()),
{
    let request_on_call = aux.due_activation(ON_CALL_ACTIVATION_PARAM);
    let signal_log_reader = aux.check_due();
    ProducerActions { request_on_call, signal_log_reader }
}

/// The whole milliseconds left from `now` to `deadline`, or `None` when the
/// deadline has passed.
pub fn slack_millis(deadline: TimeInstant, now: TimeInstant) -> (r: Option<u64>)
    ensures
        r is Some <==> not_before(deadline.ticks as int, now.ticks as int),
        r matches Some(ms) ==> ms == ticks_between(deadline.ticks as int, now.ticks as int)
            / 1000,
{
    match deadline.checked_duration_since(now) {
        Some(d) => Some(d.to_millis()),
        None => None,
    }
}

/// A release window spans exactly one period: the next release comes
/// `period_ms` milliseconds after the release and the deadline `deadline_ms`
/// milliseconds after it, also across a wrap of the tick counter; a deadline
/// no longer than the period lies `period_ms - deadline_ms` milliseconds
/// before the next release.
pub proof fn lemma_release_window(release: u64, period_ms: u32, deadline_ms: u32)
    requires
        millis_to_ticks(period_ms as int) <= u32::MAX,
        millis_to_ticks(deadline_ms as int) <= u32::MAX,
    ensures
        ({
            let next = wrap_ticks(release + millis_to_ticks(period_ms as int));
            let deadline = wrap_ticks(release + millis_to_ticks(deadline_ms as int));
            &&& ticks_between(next, release as int) / 1000 == period_ms
            &&& ticks_between(deadline, release as int) / 1000 == deadline_ms
            &&& deadline_ms <= period_ms ==> {
                &&& not_before(next, deadline)
                &&& ticks_between(next, deadline) == millis_to_ticks(period_ms - deadline_ms)
            }
        }),
{
    lemma_plus_millis_then_since(release, period_ms);
    lemma_plus_millis_then_since(release, deadline_ms);
    let p = millis_to_ticks(period_ms as int);
    let d = millis_to_ticks(deadline_ms as int);
    let next = wrap_ticks(release + p);
    let deadline = wrap_ticks(release + d);
    if deadline_ms <= period_ms {
        assert(next == release + p || next == release + p - tick_modulus());
        assert(deadline == release + d || deadline == release + d - tick_modulus());
        assert(wrap_ticks(next - deadline) == p - d);
    }
}

} // verus!
