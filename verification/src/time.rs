//! Instants and durations of the 1 MHz monotonic clock.
//!
//! The clock's instants are `fugit::Instant<u64, 1, 1_000_000>` values: a tick
//! counter in microseconds that wraps around at 2^64. This module holds their
//! tick counts as plain integers and performs the arithmetic through `fugit`.
use rtic_monotonics::fugit::{Duration, ExtU32, Instant};
use vstd::prelude::*;

verus! {

/// The modulus at which the tick counter of an instant wraps around.
pub open spec fn tick_modulus() -> int {
    0x1_0000_0000_0000_0000
}

/// `x` reduced into the range of a 64-bit tick counter.
pub open spec fn wrap_ticks(x: int) -> int {
    x % tick_modulus()
}

/// The number of ticks (microseconds) in `ms` milliseconds.
pub open spec fn millis_to_ticks(ms: int) -> int {
    ms * 1000
}

/// The ticks from `earlier` to `later` as the clock sees them: the difference
/// taken modulo 2^64.
pub open spec fn ticks_between(later: int, earlier: int) -> int {
    wrap_ticks(later - earlier)
}

/// `later` does not lie before `earlier`: the wrapped difference between them
/// is at most half the tick range (beyond that the clock takes the counter to
/// have wrapped, and `earlier` to be the later instant).
pub open spec fn not_before(later: int, earlier: int) -> bool {
    ticks_between(later, earlier) <= u64::MAX / 2
}

/// An instant of the 1 MHz monotonic clock.
#[derive(Clone, Copy, Debug, PartialEq, Eq, Structural)]
pub struct TimeInstant {
    /// Microseconds since the clock's epoch, modulo 2^64.
    pub ticks: u64,
}

/// A span of time of the 1 MHz monotonic clock.
#[derive(Clone, Copy, Debug, PartialEq, Eq, Structural)]
pub struct TimeDuration {
    /// Length in microseconds.
    pub ticks: u64,
}

/// `fugit`'s `Instant<u64, 1, 1_000_000> + u32::millis()`. The milliseconds are
/// turned into a `Duration<u32, 1, 1_000_000>` by multiplying them by 1000 in
/// `u32` (which overflows, and panics in a debug build, past `u32::MAX`), widened
/// to `u64` and added to the ticks with a wrapping addition.
#[verifier::external_body]
fn fugit_instant_plus_millis(ticks: u64, ms: u32) -> (r: u64)
    requires
        millis_to_ticks(ms as int) <= u32::MAX,
    ensures
        r == wrap_ticks(ticks + millis_to_ticks(ms as int)),
{
    (Instant::<u64, 1, 1_000_000>::from_ticks(ticks) + ms.millis()).ticks()
}

/// `fugit`'s `Instant::checked_duration_since`: `None` when `earlier` is the
/// later instant (wrapped difference of the ticks above `u64::MAX / 2`),
/// otherwise a duration of the wrapped difference of the ticks.
#[verifier::external_body]
fn fugit_checked_duration_since(later: u64, earlier: u64) -> (r: Option<u64>)
    ensures
        r is Some <==> not_before(later as int, earlier as int),
        r matches Some(d) ==> d == ticks_between(later as int, earlier as int),
{
    let start = Instant::<u64, 1, 1_000_000>::from_ticks(earlier);
    match Instant::<u64, 1, 1_000_000>::from_ticks(later).checked_duration_since(start) {
        Some(d) => Some(d.ticks()),
        None => None,
    }
}

/// `fugit`'s `Duration<u64, 1, 1_000_000>::to_millis`: `(1 * ticks) / 1000`.
#[verifier::external_body]
fn fugit_duration_to_millis(ticks: u64) -> (r: u64)
    ensures
        r == ticks / 1000,
{
    Duration::<u64, 1, 1_000_000>::from_ticks(ticks).to_millis()
}

/// `fugit`'s `Duration<u64, 1, 1_000_000>::to_micros`: `(1 * ticks) / 1`.
#[verifier::external_body]
fn fugit_duration_to_micros(ticks: u64) -> (r: u64)
    ensures
        r == ticks,
{
    Duration::<u64, 1, 1_000_000>::from_ticks(ticks).to_micros()
}

impl TimeInstant {
    /// The instant whose tick counter reads `ticks`.
    pub fn from_ticks(ticks: u64) -> (r: TimeInstant)
        ensures
            r.ticks == ticks,
    {
        TimeInstant { ticks }
    }

    /// The instant `ms` milliseconds after this one (the tick counter wraps).
    pub fn plus_millis(self, ms: u32) -> (r: TimeInstant)
        requires
            millis_to_ticks(ms as int) <= u32::MAX,
        ensures
            r.ticks == wrap_ticks(self.ticks + millis_to_ticks(ms as int)),
    {
        TimeInstant { ticks: fugit_instant_plus_millis(self.ticks, ms) }
    }

    /// The duration from `earlier` to this instant, or `None` when `earlier`
    /// lies after this instant.
    pub fn checked_duration_since(self, earlier: TimeInstant) -> (r: Option<TimeDuration>)
        ensures
            r is Some <==> not_before(self.ticks as int, earlier.ticks as int),
            r matches Some(d) ==> d.ticks == ticks_between(self.ticks as int, earlier.ticks as int),
    {
        match fugit_checked_duration_since(self.ticks, earlier.ticks) {
            Some(d) => Some(TimeDuration { ticks: d }),
            None => None,
        }
    }

    /// The duration from `earlier` to this instant (the instant difference
    /// `self - earlier`); `earlier` must not lie after this instant.
    pub fn duration_since(self, earlier: TimeInstant) -> (r: TimeDuration)
        requires
            not_before(self.ticks as int, earlier.ticks as int),
        ensures
            r.ticks == ticks_between(self.ticks as int, earlier.ticks as int),
    {
        self.checked_duration_since(earlier).unwrap()
    }
}

impl TimeDuration {
    /// The whole number of milliseconds in this duration (rounded down).
    pub fn to_millis(self) -> (r: u64)
        ensures
            r == self.ticks / 1000,
    {
        fugit_duration_to_millis(self.ticks)
    }

    /// The number of microseconds in this duration.
    pub fn to_micros(self) -> (r: u64)
        ensures
            r == self.ticks,
    {
        fugit_duration_to_micros(self.ticks)
    }
}

/// Adding `ms` milliseconds to an instant and measuring back from the start gives
/// exactly `ms` milliseconds, also across a wrap of the tick counter.
pub proof fn lemma_plus_millis_then_since(start: u64, ms: u32)
    requires
        millis_to_ticks(ms as int) <= u32::MAX,
    ensures
        not_before(wrap_ticks(start + millis_to_ticks(ms as int)), start as int),
        ticks_between(wrap_ticks(start + millis_to_ticks(ms as int)), start as int)
            == millis_to_ticks(ms as int),
        ticks_between(wrap_ticks(start + millis_to_ticks(ms as int)), start as int) / 1000
            == ms,
{
    let d = millis_to_ticks(ms as int);
    let a = start + d;
    if a < tick_modulus() {
        assert(wrap_ticks(a) == a);
        assert(wrap_ticks(a) - start == d);
        assert(wrap_ticks(d) == d);
    } else {
        assert(wrap_ticks(a) == a - tick_modulus());
        assert(wrap_ticks(a) - start == d - tick_modulus());
        assert(wrap_ticks(d - tick_modulus()) == d);
    }
}

} // verus!
