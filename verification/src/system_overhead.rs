//! Tracks how long a task's sub-program runs and how late it started
//! (its jitter) relative to the task's release.
use crate::time::{not_before, ticks_between, TimeInstant};
use vstd::prelude::*;

verus! {

/// What a task reports at the end of one execution: how long its sub-program
/// ran, in microseconds, and the jitter of its start, in milliseconds.
#[derive(Clone, Copy, Debug, PartialEq, Eq, Structural)]
pub struct ExecReport {
    pub subprogram_micros: u64,
    pub jitter_millis: u64,
}

/// Timestamps of one execution of a task.
pub struct SystemOverhead {
    init_value: Option<TimeInstant>,
    start_sub_value: Option<TimeInstant>,
    end_sub_value: Option<TimeInstant>,
    jitter: u64,
}

impl SystemOverhead {
    /// When tracking of the current execution began (its release).
    pub closed spec fn init(self) -> Option<TimeInstant> {
        self.init_value
    }

    /// When the sub-program of the current execution started.
    pub closed spec fn start_sub(self) -> Option<TimeInstant> {
        self.start_sub_value
    }

    /// When the sub-program of the current execution ended.
    pub closed spec fn end_sub(self) -> Option<TimeInstant> {
        self.end_sub_value
    }

    /// Milliseconds from the release to the start of the latest sub-program.
    pub closed spec fn jitter(self) -> u64 {
        self.jitter
    }

    /// Nothing tracked yet and no jitter.
    pub fn new() -> (r: SystemOverhead)
        ensures
            r.init() is None,
            r.start_sub() is None,
            r.end_sub() is None,
            r.jitter() == 0,
    {
        SystemOverhead { init_value: None, start_sub_value: None, end_sub_value: None, jitter: 0 }
    }

    /// Begins tracking an execution released at `now`, forgetting the
    /// sub-program times of the previous one.
    pub fn start_tracking(&mut self, now: TimeInstant)
        ensures
            final(self).init() == Some(now),
            final(self).start_sub() is None,
            final(self).end_sub() is None,
            final(self).jitter() == old(self).jitter(),
    {
        self.init_value = Some(now);
        self.start_sub_value = None;
        self.end_sub_value = None;
    }

    /// Whether `start_sub_program(now)` is defined: `now` must not lie before
    /// the release, if there is one.
    pub fn accepts_sub_program_start(&self, now: TimeInstant) -> (r: bool)
        ensures
            r == (self.init() matches Some(i) ==> not_before(now.ticks as int, i.ticks as int)),
    {
        match self.init_value {
            Some(i) => now.checked_duration_since(i).is_some(),
            None => true,
        }
    }

    /// Whether `show_exec_results(now)` is defined: once tracking has begun, the
    /// sub-program must have started, not after `now`.
    pub fn accepts_exec_results(&self, now: TimeInstant) -> (r: bool)
        ensures
            r == (self.init() is Some ==> (self.start_sub() matches Some(s) && not_before(
                now.ticks as int,
                s.ticks as int,
            ))),
    {
        match (self.init_value, self.start_sub_value) {
            (None, _) => true,
            (Some(_), None) => false,
            (Some(_), Some(s)) => now.checked_duration_since(s).is_some(),
        }
    }

    /// Marks the start of the sub-program at `now`; when tracking has begun,
    /// the jitter becomes the whole milliseconds since the release.
    pub fn start_sub_program(&mut self, now: TimeInstant)
        requires
            old(self).init() matches Some(i) ==> not_before(now.ticks as int, i.ticks as int),
        ensures
            final(self).start_sub() == Some(now),
            final(self).init() == old(self).init(),
            final(self).end_sub() == old(self).end_sub(),
            final(self).jitter() == (match old(self).init() {
                Some(i) => (ticks_between(now.ticks as int, i.ticks as int) / 1000) as u64,
                None => old(self).jitter(),
            }),
    {
        let st = now;
        self.start_sub_value = Some(st);
        if let Some(i) = self.init_value {
            self.jitter = st.duration_since(i).to_millis();
        }
    }

    /// Marks the end of the sub-program at `now`.
    pub fn end_sub_program(&mut self, now: TimeInstant)
        ensures
            final(self).end_sub() == Some(now),
            final(self).init() == old(self).init(),
            final(self).start_sub() == old(self).start_sub(),
            final(self).jitter() == old(self).jitter(),
    {
        self.end_sub_value = Some(now);
    }

    /// Ends the sub-program at `now` and, when tracking has begun, reports its
    /// run time and the jitter; without a release there is nothing to report.
    pub fn show_exec_results(&mut self, now: TimeInstant) -> (r: Option<ExecReport>)
        requires
            old(self).init() is Some ==> (old(self).start_sub() matches Some(s) && not_before(
                now.ticks as int,
                s.ticks as int,
            )),
        ensures
            final(self).end_sub() == Some(now),
            final(self).init() == old(self).init(),
            final(self).start_sub() == old(self).start_sub(),
            final(self).jitter() == old(self).jitter(),
            r == (match old(self).init() {
                Some(_) => Some(
                    ExecReport {
                        subprogram_micros: ticks_between(
                            now.ticks as int,
                            old(self).start_sub().unwrap().ticks as int,
                        ) as u64,
                        jitter_millis: old(self).jitter(),
                    },
                ),
                None => None,
            }),
    {
        self.end_sub_program(now);
        if let Some(_init_val) = self.init_value {
            let start_sub = self.start_sub_value.unwrap();
            let end_sub = self.end_sub_value.unwrap();
            let subprogram = end_sub.duration_since(start_sub);
            Some(ExecReport { subprogram_micros: subprogram.to_micros(), jitter_millis: self.jitter })
        } else {
            None
        }
    }
}

} // verus!
