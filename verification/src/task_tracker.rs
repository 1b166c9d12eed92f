//! Tracks the release and the sub-program of one execution of a task.
use crate::time::TimeInstant;
use vstd::prelude::*;

verus! {

/// Timestamps of one execution of a task.
pub struct TaskTracker {
    release_time: Option<TimeInstant>,
    start_sub_value: Option<TimeInstant>,
    end_sub_value: Option<TimeInstant>,
}

impl TaskTracker {
    /// When the current execution was released.
    pub closed spec fn release(self) -> Option<TimeInstant> {
        self.release_time
    }

    /// When the sub-program of the current execution started.
    pub closed spec fn start_sub(self) -> Option<TimeInstant> {
        self.start_sub_value
    }

    /// When the sub-program of the current execution ended.
    pub closed spec fn end_sub(self) -> Option<TimeInstant> {
        self.end_sub_value
    }

    /// Nothing tracked yet.
    pub fn new() -> (r: TaskTracker)
        ensures
            r.release() is None,
            r.start_sub() is None,
            r.end_sub() is None,
    {
        TaskTracker { release_time: None, start_sub_value: None, end_sub_value: None }
    }

    /// Begins tracking an execution released at `now`.
    pub fn start_tracking(&mut self, now: TimeInstant)
        ensures
            final(self).release() == Some(now),
            final(self).start_sub() is None,
            final(self).end_sub() is None,
    {
        self.release_time = Some(now);
        self.start_sub_value = None;
        self.end_sub_value = None;
    }

    /// Marks the start of the sub-program at `now`.
    pub fn start_sub_program(&mut self, now: TimeInstant)
        ensures
            final(self).start_sub() == Some(now),
            final(self).release() == old(self).release(),
            final(self).end_sub() == old(self).end_sub(),
    {
        self.start_sub_value = Some(now);
    }

    /// Marks the end of the sub-program at `now`.
    pub fn end_sub_program(&mut self, now: TimeInstant)
        ensures
            final(self).end_sub() == Some(now),
            final(self).release() == old(self).release(),
            final(self).start_sub() == old(self).start_sub(),
    {
        self.end_sub_value = Some(now);
    }

    /// Ends the tracking of the current execution at `now`; it reports nothing
    /// and leaves the recorded times as they are.
    pub fn end_tracking(&mut self, now: TimeInstant)
        ensures
            final(self).release() == old(self).release(),
            final(self).start_sub() == old(self).start_sub(),
            final(self).end_sub() == old(self).end_sub(),
    {
        let _now = now;
        if let Some(_init_val) = self.release_time {
        }
    }
}

} // verus!
