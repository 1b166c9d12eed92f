//! Verified core of a Ravenscar-style extended real-time application:
//! the bookkeeping that the periodic, sporadic and interrupt-driven tasks
//! share (activation log, activation manager, auxiliary counters, timing
//! trackers, workload index logic), stated and proved with Verus.
pub mod time;
pub mod auxiliary;
pub mod activation_log;
pub mod activation_manager;
pub mod system_overhead;
pub mod task_tracker;
pub mod workload;
pub mod schedule;
