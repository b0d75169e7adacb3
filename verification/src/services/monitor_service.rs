//! What the monitor decides: whether to arm the timer, with which period,
//! and which cycle the timer sets off.

use crate::config::database::{AppConfig, AppConfigView};
use crate::services::reconcile::{Cycle, CycleView, Trigger};
use vstd::prelude::*;

verus! {

/// What the monitor does with its timer.
#[derive(Debug, Clone, Copy, PartialEq, Eq, Structural)]
pub enum Schedule {
    /// No timer: there is no configuration.
    Idle,
    /// A timer that fires every so many seconds.
    Every(u64),
}

/// The schedule for a stored configuration, or for none.
pub open spec fn spec_schedule(config: Option<AppConfigView>) -> Schedule {
    match config {
        Some(c) => Schedule::Every(c.check_interval),
        None => Schedule::Idle,
    }
}

/// The schedule with which the monitor starts: a timer of the configured
/// check interval, or none if nothing is configured. The interval is read
/// once, here.
pub fn start(config: Option<&AppConfig>) -> (schedule: Schedule)
    ensures
        schedule == spec_schedule(
            match config {
                Some(c) => Some(c@),
                None => None,
            },
        ),
{
    match config {
        Some(c) => Schedule::Every(c.check_interval),
        None => Schedule::Idle,
    }
}

/// Whether the timer has to be torn down and armed anew for the schedule
/// that now applies. Storing a new interval alone changes no timer.
pub fn needs_rearming(armed: Schedule, wanted: Schedule) -> (r: bool)
    ensures
        r == (armed != wanted),
{
    match (armed, wanted) {
        (Schedule::Idle, Schedule::Idle) => false,
        (Schedule::Every(a), Schedule::Every(b)) => a != b,
        _ => true,
    }
}

/// The cycle that the timer sets off. It ends at once when the address has
/// not changed.
pub fn check_and_update() -> (cycle: Cycle)
    ensures
        cycle@ == CycleView::start(Trigger::Scheduled),
{
    Cycle::new(Trigger::Scheduled)
}

/// The cycle that runs once at startup; it is the timer's cycle.
pub fn check_and_update_now() -> (cycle: Cycle)
    ensures
        cycle@ == CycleView::start(Trigger::Scheduled),
{
    check_and_update()
}

/// Keeps cycles from overlapping: at most one is under way at a time.
///
/// The caller keeps one guard for the process, behind whatever lock it uses
/// for shared state, and runs a cycle only between a `begin` that returned
/// `true` and the `finish` that follows it.
#[derive(Debug)]
pub struct CycleGuard {
    busy: bool,
}

impl View for CycleGuard {
    type V = bool;

    /// Whether a cycle is under way.
    closed spec fn view(&self) -> bool {
        self.busy
    }
}

impl CycleGuard {
    /// A guard with no cycle under way.
    pub fn new() -> (guard: CycleGuard)
        ensures
            !guard@,
    {
        CycleGuard { busy: false }
    }

    /// Asks to start a cycle. Granted if and only if none is under way; one
    /// is under way afterwards either way.
    pub fn begin(&mut self) -> (granted: bool)
        ensures
            granted == !old(self)@,
            final(self)@,
    {
        let granted = !self.busy;
        self.busy = true;
        granted
    }

    /// Reports that the cycle under way is over.
    pub fn finish(&mut self)
        ensures
            !final(self)@,
    {
        self.busy = false;
    }
}

} // verus!
