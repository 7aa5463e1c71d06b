use std::sync::atomic::{AtomicBool, Ordering};
use std::sync::Arc;

use vstd::prelude::*;

verus! {

/// Physics updates per second.
pub const PHYS_TICK: u64 = 20;

/// Engine updates per second.
pub const TICK_TIME: u64 = 40;

pub const ONE_SECOND_IN_MILLISECONDS: u64 = 1000;

/// The time between two iterations of a task that runs `rate` times per second.
pub open spec fn spec_period_ms(rate: nat) -> nat
    recommends
        rate > 0,
{
    ONE_SECOND_IN_MILLISECONDS as nat / rate
}

/// The time between two iterations of a task that runs `rate` times per second,
/// in whole milliseconds.
pub fn period_for_rate(rate: u64) -> (r: u64)
    requires
        rate > 0,
    ensures
        r == spec_period_ms(rate as nat),
{
    ONE_SECOND_IN_MILLISECONDS / rate
}

/// What a tick task does at the top of an iteration.
#[derive(Clone, Copy, Debug, PartialEq, Eq, Structural)]
pub enum TickStep {
    /// Leave the loop: the task has been asked to stop.
    Shutdown,
    /// Run one tick, then sleep this many milliseconds.
    Sleep { millis: u64 },
}

/// The decision a tick task makes each time it wakes.
///
/// A task that has been asked to stop shuts down; otherwise it ticks and sleeps
/// its full period, however long the previous iteration took (no catch-up).
pub fn next_step(stop_requested: bool, period_ms: u64) -> (r: TickStep)
    ensures
        r == (if stop_requested {
            TickStep::Shutdown
        } else {
            TickStep::Sleep { millis: period_ms }
        }),
{
    if stop_requested {
        TickStep::Shutdown
    } else {
        TickStep::Sleep { millis: period_ms }
    }
}

/// Controller side of the physics task: the stop flag it shares with the task.
#[allow(non_camel_case_types)]
pub struct tickPhysics {
    pub do_stop: Arc<AtomicBool>,
    stop_sent: Ghost<bool>,
}

/// Controller side of the engine task: the stop flag it shares with the task.
#[allow(non_camel_case_types)]
pub struct tickEngine {
    pub do_stop: Arc<AtomicBool>,
    stop_sent: Ghost<bool>,
}

impl tickPhysics {
    /// Whether the stop flag is up.
    pub closed spec fn is_stopping(&self) -> bool {
        self.stop_sent@
    }

    /// A task with its stop flag down.
    pub fn new() -> (r: tickPhysics)
        ensures
            !r.is_stopping(),
    {
        tickPhysics { do_stop: Arc::new(AtomicBool::new(false)), stop_sent: Ghost(false) }
    }

    /// Raises the stop flag; the task sees it when it next wakes.
    pub fn stop(&mut self)
        ensures
            final(self).is_stopping(),
    {
        self.do_stop.store(true, Ordering::Relaxed);
        self.stop_sent = Ghost(true);
    }

    /// The time between two iterations of the physics task.
    pub fn period_ms(&self) -> (r: u64)
        ensures
            r == spec_period_ms(PHYS_TICK as nat),
    {
        period_for_rate(PHYS_TICK)
    }
}

impl tickEngine {
    /// Whether the stop flag is up.
    pub closed spec fn is_stopping(&self) -> bool {
        self.stop_sent@
    }

    /// A task with its stop flag down.
    pub fn new() -> (r: tickEngine)
        ensures
            !r.is_stopping(),
    {
        tickEngine { do_stop: Arc::new(AtomicBool::new(false)), stop_sent: Ghost(false) }
    }

    /// Raises the stop flag; the task sees it when it next wakes.
    pub fn stop(&mut self)
        ensures
            final(self).is_stopping(),
    {
        self.do_stop.store(true, Ordering::Relaxed);
        self.stop_sent = Ghost(true);
    }

    /// The time between two iterations of the engine task.
    pub fn period_ms(&self) -> (r: u64)
        ensures
            r == spec_period_ms(TICK_TIME as nat),
    {
        period_for_rate(TICK_TIME)
    }
}

} // verus!
