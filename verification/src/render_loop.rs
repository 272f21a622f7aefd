//! The render loop: a two-state machine driven by the host's
//! animation-frame scheduler.
//!
//! The loop owns a running flag and an advisory frame-rate hint. On each
//! scheduler tick the host reads its clock and asks the loop what to do:
//! a running loop has the callback invoked with that reading and asks to
//! be re-registered for the next frame; a stopped loop does neither. The
//! host performs the callback invocation and the registration; the
//! decisions are made — and proved — here.

use vstd::prelude::*;

verus! {

/// What one scheduler tick does to a loop in the given state: a running
/// loop delivers the clock reading `now` to the callback; a stopped loop
/// delivers nothing.
pub open spec fn spec_tick(running: bool, now: u64) -> Option<u64> {
    if running {
        Option::Some(now)
    } else {
        Option::None
    }
}

/// The visible history of a scripted run of the scheduler: the
/// timestamps handed to the callback, in order, and how many times the
/// loop asked to be re-registered.
pub struct TickHistory {
    pub delivered: Seq<u64>,
    pub registrations: nat,
}

/// Folds a scripted clock over the tick step. A tick never changes the
/// loop's state — only `start` and `stop` do — so the state is one
/// boolean, constant across the script.
pub open spec fn run_ticks(running: bool, clock: Seq<u64>) -> TickHistory
    decreases clock.len(),
{
    if clock.len() == 0 {
        TickHistory { delivered: Seq::empty(), registrations: 0 }
    } else {
        let rest = run_ticks(running, clock.drop_first());
        match spec_tick(running, clock[0]) {
            Option::Some(t) => TickHistory {
                delivered: seq![t] + rest.delivered,
                registrations: 1 + rest.registrations,
            },
            Option::None => rest,
        }
    }
}

/// Render-loop cadence: while the loop runs, a script of N scheduler
/// ticks invokes the callback exactly N times — with exactly the clock's
/// readings, in the clock's order, so monotone readings are delivered
/// monotonically — and the loop re-registers exactly N times.
pub proof fn lemma_running_cadence(clock: Seq<u64>)
    ensures
        run_ticks(true, clock).delivered == clock,
        run_ticks(true, clock).registrations == clock.len(),
    decreases clock.len(),
{
    if clock.len() == 0 {
        assert(run_ticks(true, clock).delivered =~= clock);
    } else {
        lemma_running_cadence(clock.drop_first());
        assert(run_ticks(true, clock).delivered =~= clock);
    }
}

/// A stopped loop delivers nothing and never re-registers, however many
/// ticks the scheduler still fires.
pub proof fn lemma_stopped_silent(clock: Seq<u64>)
    ensures
        run_ticks(false, clock).delivered == Seq::<u64>::empty(),
        run_ticks(false, clock).registrations == 0,
    decreases clock.len(),
{
    if clock.len() > 0 {
        lemma_stopped_silent(clock.drop_first());
    }
}

/// A per-frame callback's driver, registered with the host's
/// animation-frame scheduler while running.
///
/// The frame-rate hint is advisory only: the scheduler determines the
/// actual cadence, and the hint is carried but not enforced.
pub struct RenderLoop {
    frame_rate: u32,
    stop: bool,
}

impl RenderLoop {
    /// The loop is between `start` and `stop`: ticks are delivered and
    /// re-registration is requested.
    pub closed spec fn running(self) -> bool {
        !self.stop
    }

    /// The advisory frame-rate hint the loop was constructed with.
    pub closed spec fn rate_hint(self) -> u32 {
        self.frame_rate
    }

    /// A new loop, initially stopped.
    pub fn new(frame_rate: u32) -> (r: RenderLoop)
        ensures
            !r.running(),
            r.rate_hint() == frame_rate,
    {
        RenderLoop { frame_rate, stop: true }
    }

    /// Transitions to running. The result says the caller must now
    /// register the tick handler with the animation-frame scheduler.
    pub fn start(&mut self) -> (register: bool)
        ensures
            final(self).running(),
            final(self).rate_hint() == old(self).rate_hint(),
            register,
    {
        self.stop = false;
        true
    }

    /// Transitions to stopped. A tick already in flight completes; no
    /// further delivery or re-registration follows.
    pub fn stop(&mut self)
        ensures
            !final(self).running(),
            final(self).rate_hint() == old(self).rate_hint(),
    {
        self.stop = true;
    }

    /// One scheduler tick with clock reading `now`: the timestamp to
    /// hand to the callback, or `None` when the loop is stopped.
    pub fn on_tick(&self, now: u64) -> (r: Option<u64>)
        ensures
            r == spec_tick(self.running(), now),
    {
        if self.stop {
            None
        } else {
            Some(now)
        }
    }

    /// Whether the tick handler re-registers with the scheduler after a
    /// callback returns: exactly when the loop is still running.
    pub fn should_reregister(&self) -> (r: bool)
        ensures
            r == self.running(),
    {
        !self.stop
    }
}

} // verus!
