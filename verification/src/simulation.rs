//! The fixed-tick simulation loop as a state machine. The loop's owner
//! does the outside work of each phase (locking the queue, integrating
//! the physics, sleeping) and calls one method per phase; the methods
//! decide what that work is.

use crate::event::{Event, Rect};
use crate::handoff::{ticks_ascend, Snapshot, StateHandoff};
use crate::input::{Effect, InputAggregator, InputState};
use crate::timing::{spec_due, spec_remaining, spec_wait, due, wait_until, Wait, TICK_NANOS};
use vstd::prelude::*;

verus! {

/// Which force acts along one horizontal axis of the player during a tick.
#[derive(Clone, Copy, Debug, PartialEq, Eq, Structural)]
pub enum Drive {
    /// The constant force along the axis.
    Positive,
    /// The constant force against the axis.
    Negative,
    /// No key or both keys of the axis are held: the damping force that
    /// opposes the velocity along the axis.
    Damp,
}

pub open spec fn spec_axis_drive(positive: bool, negative: bool) -> Drive {
    if positive && !negative {
        Drive::Positive
    } else if negative && !positive {
        Drive::Negative
    } else {
        Drive::Damp
    }
}

/// The drive along an axis from the two keys that push along and against
/// it.
pub fn axis_drive(positive: bool, negative: bool) -> (d: Drive)
    ensures
        d == spec_axis_drive(positive, negative),
{
    if positive && !negative {
        Drive::Positive
    } else if negative && !positive {
        Drive::Negative
    } else {
        Drive::Damp
    }
}

/// What one tick has to integrate.
#[derive(Clone, Copy, Debug, PartialEq, Eq, Structural)]
pub struct TickPlan {
    /// The number of this tick; the first tick has number 1.
    pub tick: u64,
    /// The time this tick stands for on the loop's clock.
    pub time: u64,
    /// Right against left.
    pub lateral: Drive,
    /// Forward against backward.
    pub forward: Drive,
    pub jump: bool,
    pub mouse_x: i32,
    pub mouse_y: i32,
}

pub open spec fn spec_plan(input: InputState, tick: u64, time: u64) -> TickPlan {
    TickPlan {
        tick,
        time,
        lateral: spec_axis_drive(input.right, input.left),
        forward: spec_axis_drive(input.forward, input.backward),
        jump: input.jump,
        mouse_x: input.mouse_x,
        mouse_y: input.mouse_y,
    }
}

/// Where the loop stands in its cycle.
#[derive(Clone, Copy, Debug, PartialEq, Eq, Structural)]
pub enum Phase {
    /// The waiting events are to be absorbed.
    Draining,
    /// The ticks that are due are to be run.
    Ticking,
    /// A snapshot is to be sent.
    Publishing,
    /// The time until the next tick is to be passed.
    Idle,
}

/// The state of the loop as contracts see it.
pub struct SimulationState {
    pub phase: Phase,
    pub aggregator: InputAggregator,
    /// The time of the last tick that ran.
    pub last_tick: u64,
    /// How many ticks have run.
    pub tick: u64,
}

impl SimulationState {
    pub open spec fn spec_start(start: u64, window: Rect) -> SimulationState {
        SimulationState {
            phase: Phase::Draining,
            aggregator: InputAggregator { state: InputState::spec_new(), window },
            last_tick: start,
            tick: 0,
        }
    }

    pub open spec fn spec_absorb(self, events: Seq<Event>) -> (SimulationState, Seq<Effect>) {
        let (aggregator, effects) = self.aggregator.spec_absorb(events);
        (SimulationState { phase: Phase::Ticking, aggregator, ..self }, effects)
    }

    pub open spec fn spec_tick_due(self, now: u64) -> bool {
        spec_due(self.last_tick, TICK_NANOS, now)
    }

    /// How many ticks are due at `now`: the whole timesteps that have
    /// passed since the last tick.
    pub open spec fn spec_ticks_due(self, now: u64) -> nat {
        if now >= self.last_tick {
            ((now - self.last_tick) / (TICK_NANOS as int)) as nat
        } else {
            0
        }
    }

    /// One step of the ticking phase. A tick that is due runs on the input
    /// as it stands, takes the next number, moves the loop's time on by
    /// one timestep and clears the one-shot input. With no tick due the
    /// loop goes on to publish.
    pub open spec fn spec_next_tick(self, now: u64) -> (SimulationState, Option<TickPlan>) {
        if self.spec_tick_due(now) {
            let tick = (self.tick + 1) as u64;
            let time = (self.last_tick + TICK_NANOS) as u64;
            (
                SimulationState {
                    phase: Phase::Ticking,
                    aggregator: InputAggregator {
                        state: self.aggregator.state.spec_reset(),
                        ..self.aggregator
                    },
                    last_tick: time,
                    tick,
                },
                Some(spec_plan(self.aggregator.state, tick, time)),
            )
        } else {
            (SimulationState { phase: Phase::Publishing, ..self }, None)
        }
    }

    /// The state after `n` steps of the ticking phase at one `now`.
    pub open spec fn spec_after_ticks(self, now: u64, n: nat) -> SimulationState
        decreases n,
    {
        if n == 0 {
            self
        } else {
            self.spec_after_ticks(now, (n - 1) as nat).spec_next_tick(now).0
        }
    }

    /// What the tick with index `i` of a catch-up has to integrate: the
    /// first tick takes the input as it stands, every later one the input
    /// as the reset leaves it, and each takes the next number and the next
    /// timestep.
    pub open spec fn spec_due_plan(self, i: int) -> TickPlan {
        spec_plan(
            if i == 0 {
                self.aggregator.state
            } else {
                self.aggregator.state.spec_reset()
            },
            (self.tick + i + 1) as u64,
            (self.last_tick + (i + 1) * TICK_NANOS) as u64,
        )
    }

    /// What the ticks that are due at `now` have to integrate, in order.
    pub open spec fn spec_due_plans(self, now: u64) -> Seq<TickPlan> {
        Seq::new(self.spec_ticks_due(now), |i: int| self.spec_due_plan(i))
    }

    /// The state once every tick that is due at `now` has run: the count
    /// and the time have moved on by the ticks that were due, the one-shot
    /// input is cleared if any tick ran, and the loop goes on to publish.
    pub open spec fn spec_caught_up(self, now: u64) -> SimulationState {
        let n = self.spec_ticks_due(now);
        SimulationState {
            phase: Phase::Publishing,
            aggregator: InputAggregator {
                state: if n > 0 {
                    self.aggregator.state.spec_reset()
                } else {
                    self.aggregator.state
                },
                ..self.aggregator
            },
            last_tick: (self.last_tick + n * TICK_NANOS) as u64,
            tick: (self.tick + n) as u64,
        }
    }

    pub open spec fn spec_publish(self) -> SimulationState {
        SimulationState { phase: Phase::Idle, ..self }
    }

    pub open spec fn spec_idle_wait(self, now: u64) -> (SimulationState, Wait) {
        (
            SimulationState { phase: Phase::Draining, ..self },
            spec_wait(spec_remaining(self.last_tick, TICK_NANOS, now)),
        )
    }
}

/// The simulation loop's own state: the aggregated input, the window the
/// mouse is measured against, the time of the last tick and the count of
/// ticks.
pub struct SimulationLoop {
    phase: Phase,
    aggregator: InputAggregator,
    last_tick: u64,
    tick: u64,
}

impl View for SimulationLoop {
    type V = SimulationState;

    closed spec fn view(&self) -> SimulationState {
        SimulationState {
            phase: self.phase,
            aggregator: self.aggregator,
            last_tick: self.last_tick,
            tick: self.tick,
        }
    }
}

impl SimulationLoop {
    /// A loop that starts at `start` on its clock, before its first tick,
    /// with no input and the window `window`.
    pub fn new(start: u64, window: Rect) -> (sim: SimulationLoop)
        ensures
            sim@ == SimulationState::spec_start(start, window),
    {
        SimulationLoop {
            phase: Phase::Draining,
            aggregator: InputAggregator::new(window),
            last_tick: start,
            tick: 0,
        }
    }

    pub fn phase(&self) -> (p: Phase)
        ensures
            p == self@.phase,
    {
        self.phase
    }

    pub fn input(&self) -> (s: InputState)
        ensures
            s == self@.aggregator.state,
    {
        self.aggregator.state
    }

    pub fn window(&self) -> (r: Rect)
        ensures
            r == self@.aggregator.window,
    {
        self.aggregator.window
    }

    pub fn last_tick(&self) -> (t: u64)
        ensures
            t == self@.last_tick,
    {
        self.last_tick
    }

    pub fn tick(&self) -> (n: u64)
        ensures
            n == self@.tick,
    {
        self.tick
    }

    /// Draining: applies the events taken from the queue, in order, and
    /// returns the effect of each. The loop goes on to ticking.
    pub fn absorb(&mut self, events: &Vec<Event>) -> (effects: Vec<Effect>)
        ensures
            (final(self)@, effects@) == old(self)@.spec_absorb(events@),
    {
        let effects = self.aggregator.absorb(events);
        self.phase = Phase::Ticking;
        effects
    }

    pub fn tick_due(&self, now: u64) -> (d: bool)
        ensures
            d == self@.spec_tick_due(now),
    {
        due(self.last_tick, TICK_NANOS, now)
    }

    /// How many ticks are due at `now`.
    pub fn ticks_due(&self, now: u64) -> (n: u64)
        ensures
            n == self@.spec_ticks_due(now),
    {
        if now >= self.last_tick {
            (now - self.last_tick) / TICK_NANOS
        } else {
            0
        }
    }

    /// Ticking: if a tick is due at `now`, returns what it has to
    /// integrate; if none is, returns `None` and the loop goes on to
    /// publish. The caller asks again with the same `now` until `None`
    /// comes. The count of ticks must not be exhausted.
    pub fn next_tick(&mut self, now: u64) -> (plan: Option<TickPlan>)
        requires
            old(self)@.spec_tick_due(now) ==> old(self)@.tick < u64::MAX,
        ensures
            (final(self)@, plan) == old(self)@.spec_next_tick(now),
    {
        if due(self.last_tick, TICK_NANOS, now) {
            self.last_tick = self.last_tick + TICK_NANOS;
            self.tick = self.tick + 1;
            let plan = TickPlan {
                tick: self.tick,
                time: self.last_tick,
                lateral: axis_drive(self.aggregator.state.right, self.aggregator.state.left),
                forward: axis_drive(self.aggregator.state.forward, self.aggregator.state.backward),
                jump: self.aggregator.state.jump,
                mouse_x: self.aggregator.state.mouse_x,
                mouse_y: self.aggregator.state.mouse_y,
            };
            self.aggregator.state.post_update_reset();
            self.phase = Phase::Ticking;
            Some(plan)
        } else {
            self.phase = Phase::Publishing;
            None
        }
    }

    /// Ticking, all at once: runs every tick that is due at `now` and
    /// returns what each has to integrate, in order. The loop goes on to
    /// publish. The count of ticks must have room for the ticks that are
    /// due.
    pub fn run_due_ticks(&mut self, now: u64) -> (plans: Vec<TickPlan>)
        requires
            old(self)@.tick + old(self)@.spec_ticks_due(now) <= u64::MAX,
        ensures
            plans@ == old(self)@.spec_due_plans(now),
            final(self)@ == old(self)@.spec_caught_up(now),
    {
        let ghost start = self@;
        let ghost due = start.spec_ticks_due(now);
        let ghost mut done: nat = 0;
        let mut plans: Vec<TickPlan> = Vec::new();
        loop
            invariant_except_break
                done <= due,
                self@ == start.spec_after_ticks(now, done),
                plans@ == start.spec_due_plans(now).take(done as int),
            invariant
                start == old(self)@,
                due == start.spec_ticks_due(now),
                start.tick + due <= u64::MAX,
            ensures
                plans@ == start.spec_due_plans(now),
                self@ == start.spec_caught_up(now),
            decreases due - done,
        {
            proof {
                law_catch_up_runs_every_due_tick(start, now, done);
                law_stepping_matches_catch_up(start, now, done);
            }
            match self.next_tick(now) {
                Some(plan) => {
                    plans.push(plan);
                    proof {
                        assert(plans@ == start.spec_due_plans(now).take(done as int + 1));
                        done = done + 1;
                    }
                },
                None => {
                    assert(start.spec_due_plans(now).take(done as int) == start.spec_due_plans(
                        now,
                    ));
                    break;
                },
            }
        }
        plans
    }

    /// Publishing: sends a snapshot of `camera` and `instances`, stamped
    /// with the count of ticks, behind whatever the consumer has not taken
    /// yet. The loop goes on to idle.
    pub fn publish<C, I>(
        &mut self,
        handoff: &mut StateHandoff<Snapshot<C, I>>,
        camera: C,
        instances: Vec<I>,
    )
        ensures
            final(self)@ == old(self)@.spec_publish(),
            final(handoff)@ == old(handoff)@.push(
                (Snapshot { tick: old(self)@.tick, camera, instances }),
            ),
    {
        handoff.send(Snapshot { tick: self.tick, camera, instances });
        self.phase = Phase::Idle;
    }

    /// Idle: how to pass the time at `now` until the next tick is due. The
    /// loop goes back to draining.
    pub fn idle_wait(&mut self, now: u64) -> (wait: Wait)
        ensures
            (final(self)@, wait) == old(self)@.spec_idle_wait(now),
    {
        self.phase = Phase::Draining;
        wait_until(self.last_tick, TICK_NANOS, now)
    }
}

/// Each tick takes the number after the last one: none is skipped, none
/// comes twice, and the count of ticks grows by exactly one.
pub proof fn law_tick_advances_by_one(state: SimulationState, now: u64)
    requires
        state.spec_tick_due(now),
        state.tick < u64::MAX,
    ensures
        state.spec_next_tick(now).0.tick == state.tick + 1,
        state.spec_next_tick(now).1 is Some,
        state.spec_next_tick(now).1->0.tick == state.tick + 1,
        state.spec_next_tick(now).0.last_tick == state.last_tick + TICK_NANOS,
{
}

/// A step of the ticking phase with no tick due runs nothing and changes
/// neither the count of ticks nor the input.
pub proof fn law_no_tick_before_its_time(state: SimulationState, now: u64)
    requires
        !state.spec_tick_due(now),
    ensures
        state.spec_next_tick(now).1 is None,
        state.spec_next_tick(now).0.tick == state.tick,
        state.spec_next_tick(now).0.last_tick == state.last_tick,
        state.spec_next_tick(now).0.aggregator == state.aggregator,
        state.spec_next_tick(now).0.phase == Phase::Publishing,
{
}

/// Catching up: asked again and again at one `now`, the loop runs exactly
/// the ticks that are due, numbered without a gap, and then less than one
/// timestep separates its time from `now`.
pub proof fn law_catch_up_runs_every_due_tick(state: SimulationState, now: u64, n: nat)
    requires
        n <= state.spec_ticks_due(now),
        state.tick + n <= u64::MAX,
    ensures
        state.spec_after_ticks(now, n).tick == state.tick + n,
        state.spec_after_ticks(now, n).last_tick == state.last_tick + n * TICK_NANOS,
        state.spec_after_ticks(now, n).spec_ticks_due(now) == state.spec_ticks_due(now) - n,
        state.spec_after_ticks(now, n).spec_tick_due(now) == (n < state.spec_ticks_due(now)),
    decreases n,
{
    if n > 0 {
        let k = (n - 1) as nat;
        law_catch_up_runs_every_due_tick(state, now, k);
        let before = state.spec_after_ticks(now, k);
        assert(before.spec_tick_due(now));
        assert(state.spec_after_ticks(now, n) == before.spec_next_tick(now).0);
        assert(n * TICK_NANOS == k * TICK_NANOS + TICK_NANOS) by (nonlinear_arith)
            requires
                n == k + 1,
        ;
    }
}

/// Stepping and catching up agree: after `n` of the due ticks have been
/// stepped through at one `now`, the next step hands out the plan with
/// index `n` of the catch-up if a tick is still due, and else leaves the
/// loop caught up.
pub proof fn law_stepping_matches_catch_up(state: SimulationState, now: u64, n: nat)
    requires
        n <= state.spec_ticks_due(now),
        state.tick + state.spec_ticks_due(now) <= u64::MAX,
    ensures
        n < state.spec_ticks_due(now) ==> state.spec_after_ticks(now, n).spec_next_tick(now).1
            == Some(state.spec_due_plans(now)[n as int]),
        n == state.spec_ticks_due(now) ==> state.spec_after_ticks(now, n).spec_next_tick(now)
            == (state.spec_caught_up(now), None::<TickPlan>),
        state.spec_after_ticks(now, n).spec_tick_due(now) == (n < state.spec_ticks_due(now)),
{
    law_catch_up_runs_every_due_tick(state, now, n);
    law_input_after_ticks(state, now, n);
    assert((n + 1) * TICK_NANOS == n * TICK_NANOS + TICK_NANOS) by (nonlinear_arith);
}

/// After the first tick of a catch-up the input stays as the reset left
/// it, and the window never changes.
pub proof fn law_input_after_ticks(state: SimulationState, now: u64, n: nat)
    requires
        n <= state.spec_ticks_due(now),
        state.tick + n <= u64::MAX,
    ensures
        state.spec_after_ticks(now, n).aggregator.window == state.aggregator.window,
        state.spec_after_ticks(now, n).aggregator.state == (if n > 0 {
            state.aggregator.state.spec_reset()
        } else {
            state.aggregator.state
        }),
    decreases n,
{
    if n > 0 {
        let k = (n - 1) as nat;
        law_input_after_ticks(state, now, k);
        law_catch_up_runs_every_due_tick(state, now, k);
    }
}

/// Only the first tick of a catch-up sees the mouse movement and the jump:
/// the one-shot input is cleared once a tick has run, the level flags
/// stay.
pub proof fn law_one_shot_input_is_consumed(state: SimulationState, now: u64)
    requires
        state.spec_tick_due(now),
    ensures
        state.spec_next_tick(now).0.aggregator.state == state.aggregator.state.spec_reset(),
        state.spec_next_tick(now).0.aggregator.window == state.aggregator.window,
        state.spec_next_tick(now).1->0.jump == state.aggregator.state.jump,
        state.spec_next_tick(now).1->0.mouse_x == state.aggregator.state.mouse_x,
        state.spec_next_tick(now).1->0.mouse_y == state.aggregator.state.mouse_y,
{
}

/// With both keys of an axis held, or neither, the axis is damped; the
/// constant force acts only with exactly one of them held.
pub proof fn law_opposed_keys_damp(positive: bool, negative: bool)
    ensures
        positive == negative ==> spec_axis_drive(positive, negative) == Drive::Damp,
        spec_axis_drive(true, true) == Drive::Damp,
        spec_axis_drive(false, false) == Drive::Damp,
        spec_axis_drive(true, false) == Drive::Positive,
        spec_axis_drive(false, true) == Drive::Negative,
{
}

/// What one loop publishes stays in the order of its ticks: if the
/// pending snapshots ascend and none is ahead of the loop, that still holds
/// after the loop has published, and after it has run a tick.
pub proof fn law_publish_keeps_ticks_ascending<C, I>(
    state: SimulationState,
    pending: Seq<Snapshot<C, I>>,
    camera: C,
    instances: Vec<I>,
    now: u64,
)
    requires
        ticks_ascend(pending),
        forall|i: int| 0 <= i < pending.len() ==> pending[i].tick <= state.tick,
        state.tick < u64::MAX,
    ensures
        ticks_ascend(pending.push(Snapshot { tick: state.tick, camera, instances })),
        forall|i: int|
            0 <= i < pending.len() + 1 ==> pending.push(
                Snapshot { tick: state.tick, camera, instances },
            )[i].tick <= state.spec_publish().tick,
        state.tick <= state.spec_next_tick(now).0.tick,
{
}

/// One full cycle leads from draining through ticking, publishing and
/// idling back to draining.
pub proof fn law_cycle_returns_to_draining(state: SimulationState, events: Seq<Event>, now: u64, later: u64)
    requires
        !state.spec_absorb(events).0.spec_tick_due(now),
    ensures
        state.spec_absorb(events).0.phase == Phase::Ticking,
        state.spec_absorb(events).0.spec_next_tick(now).0.phase == Phase::Publishing,
        state.spec_absorb(events).0.spec_next_tick(now).0.spec_publish().phase == Phase::Idle,
        state.spec_absorb(events).0.spec_next_tick(now).0.spec_publish().spec_idle_wait(later).0.phase
            == Phase::Draining,
{
}

} // verus!
