//! The two ways a smoothing rule is driven.
//!
//! Live mode steps the rule once per rendered frame with the observed
//! delta time, keeping a trace ring for drawing. Compare mode re-simulates
//! the same rule from scratch over a fixed duration at a fixed synthetic
//! frame rate; run twice with different rates, it makes the frame-rate
//! dependence of the naive rules visible.

use crate::fixed::{Fx, FX_MAX};
use crate::history::History;
use crate::smoothing::{execute_spec, lemma_execute_bracket, Function};
use vstd::arithmetic::div_mod::{lemma_div_non_zero, lemma_div_nonincreasing};
use vstd::prelude::*;

verus! {

/// Capacity of the live-mode trace ring.
pub const MAX_HISTORY: usize = 240;

/// Largest frame rate (in fixed-point bits) the batch simulator accepts:
/// 2^16 frames per second, the rate at which the synthetic time step
/// reaches one bit.
pub const MAX_FRAME_RATE: i64 = 4294967296;

/// The value after `n` evaluations of a rule with a fixed target and a
/// fixed time step: the whole trajectory of a batch run, point by point.
pub open spec fn iterate_spec(f: Function, start: int, goal: int, dt: int, n: nat) -> int
    decreases n,
{
    if n == 0 {
        start
    } else {
        execute_spec(f, iterate_spec(f, start, goal, dt, (n - 1) as nat), goal, dt)
    }
}

/// Every point of a trajectory lies between its start and its goal.
pub proof fn lemma_iterate_bracket(f: Function, start: int, goal: int, dt: int, n: nat)
    requires
        f.wf(),
        dt >= 0,
    ensures
        start <= goal ==> start <= iterate_spec(f, start, goal, dt, n) <= goal,
        goal <= start ==> goal <= iterate_spec(f, start, goal, dt, n) <= start,
    decreases n,
{
    if n > 0 {
        lemma_iterate_bracket(f, start, goal, dt, (n - 1) as nat);
        lemma_execute_bracket(f, iterate_spec(f, start, goal, dt, (n - 1) as nat), goal, dt);
    }
}

/// Repeated evaluation converges monotonically: a trajectory that starts
/// below its goal never decreases and never passes the goal, and one that
/// starts above never increases and never drops below it. This holds for
/// every rule, the deliberately frame-rate-dependent ones included.
pub proof fn lemma_monotone_convergence(
    f: Function,
    start: int,
    goal: int,
    dt: int,
    i: nat,
    j: nat,
)
    requires
        f.wf(),
        dt >= 0,
        i <= j,
    ensures
        start <= goal ==> iterate_spec(f, start, goal, dt, i) <= iterate_spec(
            f,
            start,
            goal,
            dt,
            j,
        ) <= goal,
        goal <= start ==> goal <= iterate_spec(f, start, goal, dt, j) <= iterate_spec(
            f,
            start,
            goal,
            dt,
            i,
        ),
    decreases j,
{
    lemma_iterate_bracket(f, start, goal, dt, i);
    lemma_iterate_bracket(f, start, goal, dt, j);
    if j > i {
        lemma_monotone_convergence(f, start, goal, dt, i, (j - 1) as nat);
        lemma_iterate_bracket(f, start, goal, dt, (j - 1) as nat);
        lemma_execute_bracket(f, iterate_spec(f, start, goal, dt, (j - 1) as nat), goal, dt);
    }
}

/// The two parameterizations of the exact damper trace identical
/// trajectories: whenever half-life and rate correspond for the time step
/// in use (they feed the decay table the same exponent), every point of
/// the one run equals the matching point of the other, bit for bit.
pub proof fn lemma_damper_trajectories_agree(
    half_life: Fx,
    rate: Fx,
    start: int,
    goal: int,
    dt: int,
    n: nat,
)
    requires
        0 <= half_life.bits,
        0 <= rate.bits,
        dt >= 0,
        crate::smoothing::damper_exponent_spec(Function::DamperExact { half_life }, dt)
            == crate::smoothing::damper_exponent_spec(Function::DamperExact2 { rate }, dt),
    ensures
        iterate_spec(Function::DamperExact { half_life }, start, goal, dt, n) == iterate_spec(
            Function::DamperExact2 { rate },
            start,
            goal,
            dt,
            n,
        ),
    decreases n,
{
    if n > 0 {
        lemma_damper_trajectories_agree(half_life, rate, start, goal, dt, (n - 1) as nat);
        crate::smoothing::lemma_damper_parameterizations_agree(
            half_life,
            rate,
            iterate_spec(Function::DamperExact { half_life }, start, goal, dt, (n - 1) as nat),
            goal,
            dt,
        );
    }
}

/// The synthetic time step of a batch run at `frame_rate`: one second over
/// the rate, in fixed point.
pub open spec fn time_step_spec(frame_rate: int) -> int {
    4294967296int / frame_rate
}

/// How many evaluations a batch run performs: the duration over the time
/// step, rounded down.
pub open spec fn steps_spec(duration: int, frame_rate: int) -> int {
    duration / time_step_spec(frame_rate)
}

/// Runs one batch simulation: starting from `start`, chases the constant
/// `goal` with the synthetic time step of `frame_rate`, for as many whole
/// steps as fit in `target_duration`. Returns the whole trajectory, the
/// start value included, so a run of `s` steps yields `s + 1` points; a
/// duration shorter than one frame yields the single-point trajectory.
pub fn simulate(target_duration: Fx, frame_rate: Fx, start: Fx, goal: Fx, f: &Function) -> (values:
    Vec<Fx>)
    requires
        f.wf(),
        start.wf(),
        goal.wf(),
        0 < target_duration.bits <= FX_MAX,
        0 < frame_rate.bits <= MAX_FRAME_RATE,
    ensures
        values@.len() == steps_spec(target_duration.bits as int, frame_rate.bits as int) + 1,
        values@[0] == start,
        forall|i: int|
            0 <= i < values@.len() ==> values@[i].bits == iterate_spec(
                *f,
                start.bits as int,
                goal.bits as int,
                time_step_spec(frame_rate.bits as int),
                i as nat,
            ),
{
    proof {
        lemma_div_non_zero(4294967296, frame_rate.bits as int);
        lemma_div_nonincreasing(4294967296, frame_rate.bits as int);
        lemma_div_nonincreasing(target_duration.bits as int, time_step_spec(
            frame_rate.bits as int,
        ));
    }
    let time_step: u64 = 4294967296 / (frame_rate.bits as u64);
    let steps: u64 = (target_duration.bits as u64) / time_step;
    let dt = Fx { bits: time_step as i64 };
    let mut values: Vec<Fx> = Vec::new();
    let mut current: Fx = start;
    values.push(start);
    let mut i: u64 = 0;
    while i < steps
        invariant
            i <= steps,
            values@.len() == i + 1,
            values@[i as int] == current,
            values@[0] == start,
            f.wf(),
            start.wf(),
            goal.wf(),
            0 <= dt.bits <= FX_MAX,
            dt.bits == time_step_spec(frame_rate.bits as int),
            start.bits <= goal.bits ==> start.bits <= current.bits <= goal.bits,
            goal.bits <= start.bits ==> goal.bits <= current.bits <= start.bits,
            forall|j: int|
                0 <= j <= i ==> values@[j].bits == iterate_spec(
                    *f,
                    start.bits as int,
                    goal.bits as int,
                    dt.bits as int,
                    j as nat,
                ),
        decreases steps - i,
    {
        let next = f.execute(current, goal, dt);
        values.push(next);
        current = next;
        i = i + 1;
    }
    values
}

/// The settings of a compare-mode session: one duration, two frame rates.
/// Created with the documented defaults on entering compare mode and
/// discarded on leaving it.
#[derive(Clone, Copy, PartialEq, Eq, Structural, Debug)]
pub struct CompareSettings {
    pub first_framerate: Fx,
    pub second_framerate: Fx,
    pub simulating_time: Fx,
}

impl CompareSettings {
    /// Whether the settings lie in the range the batch simulator accepts.
    pub open spec fn wf(self) -> bool {
        &&& 0 < self.simulating_time.bits <= FX_MAX
        &&& 0 < self.first_framerate.bits <= MAX_FRAME_RATE
        &&& 0 < self.second_framerate.bits <= MAX_FRAME_RATE
    }
}

/// The defaults a compare session starts with: 60 and 15 frames per
/// second over two seconds.
pub open spec fn default_compare_settings() -> CompareSettings {
    CompareSettings {
        first_framerate: Fx { bits: 3932160 },
        second_framerate: Fx { bits: 983040 },
        simulating_time: Fx { bits: 131072 },
    }
}

impl Default for CompareSettings {
    /// The documented defaults: 60 and 15 frames per second over two
    /// seconds.
    fn default() -> (r: Self)
        ensures
            r == default_compare_settings(),
            r.first_framerate.bits == 60 * 65536,
            r.second_framerate.bits == 15 * 65536,
            r.simulating_time.bits == 2 * 65536,
            r.wf(),
    {
        CompareSettings {
            first_framerate: Fx { bits: 3932160 },
            second_framerate: Fx { bits: 983040 },
            simulating_time: Fx { bits: 131072 },
        }
    }
}

/// Which of the two modes the playground is in. Compare mode owns its
/// settings; they exist only while it is active.
pub enum Simulation {
    Live,
    Compare { settings: CompareSettings },
}

impl Simulation {
    /// The display name of the mode.
    pub fn name(&self) -> (r: &'static str)
        ensures
            *self is Live ==> r@ == "Live"@,
            *self is Compare ==> r@ == "Compare"@,
    {
        match self {
            Simulation::Live => "Live",
            Simulation::Compare { .. } => "Compare",
        }
    }

    /// Enters compare mode with fresh default settings.
    pub fn switch_to_compare(&mut self)
        ensures
            *final(self) == (Simulation::Compare { settings: default_compare_settings() }),
    {
        *self = Simulation::Compare { settings: CompareSettings::default() };
    }

    /// Returns to live mode, discarding any compare settings.
    pub fn switch_to_live(&mut self)
        ensures
            *final(self) is Live,
    {
        *self = Simulation::Live;
    }
}

impl PartialEq for Simulation {
    /// Two modes are equal when they are the same mode, whatever the
    /// settings: selecting "Compare" in a chooser matches any compare
    /// session.
    fn eq(&self, other: &Self) -> (r: bool) {
        match (self, other) {
            (Simulation::Live, Simulation::Live) => true,
            (Simulation::Compare { .. }, Simulation::Compare { .. }) => true,
            _ => false,
        }
    }
}

impl vstd::std_specs::cmp::PartialEqSpecImpl for Simulation {
    open spec fn obeys_eq_spec() -> bool {
        true
    }

    open spec fn eq_spec(&self, other: &Self) -> bool {
        (*self is Live && *other is Live) || (*self is Compare && *other is Compare)
    }
}

/// The state of a live session: a value chasing a movable goal, with the
/// trace of its most recent positions.
pub struct LiveSim {
    pub value: Fx,
    pub goal: Fx,
    pub history: History,
}

impl LiveSim {
    /// Whether the session's scalars are in range and its trace ring is at
    /// capacity.
    pub open spec fn wf(self) -> bool {
        &&& self.value.wf()
        &&& self.goal.wf()
        &&& self.history.entries().len() == MAX_HISTORY
    }

    /// Starts a live session at `start`: value and goal coincide and the
    /// trace is pre-filled with the start value.
    pub fn new(start: Fx) -> (r: LiveSim)
        requires
            start.wf(),
        ensures
            r.value == start,
            r.goal == start,
            r.wf(),
            forall|i: int| 0 <= i < MAX_HISTORY ==> r.history.entries()[i] == start,
    {
        LiveSim { value: start, goal: start, history: History::new(MAX_HISTORY, start) }
    }

    /// Moves the goal; the value and the trace are untouched.
    pub fn set_goal(&mut self, g: Fx)
        requires
            old(self).wf(),
            g.wf(),
        ensures
            final(self).goal == g,
            final(self).value == old(self).value,
            final(self).history == old(self).history,
            final(self).wf(),
    {
        self.goal = g;
    }

    /// One live frame: evaluates the rule once with the observed delta
    /// time and pushes the new value onto the trace, evicting its oldest
    /// entry. With a zero delta time every rule but `Exact` and `Lerp`
    /// leaves the value in place.
    pub fn tick(&mut self, f: &Function, dt: Fx)
        requires
            old(self).wf(),
            f.wf(),
            0 <= dt.bits <= FX_MAX,
        ensures
            final(self).value.bits == execute_spec(
                *f,
                old(self).value.bits as int,
                old(self).goal.bits as int,
                dt.bits as int,
            ),
            final(self).goal == old(self).goal,
            final(self).wf(),
            final(self).history.entries()[0] == final(self).value,
            final(self).history.entries().len() == MAX_HISTORY,
            forall|i: int|
                1 <= i < MAX_HISTORY ==> final(self).history.entries()[i] == old(
                    self,
                ).history.entries()[i - 1],
            dt.bits == 0 && !(*f is Exact) && !(*f is Lerp) ==> final(self).value == old(
                self,
            ).value,
    {
        let next = f.execute(self.value, self.goal, dt);
        self.value = next;
        self.history.push(next);
    }

    /// A borrow of the trace ring, for rendering.
    pub fn trace(&self) -> (r: &History)
        ensures
            *r == self.history,
    {
        &self.history
    }
}

} // verus!
