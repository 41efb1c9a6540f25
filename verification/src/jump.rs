//! One jump as a curve over time.
//!
//! A `JumpArc` turns elapsed ticks into upward velocity. Each step moves the
//! arc along its easing curve and reports the height gained as a velocity,
//! so the caller integrates a jump like any other motion. While the jump
//! input is released the arc runs four times as fast and reports a fifth of
//! the speed, which cuts the jump short.

use vstd::prelude::*;
use crate::easing::Easing;
use crate::units::{
    div_toward_zero,
    lemma_toward_zero_bound,
    toward_zero,
    within_limit,
    COORD_LIMIT,
    TIME_LIMIT,
};

verus! {

/// Extra ticks, per tick elapsed, that the arc advances while the input is
/// released.
pub const RELEASE_SPEEDUP: i64 = 3;

/// Divisor of the reported velocity while the input is released.
pub const RELEASE_DAMPING: i64 = 5;

/// A jump arc as mathematical integers.
pub struct ArcView {
    pub max_length: int,
    pub max_height: int,
    pub cur_length: int,
    pub cur_height: int,
    pub is_done: bool,
}

/// One step of a run: the ticks elapsed and whether the input was held.
pub struct Tick {
    pub dt: int,
    pub held: bool,
}

impl ArcView {
    /// Heights lie between 0 and the full height, and an arc in flight has
    /// a positive duration that it has not outrun.
    pub open spec fn wf(self) -> bool {
        &&& 0 <= self.cur_height <= self.max_height <= COORD_LIMIT
        &&& 0 <= self.cur_length
        &&& !self.is_done ==> 0 < self.max_length <= TIME_LIMIT && self.cur_length
            <= self.max_length
    }

    /// No arc in flight, nothing travelled.
    pub open spec fn idle() -> ArcView {
        ArcView { max_length: 0, max_height: 0, cur_length: 0, cur_height: 0, is_done: true }
    }

    /// An arc of the given height and duration at its start.
    pub open spec fn started(height: int, length: int) -> ArcView {
        ArcView {
            max_length: length,
            max_height: height,
            cur_length: 0,
            cur_height: 0,
            is_done: false,
        }
    }
}

/// Ticks that the arc advances in a step of `dt`.
pub open spec fn advance(dt: int, held: bool) -> int {
    if held {
        dt
    } else {
        dt + dt * RELEASE_SPEEDUP
    }
}

/// The step would carry the arc past its duration.
pub open spec fn completes(s: ArcView, dt: int, held: bool) -> bool {
    s.cur_length + advance(dt, held) > s.max_length
}

/// Height on the curve where a step that does not complete the arc ends.
pub open spec fn step_height<E: Easing>(e: E, s: ArcView, dt: int, held: bool) -> int {
    e.curve(s.cur_length + advance(dt, held), 0, s.max_height, s.max_length)
}

/// Height gained in one step: up to the curve, or, when the step completes
/// the arc, all that was left of the full height.
pub open spec fn step_rise<E: Easing>(e: E, s: ArcView, dt: int, held: bool) -> int {
    if completes(s, dt, held) {
        s.max_height - s.cur_height
    } else {
        step_height(e, s, dt, held) - s.cur_height
    }
}

/// The arc after one step. A step that completes the arc only marks it
/// done.
pub open spec fn after_step<E: Easing>(e: E, s: ArcView, dt: int, held: bool) -> ArcView {
    if completes(s, dt, held) {
        ArcView { is_done: true, ..s }
    } else {
        ArcView {
            cur_length: s.cur_length + advance(dt, held),
            cur_height: step_height(e, s, dt, held),
            ..s
        }
    }
}

/// Velocity reported by one step: the height gained over the ticks elapsed,
/// upward being negative, rounded toward zero. A released input divides it
/// by `RELEASE_DAMPING`, except on the step that completes the arc.
pub open spec fn step_velocity<E: Easing>(e: E, s: ArcView, dt: int, held: bool) -> int {
    if completes(s, dt, held) || held {
        -toward_zero(step_rise(e, s, dt, held), dt)
    } else {
        -toward_zero(step_rise(e, s, dt, held), dt * RELEASE_DAMPING)
    }
}

/// The arc after a run of steps. The run ends with the step that completes
/// the arc; steps after it are not taken.
pub open spec fn run<E: Easing>(e: E, s: ArcView, steps: Seq<Tick>) -> ArcView
    decreases steps.len(),
{
    if steps.len() == 0 || s.is_done {
        s
    } else {
        run(e, after_step(e, s, steps[0].dt, steps[0].held), steps.skip(1))
    }
}

/// Height gained over a run of steps: the sum of the rises of the steps
/// taken.
pub open spec fn run_rise<E: Easing>(e: E, s: ArcView, steps: Seq<Tick>) -> int
    decreases steps.len(),
{
    if steps.len() == 0 || s.is_done {
        0
    } else {
        step_rise(e, s, steps[0].dt, steps[0].held) + run_rise(
            e,
            after_step(e, s, steps[0].dt, steps[0].held),
            steps.skip(1),
        )
    }
}

/// Ticks elapsed over a whole sequence of steps.
pub open spec fn total_ticks(steps: Seq<Tick>) -> int
    decreases steps.len(),
{
    if steps.len() == 0 {
        0
    } else {
        steps[0].dt + total_ticks(steps.skip(1))
    }
}

/// Every step of the sequence takes at least one tick.
pub open spec fn positive_ticks(steps: Seq<Tick>) -> bool {
    forall|i: int| 0 <= i < steps.len() ==> (#[trigger] steps[i]).dt > 0
}

/// One step keeps a well-formed arc well-formed, and the height it reports
/// is the change of the arc's height unless the step completes the arc.
pub proof fn lemma_step_wf<E: Easing>(e: E, s: ArcView, dt: int, held: bool)
    requires
        s.wf(),
        !s.is_done,
        dt > 0,
    ensures
        after_step(e, s, dt, held).wf(),
        after_step(e, s, dt, held).max_height == s.max_height,
        after_step(e, s, dt, held).max_length == s.max_length,
        -s.max_height <= step_rise(e, s, dt, held) <= s.max_height,
        !completes(s, dt, held) ==> after_step(e, s, dt, held).cur_height == s.cur_height
            + step_rise(e, s, dt, held),
{
    if !completes(s, dt, held) {
        e.lemma_curve_range(s.cur_length + advance(dt, held), 0, s.max_height, s.max_length);
    }
}

/// What one step reports, integrated over the ticks of the step, moves no
/// further than the height gained, and never beyond `COORD_LIMIT`.
pub proof fn lemma_step_velocity_bound<E: Easing>(e: E, s: ArcView, dt: int, held: bool)
    requires
        s.wf(),
        !s.is_done,
        dt > 0,
    ensures
        within_limit(step_velocity(e, s, dt, held)),
        within_limit(step_velocity(e, s, dt, held) * dt),
        step_rise(e, s, dt, held) >= 0 ==> -step_rise(e, s, dt, held) <= step_velocity(
            e,
            s,
            dt,
            held,
        ) * dt <= 0,
        step_rise(e, s, dt, held) >= 0 ==> step_velocity(e, s, dt, held) <= 0,
{
    lemma_step_wf(e, s, dt, held);
    let rise = step_rise(e, s, dt, held);
    let by = if completes(s, dt, held) || held {
        dt
    } else {
        dt * RELEASE_DAMPING
    };
    lemma_toward_zero_bound(rise, by, dt);
    let q = toward_zero(rise, by);
    assert((-q) * dt == -(q * dt)) by (nonlinear_arith);
}

/// A run that is given more ticks than the arc has left ends with the arc
/// done, and the heights its steps gained add up to exactly what was left
/// of the full height. For an arc just started: stepping for longer than its
/// duration, input held or not, completes it having gained its full height.
pub proof fn lemma_run_completes<E: Easing>(e: E, s: ArcView, steps: Seq<Tick>)
    requires
        s.wf(),
        !s.is_done,
        positive_ticks(steps),
        total_ticks(steps) > s.max_length - s.cur_length,
    ensures
        run(e, s, steps).is_done,
        run_rise(e, s, steps) == s.max_height - s.cur_height,
    decreases steps.len(),
{
    assert(steps.len() > 0);
    let dt = steps[0].dt;
    let held = steps[0].held;
    let next = after_step(e, s, dt, held);
    let rest = steps.skip(1);
    lemma_step_wf(e, s, dt, held);
    assert(advance(dt, held) >= dt);
    if completes(s, dt, held) {
        assert(run(e, next, rest) == next);
        assert(run_rise(e, next, rest) == 0);
    } else {
        assert forall|i: int| 0 <= i < rest.len() implies (#[trigger] rest[i]).dt > 0 by {
            assert(rest[i] == steps[i + 1]);
        }
        lemma_run_completes(e, next, rest);
    }
}

/// Until the arc is done, the heights that the steps of a run gained add up
/// to the height the arc stands at.
pub proof fn lemma_run_rise_is_height<E: Easing>(e: E, s: ArcView, steps: Seq<Tick>)
    requires
        s.wf(),
        positive_ticks(steps),
        !run(e, s, steps).is_done,
    ensures
        run_rise(e, s, steps) == run(e, s, steps).cur_height - s.cur_height,
    decreases steps.len(),
{
    if steps.len() > 0 && !s.is_done {
        let dt = steps[0].dt;
        let held = steps[0].held;
        let next = after_step(e, s, dt, held);
        let rest = steps.skip(1);
        lemma_step_wf(e, s, dt, held);
        assert forall|i: int| 0 <= i < rest.len() implies (#[trigger] rest[i]).dt > 0 by {
            assert(rest[i] == steps[i + 1]);
        }
        if completes(s, dt, held) {
            assert(run(e, next, rest) == next);
        } else {
            lemma_run_rise_is_height(e, next, rest);
        }
    }
}

/// `b` is at least as far along as `a`: done, or in flight over the same
/// duration and no less advanced.
pub open spec fn no_later(b: ArcView, a: ArcView) -> bool {
    b.is_done || (!a.is_done && b.max_length == a.max_length && b.cur_length >= a.cur_length)
}

/// Letting go of the input never delays the end of a jump. Of two runs over
/// the same ticks, the one that has the input released wherever the other
/// has, and perhaps elsewhere too, is done whenever the other is, and until
/// then is no less advanced.
pub proof fn lemma_release_is_no_later<E: Easing>(
    e: E,
    a: ArcView,
    b: ArcView,
    held_a: Seq<Tick>,
    held_b: Seq<Tick>,
)
    requires
        a.wf(),
        b.wf(),
        no_later(b, a),
        held_a.len() == held_b.len(),
        positive_ticks(held_a),
        forall|i: int|
            0 <= i < held_a.len() ==> (#[trigger] held_b[i]).dt == held_a[i].dt && (held_b[i].held
                ==> held_a[i].held),
    ensures
        no_later(run(e, b, held_b), run(e, a, held_a)),
        run(e, a, held_a).is_done ==> run(e, b, held_b).is_done,
    decreases held_a.len(),
{
    if held_a.len() > 0 {
        let ta = held_a[0];
        let tb = held_b[0];
        let rest_a = held_a.skip(1);
        let rest_b = held_b.skip(1);
        assert(tb.dt == ta.dt && (tb.held ==> ta.held));
        assert forall|i: int| 0 <= i < rest_a.len() implies (#[trigger] rest_a[i]).dt > 0 by {
            assert(rest_a[i] == held_a[i + 1]);
        }
        assert forall|i: int| 0 <= i < rest_a.len() implies (#[trigger] rest_b[i]).dt
            == rest_a[i].dt && (rest_b[i].held ==> rest_a[i].held) by {
            assert(rest_a[i] == held_a[i + 1]);
            assert(rest_b[i] == held_b[i + 1]);
        }
        if b.is_done {
            lemma_done_stays_done(e, b, held_b);
        } else {
            let next_a = after_step(e, a, ta.dt, ta.held);
            let next_b = after_step(e, b, tb.dt, tb.held);
            lemma_step_wf(e, a, ta.dt, ta.held);
            lemma_step_wf(e, b, tb.dt, tb.held);
            assert(advance(tb.dt, tb.held) >= advance(ta.dt, ta.held));
            assert(no_later(next_b, next_a));
            if next_a.is_done {
                assert(next_b.is_done);
                lemma_done_stays_done(e, next_b, rest_b);
                lemma_done_stays_done(e, next_a, rest_a);
            } else {
                lemma_release_is_no_later(e, next_a, next_b, rest_a, rest_b);
            }
        }
    }
}

/// A run from an arc that is done takes no step.
pub proof fn lemma_done_stays_done<E: Easing>(e: E, s: ArcView, steps: Seq<Tick>)
    requires
        s.is_done,
    ensures
        run(e, s, steps) == s,
        run_rise(e, s, steps) == 0,
{
}

/// The vertical motion of one jump: a curve of height over time that is
/// stepped by elapsed ticks, can be cut short by releasing the input and can
/// be stopped at any moment.
pub struct JumpArc<E: Easing> {
    max_length: i64,
    max_height: i64,
    cur_length: i64,
    cur_height: i64,
    is_done: bool,
    easing: E,
}

impl<E: Easing> View for JumpArc<E> {
    type V = ArcView;

    closed spec fn view(&self) -> ArcView {
        ArcView {
            max_length: self.max_length as int,
            max_height: self.max_height as int,
            cur_length: self.cur_length as int,
            cur_height: self.cur_height as int,
            is_done: self.is_done,
        }
    }
}

impl<E: Easing> JumpArc<E> {
    /// The curve that the arc follows.
    pub closed spec fn easing(&self) -> E {
        self.easing
    }

    /// An arc that follows `easing`, with no jump in flight.
    pub fn new(easing: E) -> (arc: JumpArc<E>)
        ensures
            arc@ == ArcView::idle(),
            arc@.wf(),
            arc@.is_done,
            arc.easing() == easing,
    {
        JumpArc {
            max_length: 0,
            max_height: 0,
            cur_length: 0,
            cur_height: 0,
            is_done: true,
            easing,
        }
    }

    /// Begins a jump of `height` position units over `length` ticks,
    /// whatever was in flight before.
    pub fn start(&mut self, height: i64, length: i64)
        requires
            0 <= height <= COORD_LIMIT,
            0 < length <= TIME_LIMIT,
        ensures
            final(self)@ == ArcView::started(height as int, length as int),
            final(self)@.wf(),
            !final(self)@.is_done,
            final(self).easing() == old(self).easing(),
    {
        self.max_height = height;
        self.max_length = length;
        self.cur_height = 0;
        self.cur_length = 0;
        self.is_done = false;
    }

    /// Ends the jump at once. Nothing else changes.
    pub fn stop(&mut self)
        ensures
            final(self)@ == (ArcView { is_done: true, ..old(self)@ }),
            final(self)@.is_done,
            old(self)@.wf() ==> final(self)@.wf(),
            final(self).easing() == old(self).easing(),
    {
        self.is_done = true;
    }

    /// Whether no jump is in flight: true for a new arc, after `stop`, and
    /// after the step that completed the arc.
    pub fn is_done(&self) -> (done: bool)
        ensures
            done == self@.is_done,
    {
        self.is_done
    }

    /// Height of the whole jump.
    pub fn max_height(&self) -> (h: i64)
        ensures
            h == self@.max_height,
    {
        self.max_height
    }

    /// Duration of the whole jump, in ticks.
    pub fn max_length(&self) -> (l: i64)
        ensures
            l == self@.max_length,
    {
        self.max_length
    }

    /// Height reached so far.
    pub fn cur_height(&self) -> (h: i64)
        ensures
            h == self@.cur_height,
    {
        self.cur_height
    }

    /// Ticks of the arc used so far.
    pub fn cur_length(&self) -> (l: i64)
        ensures
            l == self@.cur_length,
    {
        self.cur_length
    }

    /// Advances the jump by `dt` ticks and returns the velocity for this
    /// step, negative for upward.
    ///
    /// With the input held the arc advances by `dt`, otherwise by four times
    /// `dt`. If that carries it past its duration the arc is done and the
    /// velocity covers what was left of the full height. Otherwise the arc
    /// moves to the new point of its curve and the velocity covers the height
    /// gained, divided by `RELEASE_DAMPING` if the input is released.
    pub fn step(&mut self, dt: i64, is_input_held: bool) -> (velocity: i64)
        requires
            old(self)@.wf(),
            !old(self)@.is_done,
            0 < dt <= TIME_LIMIT,
        ensures
            final(self)@ == after_step(old(self).easing(), old(self)@, dt as int, is_input_held),
            velocity == step_velocity(old(self).easing(), old(self)@, dt as int, is_input_held),
            final(self)@.wf(),
            final(self).easing() == old(self).easing(),
            within_limit(velocity * dt),
    {
        proof {
            lemma_step_wf(self.easing, self@, dt as int, is_input_held);
            lemma_step_velocity_bound(self.easing, self@, dt as int, is_input_held);
        }
        let advance = if is_input_held {
            dt
        } else {
            dt + dt * RELEASE_SPEEDUP
        };
        if self.cur_length + advance > self.max_length {
            let rise = self.max_height - self.cur_height;
            self.is_done = true;
            -div_toward_zero(rise, dt)
        } else {
            let length = self.cur_length + advance;
            let height = self.easing.ease(length, 0, self.max_height, self.max_length);
            let rise = height - self.cur_height;
            self.cur_length = length;
            self.cur_height = height;
            if is_input_held {
                -div_toward_zero(rise, dt)
            } else {
                -div_toward_zero(rise, dt * RELEASE_DAMPING)
            }
        }
    }
}

} // verus!
