//! Animation channels: a value pulled toward its target by a critically or over-damped spring.
//!
//! Values are integers in the channel's own fixed-point unit and velocities are in units per
//! second. The integrator advances in steps of one millisecond. A value heading for its target
//! moves at least one unit per step, and a step that would reach or pass the target lands on
//! it. Once the value is within `SNAP_DISTANCE` of the target and moves slower than
//! `SNAP_SPEED`, it settles on the target exactly, with zero velocity.
use vstd::prelude::*;

verus! {

/// Largest magnitude of a value or a target.
pub const MAX_VALUE: i64 = 1_000_000_000_000;

/// Largest magnitude of a velocity.
pub const MAX_SPEED: i64 = 1_000_000_000_000;

/// Largest stiffness of a spring.
pub const MAX_STIFFNESS: i64 = 10_000;

/// Largest damping of a spring: one step then never turns the velocity around.
pub const MAX_DAMPING: i64 = 1000;

/// Distance to the target within which a slow value settles on it.
pub const SNAP_DISTANCE: i64 = 128;

/// Speed below which a close value settles on its target.
pub const SNAP_SPEED: i64 = 1000;

/// Milliseconds in a second: one integration step is `1 / MS_PER_SECOND` of a second.
pub const MS_PER_SECOND: i64 = 1000;

/// Spring parameters: stiffness `k` (per second squared) and damping `c` (per second).
#[derive(Clone, Copy, Debug, PartialEq, Eq)]
pub struct Spring {
    pub stiffness: i64,
    pub damping: i64,
}

/// `k` and `c` make a usable spring: both in range, critically or over-damped
/// (`c * c >= 4 * k`), and stiff enough that a value further than `SNAP_DISTANCE` from its
/// target feels a pull of at least one unit per second per step.
pub open spec fn valid_spring(k: int, c: int) -> bool {
    &&& k <= MAX_STIFFNESS
    &&& MS_PER_SECOND <= SNAP_DISTANCE * k
    &&& 0 <= c <= MAX_DAMPING
    &&& c * c >= 4 * k
}

/// `x` limited to `[-m, m]`.
pub open spec fn clamp_spec(x: int, m: int) -> int {
    if x > m {
        m
    } else if x < -m {
        -m
    } else {
        x
    }
}

/// `a / d` rounded toward zero.
pub open spec fn div_trunc_spec(a: int, d: int) -> int {
    if a >= 0 {
        a / d
    } else {
        -((-a) / d)
    }
}

/// Absolute value.
pub open spec fn abs_spec(x: int) -> int {
    if x >= 0 {
        x
    } else {
        -x
    }
}

/// State of a channel: current value, velocity and target.
pub struct Motion {
    pub value: int,
    pub velocity: int,
    pub target: int,
}

/// The move of one step: `shift`, but at least one unit toward the target when the velocity
/// does not point away from it (`d` is the distance to the target).
pub open spec fn creep_spec(d: int, velocity: int, shift: int) -> int {
    if shift == 0 && d > 0 && velocity >= 0 {
        1
    } else if shift == 0 && d < 0 && velocity <= 0 {
        -1
    } else {
        shift
    }
}

/// A step from distance `d` to distance `d1` reached or passed the target.
pub open spec fn reached_spec(d: int, d1: int) -> bool {
    (d > 0 && d1 <= 0) || (d < 0 && d1 >= 0)
}

/// One millisecond of motion under spring `(k, c)`.
pub open spec fn step_spec(m: Motion, k: int, c: int) -> Motion {
    let d = m.target - m.value;
    let accel = k * d - c * m.velocity;
    let velocity = clamp_spec(m.velocity + div_trunc_spec(accel, MS_PER_SECOND as int), MAX_SPEED as int);
    let shift = creep_spec(d, velocity, div_trunc_spec(velocity, MS_PER_SECOND as int));
    let value = clamp_spec(m.value + shift, MAX_VALUE as int);
    if reached_spec(d, m.target - value) || (abs_spec(m.target - value) <= SNAP_DISTANCE
        && abs_spec(velocity) <= SNAP_SPEED) {
        Motion { value: m.target, velocity: 0, target: m.target }
    } else {
        Motion { value, velocity, target: m.target }
    }
}

/// `n` milliseconds of motion under spring `(k, c)`.
pub open spec fn run_spec(m: Motion, k: int, c: int, n: nat) -> Motion
    decreases n,
{
    if n == 0 {
        m
    } else {
        step_spec(run_spec(m, k, c, (n - 1) as nat), k, c)
    }
}

/// A motion at rest on its target stays there for any number of steps. So after `skip`, a
/// `tick` of any length leaves the value equal to the target.
pub proof fn lemma_rest_is_fixed(m: Motion, k: int, c: int, n: nat)
    requires
        m.value == m.target,
        m.velocity == 0,
        -MAX_VALUE <= m.target <= MAX_VALUE,
    ensures
        run_spec(m, k, c, n) == m,
    decreases n,
{
    if n > 0 {
        lemma_rest_is_fixed(m, k, c, (n - 1) as nat);
        assert(k * (m.target - m.value) == 0);
        assert(c * m.velocity == 0);
    }
}

/// The motion rests on its target.
pub open spec fn at_rest_spec(m: Motion) -> bool {
    m.value == m.target && m.velocity == 0
}

/// Value, velocity and target lie in range.
pub open spec fn motion_in_range(m: Motion) -> bool {
    &&& -MAX_VALUE <= m.value <= MAX_VALUE
    &&& -MAX_VALUE <= m.target <= MAX_VALUE
    &&& -MAX_SPEED <= m.velocity <= MAX_SPEED
}

/// The mirror image of a motion.
pub open spec fn neg_spec(m: Motion) -> Motion {
    Motion { value: -m.value, velocity: -m.velocity, target: -m.target }
}

/// How much longer the velocity points away from the target: its magnitude plus one while it
/// does, else zero.
pub open spec fn away_spec(m: Motion) -> nat {
    let d = m.target - m.value;
    if (d > 0 && m.velocity < 0) || (d < 0 && m.velocity > 0) || (d == 0 && m.velocity != 0) {
        (abs_spec(m.velocity) + 1) as nat
    } else {
        0
    }
}

proof fn lemma_run_front(m: Motion, k: int, c: int, n: nat)
    ensures
        run_spec(m, k, c, n + 1) == run_spec(step_spec(m, k, c), k, c, n),
    decreases n,
{
    if n > 0 {
        lemma_run_front(m, k, c, (n - 1) as nat);
        assert(run_spec(m, k, c, n + 1) == step_spec(run_spec(m, k, c, n), k, c));
        assert(run_spec(step_spec(m, k, c), k, c, n) == step_spec(run_spec(step_spec(m, k, c), k, c, (n - 1) as nat), k, c));
    } else {
        assert(run_spec(m, k, c, 1) == step_spec(run_spec(m, k, c, 0), k, c));
    }
}

proof fn lemma_step_in_range(m: Motion, k: int, c: int)
    requires
        motion_in_range(m),
    ensures
        motion_in_range(step_spec(m, k, c)),
        step_spec(m, k, c).target == m.target,
{
}

proof fn lemma_step_mirror(m: Motion, k: int, c: int)
    ensures
        step_spec(neg_spec(m), k, c) == neg_spec(step_spec(m, k, c)),
{
    let d = m.target - m.value;
    assert(k * (-d) == -(k * d)) by (nonlinear_arith);
    assert(c * (-m.velocity) == -(c * m.velocity)) by (nonlinear_arith);
}

/// One step from a motion not at rest either brings it to rest, or shortens how long its
/// velocity points away, or keeps that at zero and brings it closer. Here the distance to the
/// target is positive, or zero with a positive velocity.
#[verifier::rlimit(50)]
proof fn lemma_step_progress_up(m: Motion, k: int, c: int)
    requires
        valid_spring(k, c),
        motion_in_range(m),
        m.target - m.value > 0 || (m.target == m.value && m.velocity > 0),
    ensures
        ({
            let m1 = step_spec(m, k, c);
            at_rest_spec(m1) || away_spec(m1) < away_spec(m) || (away_spec(m1) == 0 && away_spec(m) == 0
                && abs_spec(m1.target - m1.value) < abs_spec(m.target - m.value))
        }),
{
    let d = m.target - m.value;
    let vel = m.velocity;
    let accel = k * d - c * vel;
    let dv = div_trunc_spec(accel, 1000);
    let velocity = clamp_spec(vel + dv, MAX_SPEED as int);
    assert(k >= 8);
    assert(c >= 6) by (nonlinear_arith)
        requires
            c * c >= 4 * k,
            k >= 8,
            c >= 0,
    ;
    if d > 0 && vel >= 0 {
        assert(c * vel <= 1000 * vel) by (nonlinear_arith)
            requires
                0 <= c <= 1000,
                vel >= 0,
        ;
        assert(k * d >= 0) by (nonlinear_arith)
            requires
                k >= 0,
                d > 0,
        ;
        if accel < 0 {
            vstd::arithmetic::div_mod::lemma_div_is_ordered(-accel, 1000 * vel, 1000);
            vstd::arithmetic::div_mod::lemma_div_multiples_vanish(vel, 1000);
        } else {
            vstd::arithmetic::div_mod::lemma_div_is_ordered(0, accel, 1000);
        }
        assert(velocity >= 0);
        vstd::arithmetic::div_mod::lemma_div_is_ordered(0, velocity, 1000);
    } else if d > 0 {
        assert(k * d >= 8) by (nonlinear_arith)
            requires
                k >= 8,
                d >= 1,
        ;
        assert(c * vel <= 0) by (nonlinear_arith)
            requires
                c >= 0,
                vel < 0,
        ;
        if accel >= 1000 {
            vstd::arithmetic::div_mod::lemma_div_is_ordered(1000, accel, 1000);
            assert(dv >= 1);
            if velocity >= 0 {
                vstd::arithmetic::div_mod::lemma_div_is_ordered(0, velocity, 1000);
            } else {
                vstd::arithmetic::div_mod::lemma_div_is_ordered(0, -velocity, 1000);
            }
        } else {
            assert(k * d < 1000);
            assert(c * (-vel) == -(c * vel)) by (nonlinear_arith);
            assert(d <= 128) by (nonlinear_arith)
                requires
                    k * d < 1000,
                    k >= 8,
                    d > 0,
            ;
            assert(-vel < 167) by (nonlinear_arith)
                requires
                    c * (-vel) < 1000,
                    c >= 6,
            ;
            vstd::arithmetic::div_mod::lemma_div_is_ordered(0, accel, 1000);
            assert(accel / 1000 == 0);
            assert(velocity == vel);
            assert((-vel) / 1000 == 0);
        }
    } else {
        assert(c * vel >= 0) by (nonlinear_arith)
            requires
                c >= 0,
                vel > 0,
        ;
        assert(c * vel <= 1000 * vel) by (nonlinear_arith)
            requires
                0 <= c <= 1000,
                vel >= 0,
        ;
        assert(k * d == 0) by (nonlinear_arith)
            requires
                d == 0,
        ;
        assert(accel == -(c * vel));
        vstd::arithmetic::div_mod::lemma_div_is_ordered(c * vel, 1000 * vel, 1000);
        vstd::arithmetic::div_mod::lemma_div_multiples_vanish(vel, 1000);
        if c * vel >= 1000 {
            vstd::arithmetic::div_mod::lemma_div_is_ordered(1000, c * vel, 1000);
            assert(dv <= -1);
        } else {
            assert(vel < 167) by (nonlinear_arith)
                requires
                    c * vel < 1000,
                    c >= 6,
            ;
            assert((c * vel) / 1000 == 0);
            assert(velocity == vel);
        }
        assert(0 <= velocity <= vel);
        vstd::arithmetic::div_mod::lemma_div_is_ordered(0, velocity, 1000);
    }
}

/// Under a usable spring and a fixed target, every motion in range comes to rest exactly on
/// its target, with zero velocity, after finitely many steps; and it stays there.
pub proof fn lemma_motion_converges(m: Motion, k: int, c: int)
    requires
        valid_spring(k, c),
        motion_in_range(m),
    ensures
        exists|n: nat| #[trigger] run_spec(m, k, c, n) == (Motion { value: m.target, velocity: 0, target: m.target }),
    decreases away_spec(m), abs_spec(m.target - m.value),
{
    let rest = Motion { value: m.target, velocity: 0, target: m.target };
    if at_rest_spec(m) {
        assert(run_spec(m, k, c, 0) == rest);
    } else {
        let m1 = step_spec(m, k, c);
        lemma_step_in_range(m, k, c);
        if m.target - m.value > 0 || (m.target == m.value && m.velocity > 0) {
            lemma_step_progress_up(m, k, c);
        } else {
            let n = neg_spec(m);
            lemma_step_progress_up(n, k, c);
            lemma_step_mirror(m, k, c);
            assert(away_spec(neg_spec(m1)) == away_spec(m1));
            assert(away_spec(n) == away_spec(m));
        }
        if at_rest_spec(m1) {
            lemma_run_front(m, k, c, 0);
            assert(run_spec(m, k, c, 1) == rest);
        } else {
            lemma_motion_converges(m1, k, c);
            let n1 = choose|n1: nat| #[trigger] run_spec(m1, k, c, n1) == rest;
            lemma_run_front(m, k, c, n1);
            assert(run_spec(m, k, c, n1 + 1) == rest);
        }
    }
}

impl Spring {
    /// A spring with stiffness `k` and damping `c`, if they are usable (see `valid_spring`).
    pub fn new(k: i64, c: i64) -> (r: Option<Spring>)
        ensures
            r is Some <==> valid_spring(k as int, c as int),
            r matches Some(s) ==> s.stiffness == k && s.damping == c,
    {
        if 0 <= k && k <= MAX_STIFFNESS && MS_PER_SECOND <= SNAP_DISTANCE * k && 0 <= c && c <= MAX_DAMPING {
            assert(c * c <= 1_000_000) by (nonlinear_arith)
                requires
                    0 <= c <= 1000,
            ;
            if c * c >= 4 * k {
                return Some(Spring { stiffness: k, damping: c });
            }
        }
        None
    }

    /// The critically damped spring that channels use unless told otherwise.
    pub fn standard() -> (r: Spring)
        ensures
            r.stiffness == 900,
            r.damping == 60,
            valid_spring(r.stiffness as int, r.damping as int),
    {
        Spring { stiffness: 900, damping: 60 }
    }

    pub open spec fn wf(self) -> bool {
        valid_spring(self.stiffness as int, self.damping as int)
    }
}

/// A scalar value animated toward its target.
#[derive(Clone, Copy, Debug, PartialEq, Eq)]
pub struct Channel {
    pub value: i64,
    pub velocity: i64,
    pub target: i64,
    pub spring: Spring,
}

fn clamp(x: i64, m: i64) -> (r: i64)
    requires
        m >= 0,
    ensures
        r == clamp_spec(x as int, m as int),
{
    if x > m {
        m
    } else if x < -m {
        -m
    } else {
        x
    }
}

fn div_trunc(a: i64, d: i64) -> (r: i64)
    requires
        d > 0,
        a > i64::MIN,
    ensures
        r == div_trunc_spec(a as int, d as int),
{
    if a >= 0 {
        a / d
    } else {
        -((-a) / d)
    }
}

impl Channel {
    /// The channel is usable: a valid spring and every quantity in range.
    pub open spec fn wf(self) -> bool {
        &&& self.spring.wf()
        &&& -MAX_VALUE <= self.value <= MAX_VALUE
        &&& -MAX_VALUE <= self.target <= MAX_VALUE
        &&& -MAX_SPEED <= self.velocity <= MAX_SPEED
    }

    /// The channel rests on `v`: value and target are `v`, the velocity is zero.
    pub open spec fn at_rest_on(self, v: int) -> bool {
        self.value == v && self.target == v && self.velocity == 0
    }

    /// This channel is `prev` after `n` milliseconds of motion.
    pub open spec fn ticked_from(self, prev: Channel, n: nat) -> bool {
        &&& self.spring == prev.spring
        &&& self.motion() == run_spec(prev.motion(), prev.spring.stiffness as int, prev.spring.damping as int, n)
    }

    /// The state that the motion rules act on.
    pub open spec fn motion(self) -> Motion {
        Motion { value: self.value as int, velocity: self.velocity as int, target: self.target as int }
    }

    /// A channel at rest at `value`, targeting it.
    pub fn new(value: i64, spring: Spring) -> (r: Channel)
        requires
            -MAX_VALUE <= value <= MAX_VALUE,
            spring.wf(),
        ensures
            r.wf(),
            r.value == value,
            r.target == value,
            r.velocity == 0,
            r.spring == spring,
    {
        Channel { value, velocity: 0, target: value, spring }
    }

    /// Retargets the channel. The value and the velocity are kept, so that a motion in flight
    /// continues smoothly.
    pub fn set_target(&mut self, target: i64)
        requires
            old(self).wf(),
            -MAX_VALUE <= target <= MAX_VALUE,
        ensures
            final(self).wf(),
            *final(self) == (Channel { target, ..*old(self) }),
    {
        self.target = target;
    }

    /// Ends the motion: the value jumps to the target and the velocity drops to zero.
    pub fn skip(&mut self)
        requires
            old(self).wf(),
        ensures
            final(self).wf(),
            *final(self) == (Channel { value: old(self).target, velocity: 0, ..*old(self) }),
    {
        self.value = self.target;
        self.velocity = 0;
    }

    /// One millisecond of motion.
    fn step(&mut self)
        requires
            old(self).wf(),
        ensures
            final(self).wf(),
            final(self).spring == old(self).spring,
            final(self).target == old(self).target,
            final(self).motion() == step_spec(old(self).motion(), old(self).spring.stiffness as int, old(self).spring.damping as int),
    {
        let k = self.spring.stiffness;
        let c = self.spring.damping;
        assert(-20_000_000_000_000_000 <= k * (self.target - self.value) <= 20_000_000_000_000_000) by (nonlinear_arith)
            requires
                0 <= k <= 10_000,
                -2_000_000_000_000 <= self.target - self.value <= 2_000_000_000_000,
        ;
        assert(-10_000_000_000_000_000 <= c * self.velocity <= 10_000_000_000_000_000) by (nonlinear_arith)
            requires
                0 <= c <= 1000,
                -1_000_000_000_000 <= self.velocity <= 1_000_000_000_000,
        ;
        let d = self.target - self.value;
        let accel = k * d - c * self.velocity;
        let velocity = clamp(self.velocity + div_trunc(accel, MS_PER_SECOND), MAX_SPEED);
        let mut shift = div_trunc(velocity, MS_PER_SECOND);
        if shift == 0 && d > 0 && velocity >= 0 {
            shift = 1;
        } else if shift == 0 && d < 0 && velocity <= 0 {
            shift = -1;
        }
        let value = clamp(self.value + shift, MAX_VALUE);
        let dist = self.target - value;
        let dist_abs = if dist >= 0 { dist } else { -dist };
        let speed = if velocity >= 0 { velocity } else { -velocity };
        let reached = (d > 0 && dist <= 0) || (d < 0 && dist >= 0);
        if reached || (dist_abs <= SNAP_DISTANCE && speed <= SNAP_SPEED) {
            self.value = self.target;
            self.velocity = 0;
        } else {
            self.value = value;
            self.velocity = velocity;
        }
    }

    /// Advances the motion by `dt` milliseconds.
    pub fn tick(&mut self, dt: u64)
        requires
            old(self).wf(),
        ensures
            final(self).wf(),
            final(self).spring == old(self).spring,
            final(self).target == old(self).target,
            final(self).motion() == run_spec(old(self).motion(), old(self).spring.stiffness as int, old(self).spring.damping as int, dt as nat),
    {
        let mut i: u64 = 0;
        while i < dt
            invariant
                i <= dt,
                self.wf(),
                self.spring == old(self).spring,
                self.target == old(self).target,
                self.motion() == run_spec(old(self).motion(), old(self).spring.stiffness as int, old(self).spring.damping as int, i as nat),
            decreases dt - i,
        {
            self.step();
            i = i + 1;
        }
    }
}

} // verus!
