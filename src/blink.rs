//! The blink oscillator of a text cursor: a periodic opacity that depends only on the time
//! elapsed since the last reset.
//!
//! Times are in milliseconds and opacities in thousandths (`ALPHA_ONE` is fully opaque).
//!
//! ```text
//!     on          off
//!  <------>    <------->
//!  --------.             .--------.
//!           \           /          \
//!            '---------'            '----
//!          <->         <->
//!       slope_out    slope_in
//! ```
use vstd::prelude::*;

verus! {

/// Full opacity.
pub const ALPHA_ONE: u64 = 1000;

/// Opacity of a blinking cursor when fully visible.
pub const CURSOR_ALPHA: u64 = 800;

/// Opacity of a selection, which does not blink.
pub const SELECTION_ALPHA: u64 = 300;

/// Duration of the fade-in at the end of a period.
pub const BLINK_SLOPE_IN: u64 = 200;

/// Duration of the fade-out after the visible part.
pub const BLINK_SLOPE_OUT: u64 = 200;

/// Duration of the fully visible part, at the start of a period.
pub const BLINK_ON: u64 = 300;

/// Duration of the invisible part.
pub const BLINK_OFF: u64 = 300;

/// Length of one blink period.
pub const BLINK_PERIOD: u64 = BLINK_SLOPE_IN + BLINK_SLOPE_OUT + BLINK_ON + BLINK_OFF;

/// Largest distance between the two edges of a smoothstep ramp.
pub const MAX_RAMP: u64 = 1000;

/// The cubic ramp from 0 (at or below `e0`) to `ALPHA_ONE` (at or above `e1`), with zero slope at
/// both ends: `t * t * (3 - 2 * t)` for `t = (x - e0) / (e1 - e0)`, rounded down.
pub open spec fn smoothstep_spec(e0: int, e1: int, x: int) -> int {
    if x <= e0 {
        0
    } else if x >= e1 {
        ALPHA_ONE as int
    } else {
        let d = x - e0;
        let w = e1 - e0;
        (d * d * (3 * w - 2 * d) * ALPHA_ONE) / (w * w * w)
    }
}

/// Position of `elapsed` within the blink period.
pub open spec fn phase_spec(elapsed: int) -> int {
    elapsed % (BLINK_PERIOD as int)
}

/// Opacity of a blinking cursor `elapsed` milliseconds after the last reset.
pub open spec fn blinking_alpha_spec(elapsed: int) -> int {
    let phase = phase_spec(elapsed);
    let on_end = BLINK_ON + BLINK_SLOPE_OUT;
    let off_end = on_end + BLINK_OFF;
    let fade_out = smoothstep_spec(BLINK_ON as int, on_end as int, phase);
    let fade_in = smoothstep_spec(off_end as int, BLINK_PERIOD as int, phase);
    (ALPHA_ONE - fade_out + fade_in) * CURSOR_ALPHA / (ALPHA_ONE as int)
}

/// The linear mix of `blinking` and `SELECTION_ALPHA` by the weight `not_blinking` (in
/// thousandths), rounded down.
pub open spec fn mixed_alpha_spec(blinking: int, not_blinking: int) -> int {
    (blinking * (ALPHA_ONE - not_blinking) + SELECTION_ALPHA * not_blinking) / (ALPHA_ONE as int)
}

proof fn lemma_smoothstep_bounds(e0: int, e1: int, x: int)
    requires
        e0 < e1,
    ensures
        0 <= smoothstep_spec(e0, e1, x) <= ALPHA_ONE,
{
    if e0 < x < e1 {
        let d = x - e0;
        let w = e1 - e0;
        assert(0 <= d * d * (3 * w - 2 * d) * 1000) by (nonlinear_arith)
            requires
                0 < d < w,
        ;
        assert(d * d * (3 * w - 2 * d) * 1000 <= w * w * w * 1000) by (nonlinear_arith)
            requires
                0 < d < w,
        {
            assert(w * w * w - d * d * (3 * w - 2 * d) == (w - d) * (w - d) * (w + 2 * d));
            assert((w - d) * (w - d) * (w + 2 * d) >= 0);
        }
        assert(w * w * w > 0) by (nonlinear_arith)
            requires
                w > 0,
        ;
        vstd::arithmetic::div_mod::lemma_div_is_ordered(
            0,
            d * d * (3 * w - 2 * d) * 1000,
            w * w * w,
        );
        vstd::arithmetic::div_mod::lemma_div_is_ordered(
            d * d * (3 * w - 2 * d) * 1000,
            w * w * w * 1000,
            w * w * w,
        );
        vstd::arithmetic::div_mod::lemma_div_multiples_vanish(1000, w * w * w);
    }
}

/// The cubic ramp between `e0` and `e1`, in thousandths.
pub fn smoothstep(e0: u64, e1: u64, x: u64) -> (r: u64)
    requires
        e0 < e1,
        e1 - e0 <= MAX_RAMP,
    ensures
        r == smoothstep_spec(e0 as int, e1 as int, x as int),
        r <= ALPHA_ONE,
{
    proof {
        lemma_smoothstep_bounds(e0 as int, e1 as int, x as int);
    }
    if x <= e0 {
        0
    } else if x >= e1 {
        ALPHA_ONE
    } else {
        let d = x - e0;
        let w = e1 - e0;
        assert(d * d <= 1_000_000 && w * w <= 1_000_000) by (nonlinear_arith)
            requires
                0 < d < w,
                w <= 1000,
        ;
        assert(d * d * (3 * w - 2 * d) <= 3_000_000_000) by (nonlinear_arith)
            requires
                0 < d < w,
                w <= 1000,
        ;
        assert(0 < w * w * w <= 1_000_000_000) by (nonlinear_arith)
            requires
                0 < w <= 1000,
        ;
        (d * d * (3 * w - 2 * d) * ALPHA_ONE) / (w * w * w)
    }
}

/// Opacity of a blinking cursor `elapsed` milliseconds after the last reset.
pub fn blinking_alpha(elapsed: u64) -> (r: u64)
    ensures
        r == blinking_alpha_spec(elapsed as int),
        r <= CURSOR_ALPHA,
{
    let phase = elapsed % BLINK_PERIOD;
    let on_end = BLINK_ON + BLINK_SLOPE_OUT;
    let off_end = on_end + BLINK_OFF;
    let fade_out = smoothstep(BLINK_ON, on_end, phase);
    let fade_in = smoothstep(off_end, BLINK_PERIOD, phase);
    let level = ALPHA_ONE - fade_out + fade_in;
    assert(level <= ALPHA_ONE) by {
        if phase < off_end {
            assert(fade_in == 0);
        } else {
            assert(fade_out == ALPHA_ONE);
        }
    }
    assert(level * 800 / 1000 <= 800) by (nonlinear_arith)
        requires
            level <= 1000,
    ;
    level * CURSOR_ALPHA / ALPHA_ONE
}

/// The opacity that is drawn: the blinking opacity mixed with `SELECTION_ALPHA` by the weight
/// `not_blinking`, in thousandths.
pub fn mixed_alpha(blinking: u64, not_blinking: u64) -> (r: u64)
    requires
        blinking <= ALPHA_ONE,
        not_blinking <= ALPHA_ONE,
    ensures
        r == mixed_alpha_spec(blinking as int, not_blinking as int),
{
    assert(blinking * (ALPHA_ONE - not_blinking) <= 1_000_000) by (nonlinear_arith)
        requires
            blinking <= 1000,
            not_blinking <= 1000,
    ;
    assert(SELECTION_ALPHA * not_blinking <= 300_000);
    (blinking * (ALPHA_ONE - not_blinking) + SELECTION_ALPHA * not_blinking) / ALPHA_ONE
}


/// The blinking opacity repeats with period `BLINK_PERIOD`, starts fully visible
/// (`CURSOR_ALPHA`) right after a reset, and never jumps: from one millisecond to the next,
/// across every boundary between the parts of a period and from one period into the next, it
/// changes by at most `MAX_ALPHA_STEP`.
pub proof fn lemma_blinking_alpha_periodic_and_continuous(elapsed: int)
    requires
        elapsed >= 0,
    ensures
        blinking_alpha_spec(elapsed + BLINK_PERIOD) == blinking_alpha_spec(elapsed),
        blinking_alpha_spec(0) == CURSOR_ALPHA,
        -(MAX_ALPHA_STEP as int) <= blinking_alpha_spec(elapsed + 1) - blinking_alpha_spec(elapsed)
            <= MAX_ALPHA_STEP,
{
    vstd::arithmetic::div_mod::lemma_mod_add_multiples_vanish(elapsed, 1000);
    let p = elapsed % 1000;
    let q = (elapsed + 1) % 1000;
    if p < 999 {
        assert(q == p + 1) by {
            vstd::arithmetic::div_mod::lemma_fundamental_div_mod(elapsed, 1000);
            vstd::arithmetic::div_mod::lemma_fundamental_div_mod(elapsed + 1, 1000);
            vstd::arithmetic::div_mod::lemma_mod_bound(elapsed, 1000);
            vstd::arithmetic::div_mod::lemma_mod_bound(elapsed + 1, 1000);
        }
        lemma_ramp_step(300, p);
        lemma_ramp_step(800, p);
    } else {
        assert(q == 0) by {
            vstd::arithmetic::div_mod::lemma_fundamental_div_mod(elapsed, 1000);
            vstd::arithmetic::div_mod::lemma_fundamental_div_mod(elapsed + 1, 1000);
            vstd::arithmetic::div_mod::lemma_mod_bound(elapsed, 1000);
            vstd::arithmetic::div_mod::lemma_mod_bound(elapsed + 1, 1000);
        }
        lemma_ramp_step(800, 999);
    }
    lemma_smoothstep_bounds(300, 500, p);
    lemma_smoothstep_bounds(800, 1000, p);
    lemma_smoothstep_bounds(300, 500, q);
    lemma_smoothstep_bounds(800, 1000, q);
}

/// Largest change of the blinking opacity from one millisecond to the next.
pub const MAX_ALPHA_STEP: u64 = 8;

/// Inside a ramp of width 200, the cubic written out with its constants.
proof fn lemma_ramp_value(e0: int, x: int)
    requires
        e0 <= x <= e0 + 200,
    ensures
        smoothstep_spec(e0, e0 + 200, x) == ((x - e0) * (x - e0) * (600 - 2 * (x - e0)) * 1000)
            / 8_000_000,
{
    let d = x - e0;
    let w = (e0 + 200) - e0;
    assert(w * w * w == 8_000_000) by (nonlinear_arith)
        requires
            w == 200,
    ;
    assert(d * d * (3 * w - 2 * d) * 1000 == d * d * (600 - 2 * d) * 1000);
    if 0 < d < 200 {
        assert(smoothstep_spec(e0, e0 + 200, x) == (d * d * (3 * w - 2 * d) * 1000) / (w * w * w));
    } else if d == 0 {
        assert(d * d * (600 - 2 * d) * 1000 == 0) by (nonlinear_arith)
            requires
                d == 0,
        ;
    } else {
        assert(d * d * (600 - 2 * d) * 1000 == 8_000_000_000) by (nonlinear_arith)
            requires
                d == 200,
        ;
    }
}

/// One millisecond moves a ramp of width 200 by at most 8 thousandths, and never down.
proof fn lemma_ramp_step(e0: int, x: int)
    ensures
        0 <= smoothstep_spec(e0, e0 + 200, x + 1) - smoothstep_spec(e0, e0 + 200, x) <= 8,
{
    let d = x - e0;
    if 0 <= d && d < 199 {
        lemma_ramp_value(e0, x);
        lemma_ramp_value(e0, x + 1);
        let f0 = d * d * (600 - 2 * d) * 1000;
        let f1 = (d + 1) * (d + 1) * (600 - 2 * (d + 1)) * 1000;
        assert(f1 - f0 == 1000 * (-6 * d * d + 1194 * d + 598)) by (nonlinear_arith)
            requires
                f0 == d * d * (600 - 2 * d) * 1000,
                f1 == (d + 1) * (d + 1) * (600 - 2 * (d + 1)) * 1000,
        ;
        assert(0 <= -6 * d * d + 1194 * d + 598 <= 60000) by (nonlinear_arith)
            requires
                0 <= d < 199,
        {
            if d <= 99 {
                assert((99 - d) * (100 - d) >= 0) by (nonlinear_arith)
                    requires
                        d <= 99,
                ;
            } else {
                assert((d - 99) * (d - 100) >= 0) by (nonlinear_arith)
                    requires
                        d >= 100,
                ;
            }
            assert(d * (199 - d) >= 0) by (nonlinear_arith)
                requires
                    0 <= d < 199,
            ;
        }
        assert(200 * 200 * 200 == 8_000_000int);
        vstd::arithmetic::div_mod::lemma_fundamental_div_mod(f0, 8_000_000);
        vstd::arithmetic::div_mod::lemma_fundamental_div_mod(f1, 8_000_000);
        vstd::arithmetic::div_mod::lemma_mod_bound(f0, 8_000_000);
        vstd::arithmetic::div_mod::lemma_mod_bound(f1, 8_000_000);
        let k0 = f0 / 8_000_000;
        let k1 = f1 / 8_000_000;
        assert(8_000_000 * (k1 - k0) < 68_000_000);
        assert(8_000_000 * (k1 - k0) > -8_000_000);
    } else if d == 199 {
        lemma_ramp_value(e0, x);
        assert(d * d * (600 - 2 * d) * 1000 == 7_999_402_000) by (nonlinear_arith)
            requires
                d == 199,
        ;
    }
}

} // verus!
