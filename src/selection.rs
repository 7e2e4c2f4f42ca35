//! A text cursor and selection: an animated region with a position, a signed width (the side
//! of the region that the sign points to grows away from its anchor), a height, a colour and a
//! blinking opacity.
//!
//! Lengths are in thousandths of a pixel; times in milliseconds; opacities in thousandths.
use vstd::prelude::*;

use crate::blink::blinking_alpha;
use crate::blink::blinking_alpha_spec;
use crate::blink::mixed_alpha;
use crate::blink::mixed_alpha_spec;
use crate::blink::ALPHA_ONE;
use crate::blink::CURSOR_ALPHA;
use crate::blink::SELECTION_ALPHA;
use crate::registry::Handle;
use crate::registry::Registry;
use crate::spring::abs_spec;
use crate::spring::Channel;
use crate::spring::Spring;
use crate::spring::MAX_VALUE;

verus! {

/// Smallest drawn width of the region: the width of a cursor.
pub const MIN_WIDTH: i64 = 2000;

/// Gap kept between neighbouring cursors.
pub const SPACING: i64 = 1000;

/// A colour, one byte per channel.
#[derive(Clone, Copy, Debug, PartialEq, Eq)]
pub struct Rgb {
    pub r: u8,
    pub g: u8,
    pub b: u8,
}

/// Target of the `not_blinking` weight for an animated width `w`: blinking (0) for a cursor,
/// steady (`ALPHA_ONE`) for a selection.
pub open spec fn not_blinking_target_spec(w: int) -> int {
    if w == 0 {
        0
    } else {
        ALPHA_ONE as int
    }
}

/// `x` limited to `[0, ALPHA_ONE]`.
pub open spec fn weight_spec(x: int) -> int {
    if x < 0 {
        0
    } else if x > ALPHA_ONE {
        ALPHA_ONE as int
    } else {
        x
    }
}

/// `now - start`, or 0 when `now` comes before `start`.
pub open spec fn elapsed_spec(start: int, now: int) -> int {
    if now >= start {
        now - start
    } else {
        0
    }
}

/// The part of the selection that is not animated: when blinking restarted, whether the text is
/// being edited, and the colour.
#[derive(Clone, Copy, Debug, PartialEq, Eq)]
pub struct SelectionModel {
    pub start_time: u64,
    pub edit_mode: bool,
    pub color: Rgb,
}

impl SelectionModel {
    /// A model whose blinking starts at `now`, in black.
    pub fn new(edit_mode: bool, now: u64) -> (r: SelectionModel)
        ensures
            r.start_time == now,
            r.edit_mode == edit_mode,
            r.color == (Rgb { r: 0, g: 0, b: 0 }),
    {
        SelectionModel { start_time: now, edit_mode, color: Rgb { r: 0, g: 0, b: 0 } }
    }

    /// Restarts blinking at `now`, so that the cursor is fully visible.
    pub fn reset_blinking_animation_to_current_time(&mut self, now: u64)
        ensures
            *final(self) == (SelectionModel { start_time: now, ..*old(self) }),
    {
        self.start_time = now;
    }
}

/// Visual state of a text cursor or selection.
#[derive(Debug)]
pub struct Selection {
    pub model: SelectionModel,
    pub position_x: Channel,
    pub position_y: Channel,
    pub width: Channel,
    pub ascender: Channel,
    pub descender: Channel,
    pub not_blinking: Channel,
    pub attached: Vec<Handle>,
}

impl Selection {
    /// Every channel is usable and they all use one spring, and the `not_blinking` weight aims
    /// at what the animated width asks for.
    pub open spec fn wf(&self) -> bool {
        &&& self.position_x.wf()
        &&& self.position_y.wf()
        &&& self.width.wf()
        &&& self.ascender.wf()
        &&& self.descender.wf()
        &&& self.not_blinking.wf()
        &&& self.not_blinking.target == not_blinking_target_spec(self.width.value as int)
    }

    /// Height of the region: ascender above descender.
    pub open spec fn height_spec(&self) -> int {
        self.ascender.value - self.descender.value
    }

    /// Drawn width of the region.
    pub open spec fn extent_spec(&self) -> int {
        let e = abs_spec(self.width.value as int) - SPACING;
        if e > MIN_WIDTH {
            e
        } else {
            MIN_WIDTH as int
        }
    }

    /// Offset of the region's centre from its anchor: half the width, on the side that the
    /// width's sign points to.
    pub open spec fn anchor_offset_spec(&self) -> int {
        let w = self.width.value as int;
        if w >= 0 {
            w / 2
        } else {
            -((-w) / 2)
        }
    }

    /// The drawn opacity at time `now`.
    pub open spec fn alpha_spec(&self, now: int) -> int {
        mixed_alpha_spec(
            blinking_alpha_spec(elapsed_spec(self.model.start_time as int, now)),
            weight_spec(self.not_blinking.value as int),
        )
    }

    /// The horizontal span that the region covers, from its anchor to its other side.
    pub open spec fn interval_spec(&self) -> (int, int) {
        let a = self.position_x.value as int;
        let b = self.position_x.value + self.width.value;
        if a <= b {
            (a, b)
        } else {
            (b, a)
        }
    }

    /// What `flip_sides` makes of this state at time `now`.
    pub open spec fn flipped_spec(&self, now: u64) -> Selection {
        let w = self.width.value;
        Selection {
            model: SelectionModel { start_time: now, ..self.model },
            position_x: Channel {
                value: (self.position_x.value + w) as i64,
                velocity: 0,
                target: (self.position_x.target + w) as i64,
                ..self.position_x
            },
            position_y: Channel { value: self.position_y.value, velocity: 0, ..self.position_y },
            width: Channel {
                value: (-w) as i64,
                velocity: 0,
                target: (-self.width.target) as i64,
                ..self.width
            },
            ..*self
        }
    }

    /// The point at which the items attached after the region start: the right side of the
    /// last attached item, if `registry` still holds it, else 0.
    pub open spec fn attachment_point_spec(&self, registry: Registry) -> int {
        if self.attached@.len() == 0 {
            0
        } else {
            match registry.resolve_spec(self.attached@.last()) {
                Some(a) => self.position_x.value + abs_spec(self.width.value as int) / 2 + a.offset
                    + a.advance,
                None => 0,
            }
        }
    }

    /// `flip_sides` keeps the position and its target within range.
    pub open spec fn can_flip(&self) -> bool {
        &&& -MAX_VALUE <= self.position_x.value + self.width.value <= MAX_VALUE
        &&& -MAX_VALUE <= self.position_x.target + self.width.value <= MAX_VALUE
    }

    /// A cursor at rest at the origin, blinking from `now`, with nothing attached.
    pub fn new(edit_mode: bool, now: u64) -> (r: Selection)
        ensures
            r.wf(),
            r.model == (SelectionModel { start_time: now, edit_mode, color: Rgb { r: 0, g: 0, b: 0 } }),
            r.position_x.at_rest_on(0),
            r.position_y.at_rest_on(0),
            r.width.at_rest_on(0),
            r.ascender.at_rest_on(0),
            r.descender.at_rest_on(0),
            r.not_blinking.at_rest_on(0),
            r.attached@.len() == 0,
    {
        let spring = Spring::standard();
        Selection {
            model: SelectionModel::new(edit_mode, now),
            position_x: Channel::new(0, spring),
            position_y: Channel::new(0, spring),
            width: Channel::new(0, spring),
            ascender: Channel::new(0, spring),
            descender: Channel::new(0, spring),
            not_blinking: Channel::new(0, spring),
            attached: Vec::new(),
        }
    }

    /// Accessor: whether the text is being edited.
    pub fn edit_mode(&self) -> (r: bool)
        ensures
            r == self.model.edit_mode,
    {
        self.model.edit_mode
    }

    /// Horizontal offset of the region's right side from its anchor: half the animated width.
    pub fn right_side(&self) -> (r: i64)
        requires
            self.wf(),
        ensures
            r == abs_spec(self.width.value as int) / 2,
    {
        let w = self.width.value;
        if w >= 0 {
            w / 2
        } else {
            (-w) / 2
        }
    }

    /// Current position, animated.
    pub fn position(&self) -> (r: (i64, i64))
        ensures
            r == (self.position_x.value, self.position_y.value),
    {
        (self.position_x.value, self.position_y.value)
    }

    /// Position that the animation aims at.
    pub fn position_target(&self) -> (r: (i64, i64))
        ensures
            r == (self.position_x.target, self.position_y.target),
    {
        (self.position_x.target, self.position_y.target)
    }

    /// Current signed width, animated.
    pub fn width(&self) -> (r: i64)
        ensures
            r == self.width.value,
    {
        self.width.value
    }

    /// Signed width that the animation aims at.
    pub fn width_target(&self) -> (r: i64)
        ensures
            r == self.width.target,
    {
        self.width.target
    }

    /// Aims `not_blinking` at what the animated width asks for.
    fn sync_not_blinking(&mut self)
        requires
            old(self).width.wf(),
            old(self).not_blinking.wf(),
        ensures
            final(self).not_blinking == (Channel {
                target: not_blinking_target_spec(old(self).width.value as int) as i64,
                ..old(self).not_blinking
            }),
            final(self).model == old(self).model,
            final(self).position_x == old(self).position_x,
            final(self).position_y == old(self).position_y,
            final(self).width == old(self).width,
            final(self).ascender == old(self).ascender,
            final(self).descender == old(self).descender,
            final(self).attached == old(self).attached,
    {
        let t = if self.width.value == 0 { 0 } else { ALPHA_ONE as i64 };
        self.not_blinking.set_target(t);
    }

    /// Sets the colour.
    pub fn set_color(&mut self, color: Rgb)
        ensures
            final(self).model == (SelectionModel { color, ..old(self).model }),
            final(self).position_x == old(self).position_x,
            final(self).position_y == old(self).position_y,
            final(self).width == old(self).width,
            final(self).ascender == old(self).ascender,
            final(self).descender == old(self).descender,
            final(self).not_blinking == old(self).not_blinking,
            final(self).attached == old(self).attached,
    {
        self.model.color = color;
    }

    /// Sets the target of the ascender, the top of the region above the baseline.
    pub fn set_ascender(&mut self, v: i64)
        requires
            old(self).wf(),
            -MAX_VALUE <= v <= MAX_VALUE,
        ensures
            final(self).wf(),
            final(self).ascender == (Channel { target: v, ..old(self).ascender }),
            final(self).model == old(self).model,
            final(self).position_x == old(self).position_x,
            final(self).position_y == old(self).position_y,
            final(self).width == old(self).width,
            final(self).descender == old(self).descender,
            final(self).not_blinking == old(self).not_blinking,
            final(self).attached == old(self).attached,
    {
        self.ascender.set_target(v);
    }

    /// Sets the target of the descender, the bottom of the region relative to the baseline.
    pub fn set_descender(&mut self, v: i64)
        requires
            old(self).wf(),
            -MAX_VALUE <= v <= MAX_VALUE,
        ensures
            final(self).wf(),
            final(self).descender == (Channel { target: v, ..old(self).descender }),
            final(self).model == old(self).model,
            final(self).position_x == old(self).position_x,
            final(self).position_y == old(self).position_y,
            final(self).width == old(self).width,
            final(self).ascender == old(self).ascender,
            final(self).not_blinking == old(self).not_blinking,
            final(self).attached == old(self).attached,
    {
        self.descender.set_target(v);
    }

    /// Replaces the list of attached items, in order.
    pub fn set_attached_objects(&mut self, attached: Vec<Handle>)
        ensures
            final(self).attached == attached,
            final(self).model == old(self).model,
            final(self).position_x == old(self).position_x,
            final(self).position_y == old(self).position_y,
            final(self).width == old(self).width,
            final(self).ascender == old(self).ascender,
            final(self).descender == old(self).descender,
            final(self).not_blinking == old(self).not_blinking,
    {
        self.attached = attached;
    }

    /// Sets the target of the signed width. The animated width, and so the opacity, does not
    /// change until the animation moves.
    pub fn set_width(&mut self, w: i64)
        requires
            old(self).wf(),
            -MAX_VALUE <= w <= MAX_VALUE,
        ensures
            final(self).wf(),
            final(self).width == (Channel { target: w, ..old(self).width }),
            forall|now: int| #[trigger] final(self).alpha_spec(now) == old(self).alpha_spec(now),
            final(self).model == old(self).model,
            final(self).position_x == old(self).position_x,
            final(self).position_y == old(self).position_y,
            final(self).ascender == old(self).ascender,
            final(self).descender == old(self).descender,
            final(self).not_blinking == old(self).not_blinking,
            final(self).attached == old(self).attached,
    {
        self.width.set_target(w);
    }

    /// Sets the target of the position and restarts blinking at `now`.
    pub fn set_position_target(&mut self, x: i64, y: i64, now: u64)
        requires
            old(self).wf(),
            -MAX_VALUE <= x <= MAX_VALUE,
            -MAX_VALUE <= y <= MAX_VALUE,
        ensures
            final(self).wf(),
            final(self).position_x == (Channel { target: x, ..old(self).position_x }),
            final(self).position_y == (Channel { target: y, ..old(self).position_y }),
            final(self).model == (SelectionModel { start_time: now, ..old(self).model }),
            final(self).width == old(self).width,
            final(self).ascender == old(self).ascender,
            final(self).descender == old(self).descender,
            final(self).not_blinking == old(self).not_blinking,
            final(self).attached == old(self).attached,
    {
        self.position_x.set_target(x);
        self.position_y.set_target(y);
        self.model.reset_blinking_animation_to_current_time(now);
    }

    /// Ends the position animation: the position jumps to its target.
    pub fn skip_position_animation(&mut self)
        requires
            old(self).wf(),
        ensures
            final(self).wf(),
            final(self).position_x == (Channel { value: old(self).position_x.target, velocity: 0, ..old(self).position_x }),
            final(self).position_y == (Channel { value: old(self).position_y.target, velocity: 0, ..old(self).position_y }),
            final(self).model == old(self).model,
            final(self).width == old(self).width,
            final(self).ascender == old(self).ascender,
            final(self).descender == old(self).descender,
            final(self).not_blinking == old(self).not_blinking,
            final(self).attached == old(self).attached,
    {
        self.position_x.skip();
        self.position_y.skip();
    }

    /// Ends the width animation: the width jumps to its target, and `not_blinking` aims at what
    /// the new width asks for.
    pub fn skip_width_animation(&mut self)
        requires
            old(self).wf(),
        ensures
            final(self).wf(),
            final(self).width == (Channel { value: old(self).width.target, velocity: 0, ..old(self).width }),
            final(self).not_blinking == (Channel {
                target: not_blinking_target_spec(old(self).width.target as int) as i64,
                ..old(self).not_blinking
            }),
            final(self).model == old(self).model,
            final(self).position_x == old(self).position_x,
            final(self).position_y == old(self).position_y,
            final(self).ascender == old(self).ascender,
            final(self).descender == old(self).descender,
            final(self).attached == old(self).attached,
    {
        self.width.skip();
        self.sync_not_blinking();
    }

    /// Advances every animation by `dt` milliseconds. The `not_blinking` weight first takes
    /// the target that the new animated width asks for.
    pub fn tick(&mut self, dt: u64)
        requires
            old(self).wf(),
        ensures
            final(self).wf(),
            final(self).model == old(self).model,
            final(self).attached == old(self).attached,
            final(self).position_x.ticked_from(old(self).position_x, dt as nat),
            final(self).position_y.ticked_from(old(self).position_y, dt as nat),
            final(self).width.ticked_from(old(self).width, dt as nat),
            final(self).ascender.ticked_from(old(self).ascender, dt as nat),
            final(self).descender.ticked_from(old(self).descender, dt as nat),
            final(self).not_blinking.ticked_from(
                Channel {
                    target: not_blinking_target_spec(final(self).width.value as int) as i64,
                    ..old(self).not_blinking
                },
                dt as nat,
            ),
            dt == 0 ==> *final(self) == *old(self),
    {
        self.position_x.tick(dt);
        self.position_y.tick(dt);
        self.width.tick(dt);
        self.ascender.tick(dt);
        self.descender.tick(dt);
        self.sync_not_blinking();
        self.not_blinking.tick(dt);
    }

    /// Moves the anchor to the other side of the region, keeping its on-screen bounds: the
    /// position jumps by the animated width (its target moves along), and the width and its
    /// target change sign. Blinking restarts at `now`.
    pub fn flip_sides(&mut self, now: u64)
        requires
            old(self).wf(),
            old(self).can_flip(),
        ensures
            final(self).wf(),
            *final(self) == old(self).flipped_spec(now),
    {
        let w = self.width.value;
        let px = self.position_x.value;
        let py = self.position_y.value;
        let tx = self.position_x.target;
        let ty = self.position_y.target;
        let wt = self.width.target;
        self.set_position_target(px + w, py, now);
        self.skip_position_animation();
        self.set_position_target(tx + w, ty, now);
        self.set_width(-w);
        self.skip_width_animation();
        self.set_width(-wt);
    }

    /// Height of the region.
    pub fn height(&self) -> (r: i64)
        requires
            self.wf(),
        ensures
            r == self.height_spec(),
    {
        self.ascender.value - self.descender.value
    }

    /// Drawn width of the region.
    pub fn extent(&self) -> (r: i64)
        requires
            self.wf(),
        ensures
            r == self.extent_spec(),
    {
        let w = self.width.value;
        let e = if w >= 0 { w } else { -w } - SPACING;
        if e > MIN_WIDTH {
            e
        } else {
            MIN_WIDTH
        }
    }

    /// Offset of the region's centre from its anchor.
    pub fn anchor_offset(&self) -> (r: i64)
        requires
            self.wf(),
        ensures
            r == self.anchor_offset_spec(),
    {
        let w = self.width.value;
        if w >= 0 {
            w / 2
        } else {
            -((-w) / 2)
        }
    }

    /// The drawn opacity at time `now`.
    pub fn alpha(&self, now: u64) -> (r: u64)
        requires
            self.wf(),
        ensures
            r == self.alpha_spec(now as int),
    {
        let elapsed = if now >= self.model.start_time { now - self.model.start_time } else { 0 };
        let v = self.not_blinking.value;
        let weight: u64 = if v < 0 {
            0
        } else if v > ALPHA_ONE as i64 {
            ALPHA_ONE
        } else {
            v as u64
        };
        mixed_alpha(blinking_alpha(elapsed), weight)
    }

    /// The right side of the last attached item, or 0 when there is none or `registry` no
    /// longer holds it.
    pub fn attachment_point(&self, registry: &Registry) -> (r: i64)
        requires
            self.wf(),
            registry.wf(),
        ensures
            r == self.attachment_point_spec(*registry),
    {
        let n = self.attached.len();
        if n == 0 {
            return 0;
        }
        match registry.resolve(self.attached[n - 1]) {
            Some(a) => {
                let w = self.width.value;
                let half = if w >= 0 { w / 2 } else { (-w) / 2 };
                self.position_x.value + half + a.offset + a.advance
            },
            None => 0,
        }
    }
}


/// `flip_sides` keeps the on-screen span of the region, and undoes itself: a second call,
/// which is always allowed after a first, brings the position target and the width target
/// back to what they were.
pub proof fn lemma_flip_sides_involution(s: Selection, now1: u64, now2: u64)
    requires
        s.wf(),
        s.can_flip(),
    ensures
        s.flipped_spec(now1).wf(),
        s.flipped_spec(now1).interval_spec() == s.interval_spec(),
        s.flipped_spec(now1).can_flip(),
        s.flipped_spec(now1).flipped_spec(now2).position_x.target == s.position_x.target,
        s.flipped_spec(now1).flipped_spec(now2).position_y.target == s.position_y.target,
        s.flipped_spec(now1).flipped_spec(now2).width.target == s.width.target,
{
}

/// Once the `not_blinking` weight has settled at `ALPHA_ONE`, the region is drawn at
/// `SELECTION_ALPHA` at every time: it no longer blinks.
pub proof fn lemma_settled_selection_is_steady(s: Selection, now: int)
    requires
        s.not_blinking.value == ALPHA_ONE,
    ensures
        s.alpha_spec(now) == SELECTION_ALPHA,
{
    let b = blinking_alpha_spec(elapsed_spec(s.model.start_time as int, now));
    assert(b * (ALPHA_ONE - ALPHA_ONE) == 0) by (nonlinear_arith);
}

/// Right after blinking restarts, a cursor whose `not_blinking` weight is at rest on zero is
/// drawn fully visible, at `CURSOR_ALPHA`.
pub proof fn lemma_reset_cursor_is_visible(s: Selection)
    requires
        s.not_blinking.value == 0,
    ensures
        s.alpha_spec(s.model.start_time as int) == CURSOR_ALPHA,
{
    crate::blink::lemma_blinking_alpha_periodic_and_continuous(0);
}

} // verus!
