use enso_anim::blink::CURSOR_ALPHA;
use enso_anim::blink::SELECTION_ALPHA;
use enso_anim::registry::Attached;
use enso_anim::registry::Registry;
use enso_anim::selection::Rgb;
use enso_anim::selection::Selection;
use enso_anim::selection::SelectionModel;

fn settle(s: &mut Selection) {
    for _ in 0..100 {
        s.tick(50);
    }
}

#[test]
fn cursor_resets_blinking_on_move() {
    let mut s = Selection::new(true, 0);
    s.set_width(0);
    s.set_position_target(10, 10, 5000);
    assert_eq!(s.not_blinking.target, 0);
    assert_eq!(s.model.start_time, 5000);
    assert_eq!(s.alpha(5000), CURSOR_ALPHA);
    assert!(s.edit_mode());
}

#[test]
fn selection_settles_at_selection_alpha() {
    let mut s = Selection::new(false, 0);
    s.set_width(50_000);
    settle(&mut s);
    assert_eq!(s.width.value, 50_000);
    assert_eq!(s.not_blinking.value, 1000);
    for now in [5000, 5250, 5500, 5750, 6000, 123_456] {
        assert_eq!(s.alpha(now), SELECTION_ALPHA);
    }
}

#[test]
fn width_change_fades_instead_of_snapping() {
    let mut s = Selection::new(false, 0);
    let before = s.alpha(0);
    s.set_width(50_000);
    assert_eq!(s.alpha(0), before);
    s.tick(1);
    let after_one = s.alpha(1);
    assert!(after_one != SELECTION_ALPHA);
    settle(&mut s);
    assert_eq!(s.alpha(100_000), SELECTION_ALPHA);
}

#[test]
fn flip_sides_keeps_bounds_and_undoes_itself() {
    let mut s = Selection::new(false, 0);
    s.set_position_target(100_000, 20_000, 0);
    s.set_width(30_000);
    settle(&mut s);
    s.set_position_target(150_000, 20_000, 0);
    s.set_width(40_000);
    s.tick(16);
    let x = s.position_x.value;
    let w = s.width.value;
    let (tx, ty, wt) = (s.position_x.target, s.position_y.target, s.width.target);
    s.flip_sides(7);
    let (lo, hi) = (x.min(x + w), x.max(x + w));
    let (x2, w2) = (s.position_x.value, s.width.value);
    assert_eq!((x2.min(x2 + w2), x2.max(x2 + w2)), (lo, hi));
    assert_eq!(s.position_x.target, tx + w);
    assert_eq!(s.width.target, -wt);
    assert_eq!(s.width.value, -w);
    assert_eq!(s.model.start_time, 7);
    s.flip_sides(8);
    assert_eq!(s.position_x.target, tx);
    assert_eq!(s.position_y.target, ty);
    assert_eq!(s.width.target, wt);
}

#[test]
fn geometry_outputs() {
    let mut s = Selection::new(false, 0);
    s.set_ascender(12_000);
    s.set_descender(-3_000);
    s.set_width(-9_000);
    settle(&mut s);
    assert_eq!(s.height(), 15_000);
    assert_eq!(s.extent(), 8_000);
    assert_eq!(s.anchor_offset(), -4_500);
    assert_eq!(s.right_side(), 4_500);
    s.set_width(1_000);
    s.skip_width_animation();
    assert_eq!(s.extent(), 2_000);
    assert_eq!(s.anchor_offset(), 500);
    assert_eq!(s.not_blinking.target, 1000);
    s.set_width(0);
    s.skip_width_animation();
    assert_eq!(s.not_blinking.target, 0);
}

#[test]
fn attachment_point_resolves_last_item() {
    let mut reg = Registry::new();
    let a = reg.insert(Attached { offset: 1_000, advance: 2_000 });
    let b = reg.insert(Attached { offset: 5_000, advance: 7_000 });
    let mut s = Selection::new(false, 0);
    s.set_position_target(100_000, 0, 0);
    s.skip_position_animation();
    s.set_width(10_000);
    s.skip_width_animation();
    assert_eq!(s.attachment_point(&reg), 0);
    s.set_attached_objects(vec![a, b]);
    assert_eq!(s.attachment_point(&reg), 100_000 + 5_000 + 5_000 + 7_000);
    assert!(reg.remove(b));
    assert_eq!(s.attachment_point(&reg), 0);
    assert!(!reg.remove(b));
    assert_eq!(reg.resolve(a), Some(Attached { offset: 1_000, advance: 2_000 }));
}

#[test]
fn colour_and_model() {
    let mut s = Selection::new(false, 3);
    s.set_color(Rgb { r: 1, g: 2, b: 3 });
    assert_eq!(s.model.color, Rgb { r: 1, g: 2, b: 3 });
    let mut m = SelectionModel::new(true, 0);
    m.reset_blinking_animation_to_current_time(42);
    assert_eq!(m.start_time, 42);
    assert!(m.edit_mode);
}
