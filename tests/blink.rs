use enso_anim::blink::blinking_alpha;
use enso_anim::blink::mixed_alpha;
use enso_anim::blink::smoothstep;
use enso_anim::blink::BLINK_PERIOD;
use enso_anim::blink::CURSOR_ALPHA;
use enso_anim::blink::MAX_ALPHA_STEP;
use enso_anim::blink::SELECTION_ALPHA;

#[test]
fn smoothstep_values() {
    assert_eq!(smoothstep(0, 200, 0), 0);
    assert_eq!(smoothstep(0, 200, 100), 500);
    assert_eq!(smoothstep(0, 200, 200), 1000);
    assert_eq!(smoothstep(0, 200, 500), 1000);
    assert_eq!(smoothstep(100, 300, 50), 0);
}

#[test]
fn blink_starts_visible_and_cycles() {
    assert_eq!(blinking_alpha(0), CURSOR_ALPHA);
    assert_eq!(blinking_alpha(300), CURSOR_ALPHA);
    assert_eq!(blinking_alpha(400), 400);
    assert_eq!(blinking_alpha(500), 0);
    assert_eq!(blinking_alpha(800), 0);
    assert_eq!(blinking_alpha(999), 799);
    assert_eq!(blinking_alpha(BLINK_PERIOD), CURSOR_ALPHA);
}

#[test]
fn blink_is_periodic_and_continuous() {
    for t in 0..3 * BLINK_PERIOD {
        assert_eq!(blinking_alpha(t), blinking_alpha(t + BLINK_PERIOD));
        let a = blinking_alpha(t) as i64;
        let b = blinking_alpha(t + 1) as i64;
        assert!((a - b).abs() <= MAX_ALPHA_STEP as i64);
    }
}

#[test]
fn mixed_alpha_values() {
    assert_eq!(mixed_alpha(800, 0), 800);
    assert_eq!(mixed_alpha(800, 1000), SELECTION_ALPHA);
    assert_eq!(mixed_alpha(800, 500), 550);
    assert_eq!(mixed_alpha(0, 1000), SELECTION_ALPHA);
}
