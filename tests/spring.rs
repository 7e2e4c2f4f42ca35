use enso_anim::spring::Channel;
use enso_anim::spring::Spring;

#[test]
fn spring_validation() {
    assert!(Spring::new(900, 60).is_some());
    assert!(Spring::new(900, 10).is_none());
    assert!(Spring::new(0, 10).is_none());
    assert!(Spring::new(5, 10).is_none());
    assert!(Spring::new(900, 2000).is_none());
    assert!(Spring::new(100, 100).is_some());
    assert_eq!(Spring::standard(), Spring { stiffness: 900, damping: 60 });
}

#[test]
fn skip_then_tick_stays_on_target() {
    let mut c = Channel::new(0, Spring::standard());
    c.set_target(12_345);
    c.tick(5);
    assert!(c.value != 12_345);
    c.skip();
    assert_eq!(c.value, 12_345);
    assert_eq!(c.velocity, 0);
    for dt in [0, 1, 16, 1000] {
        c.tick(dt);
        assert_eq!(c.value, 12_345);
        assert_eq!(c.velocity, 0);
    }
}

#[test]
fn tick_zero_changes_nothing() {
    let mut c = Channel::new(0, Spring::standard());
    c.set_target(1000);
    c.tick(10);
    let before = c;
    c.tick(0);
    assert_eq!(c, before);
}

#[test]
fn retarget_keeps_velocity() {
    let mut c = Channel::new(0, Spring::standard());
    c.set_target(100_000);
    c.tick(20);
    let v = c.velocity;
    let x = c.value;
    assert!(v > 0);
    c.set_target(-5);
    assert_eq!(c.velocity, v);
    assert_eq!(c.value, x);
}

#[test]
fn channel_converges_to_target() {
    for target in [1000, -1000, 50, 1_000_000, 1_000_000_000] {
        let mut c = Channel::new(0, Spring::standard());
        c.set_target(target);
        let mut ms = 0;
        while c.value != target {
            c.tick(1);
            ms += 1;
            assert!(ms < 5000);
        }
        assert_eq!(c.velocity, 0);
        c.tick(100);
        assert_eq!(c.value, target);
    }
}

#[test]
fn channel_converges_from_moving_away() {
    let spring = Spring::new(100, 20).unwrap();
    let mut c = Channel::new(0, spring);
    c.set_target(-1_000_000);
    c.tick(300);
    assert!(c.velocity < 0);
    c.set_target(500_000);
    let mut ms = 0;
    while !(c.value == 500_000 && c.velocity == 0) {
        c.tick(1);
        ms += 1;
        assert!(ms < 100_000);
    }
}
