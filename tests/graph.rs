use enso_anim::graph::GraphError;
use enso_anim::graph::Rule;
use enso_anim::graph::SignalGraph;

#[test]
fn derived_nodes_follow_inputs() {
    let mut g = SignalGraph::new();
    let asc = g.make_input(10);
    let desc = g.make_input(3);
    let height = g.derive(Rule::Sub, vec![asc, desc], vec![]).unwrap();
    assert_eq!(g.value(height), Some(7));
    let sub = g.subscribe(height).unwrap();
    let fired = g.push(asc, 20).unwrap();
    assert_eq!(fired, vec![sub]);
    assert_eq!(g.value(height), Some(17));
}

#[test]
fn sample_parents_do_not_trigger() {
    let mut g = SignalGraph::new();
    let event = g.make_input(0);
    let signal = g.make_input(5);
    let snap = g.derive(Rule::Add, vec![event], vec![signal]).unwrap();
    assert_eq!(g.value(snap), Some(5));
    let fired = g.push(signal, 100).unwrap();
    assert!(fired.is_empty());
    assert_eq!(g.value(snap), Some(5));
    g.push(event, 1).unwrap();
    assert_eq!(g.value(snap), Some(101));
}

#[test]
fn on_change_suppresses_duplicates() {
    let mut g = SignalGraph::new();
    let w = g.make_input(0);
    let nz = g.derive(Rule::NonZero, vec![w], vec![]).unwrap();
    let filtered = g.on_change(nz).unwrap();
    let raw = g.subscribe(nz).unwrap();
    let once = g.subscribe(filtered).unwrap();
    assert_eq!(g.push(w, 5).unwrap(), vec![raw, once]);
    assert_eq!(g.push(w, 7).unwrap(), vec![raw]);
    assert_eq!(g.push(w, 0).unwrap(), vec![raw, once]);
}

#[test]
fn effects_run_in_registration_order_after_all_updates() {
    let mut g = SignalGraph::new();
    let x = g.make_input(1);
    let a = g.derive(Rule::Abs, vec![x], vec![]).unwrap();
    let m = g.derive(Rule::Max, vec![a, x], vec![]).unwrap();
    let s2 = g.subscribe(m).unwrap();
    let s1 = g.subscribe(a).unwrap();
    let s0 = g.subscribe(x).unwrap();
    assert_eq!(g.push(x, -9).unwrap(), vec![s2, s1, s0]);
    assert_eq!(g.value(a), Some(9));
    assert_eq!(g.value(m), Some(9));
}

#[test]
fn saturating_rules() {
    let mut g = SignalGraph::new();
    let x = g.make_input(i64::MAX);
    let y = g.make_input(1);
    let sum = g.derive(Rule::Add, vec![x, y], vec![]).unwrap();
    let abs = g.derive(Rule::Abs, vec![y], vec![]).unwrap();
    let copy = g.derive(Rule::Copy, vec![sum], vec![]).unwrap();
    assert_eq!(g.value(sum), Some(i64::MAX));
    g.push(y, i64::MIN).unwrap();
    assert_eq!(g.value(abs), Some(i64::MAX));
    assert_eq!(g.value(sum), Some(-1));
    assert_eq!(g.value(copy), Some(-1));
}

#[test]
fn construction_errors() {
    let mut g = SignalGraph::new();
    let x = g.make_input(0);
    assert_eq!(g.derive(Rule::Copy, vec![x + 1], vec![]), Err(GraphError::ParentNotBefore));
    assert_eq!(g.derive(Rule::Copy, vec![x], vec![7]), Err(GraphError::ParentNotBefore));
    assert_eq!(g.on_change(3), Err(GraphError::UnknownNode));
    assert_eq!(g.subscribe(3), Err(GraphError::UnknownNode));
    let d = g.derive(Rule::Copy, vec![x], vec![]).unwrap();
    assert_eq!(g.push(d, 1), Err(GraphError::NotAnInput));
    assert_eq!(g.push(9, 1), Err(GraphError::UnknownNode));
    assert_eq!(g.value(9), None);
}
