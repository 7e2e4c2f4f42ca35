//! A push-based signal graph: an arena of nodes addressed by index, each input node set from
//! outside and each derived node recomputed from its parents.
//!
//! A derived node has trigger parents, whose changes make it recompute, and sample parents,
//! which it reads when it recomputes but which never make it recompute. Every parent of a node
//! comes before it, so the graph is acyclic by construction and index order is a topological
//! order: a push visits each node reachable from the pushed one exactly once, in that order,
//! and then reports the subscriptions of the nodes that changed, in the order they were made.
//! An `on_change` node counts as changed only when its new value differs from its old one.
use vstd::prelude::*;

verus! {

/// How a derived node computes its value from its operands: its trigger parents, then its
/// sample parents, in order. A missing operand reads as 0; results saturate at the bounds of
/// `i64`.
#[derive(Clone, Copy, Debug, PartialEq, Eq)]
pub enum Rule {
    /// The first operand.
    Copy,
    /// The sum of the first two operands.
    Add,
    /// The first operand minus the second.
    Sub,
    /// The larger of the first two operands.
    Max,
    /// The magnitude of the first operand.
    Abs,
    /// 0 when the first operand is 0, else 1.
    NonZero,
}

/// Why the graph refused a request.
#[derive(Clone, Copy, Debug, PartialEq, Eq)]
pub enum GraphError {
    /// A parent does not come before the new node: it does not exist yet, and allowing it
    /// could close a cycle.
    ParentNotBefore,
    /// No node has that index.
    UnknownNode,
    /// The node is derived; only input nodes take values from outside.
    NotAnInput,
}

/// A node: its rule (none for an input), its trigger and sample parents, and whether it
/// suppresses repeated values.
#[derive(Clone, Debug)]
pub struct Node {
    pub rule: Option<Rule>,
    pub triggers: Vec<usize>,
    pub samples: Vec<usize>,
    pub on_change: bool,
}

/// The nodes, their current values, and the node that each subscription watches.
pub struct SignalGraph {
    pub nodes: Vec<Node>,
    pub values: Vec<i64>,
    pub subscriptions: Vec<usize>,
}

/// `x` limited to the range of `i64`.
pub open spec fn saturate(x: int) -> int {
    if x > i64::MAX {
        i64::MAX as int
    } else if x < i64::MIN {
        i64::MIN as int
    } else {
        x
    }
}

/// What `rule` computes from the operands `a` and `b`.
pub open spec fn eval_spec(rule: Rule, a: int, b: int) -> int {
    match rule {
        Rule::Copy => a,
        Rule::Add => saturate(a + b),
        Rule::Sub => saturate(a - b),
        Rule::Max => if a >= b { a } else { b },
        Rule::Abs => saturate(if a >= 0 { a } else { -a }),
        Rule::NonZero => if a == 0 { 0 } else { 1 },
    }
}

/// Operand `k` of `node` under the values `vals`.
pub open spec fn operand_spec(node: Node, vals: Seq<i64>, k: int) -> int {
    let t = node.triggers@;
    let s = node.samples@;
    if k < t.len() {
        vals[t[k] as int] as int
    } else if k - t.len() < s.len() {
        vals[s[k - t.len()] as int] as int
    } else {
        0
    }
}

/// The value that a derived `node` computes under the values `vals`.
pub open spec fn compute_spec(node: Node, vals: Seq<i64>) -> int {
    match node.rule {
        Some(rule) => eval_spec(rule, operand_spec(node, vals, 0), operand_spec(node, vals, 1)),
        None => 0,
    }
}

/// The value that node `i` computes under the values `vals`.
pub open spec fn recompute_spec(nodes: Seq<Node>, vals: Seq<i64>, i: int) -> int {
    match nodes[i].rule {
        Some(rule) => compute_spec(nodes[i], vals),
        None => vals[i] as int,
    }
}

/// A trigger parent of node `i` has changed.
pub open spec fn triggered_spec(nodes: Seq<Node>, changed: Seq<bool>, i: int) -> bool {
    exists|j: int| 0 <= j < nodes[i].triggers@.len() && changed[#[trigger] nodes[i].triggers@[j] as int]
}

/// Values and change marks during a push.
pub struct Pass {
    pub vals: Seq<i64>,
    pub changed: Seq<bool>,
}

/// The visit of node `i` during a push.
pub open spec fn visit_spec(nodes: Seq<Node>, p: Pass, i: int) -> Pass {
    if triggered_spec(nodes, p.changed, i) {
        let v = recompute_spec(nodes, p.vals, i);
        if nodes[i].on_change && v == p.vals[i] {
            p
        } else {
            Pass { vals: p.vals.update(i, v as i64), changed: p.changed.update(i, true) }
        }
    } else {
        p
    }
}

/// The visits of the nodes `from .. to`, in order.
pub open spec fn walk_spec(nodes: Seq<Node>, p: Pass, from: int, to: int) -> Pass
    decreases to - from,
{
    if to <= from {
        p
    } else {
        visit_spec(nodes, walk_spec(nodes, p, from, to - 1), to - 1)
    }
}

/// The pass that starts when input `node` receives `value` under the values `vals`.
pub open spec fn start_spec(nodes: Seq<Node>, vals: Seq<i64>, node: int, value: i64) -> Pass {
    let none = Seq::new(vals.len(), |i: int| false);
    if nodes[node].on_change && vals[node] == value {
        Pass { vals, changed: none }
    } else {
        Pass { vals: vals.update(node, value), changed: none.update(node, true) }
    }
}

/// The outcome of pushing `value` into input `node`.
pub open spec fn push_spec(nodes: Seq<Node>, vals: Seq<i64>, node: int, value: i64) -> Pass {
    walk_spec(nodes, start_spec(nodes, vals, node, value), node + 1, nodes.len() as int)
}

/// The subscriptions among the first `k` whose node changed, in order.
pub open spec fn fired_spec(subs: Seq<usize>, changed: Seq<bool>, k: int) -> Seq<usize>
    decreases k,
{
    if k <= 0 {
        Seq::empty()
    } else {
        let p = fired_spec(subs, changed, k - 1);
        if changed[subs[k - 1] as int] {
            p.push((k - 1) as usize)
        } else {
            p
        }
    }
}

/// Every parent of `node` comes before index `i`.
pub open spec fn parents_before(node: Node, i: int) -> bool {
    &&& forall|j: int| 0 <= j < node.triggers@.len() ==> #[trigger] node.triggers@[j] < i
    &&& forall|j: int| 0 <= j < node.samples@.len() ==> #[trigger] node.samples@[j] < i
}


fn eval(rule: Rule, a: i64, b: i64) -> (r: i64)
    ensures
        r == eval_spec(rule, a as int, b as int),
{
    match rule {
        Rule::Copy => a,
        Rule::Add => clamp_i128(a as i128 + b as i128),
        Rule::Sub => clamp_i128(a as i128 - b as i128),
        Rule::Max => if a >= b { a } else { b },
        Rule::Abs => clamp_i128(if a >= 0 { a as i128 } else { -(a as i128) }),
        Rule::NonZero => if a == 0 { 0 } else { 1 },
    }
}

fn clamp_i128(x: i128) -> (r: i64)
    ensures
        r == saturate(x as int),
{
    if x > i64::MAX as i128 {
        i64::MAX
    } else if x < i64::MIN as i128 {
        i64::MIN
    } else {
        x as i64
    }
}

fn operand(node: &Node, values: &Vec<i64>, k: usize) -> (r: i64)
    requires
        parents_before(*node, values@.len() as int),
    ensures
        r == operand_spec(*node, values@, k as int),
{
    let t = node.triggers.len();
    if k < t {
        values[node.triggers[k]]
    } else if k - t < node.samples.len() {
        values[node.samples[k - t]]
    } else {
        0
    }
}

fn compute(node: &Node, values: &Vec<i64>) -> (r: i64)
    requires
        parents_before(*node, values@.len() as int),
        node.rule is Some,
    ensures
        r == compute_spec(*node, values@),
{
    let rule = node.rule.unwrap();
    eval(rule, operand(node, values, 0), operand(node, values, 1))
}

fn parents_exist(node: &Node, n: usize) -> (r: bool)
    ensures
        r == parents_before(*node, n as int),
{
    let mut j: usize = 0;
    while j < node.triggers.len()
        invariant
            forall|k: int| 0 <= k < j ==> #[trigger] node.triggers@[k] < n,
        decreases node.triggers.len() - j,
    {
        if node.triggers[j] >= n {
            return false;
        }
        j = j + 1;
    }
    let mut j: usize = 0;
    while j < node.samples.len()
        invariant
            forall|k: int| 0 <= k < node.triggers@.len() ==> #[trigger] node.triggers@[k] < n,
            forall|k: int| 0 <= k < j ==> #[trigger] node.samples@[k] < n,
        decreases node.samples.len() - j,
    {
        if node.samples[j] >= n {
            return false;
        }
        j = j + 1;
    }
    true
}

impl SignalGraph {
    /// Parents come before their children, inputs have no parents, every node has a value and
    /// every subscription watches a node.
    pub open spec fn wf(&self) -> bool {
        &&& self.values@.len() == self.nodes@.len()
        &&& forall|i: int| 0 <= i < self.nodes@.len() ==> parents_before(#[trigger] self.nodes@[i], i)
        &&& forall|i: int| 0 <= i < self.nodes@.len() ==> ((#[trigger] self.nodes@[i]).rule is None ==> self.nodes@[i].triggers@.len() == 0 && self.nodes@[i].samples@.len() == 0)
        &&& forall|s: int| 0 <= s < self.subscriptions@.len() ==> #[trigger] self.subscriptions@[s] < self.nodes@.len()
    }

    /// An empty graph.
    pub fn new() -> (r: SignalGraph)
        ensures
            r.wf(),
            r.nodes@.len() == 0,
            r.subscriptions@.len() == 0,
    {
        SignalGraph { nodes: Vec::new(), values: Vec::new(), subscriptions: Vec::new() }
    }

    /// Adds an input node holding `initial` and returns its index.
    pub fn make_input(&mut self, initial: i64) -> (r: usize)
        requires
            old(self).wf(),
        ensures
            final(self).wf(),
            r == old(self).nodes@.len(),
            final(self).nodes@.len() == old(self).nodes@.len() + 1,
            final(self).nodes@.take(r as int) == old(self).nodes@,
            final(self).nodes@[r as int].rule is None,
            !final(self).nodes@[r as int].on_change,
            final(self).values@ == old(self).values@.push(initial),
            final(self).subscriptions@ == old(self).subscriptions@,
    {
        let r = self.nodes.len();
        self.nodes.push(Node { rule: None, triggers: Vec::new(), samples: Vec::new(), on_change: false });
        self.values.push(initial);
        proof {
            assert(self.nodes@.take(r as int) =~= old(self).nodes@);
            assert forall|i: int| 0 <= i < self.nodes@.len() implies parents_before(#[trigger] self.nodes@[i], i) by {
                if i < r {
                    assert(self.nodes@[i] == old(self).nodes@[i]);
                }
            }
        }
        r
    }

    /// Adds a node that recomputes `rule` whenever one of `triggers` changes, reading
    /// `triggers` and then `samples` as its operands, and returns its index. Its first value is
    /// computed at once. Every parent must already exist.
    pub fn derive(&mut self, rule: Rule, triggers: Vec<usize>, samples: Vec<usize>) -> (r: Result<usize, GraphError>)
        requires
            old(self).wf(),
        ensures
            final(self).wf(),
            r is Ok <==> parents_before(Node { rule: Some(rule), triggers, samples, on_change: false }, old(self).nodes@.len() as int),
            r is Err ==> r == Err::<usize, GraphError>(GraphError::ParentNotBefore) && final(self).nodes@ == old(self).nodes@ && final(self).values@ == old(self).values@,
            r is Ok ==> old(self).derived_by(*final(self), r->Ok_0, Node { rule: Some(rule), triggers, samples, on_change: false }),
            final(self).subscriptions@ == old(self).subscriptions@,
    {
        let n = self.nodes.len();
        let node = Node { rule: Some(rule), triggers, samples, on_change: false };
        if !parents_exist(&node, n) {
            return Err(GraphError::ParentNotBefore);
        }
        Ok(self.add_derived(node))
    }

    /// Adds a node that follows `parent` but counts as changed only when its value differs
    /// from the one it held, and returns its index.
    pub fn on_change(&mut self, parent: usize) -> (r: Result<usize, GraphError>)
        requires
            old(self).wf(),
        ensures
            final(self).wf(),
            r is Ok <==> parent < old(self).nodes@.len(),
            r is Err ==> r == Err::<usize, GraphError>(GraphError::UnknownNode) && final(self).nodes@ == old(self).nodes@ && final(self).values@ == old(self).values@,
            r is Ok ==> old(self).derived_by(*final(self), r->Ok_0, Node { rule: Some(Rule::Copy), triggers: final(self).nodes@[r->Ok_0 as int].triggers, samples: final(self).nodes@[r->Ok_0 as int].samples, on_change: true }),
            r is Ok ==> final(self).nodes@[r->Ok_0 as int].triggers@ == seq![parent],
            r is Ok ==> final(self).nodes@[r->Ok_0 as int].samples@.len() == 0,
            final(self).subscriptions@ == old(self).subscriptions@,
    {
        let n = self.nodes.len();
        if parent >= n {
            return Err(GraphError::UnknownNode);
        }
        let mut triggers: Vec<usize> = Vec::new();
        triggers.push(parent);
        let node = Node { rule: Some(Rule::Copy), triggers, samples: Vec::new(), on_change: true };
        Ok(self.add_derived(node))
    }

    /// `next` is this graph with `node` added at index `r`, holding the value it computes.
    pub open spec fn derived_by(&self, next: SignalGraph, r: usize, node: Node) -> bool {
        &&& r == self.nodes@.len()
        &&& next.nodes@ == self.nodes@.push(node)
        &&& next.values@ == self.values@.push(compute_spec(node, self.values@) as i64)
    }

    fn add_derived(&mut self, node: Node) -> (r: usize)
        requires
            old(self).wf(),
            node.rule is Some,
            parents_before(node, old(self).nodes@.len() as int),
        ensures
            final(self).wf(),
            old(self).derived_by(*final(self), r, node),
            final(self).subscriptions@ == old(self).subscriptions@,
    {
        let r = self.nodes.len();
        let v = compute(&node, &self.values);
        self.nodes.push(node);
        self.values.push(v);
        proof {
            assert forall|i: int| 0 <= i < self.nodes@.len() implies parents_before(#[trigger] self.nodes@[i], i) by {
                if i < r {
                    assert(self.nodes@[i] == old(self).nodes@[i]);
                }
            }
        }
        r
    }

    /// Registers an effect on `node` and returns its index. Effects are reported in the order
    /// of these indices.
    pub fn subscribe(&mut self, node: usize) -> (r: Result<usize, GraphError>)
        requires
            old(self).wf(),
        ensures
            final(self).wf(),
            final(self).nodes@ == old(self).nodes@,
            final(self).values@ == old(self).values@,
            r is Ok <==> node < old(self).nodes@.len(),
            r is Err ==> r == Err::<usize, GraphError>(GraphError::UnknownNode) && final(self).subscriptions@ == old(self).subscriptions@,
            r is Ok ==> r->Ok_0 == old(self).subscriptions@.len() && final(self).subscriptions@ == old(self).subscriptions@.push(node),
    {
        if node >= self.nodes.len() {
            return Err(GraphError::UnknownNode);
        }
        let r = self.subscriptions.len();
        self.subscriptions.push(node);
        Ok(r)
    }

    /// Sets input `node` to `value` and propagates: every node reachable from it through
    /// trigger edges is visited once, in index order, and recomputed from the values of that
    /// moment. Returns the subscriptions whose node changed, in the order they were made.
    pub fn push(&mut self, node: usize, value: i64) -> (r: Result<Vec<usize>, GraphError>)
        requires
            old(self).wf(),
        ensures
            final(self).wf(),
            final(self).nodes@ == old(self).nodes@,
            final(self).subscriptions@ == old(self).subscriptions@,
            r is Err <==> node >= old(self).nodes@.len() || old(self).nodes@[node as int].rule is Some,
            node >= old(self).nodes@.len() ==> r == Err::<Vec<usize>, GraphError>(GraphError::UnknownNode),
            node < old(self).nodes@.len() && old(self).nodes@[node as int].rule is Some ==> r == Err::<Vec<usize>, GraphError>(GraphError::NotAnInput),
            r is Err ==> final(self).values@ == old(self).values@,
            r matches Ok(fired) ==> final(self).values@ == push_spec(old(self).nodes@, old(self).values@, node as int, value).vals
                && fired@ == fired_spec(old(self).subscriptions@, push_spec(old(self).nodes@, old(self).values@, node as int, value).changed, old(self).subscriptions@.len() as int),
    {
        let n = self.nodes.len();
        if node >= n {
            return Err(GraphError::UnknownNode);
        }
        if self.nodes[node].rule.is_some() {
            return Err(GraphError::NotAnInput);
        }
        let mut changed: Vec<bool> = Vec::new();
        let mut k: usize = 0;
        while k < n
            invariant
                k <= n,
                changed@ == Seq::new(k as nat, |i: int| false),
            decreases n - k,
        {
            changed.push(false);
            k = k + 1;
            proof {
                assert(changed@ =~= Seq::new(k as nat, |i: int| false));
            }
        }
        if !(self.nodes[node].on_change && self.values[node] == value) {
            self.values.set(node, value);
            changed.set(node, true);
        }
        let ghost start = start_spec(self.nodes@, old(self).values@, node as int, value);
        proof {
            assert(self.values@ =~= start.vals);
            assert(changed@ =~= start.changed);
        }
        let mut i: usize = node + 1;
        while i < n
            invariant
                self.wf(),
                node < i <= n,
                n == self.nodes@.len(),
                self.nodes@ == old(self).nodes@,
                self.subscriptions@ == old(self).subscriptions@,
                changed@.len() == n,
                (Pass { vals: self.values@, changed: changed@ }) == walk_spec(self.nodes@, start, node + 1, i as int),
            decreases n - i,
        {
            let ghost before = Pass { vals: self.values@, changed: changed@ };
            let node_i = &self.nodes[i];
            let mut hit = false;
            let mut j: usize = 0;
            while j < node_i.triggers.len()
                invariant
                    self.wf(),
                    i < n,
                    n == self.nodes@.len(),
                    changed@.len() == n,
                    *node_i == self.nodes@[i as int],
                    j <= node_i.triggers@.len(),
                    hit == exists|m: int| 0 <= m < j && changed@[#[trigger] node_i.triggers@[m] as int],
                decreases node_i.triggers.len() - j,
            {
                assert(parents_before(self.nodes@[i as int], i as int));
                if changed[node_i.triggers[j]] {
                    hit = true;
                }
                j = j + 1;
            }
            proof {
                if hit {
                    assert(node_i.triggers@.len() > 0);
                    assert(node_i.rule is Some);
                }
                assert(hit == triggered_spec(self.nodes@, changed@, i as int));
            }
            if hit {
                assert(parents_before(self.nodes@[i as int], i as int));
                let v = compute(node_i, &self.values);
                if !(node_i.on_change && v == self.values[i]) {
                    self.values.set(i, v);
                    changed.set(i, true);
                }
            }
            proof {
                let after = visit_spec(self.nodes@, before, i as int);
                assert(self.values@ =~= after.vals);
                assert(changed@ =~= after.changed);
            }
            i = i + 1;
        }
        let mut fired: Vec<usize> = Vec::new();
        let mut s: usize = 0;
        while s < self.subscriptions.len()
            invariant
                self.wf(),
                n == self.nodes@.len(),
                changed@.len() == n,
                s <= self.subscriptions@.len(),
                fired@ == fired_spec(self.subscriptions@, changed@, s as int),
            decreases self.subscriptions.len() - s,
        {
            if changed[self.subscriptions[s]] {
                fired.push(s);
            }
            s = s + 1;
        }
        Ok(fired)
    }

    /// The current value of `node`.
    pub fn value(&self, node: usize) -> (r: Option<i64>)
        requires
            self.wf(),
        ensures
            r is Some <==> node < self.nodes@.len(),
            r matches Some(v) ==> v == self.values@[node as int],
    {
        if node < self.values.len() {
            Some(self.values[node])
        } else {
            None
        }
    }
}


/// During a push from `node`, before node `k` is visited: nodes from `k` on (but the pushed
/// one) are untouched, and every `on_change` node marked changed holds a new value.
spec fn pass_inv(nodes: Seq<Node>, vals: Seq<i64>, node: int, p: Pass, k: int) -> bool {
    &&& p.vals.len() == vals.len()
    &&& p.changed.len() == vals.len()
    &&& forall|j: int| k <= j < vals.len() && j != node ==> !(#[trigger] p.changed[j])
    &&& forall|j: int| k <= j < vals.len() && j != node ==> #[trigger] p.vals[j] == vals[j]
    &&& forall|j: int| 0 <= j < vals.len() && nodes[j].on_change && #[trigger] p.changed[j] ==> p.vals[j] != vals[j]
}

proof fn lemma_walk_inv(nodes: Seq<Node>, vals: Seq<i64>, node: int, p: Pass, from: int, to: int)
    requires
        nodes.len() == vals.len(),
        0 <= node < from <= to <= vals.len(),
        pass_inv(nodes, vals, node, p, from),
    ensures
        pass_inv(nodes, vals, node, walk_spec(nodes, p, from, to), to),
    decreases to - from,
{
    if to > from {
        lemma_walk_inv(nodes, vals, node, p, from, to - 1);
        let q = walk_spec(nodes, p, from, to - 1);
        let i = to - 1;
        let r = visit_spec(nodes, q, i);
        assert(!q.changed[i] && q.vals[i] == vals[i]);
        if triggered_spec(nodes, q.changed, i) {
            let v = recompute_spec(nodes, q.vals, i);
            assert(i64::MIN <= v <= i64::MAX);
            if !(nodes[i].on_change && v == q.vals[i]) {
                assert(r.vals[i] == v as i64);
                assert forall|j: int| 0 <= j < vals.len() && nodes[j].on_change && #[trigger] r.changed[j] implies r.vals[j] != vals[j] by {
                    if j != i {
                        assert(q.changed[j]);
                    }
                }
                assert forall|j: int| to <= j < vals.len() && j != node implies !(#[trigger] r.changed[j]) by {
                    assert(!q.changed[j]);
                }
                assert forall|j: int| to <= j < vals.len() && j != node implies #[trigger] r.vals[j] == vals[j] by {
                    assert(q.vals[j] == vals[j]);
                }
            }
        }
    }
}

proof fn lemma_fired_only_changed(subs: Seq<usize>, changed: Seq<bool>, k: int, x: usize)
    requires
        k <= subs.len(),
        k <= usize::MAX,
        fired_spec(subs, changed, k).contains(x),
    ensures
        x < k,
        changed[subs[x as int] as int],
    decreases k,
{
    if k > 0 {
        let p = fired_spec(subs, changed, k - 1);
        if changed[subs[k - 1] as int] && x == (k - 1) as usize {
        } else {
            if changed[subs[k - 1] as int] {
                let q = p.push((k - 1) as usize);
                assert(q.contains(x));
                let m = choose|m: int| 0 <= m < q.len() && #[trigger] q[m] == x;
                assert(m < p.len());
                assert(p[m] == x);
            }
            lemma_fired_only_changed(subs, changed, k - 1, x);
        }
    }
}

/// A subscription on an `on_change` node fires only when the push gives that node a value
/// that differs from the one it held. So when two successive pushes compute the same value for
/// it, the effect fires after the first at most, never after the second.
pub proof fn lemma_on_change_suppresses_repeats(g: SignalGraph, node: usize, value: i64, s: usize)
    requires
        g.wf(),
        node < g.nodes@.len(),
        g.nodes@[node as int].rule is None,
        s < g.subscriptions@.len(),
        g.nodes@[g.subscriptions@[s as int] as int].on_change,
        push_spec(g.nodes@, g.values@, node as int, value).vals[g.subscriptions@[s as int] as int] == g.values@[g.subscriptions@[s as int] as int],
    ensures
        !fired_spec(
            g.subscriptions@,
            push_spec(g.nodes@, g.values@, node as int, value).changed,
            g.subscriptions@.len() as int,
        ).contains(s),
{
    let nodes = g.nodes@;
    let vals = g.values@;
    let first = start_spec(nodes, vals, node as int, value);
    assert(pass_inv(nodes, vals, node as int, first, node + 1));
    lemma_walk_inv(nodes, vals, node as int, first, node + 1, nodes.len() as int);
    let p = push_spec(nodes, vals, node as int, value);
    assert(g.subscriptions@.len() <= usize::MAX) by {
        assert(g.subscriptions.len() == g.subscriptions@.len());
    }
    if fired_spec(g.subscriptions@, p.changed, g.subscriptions@.len() as int).contains(s) {
        lemma_fired_only_changed(g.subscriptions@, p.changed, g.subscriptions@.len() as int, s);
    }
}

} // verus!
