//! The remaining traversals of the composition protocol: mouse-cursor
//! hinting, side-effecting operation traversal, and overlay production.

use vstd::prelude::*;
use crate::geometry::{Point, Rectangle, sat_add, sat_add_spec, sat_add64, sat_add64_spec,
    rect_contains_spec};
use crate::node::{Node, NodeModel, node_model, nodes_model, lemma_nodes_model_index};
use crate::tree::{Tree, TreeModel, tree_model, trees_model, lemma_trees_model_index};
use crate::widget::Element;
use crate::column::Column;
use crate::event::{min3, min3_spec, abs_bounds_spec};

verus! {

/// The mouse-cursor hint a subtree reports.
#[derive(Clone, Copy, Debug, PartialEq, Eq, Structural)]
pub enum Interaction {
    /// Nothing under the cursor wants attention.
    Idle,
    /// Something clickable is under the cursor.
    Pointer,
}

/// The strength of a hint; a container reports the strongest hint among its
/// children.
pub open spec fn interaction_rank_spec(i: Interaction) -> int {
    match i {
        Interaction::Idle => 0int,
        Interaction::Pointer => 1int,
    }
}

/// The stronger of two hints (the first on ties).
pub open spec fn interaction_max_spec(a: Interaction, b: Interaction) -> Interaction {
    if interaction_rank_spec(b) > interaction_rank_spec(a) {
        b
    } else {
        a
    }
}

impl Interaction {
    /// The stronger of two hints.
    pub fn stronger(self, other: Interaction) -> (r: Interaction)
        ensures
            r == interaction_max_spec(self, other),
    {
        match (self, other) {
            (Interaction::Idle, Interaction::Pointer) => Interaction::Pointer,
            _ => self,
        }
    }
}

/// The hint an element reports for a cursor position: a leaf reports a
/// pointer hint when it is interactive and the cursor is over it; a
/// container reports the strongest hint among its children.
pub open spec fn mouse_spec(e: Element, t: TreeModel, nm: NodeModel, origin: Point, cursor: Point) -> Interaction
    decreases e, 2int,
{
    match e {
        Element::Leaf(leaf) => {
            if leaf.interactive && rect_contains_spec(abs_bounds_spec(nm, origin), cursor) {
                Interaction::Pointer
            } else {
                Interaction::Idle
            }
        },
        Element::Column(c) => {
            let inner = Point {
                x: sat_add_spec(origin.x, nm.bounds.x),
                y: sat_add_spec(origin.y, nm.bounds.y),
            };
            let m = min3_spec(c.children.len() as int, t.children.len() as int, nm.children.len() as int);
            mouse_children_spec(c.children, t.children, nm.children, inner, cursor, m)
        },
    }
}

/// The strongest hint among the first `k` children.
pub open spec fn mouse_children_spec(
    v: Vec<Element>,
    ts: Seq<TreeModel>,
    ns: Seq<NodeModel>,
    origin: Point,
    cursor: Point,
    k: int,
) -> Interaction
    decreases v, k,
{
    if k <= 0 || k > v.len() || k > ts.len() || k > ns.len() {
        Interaction::Idle
    } else {
        interaction_max_spec(
            mouse_children_spec(v, ts, ns, origin, cursor, k - 1),
            mouse_spec(v[k - 1], ts[k - 1], ns[k - 1], origin, cursor),
        )
    }
}

/// A side-effecting traversal operation: it accounts for every node it
/// visits and may seek one leaf — the `target`-th leaf in visit order — to
/// write `value` into that leaf's persistent state and record the absolute
/// bounds of its layout node (a focus-seeking traversal).
#[derive(Clone, Copy, Debug)]
pub struct Operation {
    /// Containers visited so far.
    pub containers: u64,
    /// Leaves visited so far.
    pub leaves: u64,
    /// The leaf, by visit order, whose state the operation writes, if any.
    pub target: Option<u64>,
    /// The state value written into the sought leaf.
    pub value: u64,
    /// The absolute bounds of the sought leaf, once it has been visited.
    pub found: Option<Rectangle>,
}

impl Operation {
    /// An operation that only accounts for the nodes it visits.
    pub fn new() -> (r: Operation)
        ensures
            r == (Operation {
                containers: 0u64,
                leaves: 0u64,
                target: None::<u64>,
                value: 0u64,
                found: None::<Rectangle>,
            }),
    {
        Operation { containers: 0, leaves: 0, target: None, value: 0, found: None }
    }

    /// An operation that seeks the `target`-th leaf in visit order and
    /// writes `value` into its state.
    pub fn focus(target: u64, value: u64) -> (r: Operation)
        ensures
            r == (Operation {
                containers: 0u64,
                leaves: 0u64,
                target: Some(target),
                value,
                found: None::<Rectangle>,
            }),
    {
        Operation { containers: 0, leaves: 0, target: Some(target), value, found: None }
    }
}

/// Everything one traversal changes: the state subtree as the operation
/// leaves it, and the operation itself.
#[verifier::ext_equal]
pub ghost struct OperateOut {
    pub tree: TreeModel,
    pub op: Operation,
}

/// One traversal step: a leaf accounts for itself and, if it is the sought
/// one, takes the operation's value as its state and reports its absolute
/// bounds; a container accounts for itself and then visits every child in
/// order, each zipped with its own state subtree and its own layout node.
pub open spec fn operate_spec(e: Element, t: TreeModel, nm: NodeModel, origin: Point, acc: Operation) -> OperateOut
    decreases e, 2int,
{
    match e {
        Element::Leaf(_) => {
            if acc.target == Some(acc.leaves) {
                OperateOut {
                    tree: TreeModel { tag: t.tag, state: acc.value, children: t.children },
                    op: Operation {
                        containers: acc.containers,
                        leaves: sat_add64_spec(acc.leaves, 1u64),
                        target: acc.target,
                        value: acc.value,
                        found: Some(abs_bounds_spec(nm, origin)),
                    },
                }
            } else {
                OperateOut {
                    tree: t,
                    op: Operation {
                        containers: acc.containers,
                        leaves: sat_add64_spec(acc.leaves, 1u64),
                        target: acc.target,
                        value: acc.value,
                        found: acc.found,
                    },
                }
            }
        },
        Element::Column(c) => {
            let inner = Point {
                x: sat_add_spec(origin.x, nm.bounds.x),
                y: sat_add_spec(origin.y, nm.bounds.y),
            };
            let started = Operation {
                containers: sat_add64_spec(acc.containers, 1u64),
                leaves: acc.leaves,
                target: acc.target,
                value: acc.value,
                found: acc.found,
            };
            let m = min3_spec(c.children.len() as int, t.children.len() as int, nm.children.len() as int);
            let f = operate_children_spec(c.children, t.children, nm.children, inner, started, m);
            OperateOut {
                tree: TreeModel { tag: t.tag, state: t.state, children: f.trees },
                op: f.op,
            }
        },
    }
}

/// The running state of a traversal over a container's children.
#[verifier::ext_equal]
pub ghost struct OperateFold {
    /// The state subtrees, visited prefixes replaced.
    pub trees: Seq<TreeModel>,
    /// The operation as it leaves the prefix.
    pub op: Operation,
}

/// The traversal of the first `k` children, zipped with their state and
/// layout by position; the operation threads through the children in order.
pub open spec fn operate_children_spec(
    v: Vec<Element>,
    ts: Seq<TreeModel>,
    ns: Seq<NodeModel>,
    origin: Point,
    acc: Operation,
    k: int,
) -> OperateFold
    decreases v, k,
{
    if k <= 0 || k > v.len() || k > ts.len() || k > ns.len() {
        OperateFold { trees: ts, op: acc }
    } else {
        let p = operate_children_spec(v, ts, ns, origin, acc, k - 1);
        let sub = operate_spec(v[k - 1], ts[k - 1], ns[k - 1], origin, p.op);
        OperateFold { trees: p.trees.update(k - 1, sub.tree), op: sub.op }
    }
}

/// Shape of the child traversal: the state keeps one subtree per child; a
/// visited position holds exactly its own visit's result — computed from its
/// own state and layout and the operation as the earlier siblings left it —
/// and every other position is untouched.
pub proof fn lemma_operate_children_index(
    v: Vec<Element>,
    ts: Seq<TreeModel>,
    ns: Seq<NodeModel>,
    origin: Point,
    acc: Operation,
    k: int,
)
    requires
        0 <= k <= v.len(),
        k <= ts.len(),
        k <= ns.len(),
    ensures
        operate_children_spec(v, ts, ns, origin, acc, k).trees.len() == ts.len(),
        forall|i: int|
            0 <= i < k ==> operate_children_spec(v, ts, ns, origin, acc, k).trees[i]
                == operate_spec(
                v[i],
                ts[i],
                ns[i],
                origin,
                operate_children_spec(v, ts, ns, origin, acc, i).op,
            ).tree,
        forall|i: int|
            k <= i < ts.len() ==> operate_children_spec(v, ts, ns, origin, acc, k).trees[i]
                == ts[i],
    decreases k,
{
    if k > 0 {
        lemma_operate_children_index(v, ts, ns, origin, acc, k - 1);
    }
}

impl Element {
    /// Reports the mouse-cursor hint for this element.
    pub fn mouse_interaction(&self, tree: &Tree, node: &Node, origin: Point, cursor: Point) -> (r: Interaction)
        ensures
            r == mouse_spec(*self, tree_model(*tree), node_model(*node), origin, cursor),
        decreases *self, 2int,
    {
        match self {
            Element::Leaf(leaf) => {
                let abs = Rectangle {
                    x: sat_add(origin.x, node.bounds.x),
                    y: sat_add(origin.y, node.bounds.y),
                    width: node.bounds.width,
                    height: node.bounds.height,
                };
                if leaf.interactive && abs.contains(cursor) {
                    Interaction::Pointer
                } else {
                    Interaction::Idle
                }
            },
            Element::Column(c) => c.mouse_interaction(tree, node, origin, cursor),
        }
    }

    /// Runs a traversal operation over this element, zipped with its state
    /// subtree and its committed layout node: the operation accounts for
    /// every node and may write the sought leaf's state in place.
    pub fn operate(&self, tree: &mut Tree, node: &Node, origin: Point, operation: &mut Operation)
        ensures
            ({
                let out = operate_spec(
                    *self,
                    tree_model(*old(tree)),
                    node_model(*node),
                    origin,
                    *old(operation),
                );
                &&& tree_model(*final(tree)) == out.tree
                &&& *final(operation) == out.op
            }),
        decreases *self, 2int,
    {
        match self {
            Element::Leaf(_) => {
                let sought = match operation.target {
                    Some(t) => t == operation.leaves,
                    None => false,
                };
                if sought {
                    tree.state = operation.value;
                    operation.found = Some(
                        Rectangle {
                            x: sat_add(origin.x, node.bounds.x),
                            y: sat_add(origin.y, node.bounds.y),
                            width: node.bounds.width,
                            height: node.bounds.height,
                        },
                    );
                }
                operation.leaves = sat_add64(operation.leaves, 1);
            },
            Element::Column(c) => c.operate(tree, node, origin, operation),
        }
    }

    /// The position of the floating content this element offers above the
    /// normal tree, if any.
    pub fn overlay(&self, node: &Node, origin: Point) -> (r: Option<Point>)
        ensures
            r == overlay_spec(*self, node_model(*node), origin),
        decreases *self, 2int,
    {
        match self {
            Element::Leaf(leaf) => {
                if leaf.floating {
                    Some(
                        Point {
                            x: sat_add(origin.x, node.bounds.x),
                            y: sat_add(origin.y, node.bounds.y),
                        },
                    )
                } else {
                    None
                }
            },
            Element::Column(c) => c.overlay(node, origin),
        }
    }
}

/// The overlay an element offers: a floating leaf offers one at its absolute
/// position; a container offers the overlay of the last child that offers
/// one — the deterministic tie-break among siblings.
pub open spec fn overlay_spec(e: Element, nm: NodeModel, origin: Point) -> Option<Point>
    decreases e, 2int,
{
    match e {
        Element::Leaf(leaf) => {
            if leaf.floating {
                Some(
                    Point {
                        x: sat_add_spec(origin.x, nm.bounds.x),
                        y: sat_add_spec(origin.y, nm.bounds.y),
                    },
                )
            } else {
                None
            }
        },
        Element::Column(c) => {
            let inner = Point {
                x: sat_add_spec(origin.x, nm.bounds.x),
                y: sat_add_spec(origin.y, nm.bounds.y),
            };
            let m = if c.children.len() <= nm.children.len() {
                c.children.len() as int
            } else {
                nm.children.len() as int
            };
            overlay_children_spec(c.children, nm.children, inner, m)
        },
    }
}

/// The overlay of the last of the first `k` children that offers one.
pub open spec fn overlay_children_spec(v: Vec<Element>, ns: Seq<NodeModel>, origin: Point, k: int) -> Option<
    Point,
>
    decreases v, k,
{
    if k <= 0 || k > v.len() || k > ns.len() {
        None
    } else {
        let sub = overlay_spec(v[k - 1], ns[k - 1], origin);
        if sub is Some {
            sub
        } else {
            overlay_children_spec(v, ns, origin, k - 1)
        }
    }
}

impl Column {
    /// Reports the strongest mouse-cursor hint among this column's children.
    #[verifier::loop_isolation(false)]
    pub fn mouse_interaction(&self, tree: &Tree, node: &Node, origin: Point, cursor: Point) -> (r: Interaction)
        ensures
            r == mouse_spec(Element::Column(*self), tree_model(*tree), node_model(*node), origin, cursor),
        decreases *self, 2int,
    {
        let inner = Point { x: sat_add(origin.x, node.bounds.x), y: sat_add(origin.y, node.bounds.y) };
        let m = min3(self.children.len(), tree.children.len(), node.children.len());
        let ghost ts = trees_model(tree.children, tree.children.len() as int);
        let ghost ns = nodes_model(node.children, node.children.len() as int);
        proof {
            lemma_trees_model_index(tree.children, tree.children.len() as int);
            lemma_nodes_model_index(node.children, node.children.len() as int);
        }
        let mut hint = Interaction::Idle;
        let mut i: usize = 0;
        while i < m
            invariant
                i <= m,
                m as int == min3_spec(self.children@.len() as int, ts.len() as int, ns.len() as int),
                ts.len() == tree.children@.len(),
                ns.len() == node.children@.len(),
                forall|j: int| 0 <= j < ts.len() ==> ts[j] == tree_model(tree.children@[j]),
                forall|j: int| 0 <= j < ns.len() ==> ns[j] == node_model(node.children@[j]),
                hint == mouse_children_spec(self.children, ts, ns, inner, cursor, i as int),
            decreases m - i,
        {
            let sub = self.children[i].mouse_interaction(&tree.children[i], &node.children[i], inner, cursor);
            hint = hint.stronger(sub);
            i = i + 1;
        }
        hint
    }

    /// Visits this column and then every child in order, each zipped with
    /// its own state subtree and its own layout node; a sought leaf's state
    /// is written in place.
    #[verifier::loop_isolation(false)]
    #[verifier::rlimit(60)]
    pub fn operate(&self, tree: &mut Tree, node: &Node, origin: Point, operation: &mut Operation)
        ensures
            ({
                let out = operate_spec(
                    Element::Column(*self),
                    tree_model(*old(tree)),
                    node_model(*node),
                    origin,
                    *old(operation),
                );
                &&& tree_model(*final(tree)) == out.tree
                &&& *final(operation) == out.op
            }),
        decreases *self, 2int,
    {
        operation.containers = sat_add64(operation.containers, 1);
        let ghost started = *operation;
        let inner = Point { x: sat_add(origin.x, node.bounds.x), y: sat_add(origin.y, node.bounds.y) };
        let m = min3(self.children.len(), tree.children.len(), node.children.len());
        let ghost ts = trees_model(old(tree).children, old(tree).children.len() as int);
        let ghost ns = nodes_model(node.children, node.children.len() as int);
        proof {
            lemma_trees_model_index(old(tree).children, old(tree).children.len() as int);
            lemma_nodes_model_index(node.children, node.children.len() as int);
        }
        let mut i: usize = 0;
        while i < m
            invariant
                i <= m,
                m as int == min3_spec(
                    self.children@.len() as int,
                    ts.len() as int,
                    ns.len() as int,
                ),
                tree.children@.len() == old(tree).children@.len(),
                tree.tag == old(tree).tag,
                tree.state == old(tree).state,
                ts.len() == old(tree).children@.len(),
                ns.len() == node.children@.len(),
                forall|j: int| 0 <= j < ns.len() ==> ns[j] == node_model(node.children@[j]),
                *operation == operate_children_spec(
                    self.children,
                    ts,
                    ns,
                    inner,
                    started,
                    i as int,
                ).op,
                forall|j: int|
                    0 <= j < i ==> tree_model(tree.children@[j]) == operate_children_spec(
                        self.children,
                        ts,
                        ns,
                        inner,
                        started,
                        i as int,
                    ).trees[j],
                forall|j: int|
                    i <= j < ts.len() ==> tree.children@[j] == old(tree).children@[j],
            decreases m - i,
        {
            let ghost prev = operate_children_spec(self.children, ts, ns, inner, started, i as int);
            proof {
                lemma_operate_children_index(self.children, ts, ns, inner, started, i as int);
            }
            let slot = vstd::std_specs::vec::vec_index_mut(&mut tree.children, i);
            self.children[i].operate(slot, &node.children[i], inner, operation);
            i = i + 1;
            proof {
                let idx = i - 1;
                let next = operate_children_spec(self.children, ts, ns, inner, started, i as int);
                let sub = operate_spec(self.children[idx], ts[idx], ns[idx], inner, prev.op);
                assert(next.trees == prev.trees.update(idx, sub.tree));
                assert(next.op == sub.op);
            }
        }
        proof {
            let f = operate_children_spec(self.children, ts, ns, inner, started, m as int);
            lemma_operate_children_index(self.children, ts, ns, inner, started, m as int);
            lemma_trees_model_index(tree.children, tree.children.len() as int);
            assert(trees_model(tree.children, tree.children.len() as int) =~= f.trees);
        }
    }

    /// The overlay of the last child that offers one, if any.
    #[verifier::loop_isolation(false)]
    pub fn overlay(&self, node: &Node, origin: Point) -> (r: Option<Point>)
        ensures
            r == overlay_spec(Element::Column(*self), node_model(*node), origin),
        decreases *self, 2int,
    {
        let inner = Point { x: sat_add(origin.x, node.bounds.x), y: sat_add(origin.y, node.bounds.y) };
        let m = if self.children.len() <= node.children.len() {
            self.children.len()
        } else {
            node.children.len()
        };
        let ghost ns = nodes_model(node.children, node.children.len() as int);
        proof {
            lemma_nodes_model_index(node.children, node.children.len() as int);
        }
        let mut found: Option<Point> = None;
        let mut i: usize = 0;
        while i < m
            invariant
                i <= m,
                m <= self.children@.len(),
                m <= ns.len(),
                ns.len() == node.children@.len(),
                m as int == if self.children@.len() <= ns.len() {
                    self.children@.len() as int
                } else {
                    ns.len() as int
                },
                forall|j: int| 0 <= j < ns.len() ==> ns[j] == node_model(node.children@[j]),
                found == overlay_children_spec(self.children, ns, inner, i as int),
            decreases m - i,
        {
            let sub = self.children[i].overlay(&node.children[i], inner);
            if sub.is_some() {
                found = sub;
            }
            i = i + 1;
        }
        found
    }
}

} // verus!
