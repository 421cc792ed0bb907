//! Event dispatch: every input event is delivered to every child — capture
//! never short-circuits delivery — and the children's outcomes are merged
//! with capture dominating. Interactive leaves capture pointer presses
//! within their bounds, bump their persistent state and publish a message
//! through the shell.

use vstd::prelude::*;
use crate::geometry::{Point, Rectangle, sat_add, sat_add_spec, sat_add64, sat_add64_spec,
    rect_contains_spec};
use crate::node::{Node, NodeModel, node_model, nodes_model, lemma_nodes_model_index};
use crate::tree::{Tree, TreeModel, tree_model, trees_model, lemma_trees_model_index};
use crate::widget::Element;
use crate::column::Column;

verus! {

/// An input event handed to the tree by the host.
#[derive(Clone, Copy, Debug, PartialEq, Eq, Structural)]
pub enum Event {
    /// The pointer was pressed at the current cursor position.
    PointerPressed,
    /// The pointer moved; no leaf in this catalog reacts to it.
    PointerMoved,
}

/// The outcome of delivering one event to a subtree.
#[derive(Clone, Copy, Debug, PartialEq, Eq, Structural)]
pub enum Status {
    /// Nobody was interested in the event.
    Ignored,
    /// Some node consumed the event.
    Captured,
}

/// The left-biased merge of two outcomes: the first capture wins.
pub open spec fn merge_spec(a: Status, b: Status) -> Status {
    match a {
        Status::Captured => Status::Captured,
        Status::Ignored => b,
    }
}

impl Status {
    /// Merges this outcome with a later one; capture dominates.
    pub fn merge(self, other: Status) -> (r: Status)
        ensures
            r == merge_spec(self, other),
    {
        match self {
            Status::Captured => Status::Captured,
            Status::Ignored => other,
        }
    }
}

/// The effect collector handed down during event dispatch: application
/// messages published by widgets, and whether a redraw was requested.
pub struct Shell {
    /// Messages published for the host, in dispatch order.
    pub messages: Vec<u64>,
    /// Whether some widget asked for a redraw.
    pub redraw: bool,
}

impl Shell {
    /// An empty shell.
    pub fn new() -> (r: Shell)
        ensures
            r.messages@ == Seq::<u64>::empty(),
            r.redraw == false,
    {
        Shell { messages: Vec::new(), redraw: false }
    }

    /// Publishes a message for the host.
    pub fn publish(&mut self, message: u64)
        ensures
            final(self).messages@ == old(self).messages@.push(message),
            final(self).redraw == old(self).redraw,
    {
        self.messages.push(message);
    }

    /// Asks the host to redraw.
    pub fn request_redraw(&mut self)
        ensures
            final(self).messages@ == old(self).messages@,
            final(self).redraw == true,
    {
        self.redraw = true;
    }
}

/// Everything one dispatch changes or returns: the updated state subtree,
/// the merged outcome, the published messages and the redraw request.
#[verifier::ext_equal]
pub ghost struct EventOut {
    pub tree: TreeModel,
    pub status: Status,
    pub messages: Seq<u64>,
    pub redraw: bool,
}

/// The absolute bounds of a node laid out relative to `origin`.
pub open spec fn abs_bounds_spec(nm: NodeModel, origin: Point) -> Rectangle {
    Rectangle {
        x: sat_add_spec(origin.x, nm.bounds.x),
        y: sat_add_spec(origin.y, nm.bounds.y),
        width: nm.bounds.width,
        height: nm.bounds.height,
    }
}

/// The dispatch of one event to an element: an interactive leaf captures a
/// pointer press within its bounds, bumps its state, publishes its message
/// and requests a redraw; any other leaf ignores the event; a container
/// delivers the event to every child in order and merges the outcomes.
pub open spec fn on_event_spec(
    e: Element,
    t: TreeModel,
    nm: NodeModel,
    origin: Point,
    cursor: Point,
    ev: Event,
) -> EventOut
    decreases e, 2int,
{
    match e {
        Element::Leaf(leaf) => {
            if leaf.interactive && ev == Event::PointerPressed && rect_contains_spec(
                abs_bounds_spec(nm, origin),
                cursor,
            ) {
                EventOut {
                    tree: TreeModel {
                        tag: t.tag,
                        state: sat_add64_spec(t.state, 1u64),
                        children: t.children,
                    },
                    status: Status::Captured,
                    messages: Seq::empty().push(leaf.message),
                    redraw: true,
                }
            } else {
                EventOut { tree: t, status: Status::Ignored, messages: Seq::empty(), redraw: false }
            }
        },
        Element::Column(c) => {
            let inner = Point {
                x: sat_add_spec(origin.x, nm.bounds.x),
                y: sat_add_spec(origin.y, nm.bounds.y),
            };
            let m = min3_spec(c.children.len() as int, t.children.len() as int, nm.children.len() as int);
            let f = on_event_children_spec(c.children, t.children, nm.children, inner, cursor, ev, m);
            EventOut {
                tree: TreeModel { tag: t.tag, state: t.state, children: f.trees },
                status: f.status,
                messages: f.messages,
                redraw: f.redraw,
            }
        },
    }
}

/// The smallest of three counts: a container zips its children with their
/// state and their layout, pairwise by position.
pub open spec fn min3_spec(a: int, b: int, c: int) -> int {
    if a <= b && a <= c {
        a
    } else if b <= c {
        b
    } else {
        c
    }
}

/// The running state of delivering one event to the first `k` children.
#[verifier::ext_equal]
pub ghost struct EventFold {
    /// The state subtrees, dispatched prefixes replaced.
    pub trees: Seq<TreeModel>,
    /// The merged outcome so far.
    pub status: Status,
    /// The messages published so far, in order.
    pub messages: Seq<u64>,
    /// Whether a redraw was requested so far.
    pub redraw: bool,
}

/// Delivery of one event to the first `k` children, zipped with their state
/// and layout by position. Every child in range is dispatched exactly once,
/// whatever the outcomes of its siblings.
pub open spec fn on_event_children_spec(
    v: Vec<Element>,
    ts: Seq<TreeModel>,
    ns: Seq<NodeModel>,
    origin: Point,
    cursor: Point,
    ev: Event,
    k: int,
) -> EventFold
    decreases v, k,
{
    if k <= 0 || k > v.len() || k > ts.len() || k > ns.len() {
        EventFold { trees: ts, status: Status::Ignored, messages: Seq::empty(), redraw: false }
    } else {
        let p = on_event_children_spec(v, ts, ns, origin, cursor, ev, k - 1);
        let sub = on_event_spec(v[k - 1], ts[k - 1], ns[k - 1], origin, cursor, ev);
        EventFold {
            trees: p.trees.update(k - 1, sub.tree),
            status: merge_spec(p.status, sub.status),
            messages: p.messages + sub.messages,
            redraw: p.redraw || sub.redraw,
        }
    }
}

/// Shape of child dispatch: the state keeps one subtree per child; a
/// dispatched position holds exactly its own dispatch result, every other
/// position is untouched; and the merged outcome is a capture exactly when
/// some dispatched child captured.
pub proof fn lemma_on_event_children_index(
    v: Vec<Element>,
    ts: Seq<TreeModel>,
    ns: Seq<NodeModel>,
    origin: Point,
    cursor: Point,
    ev: Event,
    k: int,
)
    requires
        0 <= k <= v.len(),
        k <= ts.len(),
        k <= ns.len(),
    ensures
        on_event_children_spec(v, ts, ns, origin, cursor, ev, k).trees.len() == ts.len(),
        forall|i: int|
            0 <= i < k ==> on_event_children_spec(v, ts, ns, origin, cursor, ev, k).trees[i]
                == on_event_spec(v[i], ts[i], ns[i], origin, cursor, ev).tree,
        forall|i: int|
            k <= i < ts.len() ==> on_event_children_spec(v, ts, ns, origin, cursor, ev, k).trees[i]
                == ts[i],
        on_event_children_spec(v, ts, ns, origin, cursor, ev, k).status == Status::Captured <==> (
        exists|i: int|
            0 <= i < k && on_event_spec(v[i], ts[i], ns[i], origin, cursor, ev).status
                == Status::Captured),
    decreases k,
{
    if k > 0 {
        lemma_on_event_children_index(v, ts, ns, origin, cursor, ev, k - 1);
        let p = on_event_children_spec(v, ts, ns, origin, cursor, ev, k - 1);
        let sub = on_event_spec(v[k - 1], ts[k - 1], ns[k - 1], origin, cursor, ev);
        if merge_spec(p.status, sub.status) == Status::Captured {
            if p.status == Status::Captured {
            } else {
                assert(sub.status == Status::Captured);
            }
        }
    }
}

/// The smallest of three counts.
pub fn min3(a: usize, b: usize, c: usize) -> (r: usize)
    ensures
        r as int == min3_spec(a as int, b as int, c as int),
{
    if a <= b && a <= c {
        a
    } else if b <= c {
        b
    } else {
        c
    }
}

impl Element {
    /// Delivers one event to this element, given its committed layout, the
    /// absolute position `origin` of the surrounding coordinate system and
    /// the cursor position. Updates the state tree in place, appends any
    /// published messages to the shell and returns the merged outcome.
    pub fn on_event(
        &self,
        tree: &mut Tree,
        event: &Event,
        node: &Node,
        origin: Point,
        cursor: Point,
        shell: &mut Shell,
    ) -> (r: Status)
        ensures
            ({
                let out = on_event_spec(
                    *self,
                    tree_model(*old(tree)),
                    node_model(*node),
                    origin,
                    cursor,
                    *event,
                );
                &&& tree_model(*final(tree)) == out.tree
                &&& r == out.status
                &&& final(shell).messages@ == old(shell).messages@ + out.messages
                &&& final(shell).redraw == (old(shell).redraw || out.redraw)
            }),
        decreases *self, 2int,
    {
        match self {
            Element::Leaf(leaf) => {
                let abs = Rectangle {
                    x: sat_add(origin.x, node.bounds.x),
                    y: sat_add(origin.y, node.bounds.y),
                    width: node.bounds.width,
                    height: node.bounds.height,
                };
                if leaf.interactive && matches!(event, Event::PointerPressed) && abs.contains(
                    cursor,
                ) {
                    tree.state = sat_add64(tree.state, 1);
                    shell.publish(leaf.message);
                    shell.request_redraw();
                    proof {
                        assert(old(shell).messages@ + Seq::<u64>::empty().push(leaf.message)
                            =~= old(shell).messages@.push(leaf.message));
                    }
                    Status::Captured
                } else {
                    proof {
                        assert(old(shell).messages@ + Seq::<u64>::empty() =~= old(
                            shell,
                        ).messages@);
                    }
                    Status::Ignored
                }
            },
            Element::Column(c) => c.on_event(tree, event, node, origin, cursor, shell),
        }
    }
}

impl Column {
    /// Delivers one event to every child of this column, in order and
    /// without short-circuiting, and merges the outcomes with capture
    /// dominating.
    #[verifier::loop_isolation(false)]
    #[verifier::rlimit(60)]
    pub fn on_event(
        &self,
        tree: &mut Tree,
        event: &Event,
        node: &Node,
        origin: Point,
        cursor: Point,
        shell: &mut Shell,
    ) -> (r: Status)
        ensures
            ({
                let out = on_event_spec(
                    Element::Column(*self),
                    tree_model(*old(tree)),
                    node_model(*node),
                    origin,
                    cursor,
                    *event,
                );
                &&& tree_model(*final(tree)) == out.tree
                &&& r == out.status
                &&& final(shell).messages@ == old(shell).messages@ + out.messages
                &&& final(shell).redraw == (old(shell).redraw || out.redraw)
            }),
        decreases *self, 2int,
    {
        let inner = Point { x: sat_add(origin.x, node.bounds.x), y: sat_add(origin.y, node.bounds.y) };
        let m = min3(self.children.len(), tree.children.len(), node.children.len());
        let ghost ts = trees_model(old(tree).children, old(tree).children.len() as int);
        let ghost ns = nodes_model(node.children, node.children.len() as int);
        proof {
            lemma_trees_model_index(old(tree).children, old(tree).children.len() as int);
            lemma_nodes_model_index(node.children, node.children.len() as int);
        }
        let mut status = Status::Ignored;
        let mut i: usize = 0;
        while i < m
            invariant
                i <= m,
                m as int == min3_spec(
                    self.children@.len() as int,
                    ts.len() as int,
                    ns.len() as int,
                ),
                tree.children@.len() == old(tree).children@.len(),
                tree.tag == old(tree).tag,
                tree.state == old(tree).state,
                ts.len() == old(tree).children@.len(),
                ns.len() == node.children@.len(),
                forall|j: int| 0 <= j < ns.len() ==> ns[j] == node_model(node.children@[j]),
                status == on_event_children_spec(
                    self.children,
                    ts,
                    ns,
                    inner,
                    cursor,
                    *event,
                    i as int,
                ).status,
                shell.messages@ == old(shell).messages@ + on_event_children_spec(
                    self.children,
                    ts,
                    ns,
                    inner,
                    cursor,
                    *event,
                    i as int,
                ).messages,
                shell.redraw == (old(shell).redraw || on_event_children_spec(
                    self.children,
                    ts,
                    ns,
                    inner,
                    cursor,
                    *event,
                    i as int,
                ).redraw),
                forall|j: int|
                    0 <= j < i ==> tree_model(tree.children@[j]) == on_event_children_spec(
                        self.children,
                        ts,
                        ns,
                        inner,
                        cursor,
                        *event,
                        i as int,
                    ).trees[j],
                forall|j: int|
                    i <= j < ts.len() ==> tree.children@[j] == old(tree).children@[j],
            decreases m - i,
        {
            let ghost prev = on_event_children_spec(self.children, ts, ns, inner, cursor, *event, i as int);
            let ghost pre_shell = shell.messages@;
            proof {
                lemma_on_event_children_index(self.children, ts, ns, inner, cursor, *event, i as int);
            }
            let slot = vstd::std_specs::vec::vec_index_mut(&mut tree.children, i);
            let sub = self.children[i].on_event(slot, event, &node.children[i], inner, cursor, shell);
            status = status.merge(sub);
            i = i + 1;
            proof {
                let idx = i - 1;
                let next = on_event_children_spec(
                    self.children,
                    ts,
                    ns,
                    inner,
                    cursor,
                    *event,
                    i as int,
                );
                let subout = on_event_spec(self.children[idx], ts[idx], ns[idx], inner, cursor, *event);
                assert(next.trees == prev.trees.update(idx, subout.tree));
                assert(next.messages == prev.messages + subout.messages);
                assert(shell.messages@ == (old(shell).messages@ + prev.messages) + subout.messages);
                assert((old(shell).messages@ + prev.messages) + subout.messages =~= old(
                    shell,
                ).messages@ + (prev.messages + subout.messages));
            }
        }
        proof {
            let f = on_event_children_spec(self.children, ts, ns, inner, cursor, *event, m as int);
            lemma_on_event_children_index(self.children, ts, ns, inner, cursor, *event, m as int);
            lemma_trees_model_index(tree.children, tree.children.len() as int);
            assert(trees_model(tree.children, tree.children.len() as int) =~= f.trees);
        }
        status
    }
}

} // verus!
