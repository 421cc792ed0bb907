//! The draw pass: walking the widget, state and layout trees in lockstep and
//! appending drawing primitives to a frame, in tree order. The frame is a
//! plain ordered collector; turning primitives into pixels is the excluded
//! rendering backend's business.

use vstd::prelude::*;
use crate::geometry::{Point, Rectangle, sat_add, sat_add_spec};
use crate::node::{Node, NodeModel, node_model, nodes_model, lemma_nodes_model_index};
use crate::tree::{Tree, TreeModel, tree_model, trees_model, lemma_trees_model_index};
use crate::widget::Element;
use crate::column::Column;
use crate::event::{min3, min3_spec, abs_bounds_spec};

verus! {

/// One drawing command: an axis-aligned quad in absolute coordinates.
#[derive(Clone, Copy, Debug, PartialEq, Eq, Structural)]
pub struct Primitive {
    /// The absolute bounds the quad covers.
    pub bounds: Rectangle,
}

/// An append-only stream of drawing primitives, consumed by the rendering
/// backend after the pass.
pub struct Frame {
    /// The primitives emitted so far, in draw order.
    pub primitives: Vec<Primitive>,
}

impl Frame {
    /// An empty frame.
    pub fn new() -> (r: Frame)
        ensures
            r.primitives@ == Seq::<Primitive>::empty(),
    {
        Frame { primitives: Vec::new() }
    }

    /// Appends one primitive.
    pub fn draw_primitive(&mut self, p: Primitive)
        ensures
            final(self).primitives@ == old(self).primitives@.push(p),
    {
        self.primitives.push(p);
    }
}

/// The primitives an element emits when drawn at `origin`: a leaf emits one
/// quad over its absolute bounds; a container draws its children in order,
/// zipped with their state and layout by position.
pub open spec fn draw_spec(e: Element, t: TreeModel, nm: NodeModel, origin: Point) -> Seq<Primitive>
    decreases e, 2int,
{
    match e {
        Element::Leaf(_) => Seq::empty().push(Primitive { bounds: abs_bounds_spec(nm, origin) }),
        Element::Column(c) => {
            let inner = Point {
                x: sat_add_spec(origin.x, nm.bounds.x),
                y: sat_add_spec(origin.y, nm.bounds.y),
            };
            let m = min3_spec(c.children.len() as int, t.children.len() as int, nm.children.len() as int);
            draw_children_spec(c.children, t.children, nm.children, inner, m)
        },
    }
}

/// The primitives of the first `k` children, concatenated in order.
pub open spec fn draw_children_spec(
    v: Vec<Element>,
    ts: Seq<TreeModel>,
    ns: Seq<NodeModel>,
    origin: Point,
    k: int,
) -> Seq<Primitive>
    decreases v, k,
{
    if k <= 0 || k > v.len() || k > ts.len() || k > ns.len() {
        Seq::empty()
    } else {
        draw_children_spec(v, ts, ns, origin, k - 1) + draw_spec(v[k - 1], ts[k - 1], ns[k - 1], origin)
    }
}

impl Element {
    /// Draws this element at `origin` by appending its primitives to the
    /// frame, children after their container, siblings in order.
    pub fn draw(&self, tree: &Tree, node: &Node, origin: Point, frame: &mut Frame)
        ensures
            final(frame).primitives@ == old(frame).primitives@ + draw_spec(
                *self,
                tree_model(*tree),
                node_model(*node),
                origin,
            ),
        decreases *self, 2int,
    {
        match self {
            Element::Leaf(_) => {
                let abs = Rectangle {
                    x: sat_add(origin.x, node.bounds.x),
                    y: sat_add(origin.y, node.bounds.y),
                    width: node.bounds.width,
                    height: node.bounds.height,
                };
                frame.draw_primitive(Primitive { bounds: abs });
                proof {
                    assert(old(frame).primitives@ + Seq::<Primitive>::empty().push(
                        Primitive { bounds: abs },
                    ) =~= old(frame).primitives@.push(Primitive { bounds: abs }));
                }
            },
            Element::Column(c) => c.draw(tree, node, origin, frame),
        }
    }
}

impl Column {
    /// Draws every child of this column in order, each zipped with its state
    /// and its layout node by position.
    #[verifier::loop_isolation(false)]
    pub fn draw(&self, tree: &Tree, node: &Node, origin: Point, frame: &mut Frame)
        ensures
            final(frame).primitives@ == old(frame).primitives@ + draw_spec(
                Element::Column(*self),
                tree_model(*tree),
                node_model(*node),
                origin,
            ),
        decreases *self, 2int,
    {
        let inner = Point { x: sat_add(origin.x, node.bounds.x), y: sat_add(origin.y, node.bounds.y) };
        let m = min3(self.children.len(), tree.children.len(), node.children.len());
        let ghost ts = trees_model(tree.children, tree.children.len() as int);
        let ghost ns = nodes_model(node.children, node.children.len() as int);
        proof {
            lemma_trees_model_index(tree.children, tree.children.len() as int);
            lemma_nodes_model_index(node.children, node.children.len() as int);
        }
        let mut i: usize = 0;
        while i < m
            invariant
                i <= m,
                m as int == min3_spec(self.children@.len() as int, ts.len() as int, ns.len() as int),
                ts.len() == tree.children@.len(),
                ns.len() == node.children@.len(),
                forall|j: int| 0 <= j < ts.len() ==> ts[j] == tree_model(tree.children@[j]),
                forall|j: int| 0 <= j < ns.len() ==> ns[j] == node_model(node.children@[j]),
                frame.primitives@ == old(frame).primitives@ + draw_children_spec(
                    self.children,
                    ts,
                    ns,
                    inner,
                    i as int,
                ),
            decreases m - i,
        {
            let ghost prev = draw_children_spec(self.children, ts, ns, inner, i as int);
            self.children[i].draw(&tree.children[i], &node.children[i], inner, frame);
            i = i + 1;
            proof {
                let idx = i - 1;
                let sub = draw_spec(self.children[idx], ts[idx], ns[idx], inner);
                assert((old(frame).primitives@ + prev) + sub =~= old(frame).primitives@ + (prev
                    + sub));
            }
        }
    }
}

} // verus!
