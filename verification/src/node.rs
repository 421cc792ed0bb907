//! The result of one layout pass: a tree of positioned, sized rectangles.
//! A node is built once per pass and read-only afterwards.

use vstd::prelude::*;
use crate::geometry::{Size, Point, Rectangle};

verus! {

/// One node of a layout tree: a rectangle positioned relative to its parent,
/// plus the laid-out children.
pub struct Node {
    pub bounds: Rectangle,
    pub children: Vec<Node>,
}

/// The mathematical model of a layout node: the same tree with sequence
/// children.
#[verifier::ext_equal]
pub ghost struct NodeModel {
    pub bounds: Rectangle,
    pub children: Seq<NodeModel>,
}

/// The model of a layout node.
pub open spec fn node_model(n: Node) -> NodeModel
    decreases n, 1int,
{
    NodeModel { bounds: n.bounds, children: nodes_model(n.children, n.children.len() as int) }
}

/// The models of the first `k` nodes of `v`, in order.
pub open spec fn nodes_model(v: Vec<Node>, k: int) -> Seq<NodeModel>
    decreases v, k,
{
    if k <= 0 || k > v.len() {
        Seq::empty()
    } else {
        nodes_model(v, k - 1).push(node_model(v[k - 1]))
    }
}

/// `nodes_model` taken over a prefix has that prefix's length, and its
/// entries are the models of the corresponding nodes.
pub proof fn lemma_nodes_model_index(v: Vec<Node>, k: int)
    requires
        0 <= k <= v.len(),
    ensures
        nodes_model(v, k).len() == k,
        forall|i: int| 0 <= i < k ==> nodes_model(v, k)[i] == node_model(v[i]),
    decreases k,
{
    if k > 0 {
        lemma_nodes_model_index(v, k - 1);
    }
}

impl Node {
    /// A childless node of the given size, positioned at the origin.
    pub fn from_size(size: Size) -> (r: Node)
        ensures
            node_model(r) == (NodeModel {
                bounds: Rectangle { x: 0u32, y: 0u32, width: size.width, height: size.height },
                children: Seq::<NodeModel>::empty(),
            }),
    {
        Node { bounds: Rectangle { x: 0, y: 0, width: size.width, height: size.height }, children: Vec::new() }
    }

    /// A node of the given size owning already laid-out children, positioned
    /// at the origin.
    pub fn with_children(size: Size, children: Vec<Node>) -> (r: Node)
        ensures
            r.children == children,
            r.bounds == (Rectangle { x: 0u32, y: 0u32, width: size.width, height: size.height }),
            node_model(r) == (NodeModel {
                bounds: Rectangle { x: 0u32, y: 0u32, width: size.width, height: size.height },
                children: nodes_model(children, children.len() as int),
            }),
    {
        Node { bounds: Rectangle { x: 0, y: 0, width: size.width, height: size.height }, children }
    }

    /// This node, repositioned at `position` (children keep their positions
    /// relative to it).
    pub fn move_to(self, position: Point) -> (r: Node)
        ensures
            node_model(r) == (NodeModel {
                bounds: Rectangle {
                    x: position.x,
                    y: position.y,
                    width: self.bounds.width,
                    height: self.bounds.height,
                },
                children: node_model(self).children,
            }),
    {
        Node {
            bounds: Rectangle {
                x: position.x,
                y: position.y,
                width: self.bounds.width,
                height: self.bounds.height,
            },
            children: self.children,
        }
    }

    /// The extent of this node.
    pub fn size(&self) -> (r: Size)
        ensures
            r == (Size { width: self.bounds.width, height: self.bounds.height }),
    {
        Size { width: self.bounds.width, height: self.bounds.height }
    }
}

} // verus!
