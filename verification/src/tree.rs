//! The state tree: cross-frame persistent per-node state, shadowing the
//! widget tree by structural position. Before every pass it is reconciled
//! against the current widget tree: nodes of a different kind are reset,
//! trailing excess is discarded, missing entries are default-initialized,
//! and matched nodes keep their state.

use vstd::prelude::*;
use crate::widget::Element;
use crate::column::Column;

verus! {

/// The kind of widget a state node belongs to; state is matched by kind and
/// position, not by identity.
#[derive(Clone, Copy, Debug, PartialEq, Eq, Structural)]
pub enum Tag {
    /// State of a leaf widget.
    Leaf,
    /// State of a column container.
    Column,
}

/// One node of the state tree.
pub struct Tree {
    /// The kind of widget this state belongs to.
    pub tag: Tag,
    /// The widget's persistent state: bumped by captured events, written by
    /// focus-seeking operations.
    pub state: u64,
    /// State of the widget's children, in the same order.
    pub children: Vec<Tree>,
}

/// The mathematical model of a state tree.
#[verifier::ext_equal]
pub ghost struct TreeModel {
    pub tag: Tag,
    pub state: u64,
    pub children: Seq<TreeModel>,
}

/// The model of a state node.
pub open spec fn tree_model(t: Tree) -> TreeModel
    decreases t, 1int,
{
    TreeModel { tag: t.tag, state: t.state, children: trees_model(t.children, t.children.len() as int) }
}

/// The models of the first `k` state nodes of `v`, in order.
pub open spec fn trees_model(v: Vec<Tree>, k: int) -> Seq<TreeModel>
    decreases v, k,
{
    if k <= 0 || k > v.len() {
        Seq::empty()
    } else {
        trees_model(v, k - 1).push(tree_model(v[k - 1]))
    }
}

/// `trees_model` over a prefix has that prefix's length and models the
/// corresponding nodes.
pub proof fn lemma_trees_model_index(v: Vec<Tree>, k: int)
    requires
        0 <= k <= v.len(),
    ensures
        trees_model(v, k).len() == k,
        forall|i: int| 0 <= i < k ==> trees_model(v, k)[i] == tree_model(v[i]),
    decreases k,
{
    if k > 0 {
        lemma_trees_model_index(v, k - 1);
    }
}

/// The kind of an element, for state matching.
pub open spec fn element_tag_spec(e: Element) -> Tag {
    match e {
        Element::Leaf(_) => Tag::Leaf,
        Element::Column(_) => Tag::Column,
    }
}

/// The default state subtree of an element: zero state, one node per widget
/// node, same shape.
pub open spec fn fresh_tree_spec(e: Element) -> TreeModel
    decreases e, 1int,
{
    match e {
        Element::Leaf(_) => TreeModel { tag: Tag::Leaf, state: 0u64, children: Seq::empty() },
        Element::Column(c) => TreeModel {
            tag: Tag::Column,
            state: 0u64,
            children: fresh_children_spec(c.children, c.children.len() as int),
        },
    }
}

/// The default state subtrees of the first `k` elements of `v`.
pub open spec fn fresh_children_spec(v: Vec<Element>, k: int) -> Seq<TreeModel>
    decreases v, k,
{
    if k <= 0 || k > v.len() {
        Seq::empty()
    } else {
        fresh_children_spec(v, k - 1).push(fresh_tree_spec(v[k - 1]))
    }
}

/// Shape of the default state subtrees.
pub proof fn lemma_fresh_children_index(v: Vec<Element>, k: int)
    requires
        0 <= k <= v.len(),
    ensures
        fresh_children_spec(v, k).len() == k,
        forall|i: int| 0 <= i < k ==> fresh_children_spec(v, k)[i] == fresh_tree_spec(v[i]),
    decreases k,
{
    if k > 0 {
        lemma_fresh_children_index(v, k - 1);
    }
}

/// Reconciliation of prior state against the current widget tree: a node of
/// matching kind keeps its state and reconciles its children positionally —
/// trailing excess discarded, missing entries default-initialized; a node of
/// a different kind is replaced by the default subtree.
pub open spec fn diff_spec(e: Element, t: TreeModel) -> TreeModel
    decreases e, 2int,
{
    if element_tag_spec(e) == t.tag {
        match e {
            Element::Leaf(_) => TreeModel { tag: t.tag, state: t.state, children: Seq::empty() },
            Element::Column(c) => TreeModel {
                tag: t.tag,
                state: t.state,
                children: diff_children_spec(c.children, t.children, c.children.len() as int),
            },
        }
    } else {
        fresh_tree_spec(e)
    }
}

/// Positional reconciliation of the first `k` children: a child with prior
/// state at its position reconciles against it, one without gets the
/// default subtree.
pub open spec fn diff_children_spec(v: Vec<Element>, old_children: Seq<TreeModel>, k: int) -> Seq<
    TreeModel,
>
    decreases v, k,
{
    if k <= 0 || k > v.len() {
        Seq::empty()
    } else {
        let sub = if k - 1 < old_children.len() {
            diff_spec(v[k - 1], old_children[k - 1])
        } else {
            fresh_tree_spec(v[k - 1])
        };
        diff_children_spec(v, old_children, k - 1).push(sub)
    }
}

/// Shape of positional reconciliation: one state node per widget child, each
/// reconciled against the prior state at its position if there was one.
pub proof fn lemma_diff_children_index(v: Vec<Element>, old_children: Seq<TreeModel>, k: int)
    requires
        0 <= k <= v.len(),
    ensures
        diff_children_spec(v, old_children, k).len() == k,
        forall|i: int|
            0 <= i < k && i < old_children.len() ==> diff_children_spec(v, old_children, k)[i]
                == diff_spec(v[i], old_children[i]),
        forall|i: int|
            old_children.len() <= i < k ==> diff_children_spec(v, old_children, k)[i]
                == fresh_tree_spec(v[i]),
    decreases k,
{
    if k > 0 {
        lemma_diff_children_index(v, old_children, k - 1);
    }
}

impl Tree {
    /// The default state tree of an element.
    pub fn new(e: &Element) -> (r: Tree)
        ensures
            tree_model(r) == fresh_tree_spec(*e),
        decreases *e, 1int,
    {
        match e {
            Element::Leaf(_) => Tree { tag: Tag::Leaf, state: 0, children: Vec::new() },
            Element::Column(c) => Tree { tag: Tag::Column, state: 0, children: c.children_trees() },
        }
    }

    /// An empty state tree for a column, ready to be reconciled.
    pub fn empty() -> (r: Tree)
        ensures
            tree_model(r) == (TreeModel { tag: Tag::Column, state: 0u64, children: Seq::<TreeModel>::empty() }),
    {
        Tree { tag: Tag::Column, state: 0, children: Vec::new() }
    }

    /// Reconciles this node's children against the given widget children:
    /// truncates trailing excess, reconciles matched positions in place and
    /// default-initializes missing entries. The node's own kind and state
    /// are untouched.
    #[verifier::loop_isolation(false)]
    pub fn diff_children(&mut self, children: &Vec<Element>)
        ensures
            final(self).tag == old(self).tag,
            final(self).state == old(self).state,
            trees_model(final(self).children, final(self).children.len() as int)
                == diff_children_spec(
                *children,
                trees_model(old(self).children, old(self).children.len() as int),
                children@.len() as int,
            ),
        decreases *children, 3int,
    {
        let n = children.len();
        let ghost old_models = trees_model(self.children, self.children.len() as int);
        proof {
            lemma_trees_model_index(self.children, self.children.len() as int);
        }
        if self.children.len() > n {
            self.children.truncate(n);
        }
        let keep = self.children.len();
        proof {
            lemma_diff_children_index(*children, old_models, n as int);
            assert(forall|j: int|
                0 <= j < keep ==> self.children@[j] == old(self).children@[j]);
        }
        let mut i: usize = 0;
        while i < keep
            invariant
                i <= keep,
                keep <= n,
                n == children@.len(),
                keep <= old(self).children@.len(),
                keep == self.children@.len(),
                old_models.len() == old(self).children@.len(),
                self.tag == old(self).tag,
                self.state == old(self).state,
                forall|j: int| 0 <= j < keep ==> old_models[j] == tree_model(old(self).children@[j]),
                forall|j: int|
                    i <= j < keep ==> self.children@[j] == old(self).children@[j],
                forall|j: int|
                    0 <= j < i ==> tree_model(self.children@[j]) == diff_spec(
                        (*children)[j],
                        old_models[j],
                    ),
            decreases keep - i,
        {
            let slot = vstd::std_specs::vec::vec_index_mut(&mut self.children, i);
            children[i].diff(slot);
            i = i + 1;
        }
        while self.children.len() < n
            invariant
                keep <= self.children@.len() <= n,
                n == children@.len(),
                self.tag == old(self).tag,
                self.state == old(self).state,
                old_models.len() == old(self).children@.len(),
                keep <= old_models.len(),
                forall|j: int|
                    0 <= j < keep ==> tree_model(self.children@[j]) == diff_spec(
                        (*children)[j],
                        old_models[j],
                    ),
                forall|j: int|
                    keep <= j < self.children@.len() ==> tree_model(self.children@[j])
                        == fresh_tree_spec((*children)[j]),
            decreases n - self.children@.len(),
        {
            let idx = self.children.len();
            self.children.push(Tree::new(&children[idx]));
        }
        proof {
            lemma_trees_model_index(self.children, self.children.len() as int);
            lemma_diff_children_index(*children, old_models, n as int);
            assert(trees_model(self.children, self.children.len() as int) =~= diff_children_spec(
                *children,
                old_models,
                n as int,
            ));
        }
    }
}

impl Column {
    /// The default state subtrees of this column's children.
    #[verifier::loop_isolation(false)]
    pub fn children_trees(&self) -> (r: Vec<Tree>)
        ensures
            trees_model(r, r.len() as int) == fresh_children_spec(
                self.children,
                self.children@.len() as int,
            ),
            r@.len() == self.children@.len(),
        decreases *self, 1int,
    {
        let mut out: Vec<Tree> = Vec::new();
        let n = self.children.len();
        let mut i: usize = 0;
        while i < n
            invariant
                i <= n,
                n == self.children@.len(),
                out@.len() == i,
                forall|j: int|
                    0 <= j < i ==> tree_model(out@[j]) == fresh_tree_spec(self.children@[j]),
            decreases n - i,
        {
            out.push(Tree::new(&self.children[i]));
            i = i + 1;
        }
        proof {
            lemma_trees_model_index(out, out.len() as int);
            lemma_fresh_children_index(self.children, n as int);
            assert(trees_model(out, out.len() as int) =~= fresh_children_spec(
                self.children,
                n as int,
            ));
        }
        out
    }

    /// The default state subtrees of this column's children, one per child.
    pub fn children(&self) -> (r: Vec<Tree>)
        ensures
            trees_model(r, r.len() as int) == fresh_children_spec(
                self.children,
                self.children@.len() as int,
            ),
            r@.len() == self.children@.len(),
    {
        self.children_trees()
    }

    /// Reconciles a state tree against this column.
    pub fn diff(&self, tree: &mut Tree)
        ensures
            tree_model(*final(tree)) == diff_spec(Element::Column(*self), tree_model(*old(tree))),
        decreases *self, 2int,
    {
        if matches!(tree.tag, Tag::Column) {
            tree.diff_children(&self.children);
            proof {
                lemma_trees_model_index(old(tree).children, old(tree).children.len() as int);
            }
        } else {
            *tree = Tree { tag: Tag::Column, state: 0, children: self.children_trees() };
        }
    }
}

impl Element {
    /// Reconciles a state tree against this element: a tree of the same
    /// kind keeps its state and reconciles its children, a tree of a
    /// different kind is replaced by the default subtree.
    pub fn diff(&self, tree: &mut Tree)
        ensures
            tree_model(*final(tree)) == diff_spec(*self, tree_model(*old(tree))),
        decreases *self, 2int,
    {
        match self {
            Element::Leaf(_) => {
                if matches!(tree.tag, Tag::Leaf) {
                    tree.children.truncate(0);
                } else {
                    *tree = Tree { tag: Tag::Leaf, state: 0, children: Vec::new() };
                }
            },
            Element::Column(c) => c.diff(tree),
        }
    }
}

} // verus!
