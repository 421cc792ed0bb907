//! The widget tree and the composition protocol's sizing operations.
//!
//! The widget catalog is a closed set of tagged variants: a leaf (standing
//! for any content of known intrinsic size) and a vertical container. A tree
//! of them is a value description built fresh each frame; laying one out
//! under a limits window produces a node tree.

use vstd::prelude::*;
use crate::geometry::Size;
use crate::geometry::Rectangle;
use crate::geometry::Length;
use crate::geometry::Axis;
use crate::limits::{
    Limits, limits_wf, limits_width_spec, limits_height_spec, limits_max_width_spec,
    limits_resolve_spec,
};
use crate::node::{Node, NodeModel, node_model};
use crate::column::Column;
use crate::flex;

verus! {

/// A leaf widget: content with an intrinsic size and per-axis length
/// policies. It stands in for text, images and custom-drawn content, whose
/// internals are outside this library's scope.
pub struct Leaf {
    /// How the leaf occupies horizontal space.
    pub width: Length,
    /// How the leaf occupies vertical space.
    pub height: Length,
    /// The natural size of the content, used when a policy shrinks.
    pub intrinsic: Size,
    /// Whether the leaf captures pointer events within its bounds.
    pub interactive: bool,
    /// The application message published when the leaf captures an event.
    pub message: u64,
    /// Whether the leaf offers floating content above the normal tree.
    pub floating: bool,
}

impl Leaf {
    /// A non-interactive leaf of the given policies and intrinsic size.
    pub fn new(width: Length, height: Length, intrinsic: Size) -> (r: Leaf)
        ensures
            r == (Leaf { width, height, intrinsic, interactive: false, message: 0u64, floating: false }),
    {
        Leaf { width, height, intrinsic, interactive: false, message: 0, floating: false }
    }

    /// A leaf that captures pointer presses within its bounds and publishes
    /// `message` when it does.
    pub fn interactive(width: Length, height: Length, intrinsic: Size, message: u64) -> (r: Leaf)
        ensures
            r == (Leaf { width, height, intrinsic, interactive: true, message, floating: false }),
    {
        Leaf { width, height, intrinsic, interactive: true, message, floating: false }
    }
}

/// One node of the widget tree.
pub enum Element {
    /// A leaf widget.
    Leaf(Leaf),
    /// A vertical container of further elements.
    Column(Column),
}

/// The width policy an element reports.
pub open spec fn element_width_spec(e: Element) -> Length {
    match e {
        Element::Leaf(leaf) => leaf.width,
        Element::Column(c) => c.width,
    }
}

/// The height policy an element reports.
pub open spec fn element_height_spec(e: Element) -> Length {
    match e {
        Element::Leaf(leaf) => leaf.height,
        Element::Column(c) => c.height,
    }
}

/// The policy an element reports for the given axis.
pub open spec fn main_policy_spec(axis: Axis, e: Element) -> Length {
    match axis {
        Axis::Horizontal => element_width_spec(e),
        Axis::Vertical => element_height_spec(e),
    }
}

/// The limits a column narrows its incoming window to: first the maximum
/// width bound, then the width and height policies.
pub open spec fn column_limits_spec(c: Column, l: Limits) -> Limits {
    limits_height_spec(limits_width_spec(limits_max_width_spec(l, c.max_width), c.width), c.height)
}

/// The intrinsic size of an element under a limits window: a leaf resolves
/// its policies and content size against the window; a column delegates to
/// the flex resolver in measuring mode.
pub open spec fn measure_spec(e: Element, l: Limits) -> Size
    decreases e, 3int,
{
    match e {
        Element::Leaf(leaf) => {
            let nl = limits_height_spec(limits_width_spec(l, leaf.width), leaf.height);
            limits_resolve_spec(nl, leaf.width, leaf.height, leaf.intrinsic)
        },
        Element::Column(c) => {
            let nm = flex::resolve_spec(
                Axis::Vertical,
                column_limits_spec(c, l),
                c.padding,
                c.spacing,
                c.align_items,
                c.children,
                flex::LayoutMode::MeasureSize,
            );
            Size { width: nm.bounds.width, height: nm.bounds.height }
        },
    }
}

/// The node tree an element commits to under a limits window: a leaf is a
/// childless node of its resolved size; a column delegates to the flex
/// resolver in layout mode.
pub open spec fn layout_spec(e: Element, l: Limits) -> NodeModel
    decreases e, 3int,
{
    match e {
        Element::Leaf(leaf) => {
            let nl = limits_height_spec(limits_width_spec(l, leaf.width), leaf.height);
            let s = limits_resolve_spec(nl, leaf.width, leaf.height, leaf.intrinsic);
            NodeModel {
                bounds: Rectangle { x: 0u32, y: 0u32, width: s.width, height: s.height },
                children: Seq::<NodeModel>::empty(),
            }
        },
        Element::Column(c) => flex::resolve_spec(
            Axis::Vertical,
            column_limits_spec(c, l),
            c.padding,
            c.spacing,
            c.align_items,
            c.children,
            flex::LayoutMode::PerformLayout,
        ),
    }
}

impl Element {
    /// The width policy of this element.
    pub fn width(&self) -> (r: Length)
        ensures
            r == element_width_spec(*self),
    {
        match self {
            Element::Leaf(leaf) => leaf.width,
            Element::Column(c) => c.width,
        }
    }

    /// The height policy of this element.
    pub fn height(&self) -> (r: Length)
        ensures
            r == element_height_spec(*self),
    {
        match self {
            Element::Leaf(leaf) => leaf.height,
            Element::Column(c) => c.height,
        }
    }

    /// The policy of this element along the given axis.
    pub fn main_policy(&self, axis: Axis) -> (r: Length)
        ensures
            r == main_policy_spec(axis, *self),
    {
        match axis {
            Axis::Horizontal => self.width(),
            Axis::Vertical => self.height(),
        }
    }

    /// Reports the intrinsic size of this element under `limits`, without
    /// committing to a layout.
    pub fn measure(&self, limits: &Limits) -> (r: Size)
        requires
            limits_wf(*limits),
        ensures
            r == measure_spec(*self, *limits),
        decreases *self, 3int,
    {
        match self {
            Element::Leaf(leaf) => {
                let nl = limits.width(leaf.width).height(leaf.height);
                nl.resolve(leaf.width, leaf.height, leaf.intrinsic)
            },
            Element::Column(c) => c.measure(limits),
        }
    }

    /// Produces the committed node tree of this element under `limits`.
    pub fn layout(&self, limits: &Limits) -> (r: Node)
        requires
            limits_wf(*limits),
        ensures
            node_model(r) == layout_spec(*self, *limits),
        decreases *self, 3int,
    {
        match self {
            Element::Leaf(leaf) => {
                let nl = limits.width(leaf.width).height(leaf.height);
                Node::from_size(nl.resolve(leaf.width, leaf.height, leaf.intrinsic))
            },
            Element::Column(c) => c.layout(limits),
        }
    }
}

impl From<Column> for Element {
    /// Wraps a column as a tree node.
    fn from(column: Column) -> (r: Element) {
        Element::Column(column)
    }
}

impl vstd::std_specs::convert::FromSpecImpl<Column> for Element {
    open spec fn obeys_from_spec() -> bool {
        true
    }

    open spec fn from_spec(column: Column) -> Element {
        Element::Column(column)
    }
}

} // verus!
