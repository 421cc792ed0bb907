//! A container that distributes its contents vertically.

use vstd::prelude::*;
use crate::geometry::{Size, Padding, Alignment, Length, Axis};
use crate::limits::{Limits, limits_wf};
use crate::node::{Node, node_model};
use crate::widget::{Element, column_limits_spec, measure_spec, layout_spec};
use crate::flex;

verus! {

/// A container that lays its children out on the vertical axis, delegating
/// all sizing to the flex resolver.
pub struct Column {
    /// The vertical gap between consecutive children.
    pub spacing: u32,
    /// The inset around the children.
    pub padding: Padding,
    /// How the column occupies horizontal space.
    pub width: Length,
    /// How the column occupies vertical space.
    pub height: Length,
    /// An upper bound on the column's width.
    pub max_width: u32,
    /// Horizontal alignment of the children.
    pub align_items: Alignment,
    /// The children, in layout, event and draw order.
    pub children: Vec<Element>,
}

impl Column {
    /// Creates an empty column.
    pub fn new() -> (r: Column)
        ensures
            r.spacing == 0u32,
            r.padding == (Padding { top: 0u32, right: 0u32, bottom: 0u32, left: 0u32 }),
            r.width == Length::Shrink,
            r.height == Length::Shrink,
            r.max_width == u32::MAX,
            r.align_items == Alignment::Start,
            r.children@ == Seq::<Element>::empty(),
    {
        Self::with_children(Vec::new())
    }

    /// Creates a column with the given children.
    pub fn with_children(children: Vec<Element>) -> (r: Column)
        ensures
            r.spacing == 0u32,
            r.padding == (Padding { top: 0u32, right: 0u32, bottom: 0u32, left: 0u32 }),
            r.width == Length::Shrink,
            r.height == Length::Shrink,
            r.max_width == u32::MAX,
            r.align_items == Alignment::Start,
            r.children == children,
    {
        Column {
            spacing: 0,
            padding: Padding::zero(),
            width: Length::Shrink,
            height: Length::Shrink,
            max_width: u32::MAX,
            align_items: Alignment::Start,
            children,
        }
    }

    /// Sets the vertical spacing between elements.
    pub fn spacing(self, amount: u32) -> (r: Column)
        ensures
            r == (Column { spacing: amount, ..self }),
    {
        Column { spacing: amount, ..self }
    }

    /// Sets the padding around the children.
    pub fn padding(self, padding: Padding) -> (r: Column)
        ensures
            r == (Column { padding, ..self }),
    {
        Column { padding, ..self }
    }

    /// Sets the width policy.
    pub fn width(self, width: Length) -> (r: Column)
        ensures
            r == (Column { width, ..self }),
    {
        Column { width, ..self }
    }

    /// Sets the height policy.
    pub fn height(self, height: Length) -> (r: Column)
        ensures
            r == (Column { height, ..self }),
    {
        Column { height, ..self }
    }

    /// Sets the maximum width.
    pub fn max_width(self, max_width: u32) -> (r: Column)
        ensures
            r == (Column { max_width, ..self }),
    {
        Column { max_width, ..self }
    }

    /// Sets the horizontal alignment of the children.
    pub fn align_items(self, align: Alignment) -> (r: Column)
        ensures
            r == (Column { align_items: align, ..self }),
    {
        Column { align_items: align, ..self }
    }

    /// Appends an element.
    pub fn push(self, child: Element) -> (r: Column)
        ensures
            r.children@ == self.children@.push(child),
            r.spacing == self.spacing,
            r.padding == self.padding,
            r.width == self.width,
            r.height == self.height,
            r.max_width == self.max_width,
            r.align_items == self.align_items,
    {
        let mut c = self;
        c.children.push(child);
        c
    }

    /// Reports the intrinsic size of this column under `limits` by running
    /// the flex resolver in measuring mode.
    pub fn measure(&self, limits: &Limits) -> (r: Size)
        requires
            limits_wf(*limits),
        ensures
            r == measure_spec(Element::Column(*self), *limits),
        decreases *self, 2int,
    {
        let narrowed = limits.max_width(self.max_width).width(self.width).height(self.height);
        let node = flex::resolve(
            Axis::Vertical,
            &narrowed,
            self.padding,
            self.spacing,
            self.align_items,
            &self.children,
            flex::LayoutMode::MeasureSize,
        );
        node.size()
    }

    /// Produces the committed node tree of this column under `limits` by
    /// running the flex resolver in layout mode.
    pub fn layout(&self, limits: &Limits) -> (r: Node)
        requires
            limits_wf(*limits),
        ensures
            node_model(r) == layout_spec(Element::Column(*self), *limits),
        decreases *self, 2int,
    {
        let narrowed = limits.max_width(self.max_width).width(self.width).height(self.height);
        flex::resolve(
            Axis::Vertical,
            &narrowed,
            self.padding,
            self.spacing,
            self.align_items,
            &self.children,
            flex::LayoutMode::PerformLayout,
        )
    }
}

impl Default for Column {
    /// An empty column.
    fn default() -> (r: Column)
        ensures
            r.spacing == 0u32,
            r.padding == (Padding { top: 0u32, right: 0u32, bottom: 0u32, left: 0u32 }),
            r.width == Length::Shrink,
            r.height == Length::Shrink,
            r.max_width == u32::MAX,
            r.align_items == Alignment::Start,
            r.children@ == Seq::<Element>::empty(),
    {
        Column::new()
    }
}

} // verus!
