//! A retained-mode widget and layout library: a vertical/horizontal flex
//! resolver over integer pixel coordinates, together with the widget
//! composition protocol (layout, state-tree diffing, event routing and
//! primitive emission) that containers and leaves implement.

pub mod geometry;
pub mod limits;
pub mod node;
pub mod widget;
pub mod column;
pub mod flex;
pub mod tree;
pub mod event;
pub mod render;
pub mod interact;
pub mod laws;
