//! Geometry primitives: sizes, points, rectangles, padding, alignment and
//! length policies, all over integer pixel coordinates.
//!
//! Arithmetic on pixel quantities saturates: additions cap at `u32::MAX`
//! (which plays the role of an unbounded extent) and subtractions floor at
//! zero, so every operation is total and a pixel value is always a valid
//! extent.

use vstd::prelude::*;

verus! {

/// The saturating sum of two pixel quantities.
pub open spec fn sat_add_spec(a: u32, b: u32) -> u32 {
    if a + b > u32::MAX {
        u32::MAX
    } else {
        (a + b) as u32
    }
}

/// The saturating difference of two pixel quantities (floored at zero).
pub open spec fn sat_sub_spec(a: u32, b: u32) -> u32 {
    if a < b {
        0u32
    } else {
        (a - b) as u32
    }
}

/// `v` clamped into the interval `[lo, hi]` (for `lo <= hi`).
pub open spec fn clamp_spec(v: u32, lo: u32, hi: u32) -> u32 {
    if v < lo {
        lo
    } else if v > hi {
        hi
    } else {
        v
    }
}

/// The larger of two pixel quantities.
pub open spec fn max_spec(a: u32, b: u32) -> u32 {
    if a < b {
        b
    } else {
        a
    }
}

/// The smaller of two pixel quantities.
pub open spec fn min_spec(a: u32, b: u32) -> u32 {
    if a < b {
        a
    } else {
        b
    }
}

/// Saturating addition on pixel quantities.
pub fn sat_add(a: u32, b: u32) -> (r: u32)
    ensures
        r == sat_add_spec(a, b),
{
    if a <= u32::MAX - b {
        a + b
    } else {
        u32::MAX
    }
}

/// Saturating subtraction on pixel quantities.
pub fn sat_sub(a: u32, b: u32) -> (r: u32)
    ensures
        r == sat_sub_spec(a, b),
{
    if a >= b {
        a - b
    } else {
        0
    }
}

/// The saturating sum of two wide counters.
pub open spec fn sat_add64_spec(a: u64, b: u64) -> u64 {
    if a + b > u64::MAX {
        u64::MAX
    } else {
        (a + b) as u64
    }
}

/// Saturating addition on wide counters.
pub fn sat_add64(a: u64, b: u64) -> (r: u64)
    ensures
        r == sat_add64_spec(a, b),
{
    if a <= u64::MAX - b {
        a + b
    } else {
        u64::MAX
    }
}

/// Clamps `v` into `[lo, hi]`.
pub fn clamp(v: u32, lo: u32, hi: u32) -> (r: u32)
    requires
        lo <= hi,
    ensures
        r == clamp_spec(v, lo, hi),
{
    if v < lo {
        lo
    } else if v > hi {
        hi
    } else {
        v
    }
}

/// The larger of two pixel quantities.
pub fn pix_max(a: u32, b: u32) -> (r: u32)
    ensures
        r == max_spec(a, b),
{
    if a < b {
        b
    } else {
        a
    }
}

/// The smaller of two pixel quantities.
pub fn pix_min(a: u32, b: u32) -> (r: u32)
    ensures
        r == min_spec(a, b),
{
    if a < b {
        a
    } else {
        b
    }
}

/// A two-dimensional extent in pixels.
#[derive(Clone, Copy, Debug, PartialEq, Eq, Structural)]
pub struct Size {
    pub width: u32,
    pub height: u32,
}

impl Size {
    /// Creates a size from a width and a height.
    pub fn new(width: u32, height: u32) -> (r: Size)
        ensures
            r == (Size { width, height }),
    {
        Size { width, height }
    }

    /// The size with both extents zero.
    pub fn zero() -> (r: Size)
        ensures
            r == (Size { width: 0u32, height: 0u32 }),
    {
        Size { width: 0, height: 0 }
    }
}

/// A position in pixels, relative to some enclosing coordinate system.
#[derive(Clone, Copy, Debug, PartialEq, Eq, Structural)]
pub struct Point {
    pub x: u32,
    pub y: u32,
}

impl Point {
    /// Creates a point from its coordinates.
    pub fn new(x: u32, y: u32) -> (r: Point)
        ensures
            r == (Point { x, y }),
    {
        Point { x, y }
    }

    /// Translates this point by another, saturating on overflow.
    pub fn translate(self, other: Point) -> (r: Point)
        ensures
            r == point_translate_spec(self, other),
    {
        Point { x: sat_add(self.x, other.x), y: sat_add(self.y, other.y) }
    }
}

/// The translation of `p` by `q`, componentwise and saturating.
pub open spec fn point_translate_spec(p: Point, q: Point) -> Point {
    Point { x: sat_add_spec(p.x, q.x), y: sat_add_spec(p.y, q.y) }
}

/// An axis-aligned rectangle: a position and an extent.
#[derive(Clone, Copy, Debug, PartialEq, Eq, Structural)]
pub struct Rectangle {
    pub x: u32,
    pub y: u32,
    pub width: u32,
    pub height: u32,
}

impl Rectangle {
    /// Creates a rectangle from a position and a size.
    pub fn new(position: Point, size: Size) -> (r: Rectangle)
        ensures
            r == (Rectangle {
                x: position.x,
                y: position.y,
                width: size.width,
                height: size.height,
            }),
    {
        Rectangle { x: position.x, y: position.y, width: size.width, height: size.height }
    }

    /// The extent of this rectangle.
    pub fn size(&self) -> (r: Size)
        ensures
            r == (Size { width: self.width, height: self.height }),
    {
        Size { width: self.width, height: self.height }
    }

    /// The position of this rectangle.
    pub fn position(&self) -> (r: Point)
        ensures
            r == (Point { x: self.x, y: self.y }),
    {
        Point { x: self.x, y: self.y }
    }

    /// Whether `p` lies within this rectangle (inclusive of the left/top
    /// edge, exclusive of the right/bottom edge).
    pub fn contains(&self, p: Point) -> (r: bool)
        ensures
            r == rect_contains_spec(*self, p),
    {
        self.x <= p.x && (p.x as u64) < self.x as u64 + self.width as u64 && self.y <= p.y && (
        p.y as u64) < self.y as u64 + self.height as u64
    }
}

/// Whether point `p` lies within rectangle `r`.
pub open spec fn rect_contains_spec(r: Rectangle, p: Point) -> bool {
    r.x <= p.x && p.x < r.x + r.width && r.y <= p.y && p.y < r.y + r.height
}

/// A four-sided inset, in pixels.
#[derive(Clone, Copy, Debug, PartialEq, Eq, Structural)]
pub struct Padding {
    pub top: u32,
    pub right: u32,
    pub bottom: u32,
    pub left: u32,
}

impl Padding {
    /// A padding of zero on every side.
    pub fn zero() -> (r: Padding)
        ensures
            r == (Padding { top: 0u32, right: 0u32, bottom: 0u32, left: 0u32 }),
    {
        Padding { top: 0, right: 0, bottom: 0, left: 0 }
    }

    /// A uniform padding on all four sides.
    pub fn uniform(amount: u32) -> (r: Padding)
        ensures
            r == (Padding { top: amount, right: amount, bottom: amount, left: amount }),
    {
        Padding { top: amount, right: amount, bottom: amount, left: amount }
    }

    /// The total horizontal inset (left plus right, saturating).
    pub fn horizontal(&self) -> (r: u32)
        ensures
            r == padding_horizontal_spec(*self),
    {
        sat_add(self.left, self.right)
    }

    /// The total vertical inset (top plus bottom, saturating).
    pub fn vertical(&self) -> (r: u32)
        ensures
            r == padding_vertical_spec(*self),
    {
        sat_add(self.top, self.bottom)
    }

    /// The total inset as a size.
    pub fn size(&self) -> (r: Size)
        ensures
            r == padding_size_spec(*self),
    {
        Size { width: self.horizontal(), height: self.vertical() }
    }
}

/// The total horizontal inset of a padding.
pub open spec fn padding_horizontal_spec(p: Padding) -> u32 {
    sat_add_spec(p.left, p.right)
}

/// The total vertical inset of a padding.
pub open spec fn padding_vertical_spec(p: Padding) -> u32 {
    sat_add_spec(p.top, p.bottom)
}

/// The total inset of a padding, as a size.
pub open spec fn padding_size_spec(p: Padding) -> Size {
    Size { width: padding_horizontal_spec(p), height: padding_vertical_spec(p) }
}

/// Cross-axis alignment of children within a container.
#[derive(Clone, Copy, Debug, PartialEq, Eq, Structural)]
pub enum Alignment {
    /// Place each child at the start of the cross axis.
    Start,
    /// Center each child on the cross axis.
    Center,
    /// Place each child at the end of the cross axis.
    End,
    /// Stretch each child over the whole cross axis.
    Fill,
}

/// How a node wants to occupy space along one axis.
#[derive(Clone, Copy, Debug, PartialEq, Eq, Structural)]
pub enum Length {
    /// Exactly the given number of pixels (clamped by the surrounding limits).
    Fixed(u32),
    /// A weighted share of the space left over after non-fill siblings.
    FillPortion(u32),
    /// As little as the content allows.
    Shrink,
    /// Fill the available space, but no more than the given number of pixels.
    FillMax(u32),
}

impl Length {
    /// The weight with which this policy takes part in leftover-space
    /// division: the weight of a `FillPortion`, zero otherwise.
    pub fn fill_factor(&self) -> (r: u32)
        ensures
            r == fill_factor_spec(*self),
    {
        match *self {
            Length::FillPortion(weight) => weight,
            _ => 0,
        }
    }
}

/// The leftover-space weight of a length policy.
pub open spec fn fill_factor_spec(l: Length) -> u32 {
    match l {
        Length::FillPortion(weight) => weight,
        _ => 0u32,
    }
}

/// Whether a policy takes a weighted share of leftover space: exactly the
/// `FillPortion` policies, whatever their weight.
pub open spec fn is_portion_spec(l: Length) -> bool {
    match l {
        Length::FillPortion(_) => true,
        _ => false,
    }
}

/// Whether a policy fills the available space (rather than sizing to
/// content): `FillPortion` and `FillMax` do, `Fixed` and `Shrink` do not.
pub open spec fn is_fill_spec(l: Length) -> bool {
    match l {
        Length::FillPortion(_) => true,
        Length::FillMax(_) => true,
        _ => false,
    }
}

/// The main axis of a container: the direction its children are stacked in.
#[derive(Clone, Copy, Debug, PartialEq, Eq, Structural)]
pub enum Axis {
    /// Children are laid out side by side; the cross axis is vertical.
    Horizontal,
    /// Children are stacked; the cross axis is horizontal.
    Vertical,
}

/// The main-axis component of a size.
pub open spec fn main_of_spec(axis: Axis, s: Size) -> u32 {
    match axis {
        Axis::Horizontal => s.width,
        Axis::Vertical => s.height,
    }
}

/// The cross-axis component of a size.
pub open spec fn cross_of_spec(axis: Axis, s: Size) -> u32 {
    match axis {
        Axis::Horizontal => s.height,
        Axis::Vertical => s.width,
    }
}

/// A size assembled from a main-axis and a cross-axis extent.
pub open spec fn pack_spec(axis: Axis, main: u32, cross: u32) -> Size {
    match axis {
        Axis::Horizontal => Size { width: main, height: cross },
        Axis::Vertical => Size { width: cross, height: main },
    }
}

/// A point assembled from a main-axis and a cross-axis coordinate.
pub open spec fn pack_point_spec(axis: Axis, main: u32, cross: u32) -> Point {
    match axis {
        Axis::Horizontal => Point { x: main, y: cross },
        Axis::Vertical => Point { x: cross, y: main },
    }
}

impl Axis {
    /// The main-axis component of a size.
    pub fn main_of(self, s: Size) -> (r: u32)
        ensures
            r == main_of_spec(self, s),
    {
        match self {
            Axis::Horizontal => s.width,
            Axis::Vertical => s.height,
        }
    }

    /// The cross-axis component of a size.
    pub fn cross_of(self, s: Size) -> (r: u32)
        ensures
            r == cross_of_spec(self, s),
    {
        match self {
            Axis::Horizontal => s.height,
            Axis::Vertical => s.width,
        }
    }

    /// Assembles a size from a main-axis and a cross-axis extent.
    pub fn pack(self, main: u32, cross: u32) -> (r: Size)
        ensures
            r == pack_spec(self, main, cross),
    {
        match self {
            Axis::Horizontal => Size { width: main, height: cross },
            Axis::Vertical => Size { width: cross, height: main },
        }
    }

    /// Assembles a point from a main-axis and a cross-axis coordinate.
    pub fn pack_point(self, main: u32, cross: u32) -> (r: Point)
        ensures
            r == pack_point_spec(self, main, cross),
    {
        match self {
            Axis::Horizontal => Point { x: main, y: cross },
            Axis::Vertical => Point { x: cross, y: main },
        }
    }

    /// The main-axis inset of a padding: the sum of the two sides the main
    /// axis runs between.
    pub fn main_padding(self, p: Padding) -> (r: u32)
        ensures
            r == main_padding_spec(self, p),
    {
        match self {
            Axis::Horizontal => sat_add(p.left, p.right),
            Axis::Vertical => sat_add(p.top, p.bottom),
        }
    }

    /// The padding inset before the first child along the main axis.
    pub fn main_start(self, p: Padding) -> (r: u32)
        ensures
            r == main_start_spec(self, p),
    {
        match self {
            Axis::Horizontal => p.left,
            Axis::Vertical => p.top,
        }
    }

    /// The cross-axis inset of a padding: the sum of the two sides the
    /// cross axis runs between.
    pub fn cross_padding(self, p: Padding) -> (r: u32)
        ensures
            r == cross_padding_spec(self, p),
    {
        match self {
            Axis::Horizontal => sat_add(p.top, p.bottom),
            Axis::Vertical => sat_add(p.left, p.right),
        }
    }

    /// The padding inset before a child along the cross axis.
    pub fn cross_start(self, p: Padding) -> (r: u32)
        ensures
            r == cross_start_spec(self, p),
    {
        match self {
            Axis::Horizontal => p.top,
            Axis::Vertical => p.left,
        }
    }
}

/// The main-axis inset of a padding.
pub open spec fn main_padding_spec(axis: Axis, p: Padding) -> u32 {
    match axis {
        Axis::Horizontal => sat_add_spec(p.left, p.right),
        Axis::Vertical => sat_add_spec(p.top, p.bottom),
    }
}

/// The cross-axis inset of a padding.
pub open spec fn cross_padding_spec(axis: Axis, p: Padding) -> u32 {
    match axis {
        Axis::Horizontal => sat_add_spec(p.top, p.bottom),
        Axis::Vertical => sat_add_spec(p.left, p.right),
    }
}

/// The padding inset before the first child along the main axis.
pub open spec fn main_start_spec(axis: Axis, p: Padding) -> u32 {
    match axis {
        Axis::Horizontal => p.left,
        Axis::Vertical => p.top,
    }
}

/// The padding inset before a child along the cross axis.
pub open spec fn cross_start_spec(axis: Axis, p: Padding) -> u32 {
    match axis {
        Axis::Horizontal => p.top,
        Axis::Vertical => p.left,
    }
}

} // verus!
