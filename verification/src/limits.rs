//! The constraint window handed top-down during layout: a minimum and a
//! maximum size. A parent narrows its limits by the child's length policies
//! and the child resolves them, together with its content size, into a
//! concrete size.

use vstd::prelude::*;
use crate::geometry::{
    Size, Padding, Length, clamp, clamp_spec, sat_sub, sat_sub_spec, pix_min, pix_max, min_spec,
    max_spec, is_fill_spec,
};

verus! {

/// A min/max size window. Well-formed limits satisfy `min <= max`
/// componentwise; every operation preserves that invariant.
#[derive(Clone, Copy, Debug, PartialEq, Eq, Structural)]
pub struct Limits {
    pub min: Size,
    pub max: Size,
}

/// Well-formedness of a limits value: the window is not inverted.
pub open spec fn limits_wf(l: Limits) -> bool {
    l.min.width <= l.max.width && l.min.height <= l.max.height
}

/// The narrowing of `l`'s width window by a width policy:
/// - `Fixed(px)` pins the window to `px` (clamped into the incoming window);
/// - `FillPortion` fills, raising the minimum to the maximum;
/// - `FillMax(px)` lowers the maximum to `px` (but never below the minimum);
/// - `Shrink` leaves the window unchanged.
pub open spec fn limits_width_spec(l: Limits, w: Length) -> Limits {
    match w {
        Length::Fixed(px) => {
            let v = clamp_spec(px, l.min.width, l.max.width);
            Limits {
                min: Size { width: v, height: l.min.height },
                max: Size { width: v, height: l.max.height },
            }
        },
        Length::FillPortion(_) => Limits {
            min: Size { width: l.max.width, height: l.min.height },
            max: l.max,
        },
        Length::FillMax(px) => Limits {
            min: l.min,
            max: Size { width: max_spec(l.min.width, min_spec(l.max.width, px)), height: l.max.height },
        },
        Length::Shrink => l,
    }
}

/// The narrowing of `l`'s height window by a height policy, mirror of
/// `limits_width_spec`.
pub open spec fn limits_height_spec(l: Limits, h: Length) -> Limits {
    match h {
        Length::Fixed(px) => {
            let v = clamp_spec(px, l.min.height, l.max.height);
            Limits {
                min: Size { width: l.min.width, height: v },
                max: Size { width: l.max.width, height: v },
            }
        },
        Length::FillPortion(_) => Limits {
            min: Size { width: l.min.width, height: l.max.height },
            max: l.max,
        },
        Length::FillMax(px) => Limits {
            min: l.min,
            max: Size {
                width: l.max.width,
                height: max_spec(l.min.height, min_spec(l.max.height, px)),
            },
        },
        Length::Shrink => l,
    }
}

/// The limits with both windows shrunk by `s` (saturating at zero).
pub open spec fn limits_shrink_spec(l: Limits, s: Size) -> Limits {
    Limits {
        min: Size {
            width: sat_sub_spec(l.min.width, s.width),
            height: sat_sub_spec(l.min.height, s.height),
        },
        max: Size {
            width: sat_sub_spec(l.max.width, s.width),
            height: sat_sub_spec(l.max.height, s.height),
        },
    }
}

/// The limits with the maximum width lowered to `w` (but never below the
/// minimum width).
pub open spec fn limits_max_width_spec(l: Limits, w: u32) -> Limits {
    Limits {
        min: l.min,
        max: Size { width: max_spec(l.min.width, min_spec(l.max.width, w)), height: l.max.height },
    }
}

/// The concrete size a node of the given policies takes within `l` when its
/// content measures `default`: fill policies take the maximum, the others
/// clamp the content size into the window.
pub open spec fn limits_resolve_spec(l: Limits, w: Length, h: Length, default: Size) -> Size {
    Size {
        width: if is_fill_spec(w) {
            l.max.width
        } else {
            clamp_spec(default.width, l.min.width, l.max.width)
        },
        height: if is_fill_spec(h) {
            l.max.height
        } else {
            clamp_spec(default.height, l.min.height, l.max.height)
        },
    }
}

/// `s` clamped componentwise into the window of `l`.
pub open spec fn limits_clamp_spec(l: Limits, s: Size) -> Size {
    Size {
        width: clamp_spec(s.width, l.min.width, l.max.width),
        height: clamp_spec(s.height, l.min.height, l.max.height),
    }
}

impl Limits {
    /// Creates limits from a minimum and a maximum size.
    pub fn new(min: Size, max: Size) -> (r: Limits)
        requires
            min.width <= max.width,
            min.height <= max.height,
        ensures
            r == (Limits { min, max }),
            limits_wf(r),
    {
        Limits { min, max }
    }

    /// Limits that allow any size at all.
    pub fn unbounded() -> (r: Limits)
        ensures
            r == (Limits {
                min: Size { width: 0u32, height: 0u32 },
                max: Size { width: u32::MAX, height: u32::MAX },
            }),
            limits_wf(r),
    {
        Limits { min: Size { width: 0, height: 0 }, max: Size { width: u32::MAX, height: u32::MAX } }
    }

    /// Narrows the width window by a width policy.
    pub fn width(self, w: Length) -> (r: Limits)
        requires
            limits_wf(self),
        ensures
            r == limits_width_spec(self, w),
            limits_wf(r),
    {
        match w {
            Length::Fixed(px) => {
                let v = clamp(px, self.min.width, self.max.width);
                Limits {
                    min: Size { width: v, height: self.min.height },
                    max: Size { width: v, height: self.max.height },
                }
            },
            Length::FillPortion(_) => Limits {
                min: Size { width: self.max.width, height: self.min.height },
                max: self.max,
            },
            Length::FillMax(px) => Limits {
                min: self.min,
                max: Size {
                    width: pix_max(self.min.width, pix_min(self.max.width, px)),
                    height: self.max.height,
                },
            },
            Length::Shrink => self,
        }
    }

    /// Narrows the height window by a height policy.
    pub fn height(self, h: Length) -> (r: Limits)
        requires
            limits_wf(self),
        ensures
            r == limits_height_spec(self, h),
            limits_wf(r),
    {
        match h {
            Length::Fixed(px) => {
                let v = clamp(px, self.min.height, self.max.height);
                Limits {
                    min: Size { width: self.min.width, height: v },
                    max: Size { width: self.max.width, height: v },
                }
            },
            Length::FillPortion(_) => Limits {
                min: Size { width: self.min.width, height: self.max.height },
                max: self.max,
            },
            Length::FillMax(px) => Limits {
                min: self.min,
                max: Size {
                    width: self.max.width,
                    height: pix_max(self.min.height, pix_min(self.max.height, px)),
                },
            },
            Length::Shrink => self,
        }
    }

    /// Shrinks both windows by `s`, e.g. to carve out a padding.
    pub fn shrink(self, s: Size) -> (r: Limits)
        requires
            limits_wf(self),
        ensures
            r == limits_shrink_spec(self, s),
            limits_wf(r),
    {
        Limits {
            min: Size {
                width: sat_sub(self.min.width, s.width),
                height: sat_sub(self.min.height, s.height),
            },
            max: Size {
                width: sat_sub(self.max.width, s.width),
                height: sat_sub(self.max.height, s.height),
            },
        }
    }

    /// Shrinks both windows by the total inset of `p`.
    pub fn pad(self, p: Padding) -> (r: Limits)
        requires
            limits_wf(self),
        ensures
            r == limits_shrink_spec(self, crate::geometry::padding_size_spec(p)),
            limits_wf(r),
    {
        self.shrink(p.size())
    }

    /// Lowers the maximum width to `w` (never below the minimum width).
    pub fn max_width(self, w: u32) -> (r: Limits)
        requires
            limits_wf(self),
        ensures
            r == limits_max_width_spec(self, w),
            limits_wf(r),
    {
        Limits {
            min: self.min,
            max: Size {
                width: pix_max(self.min.width, pix_min(self.max.width, w)),
                height: self.max.height,
            },
        }
    }

    /// Resolves these limits into a concrete size for a node of the given
    /// width and height policies whose content measures `default`. The
    /// result always lies within the window.
    pub fn resolve(&self, w: Length, h: Length, default: Size) -> (r: Size)
        requires
            limits_wf(*self),
        ensures
            r == limits_resolve_spec(*self, w, h, default),
            self.min.width <= r.width <= self.max.width,
            self.min.height <= r.height <= self.max.height,
    {
        Size {
            width: if matches!(w, Length::FillPortion(_) | Length::FillMax(_)) {
                self.max.width
            } else {
                clamp(default.width, self.min.width, self.max.width)
            },
            height: if matches!(h, Length::FillPortion(_) | Length::FillMax(_)) {
                self.max.height
            } else {
                clamp(default.height, self.min.height, self.max.height)
            },
        }
    }

    /// Clamps `s` componentwise into the window.
    pub fn clamp_size(&self, s: Size) -> (r: Size)
        requires
            limits_wf(*self),
        ensures
            r == limits_clamp_spec(*self, s),
            self.min.width <= r.width <= self.max.width,
            self.min.height <= r.height <= self.max.height,
    {
        Size {
            width: clamp(s.width, self.min.width, self.max.width),
            height: clamp(s.height, self.min.height, self.max.height),
        }
    }
}

/// For every well-formed limits value, resolution stays within the window:
/// whatever the policies and whatever content size is offered, the resolved
/// size lies between the minimum and the maximum, componentwise.
pub proof fn lemma_resolve_within_limits(l: Limits, w: Length, h: Length, default: Size)
    requires
        limits_wf(l),
    ensures
        l.min.width <= limits_resolve_spec(l, w, h, default).width <= l.max.width,
        l.min.height <= limits_resolve_spec(l, w, h, default).height <= l.max.height,
{
}

} // verus!
