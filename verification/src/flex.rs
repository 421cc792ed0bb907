//! The flex resolver: distributes main-axis space among an ordered sequence
//! of children and aligns them on the cross axis.
//!
//! The algorithm runs in two sizing passes. The first pass measures every
//! child that does not take a weighted share of leftover space, under limits
//! of zero to the space still available, and accumulates the space they
//! consume. The second pass divides the remaining space among the weighted
//! children in proportion to their weights; a zero weight receives zero
//! space, and the last positively weighted child absorbs the rounding
//! remainder, so the shares sum to the remaining space exactly.
//! In layout mode a third pass then places the children sequentially along
//! the main axis, separated by the spacing, and aligns each on the cross
//! axis.

use vstd::prelude::*;
use crate::geometry::{
    Size, Padding, Alignment, Length, Axis, Rectangle, sat_add, sat_add_spec, sat_sub,
    sat_sub_spec, pix_max, max_spec, main_of_spec, cross_of_spec, pack_spec, pack_point_spec,
    main_padding_spec, cross_padding_spec, main_start_spec, cross_start_spec, padding_size_spec,
    fill_factor_spec, is_portion_spec, sat_add64, sat_add64_spec,
};
use crate::limits::{Limits, limits_wf, limits_shrink_spec, limits_clamp_spec};
use crate::node::{Node, NodeModel, node_model, nodes_model, lemma_nodes_model_index};
use crate::widget::{Element, main_policy_spec, measure_spec, layout_spec};

verus! {

/// Whether a resolver run only measures the aggregate size or commits to a
/// full layout with positioned children.
#[derive(Clone, Copy, Debug, PartialEq, Eq, Structural)]
pub enum LayoutMode {
    /// Report the aggregate size only; the resulting node has no children.
    MeasureSize,
    /// Produce a node with positioned children.
    PerformLayout,
}

/// The fixed surroundings of one resolver run.
#[derive(Clone, Copy, Debug, PartialEq, Eq, Structural)]
pub struct FlexEnv {
    /// The main axis children are stacked along.
    pub axis: Axis,
    /// Cross-axis alignment of the children.
    pub align: Alignment,
    /// Measuring or laying out.
    pub mode: LayoutMode,
    /// The cross-axis space available to children.
    pub max_cross: u32,
}

/// The cross-axis minimum handed to children: under `Fill` alignment each
/// child is forced to the full cross extent, otherwise it may shrink to zero.
pub open spec fn fill_min_cross_spec(env: FlexEnv) -> u32 {
    if env.align == Alignment::Fill {
        env.max_cross
    } else {
        0u32
    }
}

/// The limits handed to a non-weighted child in the first pass: zero to the
/// main-axis space still available, and the cross-axis window.
pub open spec fn pass1_child_limits_spec(env: FlexEnv, avail: u32) -> Limits {
    Limits {
        min: pack_spec(env.axis, 0u32, fill_min_cross_spec(env)),
        max: pack_spec(env.axis, avail, env.max_cross),
    }
}

/// The limits handed to a weighted child in the second pass: the main axis
/// pinned to its share, and the cross-axis window.
pub open spec fn pass2_child_limits_spec(env: FlexEnv, portion: u32) -> Limits {
    Limits {
        min: pack_spec(env.axis, portion, fill_min_cross_spec(env)),
        max: pack_spec(env.axis, portion, env.max_cross),
    }
}

/// The extent of a node model.
pub open spec fn node_size_spec(nm: NodeModel) -> Size {
    Size { width: nm.bounds.width, height: nm.bounds.height }
}

/// What one child contributes under the given limits: in measuring mode a
/// childless node of its intrinsic size, in layout mode its committed tree.
pub open spec fn child_entry_spec(e: Element, cl: Limits, mode: LayoutMode) -> NodeModel
    decreases e, 4int,
{
    match mode {
        LayoutMode::MeasureSize => {
            let s = measure_spec(e, cl);
            NodeModel {
                bounds: Rectangle { x: 0u32, y: 0u32, width: s.width, height: s.height },
                children: Seq::<NodeModel>::empty(),
            }
        },
        LayoutMode::PerformLayout => layout_spec(e, cl),
    }
}

/// The placeholder standing for a weighted child between the passes.
pub open spec fn empty_entry_spec() -> NodeModel {
    NodeModel {
        bounds: Rectangle { x: 0u32, y: 0u32, width: 0u32, height: 0u32 },
        children: Seq::<NodeModel>::empty(),
    }
}

/// The total spacing between `n` children: one gap fewer than children,
/// saturating.
pub open spec fn total_spacing_spec(spacing: u32, n: int) -> u32 {
    if n <= 1 {
        0u32
    } else {
        let m = if n - 1 > u32::MAX {
            u32::MAX as int
        } else {
            n - 1
        };
        if spacing * m > u32::MAX {
            u32::MAX
        } else {
            (spacing * m) as u32
        }
    }
}

/// The share of `remaining` a weighted child receives: remaining times its
/// weight over the weight total, rounded down (and capped, though the cap is
/// never reached since the weight is at most the total).
pub open spec fn portion_spec(remaining: u32, factor: u32, fill_sum: u64) -> u32 {
    if fill_sum == 0 {
        0u32
    } else {
        let q = (remaining * factor) as int / (fill_sum as int);
        if q > u32::MAX {
            u32::MAX
        } else {
            q as u32
        }
    }
}

/// The cross-axis offset of a child within the content area: start and fill
/// alignment place it at zero, center halves the slack, end uses all of it.
pub open spec fn align_offset_spec(align: Alignment, space: u32, extent: u32) -> u32 {
    match align {
        Alignment::Start => 0u32,
        Alignment::Fill => 0u32,
        Alignment::Center => (sat_sub_spec(space, extent) / 2u32) as u32,
        Alignment::End => sat_sub_spec(space, extent),
    }
}

/// The state of the first sizing pass after some prefix of the children.
#[verifier::ext_equal]
pub ghost struct Pass1 {
    /// Main-axis space still available.
    pub avail: u32,
    /// Largest cross extent seen so far (seeded with the minimum).
    pub cross: u32,
    /// Sum of the weights of the weighted children seen so far.
    pub fill_sum: u64,
    /// Number of weighted children with a positive weight seen so far.
    pub fill_count: int,
    /// Main-axis space consumed so far.
    pub used: u32,
    /// One entry per child seen: its node, or a placeholder if weighted.
    pub entries: Seq<NodeModel>,
    /// Main-axis space allotted per child seen (zero for weighted ones).
    pub mains: Seq<u32>,
}

/// The first sizing pass over the first `k` children: measures every
/// non-weighted child under the space still available and accumulates
/// consumed space, the cross maximum and the weight total.
pub open spec fn pass1_spec(items: Vec<Element>, env: FlexEnv, avail0: u32, cross0: u32, k: int) -> Pass1
    decreases items, k,
{
    if k <= 0 || k > items.len() {
        Pass1 {
            avail: avail0,
            cross: cross0,
            fill_sum: 0u64,
            fill_count: 0int,
            used: 0u32,
            entries: Seq::empty(),
            mains: Seq::empty(),
        }
    } else {
        let p = pass1_spec(items, env, avail0, cross0, k - 1);
        let pol = main_policy_spec(env.axis, items[k - 1]);
        let ff = fill_factor_spec(pol);
        if !is_portion_spec(pol) {
            let cl = pass1_child_limits_spec(env, p.avail);
            let nm = child_entry_spec(items[k - 1], cl, env.mode);
            let m = main_of_spec(env.axis, node_size_spec(nm));
            let c = cross_of_spec(env.axis, node_size_spec(nm));
            Pass1 {
                avail: sat_sub_spec(p.avail, m),
                cross: max_spec(p.cross, c),
                fill_sum: p.fill_sum,
                fill_count: p.fill_count,
                used: sat_add_spec(p.used, m),
                entries: p.entries.push(nm),
                mains: p.mains.push(m),
            }
        } else {
            Pass1 {
                avail: p.avail,
                cross: p.cross,
                fill_sum: sat_add64_spec(p.fill_sum, ff as u64),
                fill_count: if ff > 0 {
                    p.fill_count + 1
                } else {
                    p.fill_count
                },
                used: p.used,
                entries: p.entries.push(empty_entry_spec()),
                mains: p.mains.push(0u32),
            }
        }
    }
}

/// The state of the second sizing pass after some prefix of the children.
#[verifier::ext_equal]
pub ghost struct Pass2 {
    /// Remaining space not yet handed to a weighted child.
    pub left: u32,
    /// Number of weighted children handled so far.
    pub processed: int,
    /// Main-axis space consumed so far (both passes).
    pub used: u32,
    /// Largest cross extent seen so far.
    pub cross: u32,
    /// One entry per child, placeholders replaced as the pass proceeds.
    pub entries: Seq<NodeModel>,
    /// Main-axis space allotted per child.
    pub mains: Seq<u32>,
}

/// The second sizing pass over the first `k` children: hands each weighted
/// child its proportional share of `remaining` — the last one the whole
/// rest, so the shares sum to `remaining` exactly — and measures it with
/// the main axis pinned to that share.
pub open spec fn pass2_spec(
    items: Vec<Element>,
    env: FlexEnv,
    remaining: u32,
    fill_sum: u64,
    fill_count: int,
    start: Pass2,
    k: int,
) -> Pass2
    decreases items, k,
{
    if k <= 0 || k > items.len() {
        start
    } else {
        let p = pass2_spec(items, env, remaining, fill_sum, fill_count, start, k - 1);
        let pol = main_policy_spec(env.axis, items[k - 1]);
        let ff = fill_factor_spec(pol);
        if !is_portion_spec(pol) {
            p
        } else {
            let portion = if ff == 0 {
                0u32
            } else if p.processed + 1 == fill_count {
                p.left
            } else {
                portion_spec(remaining, ff, fill_sum)
            };
            let cl = pass2_child_limits_spec(env, portion);
            let nm = child_entry_spec(items[k - 1], cl, env.mode);
            let m = main_of_spec(env.axis, node_size_spec(nm));
            let c = cross_of_spec(env.axis, node_size_spec(nm));
            Pass2 {
                left: sat_sub_spec(p.left, portion),
                processed: if ff > 0 {
                    p.processed + 1
                } else {
                    p.processed
                },
                used: sat_add_spec(p.used, m),
                cross: max_spec(p.cross, c),
                entries: p.entries.update(k - 1, nm),
                mains: p.mains.update(k - 1, portion),
            }
        }
    }
}

/// The state of the placement pass: the children positioned so far and the
/// main-axis cursor.
#[verifier::ext_equal]
pub ghost struct Place {
    /// The positioned children.
    pub out: Seq<NodeModel>,
    /// Where the next child's main-axis extent begins.
    pub cursor: u32,
}

/// The placement pass over the first `k` entries: children are placed
/// sequentially along the main axis starting at the padding offset, each
/// advanced by its own extent plus the spacing, and aligned on the cross
/// axis within the content extent.
pub open spec fn place_spec(
    axis: Axis,
    align: Alignment,
    main_start: u32,
    cross_begin: u32,
    spacing: u32,
    cross_content: u32,
    entries: Seq<NodeModel>,
    k: int,
) -> Place
    decreases k,
{
    if k <= 0 || k > entries.len() {
        Place { out: Seq::empty(), cursor: main_start }
    } else {
        let p = place_spec(axis, align, main_start, cross_begin, spacing, cross_content, entries, k - 1);
        let nm = entries[k - 1];
        let cur = if k == 1 {
            p.cursor
        } else {
            sat_add_spec(p.cursor, spacing)
        };
        let sz = node_size_spec(nm);
        let off = align_offset_spec(align, cross_content, cross_of_spec(axis, sz));
        let pos = pack_point_spec(axis, cur, sat_add_spec(cross_begin, off));
        Place {
            out: p.out.push(
                NodeModel {
                    bounds: Rectangle { x: pos.x, y: pos.y, width: sz.width, height: sz.height },
                    children: nm.children,
                },
            ),
            cursor: sat_add_spec(cur, main_of_spec(axis, sz)),
        }
    }
}

/// The full resolver: two sizing passes, the final size — content plus
/// padding, clamped into the outer limits — and, in layout mode, the
/// placement pass.
pub open spec fn resolve_spec(
    axis: Axis,
    l: Limits,
    padding: Padding,
    spacing: u32,
    align: Alignment,
    items: Vec<Element>,
    mode: LayoutMode,
) -> NodeModel
    decreases items, items.len() + 2int,
{
    let n = items.len() as int;
    let inner = limits_shrink_spec(l, padding_size_spec(padding));
    let ts = total_spacing_spec(spacing, n);
    let avail0 = sat_sub_spec(main_of_spec(axis, inner.max), ts);
    let env = FlexEnv { axis, align, mode, max_cross: cross_of_spec(axis, inner.max) };
    let p1 = pass1_spec(items, env, avail0, cross_of_spec(axis, inner.min), n);
    let start = Pass2 {
        left: p1.avail,
        processed: 0int,
        used: p1.used,
        cross: p1.cross,
        entries: p1.entries,
        mains: p1.mains,
    };
    let p2 = pass2_spec(items, env, p1.avail, p1.fill_sum, p1.fill_count, start, n);
    let content_main = sat_add_spec(p2.used, ts);
    let raw = pack_spec(
        axis,
        sat_add_spec(content_main, main_padding_spec(axis, padding)),
        sat_add_spec(p2.cross, cross_padding_spec(axis, padding)),
    );
    let size = limits_clamp_spec(l, raw);
    if mode == LayoutMode::MeasureSize {
        NodeModel {
            bounds: Rectangle { x: 0u32, y: 0u32, width: size.width, height: size.height },
            children: Seq::<NodeModel>::empty(),
        }
    } else {
        let pl = place_spec(
            axis,
            align,
            main_start_spec(axis, padding),
            cross_start_spec(axis, padding),
            spacing,
            p2.cross,
            p2.entries,
            n,
        );
        NodeModel {
            bounds: Rectangle { x: 0u32, y: 0u32, width: size.width, height: size.height },
            children: pl.out,
        }
    }
}

/// Shape of the first pass: one entry per child seen, and the weighted-child
/// count is between zero and the prefix length.
pub proof fn lemma_pass1_shape(items: Vec<Element>, env: FlexEnv, avail0: u32, cross0: u32, k: int)
    requires
        0 <= k <= items.len(),
    ensures
        pass1_spec(items, env, avail0, cross0, k).entries.len() == k,
        pass1_spec(items, env, avail0, cross0, k).mains.len() == k,
        0 <= pass1_spec(items, env, avail0, cross0, k).fill_count <= k,
    decreases k,
{
    if k > 0 {
        lemma_pass1_shape(items, env, avail0, cross0, k - 1);
    }
}

/// The weight total of the first pass dominates the weight of every weighted
/// child in the prefix.
pub proof fn lemma_pass1_fill_sum_bound(
    items: Vec<Element>,
    env: FlexEnv,
    avail0: u32,
    cross0: u32,
    k: int,
    j: int,
)
    requires
        0 <= j < k <= items.len(),
        fill_factor_spec(main_policy_spec(env.axis, items[j])) > 0,
    ensures
        pass1_spec(items, env, avail0, cross0, k).fill_sum >= fill_factor_spec(
            main_policy_spec(env.axis, items[j]),
        ) as u64,
        pass1_spec(items, env, avail0, cross0, k).fill_sum > 0,
    decreases k,
{
    if j == k - 1 {
    } else {
        lemma_pass1_fill_sum_bound(items, env, avail0, cross0, k - 1, j);
    }
}

/// Shape of the second pass: entry and allotment counts are unchanged, and
/// the number of handled weighted children grows by at most the prefix
/// length.
pub proof fn lemma_pass2_shape(
    items: Vec<Element>,
    env: FlexEnv,
    remaining: u32,
    fill_sum: u64,
    fill_count: int,
    start: Pass2,
    k: int,
)
    requires
        0 <= k <= items.len(),
        start.entries.len() == items.len(),
        start.mains.len() == items.len(),
    ensures
        pass2_spec(items, env, remaining, fill_sum, fill_count, start, k).entries.len()
            == start.entries.len(),
        pass2_spec(items, env, remaining, fill_sum, fill_count, start, k).mains.len()
            == start.mains.len(),
        start.processed <= pass2_spec(items, env, remaining, fill_sum, fill_count, start, k).processed
            <= start.processed + k,
    decreases k,
{
    if k > 0 {
        lemma_pass2_shape(items, env, remaining, fill_sum, fill_count, start, k - 1);
    }
}

/// Shape of the placement pass: one positioned node per entry.
pub proof fn lemma_place_shape(
    axis: Axis,
    align: Alignment,
    main_start: u32,
    cross_begin: u32,
    spacing: u32,
    cross_content: u32,
    entries: Seq<NodeModel>,
    k: int,
)
    requires
        0 <= k <= entries.len(),
    ensures
        place_spec(axis, align, main_start, cross_begin, spacing, cross_content, entries, k).out.len()
            == k,
    decreases k,
{
    if k > 0 {
        lemma_place_shape(axis, align, main_start, cross_begin, spacing, cross_content, entries, k - 1);
    }
}

/// The limits handed to a non-weighted child in the first pass.
fn pass1_child_limits(env: FlexEnv, avail: u32) -> (r: Limits)
    ensures
        r == pass1_child_limits_spec(env, avail),
        limits_wf(r),
{
    let fmin: u32 = if matches!(env.align, Alignment::Fill) {
        env.max_cross
    } else {
        0
    };
    Limits { min: env.axis.pack(0, fmin), max: env.axis.pack(avail, env.max_cross) }
}

/// The limits handed to a weighted child in the second pass.
fn pass2_child_limits(env: FlexEnv, portion: u32) -> (r: Limits)
    ensures
        r == pass2_child_limits_spec(env, portion),
        limits_wf(r),
{
    let fmin: u32 = if matches!(env.align, Alignment::Fill) {
        env.max_cross
    } else {
        0
    };
    Limits { min: env.axis.pack(portion, fmin), max: env.axis.pack(portion, env.max_cross) }
}

/// Measures or lays out one child, as the mode asks.
fn child_entry(e: &Element, cl: &Limits, mode: LayoutMode) -> (r: Node)
    requires
        limits_wf(*cl),
    ensures
        node_model(r) == child_entry_spec(*e, *cl, mode),
    decreases *e, 5int,
{
    match mode {
        LayoutMode::MeasureSize => Node::from_size(e.measure(cl)),
        LayoutMode::PerformLayout => e.layout(cl),
    }
}

/// The total spacing between `n` children.
fn total_spacing(spacing: u32, n: usize) -> (r: u32)
    ensures
        r == total_spacing_spec(spacing, n as int),
{
    if n <= 1 {
        0
    } else {
        let m: u64 = if (n - 1) as u64 > u32::MAX as u64 {
            u32::MAX as u64
        } else {
            (n - 1) as u64
        };
        proof {
            let s = spacing as int;
            let mm = m as int;
            assert(s * mm <= 0xFFFF_FFFF * 0xFFFF_FFFF) by (nonlinear_arith)
                requires
                    0 <= s <= 0xFFFF_FFFF,
                    0 <= mm <= 0xFFFF_FFFF,
            ;
        }
        let t: u64 = spacing as u64 * m;
        if t > u32::MAX as u64 {
            u32::MAX
        } else {
            t as u32
        }
    }
}

/// The cross-axis offset of a child within the content area.
fn align_offset(align: Alignment, space: u32, extent: u32) -> (r: u32)
    ensures
        r == align_offset_spec(align, space, extent),
{
    match align {
        Alignment::Start => 0,
        Alignment::Fill => 0,
        Alignment::Center => sat_sub(space, extent) / 2,
        Alignment::End => sat_sub(space, extent),
    }
}

/// Resolves the layout of an ordered sequence of children along an axis:
/// sizes every child in two passes, computes the container's size — content
/// plus padding, clamped into `limits` — and, in layout mode, positions the
/// children.
#[verifier::rlimit(100)]
#[verifier::loop_isolation(false)]
pub fn resolve(
    axis: Axis,
    limits: &Limits,
    padding: Padding,
    spacing: u32,
    align_items: Alignment,
    items: &Vec<Element>,
    mode: LayoutMode,
) -> (r: Node)
    requires
        limits_wf(*limits),
    ensures
        node_model(r) == resolve_spec(axis, *limits, padding, spacing, align_items, *items, mode),
    decreases *items, items@.len() + 6int,
{
    let n = items.len();
    let inner = limits.pad(padding);
    let ts = total_spacing(spacing, n);
    let avail0 = sat_sub(axis.main_of(inner.max), ts);
    let max_cross = axis.cross_of(inner.max);
    let cross0 = axis.cross_of(inner.min);
    let env = FlexEnv { axis, align: align_items, mode, max_cross };

    // First pass: measure the non-weighted children.
    let mut buf: Vec<Node> = Vec::new();
    let mut avail: u32 = avail0;
    let mut cross: u32 = cross0;
    let mut fsum: u64 = 0;
    let mut fcount: usize = 0;
    let mut used: u32 = 0;
    let mut i: usize = 0;
    while i < n
        invariant
            n == items@.len(),
            i <= n,
            buf@.len() == i,
            avail == pass1_spec(*items, env, avail0, cross0, i as int).avail,
            cross == pass1_spec(*items, env, avail0, cross0, i as int).cross,
            used == pass1_spec(*items, env, avail0, cross0, i as int).used,
            fsum == pass1_spec(*items, env, avail0, cross0, i as int).fill_sum,
            fcount as int == pass1_spec(*items, env, avail0, cross0, i as int).fill_count,
            fcount <= i,
            forall|j: int|
                0 <= j < i ==> node_model(buf@[j]) == pass1_spec(
                    *items,
                    env,
                    avail0,
                    cross0,
                    i as int,
                ).entries[j],
        decreases n - i,
    {
        proof {
            lemma_pass1_shape(*items, env, avail0, cross0, i as int);
        }
        let ghost prev = pass1_spec(*items, env, avail0, cross0, i as int);
        let pol = items[i].main_policy(axis);
        let ff = pol.fill_factor();
        let portion_child = matches!(pol, Length::FillPortion(_));
        if !portion_child {
            let cl = pass1_child_limits(env, avail);
            let node = child_entry(&items[i], &cl, mode);
            let m = axis.main_of(node.size());
            let c = axis.cross_of(node.size());
            avail = sat_sub(avail, m);
            used = sat_add(used, m);
            cross = pix_max(cross, c);
            buf.push(node);
        } else {
            fsum = sat_add64(fsum, ff as u64);
            if ff > 0 {
                fcount = fcount + 1;
            }
            buf.push(Node::from_size(Size::new(0, 0)));
        }
        proof {
            let next = pass1_spec(*items, env, avail0, cross0, i + 1);
            assert(next.entries == prev.entries.push(next.entries[i as int]));
            assert forall|j: int| 0 <= j < i + 1 implies node_model(buf@[j]) == next.entries[j] by {
                if j < i {
                    assert(next.entries[j] == prev.entries[j]);
                }
            }
        }
        i = i + 1;
    }

    // Second pass: hand the remaining space to the weighted children.
    let remaining = avail;
    let ghost p1 = pass1_spec(*items, env, avail0, cross0, n as int);
    let ghost start = Pass2 {
        left: remaining,
        processed: 0int,
        used: used,
        cross: cross,
        entries: p1.entries,
        mains: p1.mains,
    };
    let mut left: u32 = remaining;
    let mut processed: usize = 0;
    i = 0;
    while i < n
        invariant
            n == items@.len(),
            i <= n,
            buf@.len() == n,
            p1 == pass1_spec(*items, env, avail0, cross0, n as int),
            start == (Pass2 {
                left: remaining,
                processed: 0int,
                used: p1.used,
                cross: p1.cross,
                entries: p1.entries,
                mains: p1.mains,
            }),
            remaining == p1.avail,
            fsum == p1.fill_sum,
            fcount as int == p1.fill_count,
            fcount <= n,
            left == pass2_spec(*items, env, remaining, fsum, fcount as int, start, i as int).left,
            processed as int == pass2_spec(
                *items,
                env,
                remaining,
                fsum,
                fcount as int,
                start,
                i as int,
            ).processed,
            used == pass2_spec(*items, env, remaining, fsum, fcount as int, start, i as int).used,
            cross == pass2_spec(*items, env, remaining, fsum, fcount as int, start, i as int).cross,
            forall|j: int|
                0 <= j < n ==> node_model(buf@[j]) == pass2_spec(
                    *items,
                    env,
                    remaining,
                    fsum,
                    fcount as int,
                    start,
                    i as int,
                ).entries[j],
        decreases n - i,
    {
        proof {
            lemma_pass1_shape(*items, env, avail0, cross0, n as int);
            lemma_pass2_shape(*items, env, remaining, fsum, fcount as int, start, i as int);
        }
        let ghost prev = pass2_spec(*items, env, remaining, fsum, fcount as int, start, i as int);
        let pol = items[i].main_policy(axis);
        let ff = pol.fill_factor();
        let portion_child = matches!(pol, Length::FillPortion(_));
        if portion_child {
            let portion: u32;
            if ff == 0 {
                portion = 0;
            } else if processed + 1 == fcount {
                portion = left;
            } else {
                proof {
                    lemma_pass1_fill_sum_bound(*items, env, avail0, cross0, n as int, i as int);
                }
                proof {
                    let rr = remaining as int;
                    let fi = ff as int;
                    assert(rr * fi <= 0xFFFF_FFFF * 0xFFFF_FFFF) by (nonlinear_arith)
                        requires
                            0 <= rr <= 0xFFFF_FFFF,
                            0 <= fi <= 0xFFFF_FFFF,
                    ;
                }
                let q: u64 = (remaining as u64) * (ff as u64) / fsum;
                portion = if q > u32::MAX as u64 {
                    u32::MAX
                } else {
                    q as u32
                };
            }
            let cl = pass2_child_limits(env, portion);
            let node = child_entry(&items[i], &cl, mode);
            let m = axis.main_of(node.size());
            let c = axis.cross_of(node.size());
            left = sat_sub(left, portion);
            used = sat_add(used, m);
            cross = pix_max(cross, c);
            buf[i] = node;
            if ff > 0 {
                processed = processed + 1;
            }
            proof {
                let next = pass2_spec(*items, env, remaining, fsum, fcount as int, start, i + 1);
                assert(next.entries == prev.entries.update(i as int, next.entries[i as int]));
                assert forall|j: int| 0 <= j < n implies node_model(buf@[j]) == next.entries[j] by {
                    if j != i {
                        assert(next.entries[j] == prev.entries[j]);
                    }
                }
            }
        } else {
            proof {
                let next = pass2_spec(*items, env, remaining, fsum, fcount as int, start, i + 1);
                assert(next == prev);
            }
        }
        i = i + 1;
    }

    // Final size: content plus padding, clamped into the outer limits.
    let ghost p2 = pass2_spec(*items, env, remaining, fsum, fcount as int, start, n as int);
    proof {
        lemma_pass1_shape(*items, env, avail0, cross0, n as int);
        lemma_pass2_shape(*items, env, remaining, fsum, fcount as int, start, n as int);
    }
    let content_main = sat_add(used, ts);
    let raw = axis.pack(
        sat_add(content_main, axis.main_padding(padding)),
        sat_add(cross, axis.cross_padding(padding)),
    );
    let size = limits.clamp_size(raw);

    match mode {
        LayoutMode::MeasureSize => {
            let r = Node::from_size(size);
            proof {
                assert(node_model(r) == resolve_spec(
                    axis,
                    *limits,
                    padding,
                    spacing,
                    align_items,
                    *items,
                    mode,
                ));
            }
            r
        },
        LayoutMode::PerformLayout => {
            // Placement pass: position each child along the main axis and
            // align it on the cross axis.
            let cross_begin = axis.cross_start(padding);
            let main_begin = axis.main_start(padding);
            let crossv = cross;
            let mut out: Vec<Node> = Vec::new();
            let mut cursor: u32 = main_begin;
            i = 0;
            while i < n
                invariant
                    n == items@.len(),
                    i <= n,
                    buf@.len() == n,
                    out@.len() == i,
                    p2 == pass2_spec(*items, env, remaining, fsum, fcount as int, start, n as int),
                    p2.entries.len() == n,
                    cursor == place_spec(
                        axis,
                        align_items,
                        main_begin,
                        cross_begin,
                        spacing,
                        crossv,
                        p2.entries,
                        i as int,
                    ).cursor,
                    forall|j: int|
                        0 <= j < i ==> node_model(out@[j]) == place_spec(
                            axis,
                            align_items,
                            main_begin,
                            cross_begin,
                            spacing,
                            crossv,
                            p2.entries,
                            i as int,
                        ).out[j],
                    forall|j: int| i <= j < n ==> node_model(buf@[j]) == p2.entries[j],
                decreases n - i,
            {
                proof {
                    lemma_place_shape(
                        axis,
                        align_items,
                        main_begin,
                        cross_begin,
                        spacing,
                        crossv,
                        p2.entries,
                        i as int,
                    );
                }
                let ghost prev = place_spec(
                    axis,
                    align_items,
                    main_begin,
                    cross_begin,
                    spacing,
                    crossv,
                    p2.entries,
                    i as int,
                );
                if i > 0 {
                    cursor = sat_add(cursor, spacing);
                }
                let mut node = Node::from_size(Size::new(0, 0));
                let slot = vstd::std_specs::vec::vec_index_mut(&mut buf, i);
                core::mem::swap(&mut node, slot);
                let sz = node.size();
                let off = align_offset(align_items, crossv, axis.cross_of(sz));
                let pos = axis.pack_point(cursor, sat_add(cross_begin, off));
                let moved = node.move_to(pos);
                out.push(moved);
                cursor = sat_add(cursor, axis.main_of(sz));
                proof {
                    let next = place_spec(
                        axis,
                        align_items,
                        main_begin,
                        cross_begin,
                        spacing,
                        crossv,
                        p2.entries,
                        i + 1,
                    );
                    assert(next.out == prev.out.push(next.out[i as int]));
                    assert forall|j: int| 0 <= j < i + 1 implies node_model(out@[j]) == next.out[j] by {
                        if j < i {
                            assert(next.out[j] == prev.out[j]);
                        }
                    }
                }
                i = i + 1;
            }
            let r = Node::with_children(size, out);
            proof {
                let pl = place_spec(
                    axis,
                    align_items,
                    main_begin,
                    cross_begin,
                    spacing,
                    crossv,
                    p2.entries,
                    n as int,
                );
                lemma_place_shape(
                    axis,
                    align_items,
                    main_begin,
                    cross_begin,
                    spacing,
                    crossv,
                    p2.entries,
                    n as int,
                );
                lemma_nodes_model_index(r.children, n as int);
                assert(nodes_model(r.children, n as int) =~= pl.out);
                assert(node_model(r) == resolve_spec(
                    axis,
                    *limits,
                    padding,
                    spacing,
                    align_items,
                    *items,
                    mode,
                ));
            }
            r
        },
    }
}

} // verus!
