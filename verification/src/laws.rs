//! The library's laws: properties that hold across the operations, stated
//! and proved over the same models the operations' contracts use.

use vstd::prelude::*;
use vstd::arithmetic::div_mod::{lemma_fundamental_div_mod, lemma_mod_bound};
use crate::geometry::{Padding, Alignment, Axis, Point, main_of_spec, cross_of_spec,
    fill_factor_spec, padding_size_spec, sat_sub_spec};
use crate::limits::{Limits, limits_shrink_spec};
use crate::node::{Node, node_model, NodeModel};
use crate::widget::{Element, main_policy_spec, layout_spec};
use crate::flex::{FlexEnv, LayoutMode, Pass1, Pass2, pass1_spec, pass2_spec, portion_spec,
    total_spacing_spec, lemma_pass1_shape};
use crate::tree::{TreeModel, diff_spec, fresh_tree_spec, element_tag_spec, Tag,
    lemma_diff_children_index};
use crate::event::{Event, Status, on_event_spec, min3_spec, lemma_on_event_children_index};
use crate::interact::{Operation, operate_spec, operate_children_spec, lemma_operate_children_index};
use crate::geometry::{sat_add_spec, sat_add64_spec};
use crate::column::Column;

verus! {

/// The sum of the first `k` allotments.
pub open spec fn sum_u32(s: Seq<u32>, k: int) -> int
    decreases k,
{
    if k <= 0 || k > s.len() {
        0int
    } else {
        sum_u32(s, k - 1) + s[k - 1]
    }
}

/// The main-axis allotments the resolver hands the children: what each child
/// was measured or laid out under, in child order.
pub open spec fn allotments_spec(
    axis: Axis,
    l: Limits,
    padding: Padding,
    spacing: u32,
    align: Alignment,
    items: Vec<Element>,
    mode: LayoutMode,
) -> Seq<u32> {
    let n = items.len() as int;
    let inner = limits_shrink_spec(l, padding_size_spec(padding));
    let ts = total_spacing_spec(spacing, n);
    let avail0 = sat_sub_spec(main_of_spec(axis, inner.max), ts);
    let env = FlexEnv { axis, align, mode, max_cross: cross_of_spec(axis, inner.max) };
    let p1 = pass1_spec(items, env, avail0, cross_of_spec(axis, inner.min), n);
    let start = Pass2 {
        left: p1.avail,
        processed: 0int,
        used: p1.used,
        cross: p1.cross,
        entries: p1.entries,
        mains: p1.mains,
    };
    pass2_spec(items, env, p1.avail, p1.fill_sum, p1.fill_count, start, n).mains
}

proof fn lemma_all_fill_pass1(items: Vec<Element>, env: FlexEnv, avail0: u32, cross0: u32, k: int)
    requires
        0 <= k <= items.len(),
        forall|i: int|
            0 <= i < items.len() ==> fill_factor_spec(main_policy_spec(env.axis, items[i])) == 1,
    ensures
        pass1_spec(items, env, avail0, cross0, k).avail == avail0,
        pass1_spec(items, env, avail0, cross0, k).used == 0u32,
        pass1_spec(items, env, avail0, cross0, k).fill_sum == k as u64,
        pass1_spec(items, env, avail0, cross0, k).fill_count == k,
        pass1_spec(items, env, avail0, cross0, k).mains.len() == k,
        forall|i: int| 0 <= i < k ==> pass1_spec(items, env, avail0, cross0, k).mains[i] == 0u32,
    decreases k,
{
    if k > 0 {
        lemma_all_fill_pass1(items, env, avail0, cross0, k - 1);
    }
}

proof fn lemma_sum_constant(s: Seq<u32>, v: u32, k: int)
    requires
        0 <= k <= s.len(),
        forall|i: int| 0 <= i < k ==> s[i] == v,
    ensures
        sum_u32(s, k) == k * v,
    decreases k,
{
    if k > 0 {
        lemma_sum_constant(s, v, k - 1);
        assert(s[k - 1] == v);
        assert(sum_u32(s, k) == sum_u32(s, k - 1) + s[k - 1]);
        assert(k * v == (k - 1) * v + v) by (nonlinear_arith);
    } else {
        assert(k == 0);
        assert(k * v == 0) by (nonlinear_arith)
            requires
                k == 0,
        ;
    }
}

proof fn lemma_all_fill_pass2(
    items: Vec<Element>,
    env: FlexEnv,
    avail0: u32,
    start: Pass2,
    k: int,
)
    requires
        0 <= k < items.len(),
        forall|i: int|
            0 <= i < items.len() ==> fill_factor_spec(main_policy_spec(env.axis, items[i])) == 1,
        start.processed == 0,
        start.left == avail0,
        start.mains.len() == items.len(),
        forall|i: int| 0 <= i < items.len() ==> start.mains[i] == 0u32,
    ensures
        ({
            let n = items.len() as int;
            let q = avail0 as int / n;
            let p = pass2_spec(items, env, avail0, n as u64, n, start, k);
            &&& p.processed == k
            &&& p.left == avail0 - k * q
            &&& p.mains.len() == n
            &&& forall|i: int| 0 <= i < k ==> p.mains[i] == q as u32
            &&& forall|i: int| k <= i < n ==> p.mains[i] == 0u32
        }),
    decreases k,
{
    let n = items.len() as int;
    let q = avail0 as int / n;
    lemma_fundamental_div_mod(avail0 as int, n);
    lemma_mod_bound(avail0 as int, n);
    assert(0 <= q <= avail0) by (nonlinear_arith)
        requires
            avail0 as int == n * q + avail0 as int % n,
            0 <= avail0 as int % n < n,
            1 <= n,
            0 <= avail0,
    ;
    if k > 0 {
        lemma_all_fill_pass2(items, env, avail0, start, k - 1);
        let p = pass2_spec(items, env, avail0, n as u64, n, start, k - 1);
        // The child handled now is not the last: its share is the equal one.
        assert(portion_spec(avail0, 1u32, n as u64) == q as u32);
        // No saturation: what the earlier children took never exceeds the whole.
        assert(0 <= (k - 1) * q && k * q <= n * q && (k - 1) * q + q == k * q) by (nonlinear_arith)
            requires
                0 <= q,
                1 <= k <= n,
        ;
        assert(n * q <= avail0);
        assert(sat_sub_spec(p.left, q as u32) == avail0 - k * q);
    } else {
        assert(k == 0);
        assert(k * q == 0) by (nonlinear_arith)
            requires
                k == 0,
        ;
    }
}

/// For a container whose children all fill with equal weight one, and no
/// padding or spacing, the resolver allots every child but the last exactly
/// the equal share — the available space divided by the child count, rounded
/// down — the last child additionally absorbs the division remainder, and
/// the allotments sum to the available space exactly.
pub proof fn lemma_equal_fill_shares(
    axis: Axis,
    l: Limits,
    align: Alignment,
    items: Vec<Element>,
    mode: LayoutMode,
)
    requires
        items.len() >= 1,
        forall|i: int|
            0 <= i < items.len() ==> fill_factor_spec(main_policy_spec(axis, items[i])) == 1,
    ensures
        ({
            let n = items.len() as int;
            let total = main_of_spec(axis, l.max) as int;
            let a = allotments_spec(
                axis,
                l,
                Padding { top: 0u32, right: 0u32, bottom: 0u32, left: 0u32 },
                0u32,
                align,
                items,
                mode,
            );
            &&& a.len() == n
            &&& forall|i: int| 0 <= i < n - 1 ==> a[i] == (total / n) as u32
            &&& a[n - 1] == (total / n + total % n) as u32
            &&& sum_u32(a, n) == total
        }),
{
    let n = items.len() as int;
    let padding = Padding { top: 0u32, right: 0u32, bottom: 0u32, left: 0u32 };
    let inner = limits_shrink_spec(l, padding_size_spec(padding));
    assert(inner == l);
    let total = main_of_spec(axis, l.max);
    let avail0 = sat_sub_spec(total, total_spacing_spec(0u32, n));
    assert(avail0 == total);
    let env = FlexEnv { axis, align, mode, max_cross: cross_of_spec(axis, inner.max) };
    let cross0 = cross_of_spec(axis, inner.min);
    lemma_all_fill_pass1(items, env, avail0, cross0, n);
    lemma_pass1_shape(items, env, avail0, cross0, n);
    let p1 = pass1_spec(items, env, avail0, cross0, n);
    let start = Pass2 {
        left: p1.avail,
        processed: 0int,
        used: p1.used,
        cross: p1.cross,
        entries: p1.entries,
        mains: p1.mains,
    };
    let q = avail0 as int / n;
    let r = avail0 as int % n;
    lemma_fundamental_div_mod(avail0 as int, n);
    lemma_mod_bound(avail0 as int, n);
    assert(0 <= q <= avail0) by (nonlinear_arith)
        requires
            avail0 as int == n * q + r,
            0 <= r < n,
            1 <= n,
            0 <= avail0,
    ;
    lemma_all_fill_pass2(items, env, avail0, start, n - 1);
    let p = pass2_spec(items, env, avail0, n as u64, n, start, n - 1);
    // The last child absorbs everything that is left: the equal share plus
    // the remainder.
    assert(0 <= (n - 1) * q && (n - 1) * q + q == n * q) by (nonlinear_arith)
        requires
            0 <= q,
            1 <= n,
    ;
    assert(p.left == avail0 - (n - 1) * q);
    assert(p.left as int == q + r);
    let p2 = pass2_spec(items, env, avail0, n as u64, n, start, n);
    assert(p2.mains == p.mains.update(n - 1, p.left));
    let a = allotments_spec(axis, l, padding, 0u32, align, items, mode);
    assert(a == p2.mains);
    assert(forall|i: int| 0 <= i < n - 1 ==> a[i] == (q as u32));
    assert(a[n - 1] == (q + r) as u32);
    lemma_sum_constant(p2.mains, q as u32, n - 1);
    assert(sum_u32(a, n) == sum_u32(a, n - 1) + a[n - 1]);
    assert(sum_u32(a, n - 1) == (n - 1) * q) by {
        lemma_sum_constant(a, q as u32, n - 1);
    }
    assert((n - 1) * q + (q + r) == n * q + r) by (nonlinear_arith);
}

proof fn lemma_pass1_mode_agnostic(
    items: Vec<Element>,
    axis: Axis,
    align: Alignment,
    max_cross: u32,
    avail0: u32,
    cross0: u32,
    k: int,
)
    requires
        0 <= k <= items.len(),
    ensures
        ({
            let envm = FlexEnv { axis, align, mode: LayoutMode::MeasureSize, max_cross };
            let envl = FlexEnv { axis, align, mode: LayoutMode::PerformLayout, max_cross };
            let pm = pass1_spec(items, envm, avail0, cross0, k);
            let pl = pass1_spec(items, envl, avail0, cross0, k);
            &&& pm.avail == pl.avail
            &&& pm.cross == pl.cross
            &&& pm.fill_sum == pl.fill_sum
            &&& pm.fill_count == pl.fill_count
            &&& pm.used == pl.used
            &&& pm.entries.len() == k
            &&& pl.entries.len() == k
            &&& pm.mains == pl.mains
            &&& forall|i: int|
                0 <= i < k ==> crate::flex::node_size_spec(pm.entries[i])
                    == crate::flex::node_size_spec(pl.entries[i])
        }),
    decreases items, k,
{
    let envm = FlexEnv { axis, align, mode: LayoutMode::MeasureSize, max_cross };
    let envl = FlexEnv { axis, align, mode: LayoutMode::PerformLayout, max_cross };
    if k > 0 {
        lemma_pass1_mode_agnostic(items, axis, align, max_cross, avail0, cross0, k - 1);
        let pm = pass1_spec(items, envm, avail0, cross0, k - 1);
        let pl = pass1_spec(items, envl, avail0, cross0, k - 1);
        let pmk = pass1_spec(items, envm, avail0, cross0, k);
        let plk = pass1_spec(items, envl, avail0, cross0, k);
        let pol = main_policy_spec(axis, items[k - 1]);
        if !crate::geometry::is_portion_spec(pol) {
            let cl = crate::flex::pass1_child_limits_spec(envm, pm.avail);
            lemma_measure_agrees_with_layout(items[k - 1], cl);
            assert(cl == crate::flex::pass1_child_limits_spec(envl, pl.avail));
            let nm = crate::flex::child_entry_spec(items[k - 1], cl, LayoutMode::MeasureSize);
            let nl = crate::flex::child_entry_spec(items[k - 1], cl, LayoutMode::PerformLayout);
            assert(crate::flex::node_size_spec(nm) == crate::flex::node_size_spec(nl));
            assert(pmk.entries == pm.entries.push(nm));
            assert(plk.entries == pl.entries.push(nl));
        } else {
            assert(pmk.entries == pm.entries.push(crate::flex::empty_entry_spec()));
            assert(plk.entries == pl.entries.push(crate::flex::empty_entry_spec()));
        }
        assert forall|i: int|
            0 <= i < k implies crate::flex::node_size_spec(pmk.entries[i])
            == crate::flex::node_size_spec(plk.entries[i]) by {
            if i < k - 1 {
                assert(pmk.entries[i] == pm.entries[i]);
                assert(plk.entries[i] == pl.entries[i]);
            }
        }
    }
}

proof fn lemma_pass2_mode_agnostic(
    items: Vec<Element>,
    axis: Axis,
    align: Alignment,
    max_cross: u32,
    remaining: u32,
    fill_sum: u64,
    fill_count: int,
    startm: Pass2,
    startl: Pass2,
    k: int,
)
    requires
        0 <= k <= items.len(),
        startm.left == startl.left,
        startm.processed == startl.processed,
        startm.used == startl.used,
        startm.cross == startl.cross,
        startm.mains == startl.mains,
        startm.entries.len() == items.len(),
        startl.entries.len() == items.len(),
        forall|i: int|
            0 <= i < items.len() ==> crate::flex::node_size_spec(startm.entries[i])
                == crate::flex::node_size_spec(startl.entries[i]),
    ensures
        ({
            let envm = FlexEnv { axis, align, mode: LayoutMode::MeasureSize, max_cross };
            let envl = FlexEnv { axis, align, mode: LayoutMode::PerformLayout, max_cross };
            let pm = pass2_spec(items, envm, remaining, fill_sum, fill_count, startm, k);
            let pl = pass2_spec(items, envl, remaining, fill_sum, fill_count, startl, k);
            &&& pm.left == pl.left
            &&& pm.processed == pl.processed
            &&& pm.used == pl.used
            &&& pm.cross == pl.cross
            &&& pm.mains == pl.mains
            &&& pm.entries.len() == items.len()
            &&& pl.entries.len() == items.len()
            &&& forall|i: int|
                0 <= i < items.len() ==> crate::flex::node_size_spec(pm.entries[i])
                    == crate::flex::node_size_spec(pl.entries[i])
        }),
    decreases items, k,
{
    let envm = FlexEnv { axis, align, mode: LayoutMode::MeasureSize, max_cross };
    let envl = FlexEnv { axis, align, mode: LayoutMode::PerformLayout, max_cross };
    if k > 0 {
        lemma_pass2_mode_agnostic(
            items,
            axis,
            align,
            max_cross,
            remaining,
            fill_sum,
            fill_count,
            startm,
            startl,
            k - 1,
        );
        let pm = pass2_spec(items, envm, remaining, fill_sum, fill_count, startm, k - 1);
        let pl = pass2_spec(items, envl, remaining, fill_sum, fill_count, startl, k - 1);
        let pmk = pass2_spec(items, envm, remaining, fill_sum, fill_count, startm, k);
        let plk = pass2_spec(items, envl, remaining, fill_sum, fill_count, startl, k);
        let pol = main_policy_spec(axis, items[k - 1]);
        if crate::geometry::is_portion_spec(pol) {
            let ff = fill_factor_spec(pol);
            let portion = if ff == 0 {
                0u32
            } else if pm.processed + 1 == fill_count {
                pm.left
            } else {
                portion_spec(remaining, ff, fill_sum)
            };
            let cl = crate::flex::pass2_child_limits_spec(envm, portion);
            lemma_measure_agrees_with_layout(items[k - 1], cl);
            assert(cl == crate::flex::pass2_child_limits_spec(envl, portion));
            let nm = crate::flex::child_entry_spec(items[k - 1], cl, LayoutMode::MeasureSize);
            let nl = crate::flex::child_entry_spec(items[k - 1], cl, LayoutMode::PerformLayout);
            assert(crate::flex::node_size_spec(nm) == crate::flex::node_size_spec(nl));
            assert(pmk.entries == pm.entries.update(k - 1, nm));
            assert(plk.entries == pl.entries.update(k - 1, nl));
            assert forall|i: int|
                0 <= i < items.len() implies crate::flex::node_size_spec(pmk.entries[i])
                == crate::flex::node_size_spec(plk.entries[i]) by {
                if i != k - 1 {
                    assert(pmk.entries[i] == pm.entries[i]);
                    assert(plk.entries[i] == pl.entries[i]);
                }
            }
        }
    }
}

/// The two measurement passes agree: the intrinsic size an element reports
/// without committing to a layout is exactly the size of the layout it
/// commits to under the same limits, for every element and every window.
pub proof fn lemma_measure_agrees_with_layout(e: Element, l: Limits)
    ensures
        crate::widget::measure_spec(e, l) == crate::flex::node_size_spec(layout_spec(e, l)),
    decreases e, 5int,
{
    match e {
        Element::Leaf(_) => {
        },
        Element::Column(c) => {
            let nl = crate::widget::column_limits_spec(c, l);
            let n = c.children.len() as int;
            let inner = limits_shrink_spec(nl, padding_size_spec(c.padding));
            let ts = total_spacing_spec(c.spacing, n);
            let avail0 = sat_sub_spec(main_of_spec(Axis::Vertical, inner.max), ts);
            let max_cross = cross_of_spec(Axis::Vertical, inner.max);
            let cross0 = cross_of_spec(Axis::Vertical, inner.min);
            lemma_pass1_mode_agnostic(
                c.children,
                Axis::Vertical,
                c.align_items,
                max_cross,
                avail0,
                cross0,
                n,
            );
            let envm = FlexEnv {
                axis: Axis::Vertical,
                align: c.align_items,
                mode: LayoutMode::MeasureSize,
                max_cross,
            };
            let envl = FlexEnv {
                axis: Axis::Vertical,
                align: c.align_items,
                mode: LayoutMode::PerformLayout,
                max_cross,
            };
            let pm = pass1_spec(c.children, envm, avail0, cross0, n);
            let pl = pass1_spec(c.children, envl, avail0, cross0, n);
            let startm = Pass2 {
                left: pm.avail,
                processed: 0int,
                used: pm.used,
                cross: pm.cross,
                entries: pm.entries,
                mains: pm.mains,
            };
            let startl = Pass2 {
                left: pl.avail,
                processed: 0int,
                used: pl.used,
                cross: pl.cross,
                entries: pl.entries,
                mains: pl.mains,
            };
            lemma_pass2_mode_agnostic(
                c.children,
                Axis::Vertical,
                c.align_items,
                max_cross,
                pm.avail,
                pm.fill_sum,
                pm.fill_count,
                startm,
                startl,
                n,
            );
        },
    }
}

/// A node always honors the window its parent imposed: whatever the element
/// and however its children behave, the size of its committed layout — and
/// its reported intrinsic size — lie between the limits' minimum and
/// maximum, componentwise, and the node sits at the origin of its parent's
/// coordinate system until the parent places it.
pub proof fn lemma_layout_within_limits(e: Element, l: Limits)
    requires
        crate::limits::limits_wf(l),
    ensures
        l.min.width <= layout_spec(e, l).bounds.width <= l.max.width,
        l.min.height <= layout_spec(e, l).bounds.height <= l.max.height,
        layout_spec(e, l).bounds.x == 0u32,
        layout_spec(e, l).bounds.y == 0u32,
        l.min.width <= crate::widget::measure_spec(e, l).width <= l.max.width,
        l.min.height <= crate::widget::measure_spec(e, l).height <= l.max.height,
{
    match e {
        Element::Leaf(leaf) => {
            let nl = crate::limits::limits_height_spec(
                crate::limits::limits_width_spec(l, leaf.width),
                leaf.height,
            );
            assert(l.min.width <= nl.min.width <= nl.max.width <= l.max.width);
            assert(l.min.height <= nl.min.height <= nl.max.height <= l.max.height);
        },
        Element::Column(c) => {
            let nl = crate::widget::column_limits_spec(c, l);
            assert(l.min.width <= nl.min.width <= nl.max.width <= l.max.width);
            assert(l.min.height <= nl.min.height <= nl.max.height <= l.max.height);
        },
    }
}

/// Laying out an unchanged widget tree under unchanged limits twice yields
/// identical layout trees: the committed layout is a function of the widget
/// tree and the limits alone, so two runs agree node for node.
pub proof fn lemma_layout_deterministic(e: Element, l: Limits, n1: Node, n2: Node)
    requires
        node_model(n1) == layout_spec(e, l),
        node_model(n2) == layout_spec(e, l),
    ensures
        node_model(n1) == node_model(n2),
{
}

/// Event delivery in a container: every child within the zipped range is
/// dispatched exactly once — its state slot afterwards holds exactly its own
/// dispatch result, untouched by its siblings, whatever their outcomes — the
/// state of children beyond the range and the container's own state are
/// untouched, and the merged outcome is a capture exactly when some child
/// captured.
pub proof fn lemma_event_delivery(
    c: Column,
    t: TreeModel,
    nm: NodeModel,
    origin: Point,
    cursor: Point,
    ev: Event,
)
    ensures
        ({
            let inner = crate::event::abs_bounds_spec(nm, origin);
            let pos = Point { x: inner.x, y: inner.y };
            let m = min3_spec(
                c.children.len() as int,
                t.children.len() as int,
                nm.children.len() as int,
            );
            let out = on_event_spec(Element::Column(c), t, nm, origin, cursor, ev);
            &&& out.tree.children.len() == t.children.len()
            &&& out.tree.tag == t.tag
            &&& out.tree.state == t.state
            &&& forall|i: int|
                0 <= i < m ==> out.tree.children[i] == on_event_spec(
                    c.children[i],
                    t.children[i],
                    nm.children[i],
                    pos,
                    cursor,
                    ev,
                ).tree
            &&& forall|i: int|
                m <= i < t.children.len() ==> out.tree.children[i] == t.children[i]
            &&& (out.status == Status::Captured <==> exists|i: int|
                0 <= i < m && on_event_spec(
                    c.children[i],
                    t.children[i],
                    nm.children[i],
                    pos,
                    cursor,
                    ev,
                ).status == Status::Captured)
        }),
{
    let inner = crate::event::abs_bounds_spec(nm, origin);
    let pos = Point { x: inner.x, y: inner.y };
    let m = min3_spec(c.children.len() as int, t.children.len() as int, nm.children.len() as int);
    lemma_on_event_children_index(c.children, t.children, nm.children, pos, cursor, ev, m);
}

/// The operation traversal in a container: the container accounts for itself
/// exactly once, before any child; every child within the zipped range is
/// then visited exactly once, in child order, each zipped with its own state
/// subtree and its own layout node — its state slot afterwards holds exactly
/// its own visit's result, computed with the operation as the earlier
/// siblings left it — and the state of children beyond the range, like the
/// container's own state, is untouched.
pub proof fn lemma_operate_traversal(
    c: Column,
    t: TreeModel,
    nm: NodeModel,
    origin: Point,
    acc: Operation,
)
    ensures
        ({
            let pos = Point {
                x: sat_add_spec(origin.x, nm.bounds.x),
                y: sat_add_spec(origin.y, nm.bounds.y),
            };
            let started = Operation {
                containers: sat_add64_spec(acc.containers, 1u64),
                leaves: acc.leaves,
                target: acc.target,
                value: acc.value,
                found: acc.found,
            };
            let m = min3_spec(
                c.children.len() as int,
                t.children.len() as int,
                nm.children.len() as int,
            );
            let out = operate_spec(Element::Column(c), t, nm, origin, acc);
            &&& out.tree.tag == t.tag
            &&& out.tree.state == t.state
            &&& out.tree.children.len() == t.children.len()
            &&& forall|i: int|
                0 <= i < m ==> out.tree.children[i] == operate_spec(
                    c.children[i],
                    t.children[i],
                    nm.children[i],
                    pos,
                    operate_children_spec(c.children, t.children, nm.children, pos, started, i).op,
                ).tree
            &&& forall|i: int|
                m <= i < t.children.len() ==> out.tree.children[i] == t.children[i]
        }),
{
    let pos = Point {
        x: sat_add_spec(origin.x, nm.bounds.x),
        y: sat_add_spec(origin.y, nm.bounds.y),
    };
    let started = Operation {
        containers: sat_add64_spec(acc.containers, 1u64),
        leaves: acc.leaves,
        target: acc.target,
        value: acc.value,
        found: acc.found,
    };
    let m = min3_spec(c.children.len() as int, t.children.len() as int, nm.children.len() as int);
    lemma_operate_children_index(c.children, t.children, nm.children, pos, started, m);
}

/// Reconciling a state tree against a column with a different number of
/// children resizes the state to match: one state node per widget child,
/// trailing excess discarded, missing entries default-initialized, and the
/// state at every matched position is exactly the reconciliation of that
/// position alone — existing state content there is never disturbed by the
/// resize.
pub proof fn lemma_diff_reconciles(c: Column, t: TreeModel)
    requires
        t.tag == Tag::Column,
    ensures
        diff_spec(Element::Column(c), t).tag == t.tag,
        diff_spec(Element::Column(c), t).state == t.state,
        diff_spec(Element::Column(c), t).children.len() == c.children.len(),
        forall|i: int|
            0 <= i < c.children.len() && i < t.children.len() ==> diff_spec(
                Element::Column(c),
                t,
            ).children[i] == diff_spec(c.children[i], t.children[i]),
        forall|i: int|
            t.children.len() <= i < c.children.len() ==> diff_spec(Element::Column(c), t).children[i]
                == fresh_tree_spec(c.children[i]),
{
    assert(element_tag_spec(Element::Column(c)) == t.tag);
    lemma_diff_children_index(c.children, t.children, c.children.len() as int);
}

/// A matched state node keeps its content: reconciling a node of the same
/// kind never changes its state value.
pub proof fn lemma_diff_keeps_matched_state(e: Element, t: TreeModel)
    requires
        element_tag_spec(e) == t.tag,
    ensures
        diff_spec(e, t).state == t.state,
        diff_spec(e, t).tag == t.tag,
{
}

} // verus!
