use vstd::prelude::*;
use vstd::arithmetic::mul::lemma_mul_nonnegative;

verus! {

/// Axis along which a rectangle is partitioned into sub-rectangles.
#[derive(Clone, Copy, PartialEq, Eq, Structural, Debug)]
pub enum Axis {
    Horizontal,
    Vertical,
}

/// Sizing directive for one slot of a split: a fixed number of cells, a
/// minimum number of cells (expandable), or a percentage of the space that
/// remains once all fixed and minimum requests are reserved.
#[derive(Clone, Copy, PartialEq, Eq, Structural, Debug)]
pub enum Constraint {
    FixedLength(u16),
    Minimum(u16),
    PercentageOfRemainder(u16),
}

/// Axis-aligned rectangle in terminal-cell coordinates.
#[derive(Clone, Copy, PartialEq, Eq, Structural, Debug)]
pub struct Rect {
    pub x: u16,
    pub y: u16,
    pub width: u16,
    pub height: u16,
}

/// A requested layout does not fit the available surface.
#[derive(Clone, Copy, PartialEq, Eq, Structural, Debug)]
pub enum GeometryError {
    DoesNotFit,
}

/// A rectangle is well formed when its far edges stay representable in
/// terminal coordinates.
pub open spec fn rect_wf(r: Rect) -> bool {
    r.x + r.width <= u16::MAX && r.y + r.height <= u16::MAX
}

/// Extent of a rectangle along the given axis.
pub open spec fn axis_extent(r: Rect, axis: Axis) -> int {
    match axis {
        Axis::Horizontal => r.width as int,
        Axis::Vertical => r.height as int,
    }
}

/// Origin of a rectangle along the given axis.
pub open spec fn axis_origin(r: Rect, axis: Axis) -> int {
    match axis {
        Axis::Horizontal => r.x as int,
        Axis::Vertical => r.y as int,
    }
}

/// Number of cells a constraint reserves up front: fixed and minimum
/// requests reserve their size, percentages reserve nothing.
pub open spec fn request(c: Constraint) -> int {
    match c {
        Constraint::FixedLength(n) => n as int,
        Constraint::Minimum(n) => n as int,
        Constraint::PercentageOfRemainder(_) => 0,
    }
}

/// Sum of the reserved cells of a constraint sequence.
pub open spec fn requests_sum(cs: Seq<Constraint>) -> int
    decreases cs.len(),
{
    if cs.len() == 0 {
        0
    } else {
        requests_sum(cs.drop_last()) + request(cs.last())
    }
}

/// How many of the `left` still-unassigned remainder cells this constraint
/// takes: a percentage entry takes `rem * p / 100` rounded down, capped at
/// what is left; others take none.
pub open spec fn pct_spent(c: Constraint, rem: int, left: int) -> int {
    match c {
        Constraint::PercentageOfRemainder(p) => {
            let want = rem * p / 100;
            if want <= left {
                want
            } else {
                left
            }
        },
        _ => 0,
    }
}

/// Remainder cells still unassigned before the constraint at index `i` is
/// resolved (resolution runs left to right).
pub open spec fn pct_left_at(cs: Seq<Constraint>, rem: int, i: int) -> int
    decreases i,
{
    if i <= 0 {
        rem
    } else {
        let prev = pct_left_at(cs, rem, i - 1);
        prev - pct_spent(cs[i - 1], rem, prev)
    }
}

/// Cells allocated to index `i` before the final leftover is appended.
pub open spec fn base_alloc_at(cs: Seq<Constraint>, rem: int, i: int) -> int {
    request(cs[i]) + pct_spent(cs[i], rem, pct_left_at(cs, rem, i))
}

/// Sum of the base allocations of the first `i` entries.
pub open spec fn base_sum(cs: Seq<Constraint>, rem: int, i: int) -> int
    decreases i,
{
    if i <= 0 {
        0
    } else {
        base_sum(cs, rem, i - 1) + base_alloc_at(cs, rem, i - 1)
    }
}

/// Index of the last percentage entry, or -1 when there is none.
pub open spec fn last_pct(cs: Seq<Constraint>) -> int
    decreases cs.len(),
{
    if cs.len() == 0 {
        -1
    } else if cs.last() is PercentageOfRemainder {
        cs.len() - 1
    } else {
        last_pct(cs.drop_last())
    }
}

/// Index of the last minimum entry, or -1 when there is none.
pub open spec fn last_min(cs: Seq<Constraint>) -> int
    decreases cs.len(),
{
    if cs.len() == 0 {
        -1
    } else if cs.last() is Minimum {
        cs.len() - 1
    } else {
        last_min(cs.drop_last())
    }
}

/// The entry that absorbs the cells left after all allocations, so that the
/// sub-rectangles exactly tile the container: the last percentage entry if
/// any, else the last minimum entry if any, else the last entry.
pub open spec fn flex_index(cs: Seq<Constraint>) -> int {
    if last_pct(cs) >= 0 {
        last_pct(cs)
    } else if last_min(cs) >= 0 {
        last_min(cs)
    } else {
        cs.len() - 1
    }
}

/// Remainder cells never assigned to any percentage entry.
pub open spec fn leftover(cs: Seq<Constraint>, rem: int) -> int {
    pct_left_at(cs, rem, cs.len() as int)
}

/// Final extent of the slot at index `i`.
pub open spec fn extent_at(cs: Seq<Constraint>, rem: int, i: int) -> int {
    base_alloc_at(cs, rem, i) + if i == flex_index(cs) {
        leftover(cs, rem)
    } else {
        0
    }
}

/// Sum of the final extents of the first `i` slots; also the offset of slot
/// `i` from the container's origin.
pub open spec fn extents_sum(cs: Seq<Constraint>, rem: int, i: int) -> int
    decreases i,
{
    if i <= 0 {
        0
    } else {
        extents_sum(cs, rem, i - 1) + extent_at(cs, rem, i - 1)
    }
}

/// Remainder available to percentage entries: container extent minus the
/// reserved sum.
pub open spec fn remaining(container: Rect, axis: Axis, cs: Seq<Constraint>) -> int {
    axis_extent(container, axis) - requests_sum(cs)
}

/// The sub-rectangle at index `i` of a successful split: it spans the full
/// cross axis and occupies `extent_at` cells along the split axis, starting
/// where the previous slots end.
pub open spec fn split_rect_at(container: Rect, axis: Axis, cs: Seq<Constraint>, i: int) -> Rect {
    let rem = remaining(container, axis, cs);
    let off = extents_sum(cs, rem, i);
    let ext = extent_at(cs, rem, i);
    match axis {
        Axis::Horizontal => Rect {
            x: (container.x + off) as u16,
            y: container.y,
            width: ext as u16,
            height: container.height,
        },
        Axis::Vertical => Rect {
            x: container.x,
            y: (container.y + off) as u16,
            width: container.width,
            height: ext as u16,
        },
    }
}

/// The full result of a successful split.
pub open spec fn split_spec(container: Rect, axis: Axis, cs: Seq<Constraint>) -> Seq<Rect> {
    Seq::new(cs.len(), |i: int| split_rect_at(container, axis, cs, i))
}

proof fn lemma_requests_sum_step(cs: Seq<Constraint>, i: int)
    requires
        0 <= i < cs.len(),
    ensures
        requests_sum(cs.take(i + 1)) == requests_sum(cs.take(i)) + request(cs[i]),
{
    assert(cs.take(i + 1).drop_last() =~= cs.take(i));
    assert(cs.take(i + 1).last() == cs[i]);
}

proof fn lemma_requests_nonneg(cs: Seq<Constraint>, i: int)
    requires
        0 <= i <= cs.len(),
    ensures
        requests_sum(cs.take(i)) >= 0,
    decreases i,
{
    if i > 0 {
        lemma_requests_nonneg(cs, i - 1);
        lemma_requests_sum_step(cs, i - 1);
    } else {
        assert(cs.take(0) =~= Seq::<Constraint>::empty());
    }
}

proof fn lemma_pct_spent_bounds(c: Constraint, rem: int, left: int)
    requires
        rem >= 0,
        0 <= left <= rem,
    ensures
        0 <= pct_spent(c, rem, left) <= left,
{
    match c {
        Constraint::PercentageOfRemainder(p) => {
            lemma_mul_nonnegative(rem, p as int);
        },
        _ => {},
    }
}

proof fn lemma_pct_left_bounds(cs: Seq<Constraint>, rem: int, i: int)
    requires
        rem >= 0,
        0 <= i,
    ensures
        0 <= pct_left_at(cs, rem, i) <= rem,
    decreases i,
{
    if i > 0 {
        lemma_pct_left_bounds(cs, rem, i - 1);
        lemma_pct_spent_bounds(cs[i - 1], rem, pct_left_at(cs, rem, i - 1));
    }
}

proof fn lemma_base_alloc_nonneg(cs: Seq<Constraint>, rem: int, i: int)
    requires
        rem >= 0,
        0 <= i,
    ensures
        base_alloc_at(cs, rem, i) >= 0,
{
    lemma_pct_left_bounds(cs, rem, i);
    lemma_pct_spent_bounds(cs[i], rem, pct_left_at(cs, rem, i));
}

/// The base allocations account exactly for the reserved sum plus the
/// remainder cells spent on percentages so far.
proof fn lemma_base_sum_eq(cs: Seq<Constraint>, rem: int, i: int)
    requires
        rem >= 0,
        0 <= i <= cs.len(),
    ensures
        base_sum(cs, rem, i) == requests_sum(cs.take(i)) + rem - pct_left_at(cs, rem, i),
    decreases i,
{
    if i == 0 {
        assert(cs.take(0) =~= Seq::<Constraint>::empty());
    } else {
        lemma_base_sum_eq(cs, rem, i - 1);
        lemma_requests_sum_step(cs, i - 1);
    }
}

proof fn lemma_base_sum_monotone(cs: Seq<Constraint>, rem: int, i: int, j: int)
    requires
        rem >= 0,
        0 <= i <= j,
    ensures
        base_sum(cs, rem, i) <= base_sum(cs, rem, j),
    decreases j - i,
{
    if i < j {
        lemma_base_sum_monotone(cs, rem, i, j - 1);
        lemma_base_alloc_nonneg(cs, rem, j - 1);
    }
}

proof fn lemma_last_pct_props(cs: Seq<Constraint>)
    ensures
        -1 <= last_pct(cs) < cs.len(),
        last_pct(cs) >= 0 ==> cs[last_pct(cs)] is PercentageOfRemainder,
        -1 <= last_min(cs) < cs.len(),
        last_min(cs) >= 0 ==> cs[last_min(cs)] is Minimum,
    decreases cs.len(),
{
    if cs.len() > 0 {
        lemma_last_pct_props(cs.drop_last());
    }
}

/// The flex index is a valid index of any non-empty constraint sequence.
proof fn lemma_flex_index_in_range(cs: Seq<Constraint>)
    requires
        cs.len() > 0,
    ensures
        0 <= flex_index(cs) < cs.len(),
{
    lemma_last_pct_props(cs);
}

proof fn lemma_extents_sum_eq(cs: Seq<Constraint>, rem: int, i: int)
    requires
        rem >= 0,
        0 <= i <= cs.len(),
        cs.len() > 0,
    ensures
        extents_sum(cs, rem, i) == base_sum(cs, rem, i) + if flex_index(cs) < i {
            leftover(cs, rem)
        } else {
            0
        },
    decreases i,
{
    lemma_flex_index_in_range(cs);
    if i > 0 {
        lemma_extents_sum_eq(cs, rem, i - 1);
    }
}

/// The final extents of a split sum to the container's full extent: the
/// sub-rectangles leave no gap.
proof fn lemma_extents_total(cs: Seq<Constraint>, rem: int)
    requires
        rem >= 0,
        cs.len() > 0,
    ensures
        extents_sum(cs, rem, cs.len() as int) == requests_sum(cs) + rem,
{
    let n = cs.len() as int;
    lemma_extents_sum_eq(cs, rem, n);
    lemma_base_sum_eq(cs, rem, n);
    lemma_flex_index_in_range(cs);
    lemma_pct_left_bounds(cs, rem, n);
    assert(cs.take(n) =~= cs);
}

proof fn lemma_extents_sum_monotone(cs: Seq<Constraint>, rem: int, i: int, j: int)
    requires
        rem >= 0,
        0 <= i <= j <= cs.len(),
        cs.len() > 0,
    ensures
        extents_sum(cs, rem, i) <= extents_sum(cs, rem, j),
    decreases j - i,
{
    if i < j {
        lemma_extents_sum_monotone(cs, rem, i, j - 1);
        lemma_extent_nonneg(cs, rem, j - 1);
    }
}

proof fn lemma_extent_nonneg(cs: Seq<Constraint>, rem: int, i: int)
    requires
        rem >= 0,
        0 <= i,
    ensures
        extent_at(cs, rem, i) >= 0,
{
    lemma_base_alloc_nonneg(cs, rem, i);
    lemma_pct_left_bounds(cs, rem, cs.len() as int);
}

proof fn lemma_last_step(cs: Seq<Constraint>, i: int)
    requires
        0 <= i < cs.len(),
    ensures
        last_pct(cs.take(i + 1)) == if cs[i] is PercentageOfRemainder {
            i
        } else {
            last_pct(cs.take(i))
        },
        last_min(cs.take(i + 1)) == if cs[i] is Minimum {
            i
        } else {
            last_min(cs.take(i))
        },
{
    assert(cs.take(i + 1).drop_last() =~= cs.take(i));
    assert(cs.take(i + 1).last() == cs[i]);
}

/// Each slot, and each prefix of slots, stays within the container's
/// extent.
proof fn lemma_slot_bounds(cs: Seq<Constraint>, rem: int, i: int)
    requires
        rem >= 0,
        0 <= i < cs.len(),
        requests_sum(cs) >= 0,
    ensures
        extents_sum(cs, rem, i) >= 0,
        extents_sum(cs, rem, i) + extent_at(cs, rem, i) <= requests_sum(cs) + rem,
        extents_sum(cs, rem, i) + extent_at(cs, rem, i) == extents_sum(cs, rem, i + 1),
{
    let n = cs.len() as int;
    lemma_extents_sum_monotone(cs, rem, 0, i);
    lemma_extents_sum_monotone(cs, rem, i + 1, n);
    lemma_extents_total(cs, rem);
}


/// Partition `container` along `axis` into one sub-rectangle per
/// constraint. Fixed and minimum sizes are reserved first; each percentage
/// entry then receives `remaining * p / 100` cells rounded down, capped at
/// what is still unassigned; the cells left over go to the flex entry so
/// that the sub-rectangles exactly tile the container. Fails exactly when
/// the container is smaller than the sum of fixed and minimum requests,
/// producing no rectangles at all.
pub fn split(container: Rect, axis: Axis, constraints: &Vec<Constraint>) -> (r: Result<
    Vec<Rect>,
    GeometryError,
>)
    requires
        rect_wf(container),
    ensures
        r is Ok <==> requests_sum(constraints@) <= axis_extent(container, axis),
        r matches Ok(rects) ==> rects@ == split_spec(container, axis, constraints@),
{
    let cs = constraints;
    let n = cs.len();
    let extent: u16 = match axis {
        Axis::Horizontal => container.width,
        Axis::Vertical => container.height,
    };

    // Reserved sum of fixed and minimum requests, capped at extent + 1 so
    // that the accumulator stays small while still deciding the fit.
    let mut sum: u32 = 0;
    let mut i: usize = 0;
    while i < n
        invariant
            i <= n,
            n == cs@.len(),
            extent as int == axis_extent(container, axis),
            sum as int == (if requests_sum(cs@.take(i as int)) <= extent as int + 1 {
                requests_sum(cs@.take(i as int))
            } else {
                extent as int + 1
            }),
            sum <= extent as u32 + 1,
        decreases n - i,
    {
        let req: u16 = match cs[i] {
            Constraint::FixedLength(v) => v,
            Constraint::Minimum(v) => v,
            Constraint::PercentageOfRemainder(_) => 0,
        };
        proof {
            lemma_requests_sum_step(cs@, i as int);
        }
        let cand: u32 = sum + req as u32;
        sum = if cand > extent as u32 + 1 {
            extent as u32 + 1
        } else {
            cand
        };
        i += 1;
    }
    proof {
        assert(cs@.take(n as int) =~= cs@);
        lemma_requests_nonneg(cs@, n as int);
    }
    if sum > extent as u32 {
        return Err(GeometryError::DoesNotFit);
    }
    if n == 0 {
        let rects: Vec<Rect> = Vec::new();
        proof {
            assert(rects@ =~= split_spec(container, axis, cs@));
        }
        return Ok(rects);
    }
    let rem: u16 = extent - (sum as u16);
    let ghost remg: int = rem as int;
    proof {
        assert(remg == remaining(container, axis, cs@));
    }

    // Base allocation per slot, resolving left to right, while tracking the
    // last percentage and last minimum entries seen.
    let mut ext: Vec<u16> = Vec::new();
    let mut pl: u16 = rem;
    let mut lp: usize = n;
    let mut lm: usize = n;
    let mut i: usize = 0;
    while i < n
        invariant
            i <= n,
            n == cs@.len(),
            n > 0,
            rem <= extent,
            pl as int == pct_left_at(cs@, remg, i as int),
            pl <= rem,
            remg == rem as int,
            ext@.len() == i,
            forall|j: int| 0 <= j < i ==> ext@[j] as int == base_alloc_at(cs@, remg, j),
            (lp == n && last_pct(cs@.take(i as int)) == -1) || (lp < i && lp as int == last_pct(
                cs@.take(i as int),
            )),
            (lm == n && last_min(cs@.take(i as int)) == -1) || (lm < i && lm as int == last_min(
                cs@.take(i as int),
            )),
        decreases n - i,
    {
        proof {
            lemma_last_step(cs@, i as int);
            lemma_pct_left_bounds(cs@, remg, i as int);
            lemma_pct_spent_bounds(cs@[i as int], remg, pl as int);
            if i == 0 {
                assert(cs@.take(0) =~= Seq::<Constraint>::empty());
            }
        }
        match cs[i] {
            Constraint::FixedLength(v) => {
                ext.push(v);
            },
            Constraint::Minimum(v) => {
                ext.push(v);
                lm = i;
            },
            Constraint::PercentageOfRemainder(p) => {
                proof {
                    assert((rem as int) * (p as int) <= 65535 * 65535) by (nonlinear_arith)
                        requires
                            0 <= rem <= 65535,
                            0 <= p <= 65535,
                    ;
                }
                let want: u32 = (rem as u32) * (p as u32) / 100;
                let alloc: u16 = if want >= pl as u32 {
                    pl
                } else {
                    want as u16
                };
                pl = pl - alloc;
                ext.push(alloc);
                lp = i;
            },
        }
        i += 1;
    }
    proof {
        assert(cs@.take(n as int) =~= cs@);
    }

    // The flex entry absorbs every cell still unassigned, so the slots tile
    // the container exactly.
    let fx: usize = if lp < n {
        lp
    } else if lm < n {
        lm
    } else {
        n - 1
    };
    proof {
        lemma_flex_index_in_range(cs@);
        assert(fx as int == flex_index(cs@));
        lemma_base_sum_eq(cs@, remg, n as int);
        lemma_base_sum_monotone(cs@, remg, 0, fx as int);
        lemma_base_sum_monotone(cs@, remg, fx as int + 1, n as int);
        lemma_base_alloc_nonneg(cs@, remg, fx as int);
        lemma_pct_left_bounds(cs@, remg, n as int);
        assert(base_alloc_at(cs@, remg, fx as int) + pl as int <= extent as int);
    }
    let cur: u16 = ext[fx];
    ext.set(fx, cur + pl);
    let ghost extf = ext@;
    proof {
        assert(forall|j: int| 0 <= j < n ==> extf[j] as int == extent_at(cs@, remg, j));
    }

    // Lay the slots out along the axis, each starting where the previous
    // one ends.
    let origin: u16 = match axis {
        Axis::Horizontal => container.x,
        Axis::Vertical => container.y,
    };
    let mut rects: Vec<Rect> = Vec::new();
    let mut pos: u16 = origin;
    let mut i: usize = 0;
    while i < n
        invariant
            i <= n,
            n == cs@.len(),
            n > 0,
            rect_wf(container),
            extent as int == axis_extent(container, axis),
            origin as int == axis_origin(container, axis),
            requests_sum(cs@) + remg == extent as int,
            requests_sum(cs@) >= 0,
            remg >= 0,
            ext@ == extf,
            ext@.len() == n,
            forall|j: int| 0 <= j < n ==> extf[j] as int == extent_at(cs@, remg, j),
            pos as int == origin as int + extents_sum(cs@, remg, i as int),
            rects@.len() == i,
            forall|j: int| 0 <= j < i ==> rects@[j] == split_rect_at(container, axis, cs@, j),
        decreases n - i,
    {
        proof {
            lemma_slot_bounds(cs@, remg, i as int);
            lemma_extent_nonneg(cs@, remg, i as int);
        }
        let e: u16 = ext[i];
        let rect = match axis {
            Axis::Horizontal => Rect { x: pos, y: container.y, width: e, height: container.height },
            Axis::Vertical => Rect { x: container.x, y: pos, width: container.width, height: e },
        };
        rects.push(rect);
        pos = pos + e;
        i += 1;
    }
    proof {
        assert(rects@ =~= split_spec(container, axis, cs@));
    }
    Ok(rects)
}


/// `inner` lies fully inside `outer`.
pub open spec fn rect_contains(outer: Rect, inner: Rect) -> bool {
    outer.x <= inner.x && inner.x + inner.width <= outer.x + outer.width && outer.y <= inner.y
        && inner.y + inner.height <= outer.y + outer.height
}

/// Sum of the extents of a sequence of rectangles along an axis.
pub open spec fn rects_extent_sum(rs: Seq<Rect>, axis: Axis) -> int
    decreases rs.len(),
{
    if rs.len() == 0 {
        0
    } else {
        rects_extent_sum(rs.drop_last(), axis) + axis_extent(rs.last(), axis)
    }
}

proof fn lemma_no_truncation(container: Rect, axis: Axis, cs: Seq<Constraint>, i: int)
    requires
        rect_wf(container),
        cs.len() > 0,
        0 <= i < cs.len(),
        requests_sum(cs) <= axis_extent(container, axis),
    ensures
        ({
            let rem = remaining(container, axis, cs);
            axis_origin(split_rect_at(container, axis, cs, i), axis) == axis_origin(container, axis)
                + extents_sum(cs, rem, i) && axis_extent(split_rect_at(container, axis, cs, i), axis)
                == extent_at(cs, rem, i) && 0 <= extents_sum(cs, rem, i) && extents_sum(cs, rem, i)
                + extent_at(cs, rem, i) <= axis_extent(container, axis)
        }),
{
    let rem = remaining(container, axis, cs);
    let n = cs.len() as int;
    assert(cs.take(n) =~= cs);
    lemma_requests_nonneg(cs, n);
    lemma_slot_bounds(cs, rem, i);
    lemma_extent_nonneg(cs, rem, i);
}

proof fn lemma_rects_sum(container: Rect, axis: Axis, cs: Seq<Constraint>, i: int)
    requires
        rect_wf(container),
        cs.len() > 0,
        0 <= i <= cs.len(),
        requests_sum(cs) <= axis_extent(container, axis),
    ensures
        rects_extent_sum(split_spec(container, axis, cs).take(i), axis) == extents_sum(
            cs,
            remaining(container, axis, cs),
            i,
        ),
    decreases i,
{
    let rs = split_spec(container, axis, cs);
    if i == 0 {
        assert(rs.take(0) =~= Seq::<Rect>::empty());
    } else {
        lemma_rects_sum(container, axis, cs, i - 1);
        lemma_no_truncation(container, axis, cs, i - 1);
        assert(rs.take(i).drop_last() =~= rs.take(i - 1));
        assert(rs.take(i).last() == rs[i - 1]);
    }
}

/// Law: for any well-formed container and any non-empty constraint
/// sequence whose fixed/minimum sum fits the container's extent, the split
/// exactly tiles the container: the extents sum to the container's extent,
/// the first sub-rectangle starts at the container's origin, each next one
/// starts exactly where the previous ends, the last one ends at the
/// container's far edge, earlier sub-rectangles end before later ones
/// begin (no overlap), and every sub-rectangle is well formed, spans the
/// full cross axis, and lies inside the container (no gaps, no overlaps).
pub proof fn lemma_split_tiles(container: Rect, axis: Axis, cs: Seq<Constraint>)
    requires
        rect_wf(container),
        cs.len() > 0,
        requests_sum(cs) <= axis_extent(container, axis),
    ensures
        ({
            let rs = split_spec(container, axis, cs);
            rs.len() == cs.len() && rects_extent_sum(rs, axis) == axis_extent(container, axis)
                && axis_origin(rs[0], axis) == axis_origin(container, axis) && (forall|i: int|
                0 <= i < rs.len() - 1 ==> axis_origin(rs[i + 1], axis) == axis_origin(rs[i], axis)
                    + axis_extent(rs[i], axis)) && axis_origin(rs[rs.len() - 1], axis)
                + axis_extent(rs[rs.len() - 1], axis) == axis_origin(container, axis) + axis_extent(
                container,
                axis,
            ) && (forall|i: int, j: int|
                0 <= i < j < rs.len() ==> axis_origin(rs[i], axis) + axis_extent(rs[i], axis)
                    <= axis_origin(rs[j], axis)) && (forall|i: int|
                0 <= i < rs.len() ==> rect_wf(rs[i]) && rect_contains(container, rs[i]))
        }),
{
    let rs = split_spec(container, axis, cs);
    let rem = remaining(container, axis, cs);
    let n = cs.len() as int;
    assert(cs.take(n) =~= cs);
    lemma_requests_nonneg(cs, n);
    lemma_extents_total(cs, rem);
    lemma_rects_sum(container, axis, cs, n);
    assert(rs.take(n) =~= rs);
    assert forall|i: int| 0 <= i < rs.len() - 1 implies axis_origin(rs[i + 1], axis) == axis_origin(
        rs[i],
        axis,
    ) + axis_extent(rs[i], axis) by {
        lemma_no_truncation(container, axis, cs, i);
        lemma_no_truncation(container, axis, cs, i + 1);
    }
    lemma_no_truncation(container, axis, cs, 0);
    lemma_no_truncation(container, axis, cs, n - 1);
    assert forall|i: int, j: int|
        0 <= i < j < rs.len() implies axis_origin(rs[i], axis) + axis_extent(rs[i], axis)
        <= axis_origin(rs[j], axis) by {
        lemma_no_truncation(container, axis, cs, i);
        lemma_no_truncation(container, axis, cs, j);
        lemma_extents_sum_monotone(cs, rem, i + 1, j);
    }
    assert forall|i: int| 0 <= i < rs.len() implies rect_wf(rs[i]) && rect_contains(
        container,
        rs[i],
    ) by {
        lemma_no_truncation(container, axis, cs, i);
    }
}

} // verus!
