//! Viewport rectangles and exact point-to-rectangle distance.
//!
//! World positions are integers in a caller-chosen unit. A viewport
//! rectangle is stored in *doubled* coordinates (twice the world
//! coordinate), so that a rectangle of any integral width and height can
//! be centered exactly on an integral position: the left edge of a
//! rectangle of width `w` centered on `cx` sits at `cx - w/2`, which is
//! the integer `2*cx - w` in doubled coordinates.
//!
//! Distances are reported as the square of the doubled Euclidean
//! distance: for a true distance `d` the reported value is `(2*d)^2`.
//! Squaring and doubling are strictly monotonic on non-negative values,
//! so comparisons against a threshold `t` are exact: `d <= t` holds if
//! and only if the reported value is at most `4*t*t`.

use vstd::prelude::*;

verus! {

/// Largest world coordinate magnitude (and largest viewport dimension
/// and follow threshold) the library accepts; keeps every intermediate
/// distance computation far from overflow.
pub const COORD_LIMIT: i64 = 1_000_000_000;

/// A world coordinate the library can do exact geometry on.
pub open spec fn in_world(v: int) -> bool {
    -COORD_LIMIT <= v <= COORD_LIMIT
}

/// A usable viewport dimension: positive and bounded.
pub open spec fn valid_dim(v: int) -> bool {
    0 < v <= COORD_LIMIT
}

/// Axis-aligned viewport rectangle. All four fields are in doubled
/// world coordinates: the rectangle covers world points `(x, y)` with
/// `x2 <= 2*x <= x2 + w2` and `y2 <= 2*y <= y2 + h2`.
#[derive(Clone, Copy, Debug, PartialEq, Eq, Structural)]
pub struct Rect {
    pub x2: i64,
    pub y2: i64,
    pub w2: i64,
    pub h2: i64,
}

/// A rectangle the distance computation accepts: positive bounded size,
/// edges within the (doubled) world bounds.
pub open spec fn rect_wf(r: Rect) -> bool {
    &&& 0 < r.w2 <= 2 * COORD_LIMIT
    &&& 0 < r.h2 <= 2 * COORD_LIMIT
    &&& -3 * COORD_LIMIT <= r.x2
    &&& r.x2 + r.w2 <= 3 * COORD_LIMIT
    &&& -3 * COORD_LIMIT <= r.y2
    &&& r.y2 + r.h2 <= 3 * COORD_LIMIT
}

/// The rectangle of size `w` by `h` centered on `(cx, cy)`, in doubled
/// coordinates.
pub open spec fn viewport_rect_spec(cx: int, cy: int, w: int, h: int) -> Rect {
    Rect {
        x2: (2 * cx - w) as i64,
        y2: (2 * cy - h) as i64,
        w2: (2 * w) as i64,
        h2: (2 * h) as i64,
    }
}

/// Distance from the (already doubled) coordinate `p2` to the closed
/// interval `[lo2, lo2 + len2]`; zero inside the interval.
pub open spec fn axis_gap(p2: int, lo2: int, len2: int) -> int {
    if p2 < lo2 {
        lo2 - p2
    } else if p2 > lo2 + len2 {
        p2 - (lo2 + len2)
    } else {
        0
    }
}

/// `(px, py)` lies inside or on the boundary of `r`.
pub open spec fn point_in_rect(px: int, py: int, r: Rect) -> bool {
    &&& r.x2 <= 2 * px <= r.x2 + r.w2
    &&& r.y2 <= 2 * py <= r.y2 + r.h2
}

/// Squared doubled Euclidean distance from the world point `(px, py)`
/// to the closest point of `r` (boundary or interior): `(2*d)^2` for
/// the true point-to-rectangle distance `d`.
pub open spec fn dist_sq(px: int, py: int, r: Rect) -> int {
    let dx = axis_gap(2 * px, r.x2 as int, r.w2 as int);
    let dy = axis_gap(2 * py, r.y2 as int, r.h2 as int);
    dx * dx + dy * dy
}

/// Builds the viewport rectangle of the given fixed size centered on a
/// position; pure and total on bounded inputs.
pub fn viewport_rect(cx: i64, cy: i64, w: i64, h: i64) -> (r: Rect)
    requires
        in_world(cx as int),
        in_world(cy as int),
        valid_dim(w as int),
        valid_dim(h as int),
    ensures
        r == viewport_rect_spec(cx as int, cy as int, w as int, h as int),
        r.x2 == 2 * cx - w,
        r.y2 == 2 * cy - h,
        r.w2 == 2 * w,
        r.h2 == 2 * h,
        rect_wf(r),
{
    Rect { x2: 2 * cx - w, y2: 2 * cy - h, w2: 2 * w, h2: 2 * h }
}

/// Squared doubled Euclidean distance from a point to a rectangle;
/// exactly zero when the point lies inside or on the rectangle and
/// strictly positive otherwise.
pub fn point_to_rect_distance_sq(px: i64, py: i64, r: &Rect) -> (d: u128)
    requires
        in_world(px as int),
        in_world(py as int),
        rect_wf(*r),
    ensures
        d == dist_sq(px as int, py as int, *r),
        d == 0 <==> point_in_rect(px as int, py as int, *r),
{
    let px2: i64 = 2 * px;
    let py2: i64 = 2 * py;
    let dx: i64 = if px2 < r.x2 {
        r.x2 - px2
    } else if px2 > r.x2 + r.w2 {
        px2 - (r.x2 + r.w2)
    } else {
        0
    };
    let dy: i64 = if py2 < r.y2 {
        r.y2 - py2
    } else if py2 > r.y2 + r.h2 {
        py2 - (r.y2 + r.h2)
    } else {
        0
    };
    proof {
        lemma_distance_zero_iff_inside(px as int, py as int, *r);
        assert((dx * dx + dy * dy) as int == dist_sq(px as int, py as int, *r));
        assert(0 <= dx * dx <= 25 * COORD_LIMIT * COORD_LIMIT) by (nonlinear_arith)
            requires 0 <= dx <= 5 * COORD_LIMIT, COORD_LIMIT == 1_000_000_000i64;
        assert(0 <= dy * dy <= 25 * COORD_LIMIT * COORD_LIMIT) by (nonlinear_arith)
            requires 0 <= dy <= 5 * COORD_LIMIT, COORD_LIMIT == 1_000_000_000i64;
    }
    let dxu: u128 = dx as u128;
    let dyu: u128 = dy as u128;
    dxu * dxu + dyu * dyu
}

/// The distance law: the squared distance is zero exactly on the points
/// inside or on the rectangle, and strictly positive strictly outside.
pub proof fn lemma_distance_zero_iff_inside(px: int, py: int, r: Rect)
    ensures
        dist_sq(px, py, r) == 0 <==> point_in_rect(px, py, r),
        !point_in_rect(px, py, r) ==> dist_sq(px, py, r) > 0,
        dist_sq(px, py, r) >= 0,
{
    let dx = axis_gap(2 * px, r.x2 as int, r.w2 as int);
    let dy = axis_gap(2 * py, r.y2 as int, r.h2 as int);
    assert(dx >= 0 && dy >= 0);
    assert(dx * dx >= 0 && dy * dy >= 0) by (nonlinear_arith)
        requires dx >= 0, dy >= 0;
    assert((dx * dx + dy * dy == 0) <==> (dx == 0 && dy == 0)) by (nonlinear_arith)
        requires dx >= 0, dy >= 0;
    assert(point_in_rect(px, py, r) <==> (dx == 0 && dy == 0));
    assert(dist_sq(px, py, r) == dx * dx + dy * dy);
}

} // verus!
