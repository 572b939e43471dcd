//! Integer geometry: points, axis-aligned boxes, overlap tests, and the
//! entry-face test for a ray cast from a point toward a box's center.

use vstd::prelude::*;

verus! {

/// Coordinates handed to the geometry routines stay within this many
/// milliunits of the origin, so that the cross-multiplied entry-time
/// comparison below cannot overflow.
pub const GEOM_LIMIT: i64 = 8_000_000_000_000;

/// A point or a velocity on the milliunit grid.
#[derive(Clone, Copy, Debug, PartialEq, Eq, Structural)]
pub struct Vec2 {
    pub x: i64,
    pub y: i64,
}

/// An axis-aligned box, closed on all four sides.  A degenerate box with
/// `min == max` along an axis is a segment, which is how the court borders
/// are stored.
#[derive(Clone, Copy, Debug, PartialEq, Eq, Structural)]
pub struct Aabb {
    pub min_x: i64,
    pub min_y: i64,
    pub max_x: i64,
    pub max_y: i64,
}

/// Two closed boxes share at least one point; touching edges count.
pub open spec fn boxes_touch(
    a_min_x: int,
    a_min_y: int,
    a_max_x: int,
    a_max_y: int,
    b_min_x: int,
    b_min_y: int,
    b_max_x: int,
    b_max_y: int,
) -> bool {
    a_min_x <= b_max_x && b_min_x <= a_max_x && a_min_y <= b_max_y && b_min_y <= a_max_y
}

/// `boxes_touch` applied to two stored boxes.
pub open spec fn aabbs_touch(a: Aabb, b: Aabb) -> bool {
    boxes_touch(
        a.min_x as int,
        a.min_y as int,
        a.max_x as int,
        a.max_y as int,
        b.min_x as int,
        b.min_y as int,
        b.max_x as int,
        b.max_y as int,
    )
}

/// The point sits on or beyond the box's extent along x.
pub open spec fn outside_x(min_x: int, max_x: int, px: int) -> bool {
    px <= min_x || px >= max_x
}

/// The point sits on or beyond the box's extent along y.
pub open spec fn outside_y(min_y: int, max_y: int, py: int) -> bool {
    py <= min_y || py >= max_y
}

/// How far the point sits beyond the nearer wall of the `[minv, maxv]` slab
/// (meaningful only when the point is on or outside the slab).
pub open spec fn axis_gap(minv: int, maxv: int, p: int) -> int {
    if p >= maxv {
        p - maxv
    } else {
        minv - p
    }
}

/// Twice the distance from the point to the slab's midpoint.
pub open spec fn axis_reach(minv: int, maxv: int, p: int) -> int {
    let d: int = minv + maxv - 2 * p;
    if d < 0 {
        -d
    } else {
        d
    }
}

/// A ray cast from `(px, py)` toward the center of the box enters the box
/// through one of its two vertical faces.  Following the slab method, the
/// entry axis is the one whose slab is crossed last; a tie means the ray
/// passes exactly through a corner, which counts for neither face, and a
/// start point strictly inside the box has no entry face at all.
pub open spec fn enters_vertical_face(
    min_x: int,
    min_y: int,
    max_x: int,
    max_y: int,
    px: int,
    py: int,
) -> bool {
    outside_x(min_x, max_x, px) && (
        (min_y < py && py < max_y)
        || axis_gap(min_x, max_x, px) * axis_reach(min_y, max_y, py)
            > axis_gap(min_y, max_y, py) * axis_reach(min_x, max_x, px)
    )
}

/// The ray toward the center enters through the face whose outward normal
/// points in `+x`: the box's right-hand face.
pub open spec fn enters_right_face(
    min_x: int,
    min_y: int,
    max_x: int,
    max_y: int,
    px: int,
    py: int,
) -> bool {
    px >= max_x && enters_vertical_face(min_x, min_y, max_x, max_y, px, py)
}

/// The ray toward the center enters through the face whose outward normal
/// points in `-x`: the box's left-hand face.
pub open spec fn enters_left_face(
    min_x: int,
    min_y: int,
    max_x: int,
    max_y: int,
    px: int,
    py: int,
) -> bool {
    px <= min_x && enters_vertical_face(min_x, min_y, max_x, max_y, px, py)
}

/// Every coordinate of the box lies within `lim` of the origin.
pub open spec fn aabb_within(b: Aabb, lim: int) -> bool {
    &&& -lim <= b.min_x <= lim
    &&& -lim <= b.min_y <= lim
    &&& -lim <= b.max_x <= lim
    &&& -lim <= b.max_y <= lim
}

/// Closed-box overlap test, the same test the borrowed boxes' `intersects`
/// would make: touching counts.
pub fn intersects(a: &Aabb, b: &Aabb) -> (r: bool)
    ensures
        r == aabbs_touch(*a, *b),
{
    a.min_x <= b.max_x && b.min_x <= a.max_x && a.min_y <= b.max_y && b.min_y <= a.max_y
}

/// Decides `enters_vertical_face` for a stored box, comparing the two slab
/// entry times by cross-multiplication in 128-bit arithmetic.
pub fn ray_enters_vertical_face(b: &Aabb, px: i64, py: i64) -> (r: bool)
    requires
        aabb_within(*b, GEOM_LIMIT as int),
        -GEOM_LIMIT <= px <= GEOM_LIMIT,
        -GEOM_LIMIT <= py <= GEOM_LIMIT,
    ensures
        r == enters_vertical_face(
            b.min_x as int,
            b.min_y as int,
            b.max_x as int,
            b.max_y as int,
            px as int,
            py as int,
        ),
{
    if !(px <= b.min_x || px >= b.max_x) {
        return false;
    }
    if b.min_y < py && py < b.max_y {
        return true;
    }
    let gx: i64 = if px >= b.max_x {
        px - b.max_x
    } else {
        b.min_x - px
    };
    let gy: i64 = if py >= b.max_y {
        py - b.max_y
    } else {
        b.min_y - py
    };
    let rx_raw: i128 = (b.min_x as i128) + (b.max_x as i128) - 2 * (px as i128);
    let rx: i128 = if rx_raw < 0 {
        -rx_raw
    } else {
        rx_raw
    };
    let ry_raw: i128 = (b.min_y as i128) + (b.max_y as i128) - 2 * (py as i128);
    let ry: i128 = if ry_raw < 0 {
        -ry_raw
    } else {
        ry_raw
    };
    proof {
        assert(gx == axis_gap(b.min_x as int, b.max_x as int, px as int));
        assert(gy == axis_gap(b.min_y as int, b.max_y as int, py as int));
        assert(rx == axis_reach(b.min_x as int, b.max_x as int, px as int));
        assert(ry == axis_reach(b.min_y as int, b.max_y as int, py as int));
        assert(0 <= (gx as int) * (ry as int) <= 1_000_000_000_000_000_000_000_000_000int)
            by (nonlinear_arith)
            requires
                0 <= gx <= 16_000_000_000_000,
                0 <= ry <= 32_000_000_000_000,
        ;
        assert(0 <= (gy as int) * (rx as int) <= 1_000_000_000_000_000_000_000_000_000int)
            by (nonlinear_arith)
            requires
                0 <= gy <= 16_000_000_000_000,
                0 <= rx <= 32_000_000_000_000,
        ;
    }
    let lhs: i128 = (gx as i128) * ry;
    let rhs: i128 = (gy as i128) * rx;
    lhs > rhs
}

} // verus!
