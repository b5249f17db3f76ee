//! Geometry helpers of the map analysis: bounding boxes, borders and distances to rectangles.
use vstd::prelude::*;
use crate::bwapi_wrapper::position::{
    fits_i32, rescale_fits, Position, ScaledPosition, TilePosition, WalkPosition,
};
use crate::types::{border_spec, spanned, Rectangle};

pub mod cp;
pub mod map;
pub mod neutral;
pub mod tiles;

verus! {

/// The walk positions just outside the box of size `size` whose top left corner is `tl`,
/// clockwise from the top left.
pub fn outer_mini_tile_border(tl: WalkPosition, size: WalkPosition) -> (r: Vec<WalkPosition>)
    requires
        fits_i32(tl.x - 1), fits_i32(tl.y - 1),
        fits_i32(tl.x + size.x), fits_i32(tl.y + size.y),
        fits_i32(tl.x + size.x + 1), fits_i32(tl.y + size.y + 1),
        tl.y - 1 < i32::MAX, tl.y + size.y + 1 < i32::MAX,
    ensures
        r@ == border_spec(spanned(
            WalkPosition { x: (tl.x - 1) as i32, y: (tl.y - 1) as i32 },
            WalkPosition { x: (tl.x + size.x + 1) as i32, y: (tl.y + size.y + 1) as i32 },
        )),
{
    let a = WalkPosition::new(tl.x - 1, tl.y - 1);
    let b = WalkPosition::new(tl.x + size.x + 1, tl.y + size.y + 1);
    Rectangle::from_corners(a, b).border()
}

/// Widens the box `top_left`..`bottom_right` so that it reaches `a`, except that the bottom
/// edge only ever moves up: it takes `a.y` when `a.y` is above it.
pub fn make_bounding_box_include_point<const N: u32>(
    top_left: &mut ScaledPosition<N>,
    bottom_right: &mut ScaledPosition<N>,
    a: ScaledPosition<N>,
)
    ensures
        final(top_left).x == (if a.x < old(top_left).x { a.x } else { old(top_left).x }),
        final(bottom_right).x == (if a.x > old(bottom_right).x { a.x } else { old(bottom_right).x }),
        final(top_left).y == (if a.y < old(top_left).y { a.y } else { old(top_left).y }),
        final(bottom_right).y == (if a.y < old(bottom_right).y { a.y } else { old(bottom_right).y }),
{
    if a.x < top_left.x {
        top_left.x = a.x
    }
    if a.x > bottom_right.x {
        bottom_right.x = a.x
    }
    if a.y < top_left.y {
        top_left.y = a.y
    }
    if a.y < bottom_right.y {
        bottom_right.y = a.y
    }
}

/// `v` clamped to `lo`..`hi`, checking `lo` first.
pub open spec fn clamp(v: int, lo: int, hi: int) -> int {
    if v < lo {
        lo
    } else if v > hi {
        hi
    } else {
        v
    }
}

/// Moves `a` to the nearest point of the box `top_left`..`bottom_right`.
pub fn make_point_fit_to_bounding_box<const N: u32>(
    a: &mut ScaledPosition<N>,
    top_left: ScaledPosition<N>,
    bottom_right: ScaledPosition<N>,
)
    ensures
        final(a).x == clamp(old(a).x as int, top_left.x as int, bottom_right.x as int),
        final(a).y == clamp(old(a).y as int, top_left.y as int, bottom_right.y as int),
{
    if a.x < top_left.x {
        a.x = top_left.x
    } else if a.x > bottom_right.x {
        a.x = bottom_right.x
    }
    if a.y < top_left.y {
        a.y = top_left.y
    } else if a.y > bottom_right.y {
        a.y = bottom_right.y
    }
}

/// `dx * dx + dy * dy`.
pub fn squared_norm(dx: i32, dy: i32) -> (r: i32)
    requires
        fits_i32(dx * dx), fits_i32(dy * dy), fits_i32(dx * dx + dy * dy),
    ensures
        r == dx * dx + dy * dy,
{
    dx * dx + dy * dy
}

/// `r` is `sqrt(d)` rounded to the nearest integer.
pub open spec fn is_rounded_sqrt(d: int, r: int) -> bool {
    &&& r >= 0
    &&& (r == 0 || (2 * r - 1) * (2 * r - 1) <= 4 * d)
    &&& 4 * d < (2 * r + 1) * (2 * r + 1)
}

/// `sqrt(d)` rounded to the nearest integer.
pub fn rounded_sqrt(d: i32) -> (r: i32)
    requires
        d >= 0,
    ensures
        is_rounded_sqrt(d as int, r as int),
{
    let four_d: i64 = 4 * (d as i64);
    // largest r in [lo, hi) with r == 0 || (2r - 1)^2 <= 4d
    let mut lo: i64 = 0;
    let mut hi: i64 = 65536;
    assert((2 * 65536 - 1) * (2 * 65536 - 1) > 4 * (d as int));
    while lo + 1 < hi
        invariant
            0 <= lo < hi <= 65536,
            four_d == 4 * d,
            lo == 0 || (2 * lo - 1) * (2 * lo - 1) <= four_d,
            (2 * hi - 1) * (2 * hi - 1) > four_d,
        decreases hi - lo,
    {
        let mid = lo + (hi - lo) / 2;
        assert(0 <= (2 * mid - 1) * (2 * mid - 1) <= 131071 * 131071) by (nonlinear_arith)
            requires
                1 <= mid < 65536,
        ;
        if (2 * mid - 1) * (2 * mid - 1) <= four_d {
            lo = mid;
        } else {
            hi = mid;
        }
    }
    proof {
        assert((2 * lo + 1) * (2 * lo + 1) == (2 * hi - 1) * (2 * hi - 1)) by (nonlinear_arith)
            requires
                hi == lo + 1,
        ;
    }
    lo as i32
}

/// The difference of two positions, whose squared length fits in an `i32`.
pub open spec fn offset_fits(ax: int, ay: int, bx: int, by: int) -> bool {
    &&& fits_i32(bx - ax)
    &&& fits_i32(by - ay)
    &&& fits_i32((bx - ax) * (bx - ax))
    &&& fits_i32((by - ay) * (by - ay))
    &&& fits_i32((bx - ax) * (bx - ax) + (by - ay) * (by - ay))
}

/// The Euclidean distance between two positions, rounded to the nearest integer.
pub fn rounded_dist<const N: u32>(a: ScaledPosition<N>, b: ScaledPosition<N>) -> (r: i32)
    requires
        offset_fits(a.x as int, a.y as int, b.x as int, b.y as int),
    ensures
        is_rounded_sqrt((b.x - a.x) * (b.x - a.x) + (b.y - a.y) * (b.y - a.y), r as int),
{
    let cx = b.x - a.x;
    let cy = b.y - a.y;
    assert(cx * cx >= 0 && cy * cy >= 0) by (nonlinear_arith);
    rounded_sqrt(squared_norm(cx, cy))
}

/// Where `a` lies around the rectangle `tl`..`br`, and the distance that
/// [`dist_to_rectangle`] reports for it.
pub open spec fn rect_distance(a: Position, tl: Position, br: Position, r: int) -> bool {
    if a.x >= tl.x {
        if a.x <= br.x {
            if a.y > br.y {
                r == a.y - br.y
            } else if a.y < tl.y {
                r == tl.y - a.y
            } else {
                r == 0
            }
        } else {
            if a.y > br.y {
                is_rounded_sqrt(sq_dist(a, br), r)
            } else if a.y < tl.y {
                is_rounded_sqrt(sq_dist(a, Position { x: br.y, y: tl.y }), r)
            } else {
                r == a.x - br.x
            }
        }
    } else if a.y > br.y {
        is_rounded_sqrt(sq_dist(a, Position { x: tl.x, y: br.y }), r)
    } else if a.y < tl.y {
        is_rounded_sqrt(sq_dist(a, tl), r)
    } else {
        r == tl.x - a.x
    }
}

/// The squared Euclidean distance between two positions.
pub open spec fn sq_dist(a: Position, b: Position) -> int {
    (b.x - a.x) * (b.x - a.x) + (b.y - a.y) * (b.y - a.y)
}

/// The pixel corners of the tile rectangle at `top_left` of size `size`, without overflow.
pub open spec fn tile_rect_fits(top_left: TilePosition, size: TilePosition) -> bool {
    &&& fits_i32(top_left.x + size.x)
    &&& fits_i32(top_left.y + size.y)
    &&& rescale_fits(top_left.x + size.x, top_left.y + size.y, 32)
    &&& fits_i32((top_left.x + size.x) * 32 - 1)
    &&& fits_i32((top_left.y + size.y) * 32 - 1)
    &&& rescale_fits(top_left.x as int, top_left.y as int, 32)
}

/// The pixel rectangle covered by the tile rectangle at `top_left` of size `size`.
pub open spec fn tile_rect_tl(top_left: TilePosition) -> Position {
    Position { x: (top_left.x * 32) as i32, y: (top_left.y * 32) as i32 }
}

/// The last pixel covered by the tile rectangle at `top_left` of size `size`.
pub open spec fn tile_rect_br(top_left: TilePosition, size: TilePosition) -> Position {
    Position { x: ((top_left.x + size.x) * 32 - 1) as i32, y: ((top_left.y + size.y) * 32 - 1) as i32 }
}

/// The distances from `a` to the corners of the rectangle that [`dist_to_rectangle`] may
/// measure fit in an `i32`.
pub open spec fn corner_offsets_fit(a: Position, tl: Position, br: Position) -> bool {
    &&& offset_fits(a.x as int, a.y as int, br.x as int, br.y as int)
    &&& offset_fits(a.x as int, a.y as int, br.y as int, tl.y as int)
    &&& offset_fits(a.x as int, a.y as int, tl.x as int, br.y as int)
    &&& offset_fits(a.x as int, a.y as int, tl.x as int, tl.y as int)
    &&& fits_i32(a.y - br.y) && fits_i32(tl.y - a.y)
    &&& fits_i32(a.x - br.x) && fits_i32(tl.x - a.x)
}

/// The distance from pixel `a` to the pixels covered by the tile rectangle at `top_left` of
/// size `size`: 0 inside, the gap along one axis beside an edge, and a rounded Euclidean
/// distance to a corner otherwise.
pub fn dist_to_rectangle(a: Position, top_left: TilePosition, size: TilePosition) -> (r: i32)
    requires
        tile_rect_fits(top_left, size),
        corner_offsets_fit(a, tile_rect_tl(top_left), tile_rect_br(top_left, size)),
    ensures
        rect_distance(a, tile_rect_tl(top_left), tile_rect_br(top_left, size), r as int),
{
    let corner = TilePosition::new(top_left.x + size.x, top_left.y + size.y).to_position();
    let bottom_right = Position::new(corner.x - 1, corner.y - 1);
    let top_left = top_left.to_position();

    if a.x >= top_left.x {
        if a.x <= bottom_right.x {
            if a.y > bottom_right.y {
                a.y - bottom_right.y
            } else if a.y < top_left.y {
                top_left.y - a.y
            } else {
                0
            }
        } else {
            if a.y > bottom_right.y {
                rounded_dist(a, bottom_right)
            } else if a.y < top_left.y {
                rounded_dist(a, Position::new(bottom_right.y, top_left.y))
            } else {
                a.x - bottom_right.x
            }
        }
    } else if a.y > bottom_right.y {
        rounded_dist(a, Position::new(top_left.x, bottom_right.y))
    } else if a.y < top_left.y {
        rounded_dist(a, top_left)
    } else {
        top_left.x - a.x
    }
}

/// Clamping into a box with ordered corners lands inside the box, and a point already inside
/// stays where it is.
pub proof fn law_clamp_into_box(v: int, lo: int, hi: int)
    requires
        lo <= hi,
    ensures
        lo <= clamp(v, lo, hi) <= hi,
        lo <= v <= hi ==> clamp(v, lo, hi) == v,
        clamp(clamp(v, lo, hi), lo, hi) == clamp(v, lo, hi),
{
}

/// The distance from a pixel to a tile rectangle is 0 exactly when the pixel lies in the
/// rectangle, and positive otherwise.
pub proof fn law_dist_to_rectangle_zero_inside(a: Position, tl: Position, br: Position, r: int)
    requires
        rect_distance(a, tl, br, r),
    ensures
        (tl.x <= a.x <= br.x && tl.y <= a.y <= br.y) ==> r == 0,
        r == 0 ==> (tl.x <= a.x <= br.x && tl.y <= a.y <= br.y),
        r >= 0,
{
    if a.x >= tl.x {
        if a.x <= br.x {
        } else if a.y > br.y {
            assert(sq_dist(a, br) > 0) by (nonlinear_arith)
                requires a.x > br.x, sq_dist(a, br) == (br.x - a.x) * (br.x - a.x) + (br.y - a.y) * (br.y - a.y);
            assert(r != 0);
        } else if a.y < tl.y {
            let q = Position { x: br.y, y: tl.y };
            assert(sq_dist(a, q) > 0) by (nonlinear_arith)
                requires a.y < q.y, sq_dist(a, q) == (q.x - a.x) * (q.x - a.x) + (q.y - a.y) * (q.y - a.y);
            assert(r != 0);
        }
    } else if a.y > br.y {
        let q = Position { x: tl.x, y: br.y };
        assert(sq_dist(a, q) > 0) by (nonlinear_arith)
            requires a.x < q.x, sq_dist(a, q) == (q.x - a.x) * (q.x - a.x) + (q.y - a.y) * (q.y - a.y);
        assert(r != 0);
    } else if a.y < tl.y {
        assert(sq_dist(a, tl) > 0) by (nonlinear_arith)
            requires a.x < tl.x, sq_dist(a, tl) == (tl.x - a.x) * (tl.x - a.x) + (tl.y - a.y) * (tl.y - a.y);
        assert(r != 0);
    }
}

/// A positive squared distance has a positive rounded root.
pub proof fn law_rounded_sqrt_positive(d: int, r: int)
    requires
        is_rounded_sqrt(d, r),
        d > 0,
    ensures
        r > 0,
{
}

} // verus!
