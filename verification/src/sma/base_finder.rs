//! Finding bases: each walkable build tile is scored by the resources around it, and the best
//! scored tiles become bases that take the resources close to them.
use vstd::prelude::*;
use crate::bwapi_wrapper::position::{Position, TilePosition, WalkPosition};
use crate::game::Game;

verus! {

/// What the base search knows of a resource present when the game started.
#[derive(Debug, Clone, Copy, PartialEq, Eq)]
pub struct StaticResource {
    /// The unit id of the resource.
    pub id: usize,
    /// Its initial build tile.
    pub tile: TilePosition,
    /// Its initial position in pixels.
    pub position: Position,
    /// The resources it held when the game started.
    pub resources: i32,
    /// Whether it is a mineral field rather than a geyser.
    pub is_mineral_field: bool,
}

/// The least amount a mineral field must hold to count.
pub const MINERAL_MIN: i32 = 500;

/// Whether a resource counts for the search: a mineral field holding at least
/// [`MINERAL_MIN`], or a geyser holding anything.
pub open spec fn counts(u: StaticResource, geyser: bool) -> bool {
    if geyser { u.resources != 0 } else { u.resources >= MINERAL_MIN }
}

/// The size of the block kept free around a resource, and of the resource for its marks, and
/// the weight of its marks: a mineral field is 2 by 1 and weighs 1, a geyser 4 by 1 for its
/// block, 4 by 2 for its marks, and weighs 3.
pub open spec fn res_shape(geyser: bool) -> (int, int, int, int, int) {
    if geyser { (4, 1, 4, 2, 3) } else { (2, 1, 2, 1, 1) }
}

/// The block marks and scores after the first `n` resources of `list`.
pub open spec fn scored(rb: Seq<bool>, rv: Seq<i32>, walk: Seq<bool>, scanw: int, mapx: int, mapy: int,
    list: Seq<StaticResource>, n: int, geyser: bool) -> (Seq<bool>, Seq<i32>)
    decreases n,
{
    if n <= 0 {
        (rb, rv)
    } else {
        let (rb1, rv1) = scored(rb, rv, walk, scanw, mapx, mapy, list, n - 1, geyser);
        let u = list[n - 1];
        let (bw, bh, tw, th, vm) = res_shape(geyser);
        if !counts(u, geyser) {
            (rb1, rv1)
        } else {
            (Seq::new(rb1.len(), |k: int| rb1[k] || in_res_block(k, scanw, mapx, mapy, u.tile, bw, bh)),
                border_marked(rv1, walk, scanw, border_coff(scanw, u.tile, tw, th), tw, th, vm))
        }
    }
}

/// The resources of the first `n` of `list` that count.
pub open spec fn kept(list: Seq<StaticResource>, n: int, geyser: bool) -> Seq<StaticResource>
    decreases n,
{
    if n <= 0 {
        Seq::empty()
    } else if counts(list[n - 1], geyser) {
        kept(list, n - 1, geyser).push(list[n - 1])
    } else {
        kept(list, n - 1, geyser)
    }
}

/// The weight of a resource at each offset of the rows scored around it, by row distance and
/// column.
pub const SQRT_ARR: [i32; 64] = [
    0, 300, 150, 100, 75, 60, 50, 42, 300, 212, 134, 94, 72, 58, 49, 42, 150, 134, 106, 83, 67, 55,
    47, 41, 100, 94, 83, 70, 60, 51, 44, 39, 75, 72, 67, 60, 53, 46, 41, 37, 60, 58, 55, 51, 46,
    42, 38, 34, 50, 49, 47, 44, 41, 38, 35, 32, 42, 42, 41, 39, 37, 34, 32, 30,
];

/// The scoring grids of the base search: the map with a border of one blocked tile around it,
/// row by row, `scanw` tiles wide.
pub struct BaseFinder {
    /// The map's width in build tiles.
    pub mapx: usize,
    /// The map's height in build tiles.
    pub mapy: usize,
    /// The width of a grid row: the map's width and the border on each side.
    pub scanw: usize,
    /// Whether each tile is blocked: a border tile, or one with some unwalkable walk tile.
    pub walk_grid: Vec<bool>,
    /// Whether each tile lies too close to a resource to hold a base.
    pub resblock: Vec<bool>,
    /// The score of each tile.
    pub resval: Vec<i32>,
}

/// The larger of two integers.
pub open spec fn imax(a: int, b: int) -> int {
    if a < b { b } else { a }
}

/// The smaller of two integers.
pub open spec fn imin(a: int, b: int) -> int {
    if a < b { a } else { b }
}

/// Whether grid offset `k` of a grid `scanw` wide holds a map tile in the block around a
/// resource of `tw` by `th` tiles at `p`: from 6 tiles left and 5 up of it to 2 right and 2
/// below it, within the map's last column and row but not on them.
pub open spec fn in_res_block(k: int, scanw: int, mapx: int, mapy: int, p: TilePosition, tw: int, th: int) -> bool {
    let x = k % scanw - 1;
    let y = k / scanw - 1;
    &&& imax(0, p.x - 6) <= x < imin(mapx - 1, p.x + 2 + tw)
    &&& imax(0, p.y - 5) <= y < imin(mapy - 1, p.y + 2 + th)
}

/// The grid offset `k` has tile coordinates `(x, y)`.
pub proof fn lemma_offset(k: int, scanw: int, x: int, y: int)
    requires
        scanw > 0,
        0 <= x + 1 < scanw,
        k == x + 1 + (y + 1) * scanw,
    ensures
        k % scanw - 1 == x,
        k / scanw - 1 == y,
{
    vstd::arithmetic::div_mod::lemma_fundamental_div_mod_converse(k, scanw, y + 1, x + 1);
}

/// The scores after a run along the grid from offset `off`, `step` at a time, for the
/// indices `i` to `hi`: each tile before the first blocked one gains `vm` times the weight of
/// its row distance `distrow` and index (taken as 0 where negative); with the number of tiles
/// scored.
pub open spec fn run(rv: Seq<i32>, walk: Seq<bool>, off: int, step: int, i: int, hi: int, distrow: int, vm: int) -> (Seq<i32>, int)
    decreases hi + 1 - i,
{
    if i > hi || !(0 <= off < walk.len()) || walk[off] {
        (rv, 0)
    } else {
        let rv2 = rv.update(off, (rv[off] + vm * SQRT_ARR@[distrow + imax(i, 0)]) as i32);
        let (r, w) = run(rv2, walk, off + step, step, i + 1, hi, distrow, vm);
        (r, w + 1)
    }
}

/// Whether a run from offset `off` stays on the grid: each tile it looks at lies on it, and
/// each step past a scored tile lands on an offset of the machine.
pub open spec fn run_ok(walk: Seq<bool>, off: int, step: int, i: int, hi: int) -> bool
    decreases hi + 1 - i,
{
    i > hi || (0 <= off < walk.len() && (walk[off] || (0 <= off + step <= usize::MAX
        && run_ok(walk, off + step, step, i + 1, hi))))
}

/// The scores after [`BaseFinder::mark_row`] around `midoff`: a run forward from the tile
/// after it for the indices 1 to `end`, then a run backward from it for the indices
/// `1 - mid` to `end`; with whether any tile was scored.
pub open spec fn row_marked(rv: Seq<i32>, walk: Seq<bool>, midoff: int, distrow: int, mid: int, end: int, inc: int, vm: int) -> (Seq<i32>, bool) {
    let (r1, w1) = run(rv, walk, midoff + inc, inc, 1, end, distrow, vm);
    let (r2, w2) = run(r1, walk, midoff, -inc, 1 - mid, end, distrow, vm);
    (r2, w1 + w2 > 0)
}

/// Whether both runs of a row stay on the grid and read weights of the table.
pub open spec fn row_ok(walk: Seq<bool>, midoff: int, distrow: int, mid: int, end: int, inc: int) -> bool {
    &&& 1 <= inc
    &&& 0 <= midoff
    &&& midoff + inc <= usize::MAX
    &&& 0 <= distrow && distrow + end < 64
    &&& 1 <= mid <= 0x1000
    &&& end <= 0x1000
    &&& run_ok(walk, midoff + inc, inc, 1, end)
    &&& run_ok(walk, midoff, -inc, 1 - mid, end)
}

/// Every score of `rv` lies within `b` of 0.
pub open spec fn bounded(rv: Seq<i32>, b: int) -> bool {
    forall|k: int| 0 <= k < rv.len() ==> -b <= #[trigger] rv[k] <= b
}

/// Every score of `b` lies within `d` of the score of `a` at the same offset.
pub open spec fn close(a: Seq<i32>, b: Seq<i32>, d: int) -> bool {
    &&& a.len() == b.len()
    &&& forall|k: int| 0 <= k < a.len() ==> -d <= #[trigger] b[k] - a[k] <= d
}

/// The number of tiles a run scores: those before the first blocked one, at most one per
/// index.
pub open spec fn run_writes(walk: Seq<bool>, off: int, step: int, i: int, hi: int) -> int
    decreases hi + 1 - i,
{
    if i > hi || !(0 <= off < walk.len()) || walk[off] {
        0
    } else {
        run_writes(walk, off + step, step, i + 1, hi) + 1
    }
}

/// How many tiles a run scores does not depend on the scores.
pub proof fn lemma_run_writes(rv: Seq<i32>, walk: Seq<bool>, off: int, step: int, i: int, hi: int, distrow: int, vm: int)
    ensures
        run(rv, walk, off, step, i, hi, distrow, vm).1 == run_writes(walk, off, step, i, hi),
    decreases hi + 1 - i,
{
    if !(i > hi || !(0 <= off < walk.len()) || walk[off]) {
        let rv2 = rv.update(off, (rv[off] + vm * SQRT_ARR@[distrow + imax(i, 0)]) as i32);
        lemma_run_writes(rv2, walk, off + step, step, i + 1, hi, distrow, vm);
    }
}

/// Whether a row around `midoff` scores some tile.
pub open spec fn row_writes(walk: Seq<bool>, midoff: int, mid: int, end: int, inc: int) -> bool {
    run_writes(walk, midoff + inc, inc, 1, end) + run_writes(walk, midoff, -inc, 1 - mid, end) > 0
}

/// Whether one of the tiles `off0 + d * i`, for `i` from `lo` up to but not including `hi`,
/// is blocked.
pub open spec fn blocked_from(walk: Seq<bool>, off0: int, d: int, lo: int, hi: int) -> bool
    decreases hi - lo,
{
    if lo >= hi {
        false
    } else if 0 <= off0 + d * lo < walk.len() && walk[off0 + d * lo] {
        true
    } else {
        blocked_from(walk, off0, d, lo + 1, hi)
    }
}

/// Whether the tiles looked at, up to the first blocked one, lie on the grid.
pub open spec fn blocked_ok(walk: Seq<bool>, off0: int, d: int, lo: int, hi: int) -> bool
    decreases hi - lo,
{
    lo >= hi || (0 <= off0 + d * lo < walk.len() && (walk[off0 + d * lo] || blocked_ok(walk, off0, d, lo + 1, hi)))
}

/// The scores after the rows `s` to 6 of one side: row `s` lies around `base + ms * s`,
/// weighs by row distance `s * 8`, reaches `s + m1` tiles on and `m0` further back; the rows
/// stop after the first that scores nothing.
pub open spec fn rows(rv: Seq<i32>, walk: Seq<bool>, s: int, base: int, ms: int, m0: int, m1: int, inc: int, vm: int) -> Seq<i32>
    decreases 7 - s,
{
    if s >= 7 {
        rv
    } else {
        let (r, any) = row_marked(rv, walk, base + ms * s, s * 8, m0, s + m1, inc, vm);
        if !any {
            r
        } else {
            rows(r, walk, s + 1, base, ms, m0, m1, inc, vm)
        }
    }
}

/// Whether the rows of one side that are scored stay on the grid.
pub open spec fn rows_ok(walk: Seq<bool>, s: int, base: int, ms: int, m0: int, m1: int, inc: int) -> bool
    decreases 7 - s,
{
    s >= 7 || (row_ok(walk, base + ms * s, s * 8, m0, s + m1, inc)
        && (row_writes(walk, base + ms * s, m0, s + m1, inc) ==> rows_ok(walk, s + 1, base, ms, m0, m1, inc)))
}

/// The scores after one side: unless one of the tiles checked is blocked, its rows.
pub open spec fn side(rv: Seq<i32>, walk: Seq<bool>, cbase: int, cd: int, lo: int, hi: int, base: int, ms: int, m0: int, m1: int, inc: int, vm: int) -> Seq<i32> {
    if blocked_from(walk, cbase, cd, lo, hi) {
        rv
    } else {
        rows(rv, walk, 3, base, ms, m0, m1, inc, vm)
    }
}

/// Whether one side stays on the grid.
pub open spec fn side_ok(walk: Seq<bool>, cbase: int, cd: int, lo: int, hi: int, base: int, ms: int, m0: int, m1: int, inc: int) -> bool {
    &&& blocked_ok(walk, cbase, cd, lo, hi)
    &&& !blocked_from(walk, cbase, cd, lo, hi) ==> rows_ok(walk, 3, base, ms, m0, m1, inc)
}

/// The scores after [`BaseFinder::mark_border_value`] for a resource of `tw` by `th` tiles
/// whose lower right tile is at grid offset `coff`: the sides above, below, left and right of
/// it in turn.
pub open spec fn border_marked(rv: Seq<i32>, walk: Seq<bool>, scanw: int, coff: int, tw: int, th: int, vm: int) -> Seq<i32> {
    let up = side(rv, walk, coff, -scanw, th, th + 6, coff - (2 + th) * scanw, -scanw, tw + 3, 0, 1, vm);
    let down = side(up, walk, coff, scanw, 1, 5, coff + scanw, scanw, tw + 3, 0, 1, vm);
    let left = side(down, walk, coff, -1, tw, tw + 7, coff - 3 - tw, -1, th + 2, 1, scanw, vm);
    side(left, walk, coff, 1, 1, 5, coff + 1, 1, th + 2, 1, scanw, vm)
}

/// Whether all four sides of the marks around a resource stay on the grid.
pub open spec fn border_ok(walk: Seq<bool>, scanw: int, coff: int, tw: int, th: int) -> bool {
    &&& side_ok(walk, coff, -scanw, th, th + 6, coff - (2 + th) * scanw, -scanw, tw + 3, 0, 1)
    &&& side_ok(walk, coff, scanw, 1, 5, coff + scanw, scanw, tw + 3, 0, 1)
    &&& side_ok(walk, coff, -1, tw, tw + 7, coff - 3 - tw, -1, th + 2, 1, scanw)
    &&& side_ok(walk, coff, 1, 1, 5, coff + 1, 1, th + 2, 1, scanw)
}

/// The grid offset of the lower right tile of a resource of `tw` by `th` tiles at `p`.
pub open spec fn border_coff(scanw: int, p: TilePosition, tw: int, th: int) -> int {
    p.x + tw + (p.y + th) * scanw
}

/// Whether the marks around a resource of `tw` by `th` tiles at `p` can be made: its lower
/// right tile lies on the map and every tile that the marks look at lies on the grid.
pub open spec fn marks_fit(f: BaseFinder, p: TilePosition, tw: int, th: int) -> bool {
    marks_fit_grid(f.walk_grid@, f.scanw as int, f.mapx as int, f.mapy as int, p, tw, th)
}

/// [`marks_fit`] on a grid `scanw` wide of a map `mapx` by `mapy` tiles.
pub open spec fn marks_fit_grid(walk: Seq<bool>, scanw: int, mapx: int, mapy: int, p: TilePosition, tw: int, th: int) -> bool {
    &&& 1 <= tw <= 4
    &&& 1 <= th <= 2
    &&& 0 <= p.x + tw - 1 < mapx
    &&& 0 <= p.y + th - 1 < mapy
    &&& border_ok(walk, scanw, border_coff(scanw, p, tw, th), tw, th)
}

/// Every score of `rv` after `v` lies within `d` of 0 when it did within `b` before.
pub proof fn lemma_close_bounded(a: Seq<i32>, b: Seq<i32>, bound: int, d: int)
    requires
        bounded(a, bound),
        close(a, b, d),
    ensures
        bounded(b, bound + d),
{
    assert forall|k: int| 0 <= k < b.len() implies -(bound + d) <= #[trigger] b[k] <= bound + d by {
        assert(-d <= b[k] - a[k] <= d);
        assert(-bound <= a[k] <= bound);
    }
}

/// Closeness adds up.
pub proof fn lemma_close_trans(a: Seq<i32>, b: Seq<i32>, c: Seq<i32>, d1: int, d2: int)
    requires
        close(a, b, d1),
        close(b, c, d2),
    ensures
        close(a, c, d1 + d2),
{
    assert forall|k: int| 0 <= k < a.len() implies -(d1 + d2) <= #[trigger] c[k] - a[k] <= d1 + d2 by {
        assert(-d1 <= b[k] - a[k] <= d1);
        assert(-d2 <= c[k] - b[k] <= d2);
    }
}

/// Whether some walk tile of build tile `(x, y)` is not walkable.
pub open spec fn tile_unwalkable(game: &Game, x: int, y: int) -> bool {
    exists|xm: int, ym: int| 0 <= xm < 4 && 0 <= ym < 4 && !#[trigger] game.walkable_at(x * 4 + xm, y * 4 + ym)
}

/// Whether grid offset `k` is blocked: a tile of the border, or a map tile with some walk tile
/// that is not walkable.
pub open spec fn grid_cell(game: &Game, scanw: int, mapx: int, mapy: int, k: int) -> bool {
    let x = k % scanw - 1;
    let y = k / scanw - 1;
    if 0 <= x < mapx && 0 <= y < mapy {
        tile_unwalkable(game, x, y)
    } else {
        true
    }
}

/// Whether some walk tile of build tile `(x, y)` of `game` is not walkable.
fn any_unwalkable(game: &Game, x: i32, y: i32) -> (r: bool)
    requires
        0 <= x < 256,
        0 <= y < 256,
    ensures
        r == tile_unwalkable(game, x as int, y as int),
{
    let mut ym: i32 = 0;
    while ym < 4
        invariant
            0 <= ym <= 4,
            0 <= x < 256, 0 <= y < 256,
            forall|a: int, b: int| 0 <= a < 4 && 0 <= b < ym ==> #[trigger] game.walkable_at(x * 4 + a, y * 4 + b),
        decreases 4 - ym,
    {
        let mut xm: i32 = 0;
        while xm < 4
            invariant
                0 <= xm <= 4, 0 <= ym < 4,
                0 <= x < 256, 0 <= y < 256,
                forall|a: int, b: int| 0 <= a < 4 && 0 <= b < ym ==> #[trigger] game.walkable_at(x * 4 + a, y * 4 + b),
                forall|a: int| 0 <= a < xm ==> #[trigger] game.walkable_at(x * 4 + a, y * 4 + ym),
            decreases 4 - xm,
        {
            if !game.is_walkable(WalkPosition { x: x * 4 + xm, y: y * 4 + ym }) {
                return true;
            }
            xm += 1;
        }
        ym += 1;
    }
    false
}

/// The least score a tile must exceed to hold a base.
pub const BASE_MIN: i32 = 400;

/// Whether grid offset `o` may hold a base: a tile of the map's rows whose score exceeds
/// [`BASE_MIN`] and that is not too close to a resource.
pub open spec fn is_candidate(rv: Seq<i32>, rb: Seq<bool>, scanw: int, mapy: int, o: int) -> bool {
    &&& scanw <= o < scanw * (mapy + 1)
    &&& rv[o] > BASE_MIN
    &&& !rb[o]
}

/// Whether offset `a` comes before offset `b`: by higher score, then by lower offset.
pub open spec fn ranks_before(rv: Seq<i32>, a: int, b: int) -> bool {
    rv[a] > rv[b] || (rv[a] == rv[b] && a < b)
}

/// Whether the offsets of `s` come in order of [`ranks_before`].
pub open spec fn ranked(rv: Seq<i32>, s: Seq<usize>) -> bool {
    forall|i: int, j: int| 0 <= i < j < s.len() ==> ranks_before(rv, #[trigger] s[i] as int, #[trigger] s[j] as int)
}

/// Whether the scores of `b` equal those of `a` on every blocked tile.
pub open spec fn same_on_blocked(a: Seq<i32>, b: Seq<i32>, walk: Seq<bool>) -> bool {
    &&& a.len() == b.len()
    &&& forall|k: int| 0 <= k < a.len() && k < walk.len() && walk[k] ==> #[trigger] b[k] == a[k]
}

/// A run scores no blocked tile.
pub proof fn lemma_run_blocked(rv: Seq<i32>, walk: Seq<bool>, off: int, step: int, i: int, hi: int, distrow: int, vm: int)
    requires
        rv.len() == walk.len(),
    ensures
        same_on_blocked(rv, run(rv, walk, off, step, i, hi, distrow, vm).0, walk),
    decreases hi + 1 - i,
{
    if !(i > hi || !(0 <= off < walk.len()) || walk[off]) {
        let rv2 = rv.update(off, (rv[off] + vm * SQRT_ARR@[distrow + imax(i, 0)]) as i32);
        lemma_run_blocked(rv2, walk, off + step, step, i + 1, hi, distrow, vm);
        let r = run(rv2, walk, off + step, step, i + 1, hi, distrow, vm).0;
        assert forall|k: int| 0 <= k < rv.len() && k < walk.len() && walk[k] implies #[trigger] r[k] == rv[k] by {
            assert(rv2[k] == rv[k]);
        }
    }
}

/// The rows of a side score no blocked tile.
pub proof fn lemma_rows_blocked(rv: Seq<i32>, walk: Seq<bool>, s: int, base: int, ms: int, m0: int, m1: int, inc: int, vm: int)
    requires
        rv.len() == walk.len(),
    ensures
        same_on_blocked(rv, rows(rv, walk, s, base, ms, m0, m1, inc, vm), walk),
    decreases 7 - s,
{
    if s < 7 {
        let midoff = base + ms * s;
        let r1 = run(rv, walk, midoff + inc, inc, 1, s + m1, s * 8, vm).0;
        lemma_run_blocked(rv, walk, midoff + inc, inc, 1, s + m1, s * 8, vm);
        lemma_run_blocked(r1, walk, midoff, -inc, 1 - m0, s + m1, s * 8, vm);
        let (r, any) = row_marked(rv, walk, midoff, s * 8, m0, s + m1, inc, vm);
        if any {
            lemma_rows_blocked(r, walk, s + 1, base, ms, m0, m1, inc, vm);
        }
        let fin = rows(rv, walk, s, base, ms, m0, m1, inc, vm);
        assert forall|k: int| 0 <= k < rv.len() && k < walk.len() && walk[k] implies #[trigger] fin[k] == rv[k] by {
            assert(r1[k] == rv[k]);
            assert(r[k] == r1[k]);
        }
    }
}

/// The marks around a resource score no blocked tile.
pub proof fn lemma_border_blocked(rv: Seq<i32>, walk: Seq<bool>, scanw: int, coff: int, tw: int, th: int, vm: int)
    requires
        rv.len() == walk.len(),
    ensures
        same_on_blocked(rv, border_marked(rv, walk, scanw, coff, tw, th, vm), walk),
{
    let up = side(rv, walk, coff, -scanw, th, th + 6, coff - (2 + th) * scanw, -scanw, tw + 3, 0, 1, vm);
    let down = side(up, walk, coff, scanw, 1, 5, coff + scanw, scanw, tw + 3, 0, 1, vm);
    let left = side(down, walk, coff, -1, tw, tw + 7, coff - 3 - tw, -1, th + 2, 1, scanw, vm);
    lemma_rows_blocked(rv, walk, 3, coff - (2 + th) * scanw, -scanw, tw + 3, 0, 1, vm);
    lemma_rows_blocked(up, walk, 3, coff + scanw, scanw, tw + 3, 0, 1, vm);
    lemma_rows_blocked(down, walk, 3, coff - 3 - tw, -1, th + 2, 1, scanw, vm);
    lemma_rows_blocked(left, walk, 3, coff + 1, 1, th + 2, 1, scanw, vm);
    let fin = border_marked(rv, walk, scanw, coff, tw, th, vm);
    assert forall|k: int| 0 <= k < rv.len() && k < walk.len() && walk[k] implies #[trigger] fin[k] == rv[k] by {
        assert(up[k] == rv[k]);
        assert(down[k] == up[k]);
        assert(left[k] == down[k]);
    }
}

/// Scoring a list of resources scores no blocked tile.
pub proof fn lemma_scored_blocked(rb: Seq<bool>, rv: Seq<i32>, walk: Seq<bool>, scanw: int, mapx: int, mapy: int,
    list: Seq<StaticResource>, n: int, geyser: bool)
    requires
        rv.len() == walk.len(),
    ensures
        same_on_blocked(rv, scored(rb, rv, walk, scanw, mapx, mapy, list, n, geyser).1, walk),
        scored(rb, rv, walk, scanw, mapx, mapy, list, n, geyser).0.len() == rb.len(),
    decreases n,
{
    if n > 0 {
        lemma_scored_blocked(rb, rv, walk, scanw, mapx, mapy, list, n - 1, geyser);
        let (rb1, rv1) = scored(rb, rv, walk, scanw, mapx, mapy, list, n - 1, geyser);
        let u = list[n - 1];
        let (bw, bh, tw, th, vm) = res_shape(geyser);
        lemma_border_blocked(rv1, walk, scanw, border_coff(scanw, u.tile, tw, th), tw, th, vm);
        let fin = scored(rb, rv, walk, scanw, mapx, mapy, list, n, geyser).1;
        assert forall|k: int| 0 <= k < rv.len() && k < walk.len() && walk[k] implies #[trigger] fin[k] == rv[k] by {
            assert(rv1[k] == rv[k]);
        }
    }
}

/// The farthest a resource may lie from a base's centre, in pixels, to belong to it.
pub const INC_DIST: i32 = 288;

/// A base: its build tile and the unit ids of its mineral fields and geysers.
pub struct Base {
    /// The base's build tile.
    pub position: TilePosition,
    /// The unit ids of the mineral fields it takes, in the order they were taken.
    pub minerals: Vec<usize>,
    /// The unit ids of the geysers it takes, in the order they were taken.
    pub geysers: Vec<usize>,
}

/// Whether resource `u` lies farther than [`INC_DIST`] from the base centre `bp`.
pub open spec fn far(u: StaticResource, bp: Position) -> bool {
    let dx = bp.x - u.position.x;
    let dy = bp.y - u.position.y;
    dx * dx + dy * dy > INC_DIST * INC_DIST
}

/// The size and weight of the marks around a resource that a base takes: those of a mineral
/// field or of a geyser, with the weight taken back.
pub open spec fn take_shape(u: StaticResource) -> (int, int, int) {
    if u.is_mineral_field { (2, 1, -1) } else { (4, 2, -3) }
}

/// What a base with centre `bp` takes, looking at the resources of `res` from index `i`:
/// each one no farther than [`INC_DIST`] has its marks taken back and leaves the list, the
/// last one taking its place; the scores, the resources left, and the ids of the mineral
/// fields and geysers taken, in that order.
pub open spec fn take(rv: Seq<i32>, walk: Seq<bool>, scanw: int, res: Seq<StaticResource>, i: int, bp: Position)
    -> (Seq<i32>, Seq<StaticResource>, Seq<usize>, Seq<usize>)
    decreases res.len() - i,
{
    if i < 0 || i >= res.len() {
        (rv, res, Seq::empty(), Seq::empty())
    } else if far(res[i], bp) {
        take(rv, walk, scanw, res, i + 1, bp)
    } else {
        let u = res[i];
        let (tw, th, vm) = take_shape(u);
        let rv2 = border_marked(rv, walk, scanw, border_coff(scanw, u.tile, tw, th), tw, th, vm);
        let res2 = res.update(i, res.last()).drop_last();
        let (r, rr, m, g) = take(rv2, walk, scanw, res2, i, bp);
        if u.is_mineral_field {
            (r, rr, seq![u.id].add(m), g)
        } else {
            (r, rr, m, seq![u.id].add(g))
        }
    }
}

/// Whether the marks a resource takes back fit and its position keeps distances small.
pub open spec fn takeable(walk: Seq<bool>, scanw: int, mapx: int, mapy: int, u: StaticResource) -> bool {
    let (tw, th, vm) = take_shape(u);
    &&& marks_fit_grid(walk, scanw, mapx, mapy, u.tile, tw, th)
    &&& 0 <= u.position.x <= 0x4000
    &&& 0 <= u.position.y <= 0x4000
}

/// The build tile of grid offset `off`.
pub open spec fn off_tile(off: int, scanw: int) -> TilePosition {
    TilePosition { x: (off % scanw - 1) as i32, y: (off / scanw - 1) as i32 }
}

/// The centre of a base at build tile `t`.
pub open spec fn base_centre(t: TilePosition) -> Position {
    Position { x: (t.x * 32 + 64) as i32, y: (t.y * 32 + 48) as i32 }
}

/// The bases chosen from the candidates `pot` from index `j`: each one that still scores
/// above [`BASE_MIN`] and is not too close to a resource becomes a base, which takes the
/// resources near its centre; each base as its build tile and the ids of its mineral fields
/// and geysers.
pub open spec fn select(rv: Seq<i32>, rb: Seq<bool>, walk: Seq<bool>, scanw: int, res: Seq<StaticResource>,
    pot: Seq<usize>, j: int) -> Seq<(TilePosition, Seq<usize>, Seq<usize>)>
    decreases pot.len() - j,
{
    if j < 0 || j >= pot.len() {
        Seq::empty()
    } else {
        let off = pot[j] as int;
        if rv[off] <= BASE_MIN || rb[off] {
            select(rv, rb, walk, scanw, res, pot, j + 1)
        } else {
            let t = off_tile(off, scanw);
            let (rv2, res2, m, g) = take(rv, walk, scanw, res, 0, base_centre(t));
            seq![(t, m, g)].add(select(rv2, rb, walk, scanw, res2, pot, j + 1))
        }
    }
}

/// Taking resources for a base scores no blocked tile.
pub proof fn lemma_take_blocked(rv: Seq<i32>, walk: Seq<bool>, scanw: int, res: Seq<StaticResource>, i: int, bp: Position)
    requires
        rv.len() == walk.len(),
    ensures
        same_on_blocked(rv, take(rv, walk, scanw, res, i, bp).0, walk),
    decreases res.len() - i,
{
    if !(i < 0 || i >= res.len()) {
        if far(res[i], bp) {
            lemma_take_blocked(rv, walk, scanw, res, i + 1, bp);
        } else {
            let u = res[i];
            let (tw, th, vm) = take_shape(u);
            let rv2 = border_marked(rv, walk, scanw, border_coff(scanw, u.tile, tw, th), tw, th, vm);
            lemma_border_blocked(rv, walk, scanw, border_coff(scanw, u.tile, tw, th), tw, th, vm);
            let res2 = res.update(i, res.last()).drop_last();
            lemma_take_blocked(rv2, walk, scanw, res2, i, bp);
            let fin = take(rv, walk, scanw, res, i, bp).0;
            assert forall|k: int| 0 <= k < rv.len() && k < walk.len() && walk[k] implies #[trigger] fin[k] == rv[k] by {
                assert(rv2[k] == rv[k]);
            }
        }
    }
}

/// The resources kept are resources of the list that count.
pub proof fn lemma_kept(list: Seq<StaticResource>, n: int, geyser: bool)
    requires
        n <= list.len(),
    ensures
        kept(list, n, geyser).len() <= imax(n, 0),
        forall|q: int| 0 <= q < kept(list, n, geyser).len() ==> counts(#[trigger] kept(list, n, geyser)[q], geyser)
            && list.contains(kept(list, n, geyser)[q]),
    decreases n,
{
    if n > 0 {
        lemma_kept(list, n - 1, geyser);
        assert(list.contains(list[n - 1]));
    }
}

/// The grid of blocked tiles of `game`, `scanw` wide.
pub open spec fn game_grid(game: &Game) -> Seq<bool> {
    let scanw = game.map_width + 2;
    Seq::new((scanw * (game.map_height + 2)) as nat, |k: int| grid_cell(game, scanw, game.map_width as int,
        game.map_height as int, k))
}

/// Whether the resources of `list` that count can be marked and taken on the grid of `game`.
pub open spec fn resources_fit(game: &Game, list: Seq<StaticResource>, geyser: bool) -> bool {
    let (bw, bh, tw, th, vm) = res_shape(geyser);
    let scanw = game.map_width + 2;
    forall|q: int| 0 <= q < list.len() && counts(#[trigger] list[q], geyser) ==> {
        &&& marks_fit_grid(game_grid(game), scanw, game.map_width as int, game.map_height as int, list[q].tile, tw, th)
        &&& takeable(game_grid(game), scanw, game.map_width as int, game.map_height as int, list[q])
    }
}

/// The scores and block marks after scoring every mineral field and then every geyser of
/// `game` that counts.
pub open spec fn scores_of(game: &Game, minerals: Seq<StaticResource>, geysers: Seq<StaticResource>) -> (Seq<bool>, Seq<i32>) {
    let g = game_grid(game);
    let scanw = game.map_width + 2;
    let (mx, my) = (game.map_width as int, game.map_height as int);
    let (rb1, rv1) = scored(Seq::new(g.len(), |k: int| false), Seq::new(g.len(), |k: int| 0i32), g, scanw, mx, my,
        minerals, minerals.len() as int, false);
    scored(rb1, rv1, g, scanw, mx, my, geysers, geysers.len() as int, true)
}

/// Whether `pot` holds exactly the offsets that may hold a base, in order of
/// [`ranks_before`]; as that order is strict, one sequence at most does.
pub open spec fn candidates_ranked(rv: Seq<i32>, rb: Seq<bool>, scanw: int, mapy: int, pot: Seq<usize>) -> bool {
    &&& ranked(rv, pot)
    &&& forall|o: usize| pot.contains(o) <==> is_candidate(rv, rb, scanw, mapy, o as int)
}

/// Two sequences holding the candidates in ranked order agree at index `k`.
pub proof fn lemma_ranked_agree(rv: Seq<i32>, rb: Seq<bool>, scanw: int, mapy: int, s1: Seq<usize>, s2: Seq<usize>, k: int)
    requires
        candidates_ranked(rv, rb, scanw, mapy, s1),
        candidates_ranked(rv, rb, scanw, mapy, s2),
        0 <= k < s1.len(),
        k < s2.len(),
    ensures
        s1[k] == s2[k],
    decreases k,
{
    assert forall|q: int| 0 <= q < k implies s1[q] == s2[q] by {
        lemma_ranked_agree(rv, rb, scanw, mapy, s1, s2, q);
    }
    if s1[k] != s2[k] {
        assert(s1.contains(s1[k]));
        assert(s2.contains(s1[k]));
        let j = choose|j: int| 0 <= j < s2.len() && s2[j] == s1[k];
        assert(s2.contains(s2[k]));
        assert(s1.contains(s2[k]));
        let j2 = choose|j2: int| 0 <= j2 < s1.len() && s1[j2] == s2[k];
        if j < k {
            assert(s1[j] == s2[j]);
            assert(ranks_before(rv, s1[j] as int, s1[k] as int));
        } else if j2 < k {
            assert(s1[j2] == s2[j2]);
            assert(ranks_before(rv, s2[j2] as int, s2[k] as int));
        } else {
            assert(ranks_before(rv, s2[k] as int, s2[j] as int));
            assert(ranks_before(rv, s1[k] as int, s1[j2] as int));
        }
    }
}

/// One sequence at most holds the candidates in ranked order.
pub proof fn lemma_ranked_unique(rv: Seq<i32>, rb: Seq<bool>, scanw: int, mapy: int, s1: Seq<usize>, s2: Seq<usize>)
    requires
        candidates_ranked(rv, rb, scanw, mapy, s1),
        candidates_ranked(rv, rb, scanw, mapy, s2),
    ensures
        s1 == s2,
{
    if s1.len() > s2.len() {
        let x = s1[s2.len() as int];
        assert(s1.contains(x));
        assert(s2.contains(x));
        let j = choose|j: int| 0 <= j < s2.len() && s2[j] == x;
        lemma_ranked_agree(rv, rb, scanw, mapy, s1, s2, j);
        assert(ranks_before(rv, s1[j] as int, s1[s2.len() as int] as int));
    } else if s2.len() > s1.len() {
        let x = s2[s1.len() as int];
        assert(s2.contains(x));
        assert(s1.contains(x));
        let j = choose|j: int| 0 <= j < s1.len() && s1[j] == x;
        lemma_ranked_agree(rv, rb, scanw, mapy, s1, s2, j);
        assert(ranks_before(rv, s2[j] as int, s2[s1.len() as int] as int));
    } else {
        assert forall|k: int| 0 <= k < s1.len() implies s1[k] == s2[k] by {
            lemma_ranked_agree(rv, rb, scanw, mapy, s1, s2, k);
        }
        assert(s1 =~= s2);
    }
}

/// The candidates of the scores `rv` and block marks `rb` in ranked order.
pub open spec fn candidates_of(rv: Seq<i32>, rb: Seq<bool>, scanw: int, mapy: int) -> Seq<usize> {
    choose|s: Seq<usize>| candidates_ranked(rv, rb, scanw, mapy, s)
}

/// The bases of `game` with static resources `minerals` and `geysers`, each as its build
/// tile and the ids of its mineral fields and geysers: the candidates of the scores, in
/// ranked order, chosen from in turn.
pub open spec fn bases_spec(game: &Game, minerals: Seq<StaticResource>, geysers: Seq<StaticResource>)
    -> Seq<(TilePosition, Seq<usize>, Seq<usize>)> {
    let (rb, rv) = scores_of(game, minerals, geysers);
    let scanw = game.map_width + 2;
    select(rv, rb, game_grid(game), scanw,
        kept(minerals, minerals.len() as int, false) + kept(geysers, geysers.len() as int, true),
        candidates_of(rv, rb, scanw, game.map_height as int), 0)
}

/// The build tile and resource ids of a base.
pub open spec fn base_view(b: Base) -> (TilePosition, Seq<usize>, Seq<usize>) {
    (b.position, b.minerals@, b.geysers@)
}

impl BaseFinder {
    /// The shape of the grids: each holds `scanw` times the map's height and two rows.
    pub open spec fn wf(&self) -> bool {
        &&& self.scanw == self.mapx + 2
        &&& self.mapx <= 256
        &&& self.mapy <= 256
        &&& self.walk_grid@.len() == self.scanw * (self.mapy + 2)
        &&& self.resblock@.len() == self.walk_grid@.len()
        &&& self.resval@.len() == self.walk_grid@.len()
    }

    /// The grids of `game` before any resource is scored: the blocked tiles, no tile too close
    /// to a resource and every score 0.
    pub fn new(game: &Game) -> (r: Self)
        requires
            0 <= game.map_width <= 256,
            0 <= game.map_height <= 256,
        ensures
            r.wf(),
            r.mapx == game.map_width,
            r.mapy == game.map_height,
            r.walk_grid@ == Seq::new(r.walk_grid@.len(), |k: int|
                grid_cell(game, r.scanw as int, r.mapx as int, r.mapy as int, k)),
            r.resblock@ == Seq::new(r.walk_grid@.len(), |k: int| false),
            r.resval@ == Seq::new(r.walk_grid@.len(), |k: int| 0i32),
    {
        let mapx = game.map_width as usize;
        let mapy = game.map_height as usize;
        let scanw = mapx + 2;
        assert(scanw * (mapy + 2) <= 258 * 258) by (nonlinear_arith)
            requires scanw <= 258, mapy + 2 <= 258;
        let n = scanw * (mapy + 2);
        let mut walk_grid: Vec<bool> = Vec::new();
        let mut resblock: Vec<bool> = Vec::new();
        let mut resval: Vec<i32> = Vec::new();
        let mut k: usize = 0;
        while k < n
            invariant
                k <= n,
                walk_grid@ == Seq::new(k as nat, |q: int| true),
                resblock@ == Seq::new(k as nat, |q: int| false),
                resval@ == Seq::new(k as nat, |q: int| 0i32),
            decreases n - k,
        {
            walk_grid.push(true);
            resblock.push(false);
            resval.push(0);
            k += 1;
        }
        let mut finder = BaseFinder { mapx, mapy, scanw, walk_grid, resblock, resval };
        let ghost sw = scanw as int;
        let mut curoff = mapx + 3;
        proof {
            assert forall|q: int| 0 <= q < curoff implies grid_cell(game, sw, mapx as int, mapy as int, q) by {
                if q < sw {
                    vstd::arithmetic::div_mod::lemma_fundamental_div_mod_converse(q, sw, 0, q);
                } else {
                    vstd::arithmetic::div_mod::lemma_fundamental_div_mod_converse(q, sw, 1, 0);
                }
            }
        }
        let mut y: usize = 0;
        while y < mapy
            invariant
                finder.wf(),
                finder.mapx == mapx, finder.mapy == mapy, finder.scanw == scanw, sw == scanw,
                mapx == game.map_width, mapy == game.map_height, scanw == mapx + 2,
                n == finder.walk_grid@.len(),
                finder.resblock@ == Seq::new(n as nat, |q: int| false),
                finder.resval@ == Seq::new(n as nat, |q: int| 0i32),
                y <= mapy,
                curoff == 1 + (y + 1) * sw,
                forall|q: int| 0 <= q < n ==> #[trigger] finder.walk_grid@[q] == (if q < curoff {
                    grid_cell(game, sw, mapx as int, mapy as int, q) } else { true }),
            decreases mapy - y,
        {
            let mut x: usize = 0;
            while x < mapx
                invariant
                    finder.wf(),
                    finder.mapx == mapx, finder.mapy == mapy, finder.scanw == scanw, sw == scanw,
                    mapx == game.map_width, mapy == game.map_height, scanw == mapx + 2,
                    n == finder.walk_grid@.len(),
                    finder.resblock@ == Seq::new(n as nat, |q: int| false),
                    finder.resval@ == Seq::new(n as nat, |q: int| 0i32),
                    y < mapy, x <= mapx,
                    curoff == x + 1 + (y + 1) * sw,
                    forall|q: int| 0 <= q < n ==> #[trigger] finder.walk_grid@[q] == (if q < curoff {
                        grid_cell(game, sw, mapx as int, mapy as int, q) } else { true }),
                decreases mapx - x,
            {
                let blocked = any_unwalkable(game, x as i32, y as i32);
                proof {
                    lemma_offset(curoff as int, sw, x as int, y as int);
                    assert((y + 2) * sw <= n) by (nonlinear_arith)
                        requires y + 2 <= mapy + 2, n == sw * (mapy + 2), sw >= 0;
                    assert((y + 1) * sw + sw == (y + 2) * sw) by (nonlinear_arith);
                }
                finder.walk_grid.set(curoff, blocked);
                curoff += 1;
                x += 1;
            }
            proof {
                assert((y + 1) * sw + sw == (y + 2) * sw) by (nonlinear_arith);
                assert((y + 2) * sw + sw == (y + 3) * sw) by (nonlinear_arith);
                assert((y + 3) * sw <= n) by (nonlinear_arith)
                    requires y + 3 <= mapy + 2, n == sw * (mapy + 2), sw >= 0;
                lemma_offset(curoff as int, sw, mapx as int, y as int);
                lemma_offset(curoff + 1, sw, -1, y + 1);
            }
            curoff += 2;
            y += 1;
        }
        proof {
            assert forall|q: int| 0 <= q < n implies #[trigger] finder.walk_grid@[q]
                == grid_cell(game, sw, mapx as int, mapy as int, q) by {
                if q >= curoff {
                    vstd::arithmetic::div_mod::lemma_fundamental_div_mod(q, sw);
                    assert(q / sw >= mapy + 1) by (nonlinear_arith)
                        requires q >= 1 + (mapy + 1) * sw, q == sw * (q / sw) + q % sw, 0 <= q % sw < sw, sw > 0;
                }
            }
        }
        assert(finder.walk_grid@ =~= Seq::new(n as nat, |q: int| grid_cell(game, sw, mapx as int, mapy as int, q)));
        finder
    }

    /// The grid offset of map tile `(x, y)`.
    pub fn tile_off(&self, x: usize, y: usize) -> (r: usize)
        requires
            self.wf(),
            x <= 0x1000_0000,
            y <= self.mapy,
        ensures
            r == x + 1 + (y + 1) * self.scanw,
    {
        assert((y + 1) * self.scanw <= 257 * 258) by (nonlinear_arith)
            requires y + 1 <= 257, self.scanw <= 258;
        x + 1 + (y + 1) * self.scanw
    }

    /// Marks as too close to a resource every tile of the block around a resource of `tw` by
    /// `th` tiles at `p`.
    pub fn mark_res_block(&mut self, p: TilePosition, tw: i32, th: i32)
        requires
            old(self).wf(),
            -0x1000_0000 <= p.x <= 0x1000_0000,
            -0x1000_0000 <= p.y <= 0x1000_0000,
            0 <= tw <= 16,
            0 <= th <= 16,
        ensures
            final(self).wf(),
            final(self).mapx == old(self).mapx,
            final(self).mapy == old(self).mapy,
            final(self).walk_grid@ == old(self).walk_grid@,
            final(self).resval@ == old(self).resval@,
            final(self).resblock@ == Seq::new(old(self).resblock@.len(), |k: int|
                old(self).resblock@[k] || in_res_block(k, old(self).scanw as int, old(self).mapx as int,
                    old(self).mapy as int, p, tw as int, th as int)),
    {
        let ghost rb0 = self.resblock@;
        let n_cells = self.resblock.len();
        let ghost wg0 = self.walk_grid@;
        let ghost rv0 = self.resval@;
        let ghost mx0 = self.mapx;
        let ghost my0 = self.mapy;
        let ghost sw = self.scanw as int;
        let x1: i32 = if p.x - 6 > 0 { p.x - 6 } else { 0 };
        let y1: i32 = if p.y - 5 > 0 { p.y - 5 } else { 0 };
        let mx = self.mapx as i32 - 1;
        let my = self.mapy as i32 - 1;
        let x2: i32 = if mx < p.x + 2 + tw { mx } else { p.x + 2 + tw };
        let y2: i32 = if my < p.y + 2 + th { my } else { p.y + 2 + th };
        let ghost target = Seq::new(rb0.len(), |k: int|
            rb0[k] || in_res_block(k, sw, self.mapx as int, self.mapy as int, p, tw as int, th as int));
        let mut y = y1;
        while y < y2
            invariant
                y1 >= y2 ==> y == y1,
                x1 <= 0x1000_0000,
                self.wf(),
                sw == self.scanw,
                self.walk_grid@ == wg0, self.resval@ == rv0, self.mapx == mx0, self.mapy == my0,
                self.resblock@.len() == rb0.len(), n_cells == rb0.len(),
                0 <= x1, 0 <= y1 <= y,
                x2 <= mx, y2 <= my, mx == self.mapx - 1, my == self.mapy - 1,
                y1 < y2 ==> y <= y2,
                x1 == imax(0, p.x - 6), y1 == imax(0, p.y - 5),
                x2 == imin(self.mapx - 1, p.x + 2 + tw), y2 == imin(self.mapy - 1, p.y + 2 + th),
                forall|k: int| 0 <= k < rb0.len() ==> #[trigger] self.resblock@[k] == (rb0[k] || (
                    in_res_block(k, sw, self.mapx as int, self.mapy as int, p, tw as int, th as int)
                    && k / sw - 1 < y)),
            decreases y2 - y,
        {
            let mut off = self.tile_off(x1 as usize, y as usize);
            let mut x = x1;
            while x < x2
                invariant
                    self.wf(),
                    sw == self.scanw,
                    self.walk_grid@ == wg0, self.resval@ == rv0, self.mapx == mx0, self.mapy == my0,
                    self.resblock@.len() == rb0.len(), n_cells == rb0.len(),
                    0 <= x1 <= x, 0 <= y1 <= y < y2,
                    x1 < x2 ==> x <= x2,
                    x2 <= mx, y2 <= my, mx == self.mapx - 1, my == self.mapy - 1,
                    x1 == imax(0, p.x - 6), y1 == imax(0, p.y - 5),
                    x2 == imin(self.mapx - 1, p.x + 2 + tw), y2 == imin(self.mapy - 1, p.y + 2 + th),
                    off == x + 1 + (y + 1) * sw,
                    forall|k: int| 0 <= k < rb0.len() ==> #[trigger] self.resblock@[k] == (rb0[k] || (
                        in_res_block(k, sw, self.mapx as int, self.mapy as int, p, tw as int, th as int)
                        && (k / sw - 1 < y || (k / sw - 1 == y && k % sw - 1 < x)))),
                decreases x2 - x,
            {
                proof {
                    lemma_offset(off as int, sw, x as int, y as int);
                    assert((y + 2) * sw <= rb0.len()) by (nonlinear_arith)
                        requires y + 2 <= self.mapy + 2, rb0.len() == sw * (self.mapy + 2), sw >= 0;
                    assert((y + 1) * sw + sw == (y + 2) * sw) by (nonlinear_arith);
                    assert(off < self.resblock@.len());
                    assert forall|k: int| #![trigger self.resblock@[k]] 0 <= k < rb0.len() && k / sw - 1 == y
                        && k % sw - 1 == x implies k == off by {
                        vstd::arithmetic::div_mod::lemma_fundamental_div_mod(k, sw);
                        assert(sw * (k / sw) == (k / sw) * sw) by (nonlinear_arith);
                    }
                }
                self.resblock.set(off, true);
                assert(off + 1 <= n_cells);
                off += 1;
                x += 1;
            }
            y += 1;
        }
        assert(self.resblock@ =~= target);
    }

    /// Scores the tiles of a row or column around `midoff`, `inc` apart: forward from the next
    /// tile for up to `end` tiles, and backward from `midoff` for up to `end + mid` tiles, each
    /// run stopping at the first blocked tile; whether any tile was scored.
    pub fn mark_row(&mut self, midoff: usize, distrow: usize, mid: usize, end: usize, inc: usize, valmod: i32) -> (r: bool)
        requires
            old(self).wf(),
            row_ok(old(self).walk_grid@, midoff as int, distrow as int, mid as int, end as int, inc as int),
            -3 <= valmod <= 3,
            bounded(old(self).resval@, i32::MAX - 900),
        ensures
            final(self).wf(),
            final(self).mapx == old(self).mapx,
            final(self).mapy == old(self).mapy,
            final(self).walk_grid@ == old(self).walk_grid@,
            final(self).resblock@ == old(self).resblock@,
            (final(self).resval@, r) == row_marked(old(self).resval@, old(self).walk_grid@, midoff as int,
                distrow as int, mid as int, end as int, inc as int, valmod as int),
            close(old(self).resval@, final(self).resval@, 900),
    {
        let ghost rv0 = self.resval@;
        let ghost wg = self.walk_grid@;
        let ghost rb = self.resblock@;
        let ghost (mx, my) = (self.mapx, self.mapy);
        let ghost whole1 = run(rv0, wg, midoff + inc, inc as int, 1, end as int, distrow as int, valmod as int);
        let mut writes: usize = 0;
        let mut roff = midoff + inc;
        let mut i: usize = 1;
        while i <= end
            invariant_except_break
                1 <= i <= end + 1,
                run_ok(wg, roff as int, inc as int, i as int, end as int),
            invariant
                self.wf(), self.walk_grid@ == wg, self.resblock@ == rb, self.mapx == mx, self.mapy == my,
                1 <= inc, end <= 0x1000, distrow + end < 64, -3 <= valmod <= 3,
                bounded(rv0, i32::MAX - 900),
                self.resval@.len() == rv0.len(),
                roff >= midoff + inc,
                writes <= i,
                i <= end + 1,
                ({
                    let (r, w) = run(self.resval@, wg, roff as int, inc as int, i as int, end as int, distrow as int, valmod as int);
                    r == whole1.0 && w + writes == whole1.1
                }),
                forall|k: int| 0 <= k < rv0.len() && k >= roff ==> #[trigger] self.resval@[k] == rv0[k],
                forall|k: int| 0 <= k < rv0.len() && k < midoff + inc ==> #[trigger] self.resval@[k] == rv0[k],
                close(rv0, self.resval@, 900),
            ensures
                run(self.resval@, wg, roff as int, inc as int, i as int, end as int, distrow as int, valmod as int).0 == self.resval@,
                run(self.resval@, wg, roff as int, inc as int, i as int, end as int, distrow as int, valmod as int).1 == 0,
            decreases end + 1 - i,
        {
            if self.walk_grid[roff] {
                break;
            }
            proof {
                assert(0 <= distrow + i < 64);
                assert(-300 <= SQRT_ARR@[distrow + i as int] <= 300) by {
                    assert(forall|q: int| 0 <= q < 64 ==> 0 <= #[trigger] SQRT_ARR@[q] <= 300);
                }
                assert(-900 <= valmod * SQRT_ARR@[distrow + i as int] <= 900) by (nonlinear_arith)
                    requires -3 <= valmod <= 3, -300 <= SQRT_ARR@[distrow + i as int] <= 300;
            }
            let add = valmod * SQRT_ARR[distrow + i];
            let cur = self.resval[roff];
            self.resval.set(roff, cur + add);
            roff += inc;
            writes += 1;
            i += 1;
        }
        let ghost rv1 = self.resval@;
        assert(rv1 == whole1.0);
        let ghost whole2 = run(rv1, wg, midoff as int, -(inc as int), 1 - mid, end as int, distrow as int, valmod as int);
        let ghost writes1 = writes;
        roff = midoff;
        let mut j: i64 = 1 - mid as i64;
        while j <= end as i64
            invariant_except_break
                1 - mid <= j <= end + 1,
                run_ok(wg, roff as int, -(inc as int), j as int, end as int),
            invariant
                self.wf(), self.walk_grid@ == wg, self.resblock@ == rb, self.mapx == mx, self.mapy == my,
                1 <= inc, end <= 0x1000, mid <= 0x1000, distrow + end < 64, -3 <= valmod <= 3,
                bounded(rv0, i32::MAX - 900),
                self.resval@.len() == rv0.len(),
                roff <= midoff,
                writes1 == whole1.1,
                writes1 <= end + 1,
                writes <= writes1 + (j - (1 - mid)),
                ({
                    let (r, w) = run(self.resval@, wg, roff as int, -(inc as int), j as int, end as int, distrow as int, valmod as int);
                    r == whole2.0 && w + writes - writes1 == whole2.1
                }),
                forall|k: int| 0 <= k < rv0.len() && k <= roff ==> #[trigger] self.resval@[k] == rv1[k],
                forall|k: int| 0 <= k < rv0.len() && k <= midoff ==> #[trigger] rv1[k] == rv0[k],
                close(rv0, rv1, 900),
                forall|k: int| 0 <= k < rv0.len() && k > midoff ==> #[trigger] self.resval@[k] == rv1[k],
                forall|k: int| 0 <= k < rv0.len() && k <= midoff ==> -900 <= #[trigger] self.resval@[k] - rv0[k] <= 900,
            ensures
                run(self.resval@, wg, roff as int, -(inc as int), j as int, end as int, distrow as int, valmod as int).0 == self.resval@,
                run(self.resval@, wg, roff as int, -(inc as int), j as int, end as int, distrow as int, valmod as int).1 == 0,
            decreases end + 1 - j,
        {
            if self.walk_grid[roff] {
                break;
            }
            let q: usize = if j > 0 { j as usize } else { 0 };
            proof {
                assert(q == imax(j as int, 0));
                assert(-300 <= SQRT_ARR@[distrow + q as int] <= 300) by {
                    assert(forall|t: int| 0 <= t < 64 ==> 0 <= #[trigger] SQRT_ARR@[t] <= 300);
                }
                assert(-900 <= valmod * SQRT_ARR@[distrow + q as int] <= 900) by (nonlinear_arith)
                    requires -3 <= valmod <= 3, -300 <= SQRT_ARR@[distrow + q as int] <= 300;
            }
            let add = valmod * SQRT_ARR[distrow + q];
            let cur = self.resval[roff];
            self.resval.set(roff, cur + add);
            roff -= inc;
            writes += 1;
            j += 1;
        }
        proof {
            assert forall|k: int| 0 <= k < rv0.len() implies -900 <= #[trigger] self.resval@[k] - rv0[k] <= 900 by {
                if k > midoff {
                    assert(self.resval@[k] == rv1[k]);
                }
            }
        }
        writes > 0
    }

    /// Whether one of the tiles `off0 + d * i`, for `i` from `lo` up to `hi`, is blocked.
    fn blocked(&self, off0: i64, d: i64, lo: i64, hi: i64) -> (r: bool)
        requires
            blocked_ok(self.walk_grid@, off0 as int, d as int, lo as int, hi as int),
            -0x1000 <= d <= 0x1000,
            -0x1000 <= lo <= hi <= 0x1000,
            -0x1000_0000 <= off0 <= 0x1000_0000,
        ensures
            r == blocked_from(self.walk_grid@, off0 as int, d as int, lo as int, hi as int),
    {
        let mut i = lo;
        while i < hi
            invariant
                -0x1000 <= lo <= i <= hi <= 0x1000,
                -0x1000 <= d <= 0x1000,
                -0x1000_0000 <= off0 <= 0x1000_0000,
                blocked_ok(self.walk_grid@, off0 as int, d as int, i as int, hi as int),
                blocked_from(self.walk_grid@, off0 as int, d as int, lo as int, hi as int)
                    == blocked_from(self.walk_grid@, off0 as int, d as int, i as int, hi as int),
            decreases hi - i,
        {
            assert(-0x100_0000 <= d * i <= 0x100_0000) by (nonlinear_arith)
                requires -0x1000 <= d <= 0x1000, -0x1000 <= i <= 0x1000;
            let off = off0 + d * i;
            if self.walk_grid[off as usize] {
                return true;
            }
            i += 1;
        }
        false
    }

    /// Scores the rows `s` to 6 of one side, stopping after the first that scores nothing.
    fn mark_rows(&mut self, base: i64, ms: i64, m0: i64, m1: i64, inc: usize, valmod: i32)
        requires
            old(self).wf(),
            rows_ok(old(self).walk_grid@, 3, base as int, ms as int, m0 as int, m1 as int, inc as int),
            -0x1000 <= ms <= 0x1000,
            0 <= m0 <= 0x100,
            0 <= m1 <= 1,
            -0x1000_0000 <= base <= 0x1000_0000,
            -3 <= valmod <= 3,
            bounded(old(self).resval@, i32::MAX - 3600),
        ensures
            final(self).wf(),
            final(self).mapx == old(self).mapx,
            final(self).mapy == old(self).mapy,
            final(self).walk_grid@ == old(self).walk_grid@,
            final(self).resblock@ == old(self).resblock@,
            final(self).resval@ == rows(old(self).resval@, old(self).walk_grid@, 3, base as int, ms as int,
                m0 as int, m1 as int, inc as int, valmod as int),
            close(old(self).resval@, final(self).resval@, 3600),
    {
        let ghost rv0 = self.resval@;
        let ghost wg = self.walk_grid@;
        let ghost (mx, my, rb) = (self.mapx, self.mapy, self.resblock@);
        let ghost whole = rows(rv0, wg, 3, base as int, ms as int, m0 as int, m1 as int, inc as int, valmod as int);
        let mut s: i64 = 3;
        while s < 7
            invariant_except_break
                3 <= s <= 7,
                rows_ok(wg, s as int, base as int, ms as int, m0 as int, m1 as int, inc as int),
                rows(self.resval@, wg, s as int, base as int, ms as int, m0 as int, m1 as int, inc as int, valmod as int) == whole,
                close(rv0, self.resval@, (s - 3) * 900),
            invariant
                self.wf(),
                self.walk_grid@ == wg,
                self.mapx == mx, self.mapy == my, self.resblock@ == rb,
                self.resval@.len() == rv0.len(),
                bounded(rv0, i32::MAX - 3600),
                -0x1000 <= ms <= 0x1000, 0 <= m0 <= 0x100, 0 <= m1 <= 1,
                -0x1000_0000 <= base <= 0x1000_0000, -3 <= valmod <= 3,
            ensures
                self.resval@ == whole,
                close(rv0, self.resval@, 3600),
            decreases 7 - s,
        {
            let ghost before = self.resval@;
            assert(bounded(before, i32::MAX - 900)) by {
                assert forall|k: int| 0 <= k < before.len() implies -(i32::MAX - 900) <= #[trigger] before[k] <= i32::MAX - 900 by {
                    assert(-3600 <= before[k] - rv0[k] <= 3600);
                    assert(-(i32::MAX - 3600) <= rv0[k] <= i32::MAX - 3600);
                }
            }
            assert(-0x8000 <= ms * s <= 0x8000) by (nonlinear_arith)
                requires -0x1000 <= ms <= 0x1000, 3 <= s < 7;
            let midoff = base + ms * s;
            let mid = m0;
            let end = s + m1;
            let any = self.mark_row(midoff as usize, (s * 8) as usize, mid as usize, end as usize, inc, valmod);
            proof {
                let (r, a) = row_marked(before, wg, midoff as int, s * 8, mid as int, end as int, inc as int, valmod as int);
                lemma_run_writes(before, wg, midoff + inc, inc as int, 1, end as int, s * 8, valmod as int);
                lemma_run_writes(run(before, wg, midoff + inc, inc as int, 1, end as int, s * 8, valmod as int).0, wg,
                    midoff as int, -(inc as int), 1 - mid, end as int, s * 8, valmod as int);
                assert forall|k: int| 0 <= k < rv0.len() implies -(s - 2) * 900 <= #[trigger] self.resval@[k] - rv0[k] <= (s - 2) * 900 by {
                    assert(-900 <= self.resval@[k] - before[k] <= 900);
                    assert(-(s - 3) * 900 <= before[k] - rv0[k] <= (s - 3) * 900);
                }
            }
            if !any {
                break;
            }
            s += 1;
        }
        self.resval.len();
    }

    /// One side of the marks around a resource: unless one of the tiles checked is blocked,
    /// its rows.
    fn mark_side(&mut self, cbase: i64, cd: i64, lo: i64, hi: i64, base: i64, ms: i64, m0: i64, m1: i64,
        inc: usize, valmod: i32)
        requires
            old(self).wf(),
            side_ok(old(self).walk_grid@, cbase as int, cd as int, lo as int, hi as int, base as int, ms as int,
                m0 as int, m1 as int, inc as int),
            -0x1000 <= cd <= 0x1000,
            -0x1000 <= lo <= hi <= 0x1000,
            -0x1000_0000 <= cbase <= 0x1000_0000,
            -0x1000 <= ms <= 0x1000,
            0 <= m0 <= 0x100,
            0 <= m1 <= 1,
            -0x1000_0000 <= base <= 0x1000_0000,
            -3 <= valmod <= 3,
            bounded(old(self).resval@, i32::MAX - 3600),
        ensures
            final(self).wf(),
            final(self).mapx == old(self).mapx,
            final(self).mapy == old(self).mapy,
            final(self).walk_grid@ == old(self).walk_grid@,
            final(self).resblock@ == old(self).resblock@,
            final(self).resval@ == side(old(self).resval@, old(self).walk_grid@, cbase as int, cd as int, lo as int,
                hi as int, base as int, ms as int, m0 as int, m1 as int, inc as int, valmod as int),
            close(old(self).resval@, final(self).resval@, 3600),
    {
        if !self.blocked(cbase, cd, lo, hi) {
            self.mark_rows(base, ms, m0, m1, inc, valmod);
        } else {
            assert(close(self.resval@, self.resval@, 3600));
        }
    }

    /// Scores the tiles around a resource of `tw` by `th` tiles at `p`, by `valmod` times
    /// their weights: rows above, below, left and right of it, each side only where the tiles
    /// next to the resource are free.
    pub fn mark_border_value(&mut self, p: TilePosition, tw: i32, th: i32, valmod: i32)
        requires
            old(self).wf(),
            marks_fit(*old(self), p, tw as int, th as int),
            -3 <= valmod <= 3,
            bounded(old(self).resval@, i32::MAX - 14400),
        ensures
            final(self).wf(),
            final(self).mapx == old(self).mapx,
            final(self).mapy == old(self).mapy,
            final(self).walk_grid@ == old(self).walk_grid@,
            final(self).resblock@ == old(self).resblock@,
            final(self).resval@ == border_marked(old(self).resval@, old(self).walk_grid@, old(self).scanw as int,
                border_coff(old(self).scanw as int, p, tw as int, th as int), tw as int, th as int, valmod as int),
            close(old(self).resval@, final(self).resval@, 14400),
    {
        let ghost rv0 = self.resval@;
        let cx = (p.x + tw - 1) as usize;
        let cy = (p.y + th - 1) as usize;
        let c0 = self.tile_off(cx, cy);
        assert(c0 <= 0x10_0000) by (nonlinear_arith)
            requires c0 == cx + 1 + (cy + 1) * self.scanw, cx < self.mapx,
                cy < self.mapy, self.mapx <= 256, self.mapy <= 256, self.scanw == self.mapx + 2;
        let coff = c0 as i64;
        assert(coff == border_coff(self.scanw as int, p, tw as int, th as int));
        let sw = self.scanw as i64;
        let tw = tw as i64;
        let th = th as i64;
        assert(0 <= (2 + th) * sw <= 4 * 258) by (nonlinear_arith)
            requires 1 <= th <= 2, 0 <= sw <= 258;
        let ghost r1 = self.resval@;
        self.mark_side(coff, -sw, th, th + 6, coff - (2 + th) * sw, -sw, tw + 3, 0, 1, valmod);
        proof { lemma_close_bounded(r1, self.resval@, i32::MAX - 14400, 3600); }
        let ghost r2 = self.resval@;
        self.mark_side(coff, sw, 1, 5, coff + sw, sw, tw + 3, 0, 1, valmod);
        proof {
            lemma_close_bounded(r2, self.resval@, i32::MAX - 10800, 3600);
            lemma_close_trans(r1, r2, self.resval@, 3600, 3600);
        }
        let ghost r3 = self.resval@;
        let scanw = self.scanw;
        self.mark_side(coff, -1, tw, tw + 7, coff - 3 - tw, -1, th + 2, 1, scanw, valmod);
        proof {
            lemma_close_bounded(r3, self.resval@, i32::MAX - 7200, 3600);
            lemma_close_trans(r1, r3, self.resval@, 7200, 3600);
        }
        let ghost r4 = self.resval@;
        self.mark_side(coff, 1, 1, 5, coff + 1, 1, th + 2, 1, scanw, valmod);
        proof {
            lemma_close_trans(r1, r4, self.resval@, 10800, 3600);
        }
    }

    /// Blocks and scores around each resource of `list` that counts, and appends those to
    /// `res`.
    pub fn mark_resources(&mut self, list: &Vec<StaticResource>, geyser: bool, res: &mut Vec<StaticResource>)
        requires
            old(self).wf(),
            list@.len() <= 20000,
            forall|i: int| 0 <= i < list@.len() && counts(#[trigger] list@[i], geyser) ==> {
                let (bw, bh, tw, th, vm) = res_shape(geyser);
                marks_fit(*old(self), list@[i].tile, tw, th)
            },
            bounded(old(self).resval@, i32::MAX - 14400 * (list@.len() + 1)),
        ensures
            final(self).wf(),
            final(self).mapx == old(self).mapx,
            final(self).mapy == old(self).mapy,
            final(self).walk_grid@ == old(self).walk_grid@,
            (final(self).resblock@, final(self).resval@) == scored(old(self).resblock@, old(self).resval@,
                old(self).walk_grid@, old(self).scanw as int, old(self).mapx as int, old(self).mapy as int,
                list@, list@.len() as int, geyser),
            final(res)@ == old(res)@ + kept(list@, list@.len() as int, geyser),
            close(old(self).resval@, final(self).resval@, 14400 * list@.len() as int),
    {
        let ghost (rb0, rv0, wg, sw, mx, my) = (self.resblock@, self.resval@, self.walk_grid@,
            self.scanw as int, self.mapx as int, self.mapy as int);
        let ghost res0 = res@;
        let mut i: usize = 0;
        while i < list.len()
            invariant
                self.wf(),
                i <= list@.len() <= 20000,
                self.walk_grid@ == wg, self.scanw == sw, self.mapx == mx, self.mapy == my,
                (self.resblock@, self.resval@) == scored(rb0, rv0, wg, sw, mx, my, list@, i as int, geyser),
                res@ == res0 + kept(list@, i as int, geyser),
                forall|q: int| 0 <= q < list@.len() && counts(#[trigger] list@[q], geyser) ==> {
                    let (bw, bh, tw, th, vm) = res_shape(geyser);
                    marks_fit_grid(wg, sw, mx, my, list@[q].tile, tw, th)
                },
                bounded(rv0, i32::MAX - 14400 * (list@.len() + 1)),
                close(rv0, self.resval@, 14400 * i),
            decreases list@.len() - i,
        {
            let u = list[i];
            let counted = if geyser { u.resources != 0 } else { u.resources >= MINERAL_MIN };
            if counted {
                let ghost before = self.resval@;
                proof {
                    lemma_close_bounded(rv0, before, i32::MAX - 14400 * (list@.len() + 1), 14400 * i);
                    assert(14400 * (list@.len() + 1) - 14400 * i >= 14400) by (nonlinear_arith)
                        requires i <= list@.len();
                }
                if geyser {
                    self.mark_res_block(u.tile, 4, 1);
                    self.mark_border_value(u.tile, 4, 2, 3);
                } else {
                    self.mark_res_block(u.tile, 2, 1);
                    self.mark_border_value(u.tile, 2, 1, 1);
                }
                proof {
                    lemma_close_trans(rv0, before, self.resval@, 14400 * i, 14400);
                    assert(14400 * i + 14400 == 14400 * (i + 1)) by (nonlinear_arith);
                }
                res.push(u);
            } else {
                proof {
                    assert(close(rv0, self.resval@, 14400 * (i + 1))) by {
                        assert forall|k: int| 0 <= k < rv0.len() implies
                            -14400 * (i + 1) <= #[trigger] self.resval@[k] - rv0[k] <= 14400 * (i + 1) by {
                            assert(-14400 * i <= self.resval@[k] - rv0[k] <= 14400 * i);
                        }
                    }
                }
            }
            proof {
                assert(res@ == res0 + kept(list@, i + 1, geyser));
            }
            i += 1;
        }
    }

    /// The tiles that may hold a base, best scored first and, among equal scores, in grid
    /// order.
    pub fn potential_bases(&self) -> (r: Vec<usize>)
        requires
            self.wf(),
        ensures
            ranked(self.resval@, r@),
            forall|o: usize| r@.contains(o) <==> is_candidate(self.resval@, self.resblock@, self.scanw as int,
                self.mapy as int, o as int),
    {
        let rv = &self.resval;
        let scanw = self.scanw;
        assert(scanw * (self.mapy + 1) <= 258 * 257) by (nonlinear_arith)
            requires scanw <= 258, self.mapy + 1 <= 257;
        assert(scanw * (self.mapy + 1) <= rv@.len()) by (nonlinear_arith)
            requires rv@.len() == scanw * (self.mapy + 2);
        let last = scanw * (self.mapy + 1);
        let mut potbase: Vec<usize> = Vec::new();
        let mut off = scanw;
        while off < last
            invariant
                self.wf(),
                rv == &self.resval,
                scanw == self.scanw,
                last == scanw * (self.mapy + 1),
                last <= rv@.len(),
                scanw <= off <= last || (off == scanw && last < scanw),
                ranked(rv@, potbase@),
                forall|o: usize| potbase@.contains(o) <==> (o < off && is_candidate(rv@, self.resblock@,
                    scanw as int, self.mapy as int, o as int)),
            decreases last - off,
        {
            if rv[off] > BASE_MIN && !self.resblock[off] {
                let mut idx: usize = 0;
                proof {
                    assert forall|t: int| 0 <= t < potbase@.len() implies #[trigger] potbase@[t] < rv@.len() by {
                        assert(potbase@.contains(potbase@[t]));
                    }
                }
                while idx < potbase.len() && rv[potbase[idx]] >= rv[off]
                    invariant
                        idx <= potbase@.len(),
                        off < rv@.len(),
                        forall|t: int| 0 <= t < potbase@.len() ==> #[trigger] potbase@[t] < rv@.len(),
                        forall|t: int| 0 <= t < idx ==> rv@[#[trigger] potbase@[t] as int] >= rv@[off as int],
                    decreases potbase@.len() - idx,
                {
                    idx += 1;
                }
                let ghost old_s = potbase@;
                potbase.insert(idx, off);
                proof {
                    let ns = potbase@;
                    assert forall|a: int, b: int| 0 <= a < b < ns.len() implies
                        ranks_before(rv@, #[trigger] ns[a] as int, #[trigger] ns[b] as int) by {
                        assert forall|t: int| 0 <= t < old_s.len() implies #[trigger] old_s[t] < off by {
                            assert(old_s.contains(old_s[t]));
                        }
                        if b < idx {
                            assert(ns[a] == old_s[a] && ns[b] == old_s[b]);
                        } else if b == idx {
                            assert(ns[a] == old_s[a]);
                        } else if a < idx {
                            assert(ns[a] == old_s[a] && ns[b] == old_s[b - 1]);
                        } else if a == idx {
                            assert(ns[b] == old_s[b - 1]);
                            assert(idx < old_s.len());
                            assert(rv@[old_s[idx as int] as int] < rv@[off as int]);
                            if b - 1 > idx {
                                assert(ranks_before(rv@, old_s[idx as int] as int, old_s[b - 1] as int));
                            }
                        } else {
                            assert(ns[a] == old_s[a - 1] && ns[b] == old_s[b - 1]);
                        }
                    }
                    assert forall|o: usize| ns.contains(o) <==> (o < off + 1 && is_candidate(rv@, self.resblock@,
                        scanw as int, self.mapy as int, o as int)) by {
                        if ns.contains(o) && o != off {
                            let t = choose|t: int| 0 <= t < ns.len() && ns[t] == o;
                            if t < idx { assert(old_s[t] == o); } else { assert(old_s[t - 1] == o); }
                            assert(old_s.contains(o));
                        }
                        if o < off && is_candidate(rv@, self.resblock@, scanw as int, self.mapy as int, o as int) {
                            assert(old_s.contains(o));
                            let t = choose|t: int| 0 <= t < old_s.len() && old_s[t] == o;
                            if t < idx { assert(ns[t] == o); } else { assert(ns[t + 1] == o); }
                        }
                        if o == off {
                            assert(ns[idx as int] == off);
                        }
                    }
                }
            }
            off += 1;
        }
        potbase
    }

    /// Lets a base with centre `bp` take the resources of `res` near it.
    fn take_resources(&mut self, res: &mut Vec<StaticResource>, bp: Position, minerals: &mut Vec<usize>,
        geysers: &mut Vec<usize>)
        requires
            old(self).wf(),
            forall|q: int| 0 <= q < old(res)@.len() ==> takeable(old(self).walk_grid@, old(self).scanw as int,
                old(self).mapx as int, old(self).mapy as int, #[trigger] old(res)@[q]),
            0 <= bp.x <= 0x2100,
            0 <= bp.y <= 0x2100,
            bounded(old(self).resval@, i32::MAX - 14400 * (old(res)@.len() + 1)),
        ensures
            final(self).wf(),
            final(self).mapx == old(self).mapx,
            final(self).mapy == old(self).mapy,
            final(self).walk_grid@ == old(self).walk_grid@,
            final(self).resblock@ == old(self).resblock@,
            ({
                let (r, rr, m, g) = take(old(self).resval@, old(self).walk_grid@, old(self).scanw as int, old(res)@, 0, bp);
                &&& final(self).resval@ == r
                &&& final(res)@ == rr
                &&& final(minerals)@ == old(minerals)@ + m
                &&& final(geysers)@ == old(geysers)@ + g
            }),
            forall|q: int| 0 <= q < final(res)@.len() ==> takeable(old(self).walk_grid@, old(self).scanw as int,
                old(self).mapx as int, old(self).mapy as int, #[trigger] final(res)@[q]),
            final(res)@.len() <= old(res)@.len(),
            close(old(self).resval@, final(self).resval@, 14400 * (old(res)@.len() - final(res)@.len())),
    {
        let ghost (rv0, wg, sw, mx, my, rb0, res0, m0, g0) = (self.resval@, self.walk_grid@, self.scanw as int,
            self.mapx as int, self.mapy as int, self.resblock@, res@, minerals@, geysers@);
        let ghost whole = take(rv0, wg, sw, res0, 0, bp);
        let mut i: usize = 0;
        while i < res.len()
            invariant
                self.wf(),
                self.walk_grid@ == wg, self.scanw == sw, self.mapx == mx, self.mapy == my, self.resblock@ == rb0,
                i <= res@.len() <= res0.len(),
                0 <= bp.x <= 0x2100, 0 <= bp.y <= 0x2100,
                forall|q: int| 0 <= q < res@.len() ==> takeable(wg, sw, mx, my, #[trigger] res@[q]),
                bounded(rv0, i32::MAX - 14400 * (res0.len() + 1)),
                close(rv0, self.resval@, 14400 * (res0.len() - res@.len())),
                ({
                    let (r, rr, m, g) = take(self.resval@, wg, sw, res@, i as int, bp);
                    &&& r == whole.0
                    &&& rr == whole.1
                    &&& minerals@ + m == m0 + whole.2
                    &&& geysers@ + g == g0 + whole.3
                }),
            decreases res@.len() - i, res@.len(),
        {
            let u = res[i];
            assert(takeable(wg, sw, mx, my, res@[i as int]));
            let dx = bp.x - u.position.x;
            let dy = bp.y - u.position.y;
            assert(0 <= dx * dx <= 0x4100 * 0x4100) by (nonlinear_arith)
                requires -0x4000 <= dx <= 0x2100;
            assert(0 <= dy * dy <= 0x4100 * 0x4100) by (nonlinear_arith)
                requires -0x4000 <= dy <= 0x2100;
            if dx * dx + dy * dy > INC_DIST * INC_DIST {
                i += 1;
            } else {
                let ghost before = self.resval@;
                let ghost old_m = minerals@;
                let ghost old_g = geysers@;
                proof {
                    lemma_close_bounded(rv0, before, i32::MAX - 14400 * (res0.len() + 1), 14400 * (res0.len() - res@.len()));
                    assert(14400 * (res0.len() + 1) - 14400 * (res0.len() - res@.len()) >= 14400) by (nonlinear_arith)
                        requires res@.len() >= 1;
                }
                if u.is_mineral_field {
                    minerals.push(u.id);
                    self.mark_border_value(u.tile, 2, 1, -1);
                } else {
                    geysers.push(u.id);
                    self.mark_border_value(u.tile, 4, 2, -3);
                }
                let ghost old_res = res@;
                res.swap_remove(i);
                proof {
                    lemma_close_trans(rv0, before, self.resval@, 14400 * (res0.len() - old_res.len()), 14400);
                    assert(14400 * (res0.len() - old_res.len()) + 14400 == 14400 * (res0.len() - res@.len()))
                        by (nonlinear_arith) requires res@.len() == old_res.len() - 1;
                    assert forall|q: int| 0 <= q < res@.len() implies takeable(wg, sw, mx, my, #[trigger] res@[q]) by {
                        if q == i { assert(res@[q] == old_res.last()); assert(takeable(wg, sw, mx, my, old_res[old_res.len() - 1])); }
                        else { assert(res@[q] == old_res[q]); assert(takeable(wg, sw, mx, my, old_res[q])); }
                    }
                    let tail = take(self.resval@, wg, sw, res@, i as int, bp);
                    assert(take(before, wg, sw, old_res, i as int, bp) == (if u.is_mineral_field {
                        (tail.0, tail.1, seq![u.id].add(tail.2), tail.3) } else {
                        (tail.0, tail.1, tail.2, seq![u.id].add(tail.3)) }));
                    if u.is_mineral_field {
                        assert(minerals@ + tail.2 =~= old_m + seq![u.id].add(tail.2));
                        assert(geysers@ == old_g);
                    } else {
                        assert(geysers@ + tail.3 =~= old_g + seq![u.id].add(tail.3));
                        assert(minerals@ == old_m);
                    }
                }
            }
        }
    }

    /// The bases of `game` whose static resources are `minerals` and `geysers`: the tiles are
    /// scored by the resources around them, and the candidates, best scored first, become
    /// bases in turn if they still score enough, each taking the resources near it.
    pub fn find(game: &Game, minerals: &Vec<StaticResource>, geysers: &Vec<StaticResource>) -> (r: Vec<Base>)
        requires
            0 <= game.map_width <= 256,
            0 <= game.map_height <= 256,
            minerals@.len() <= 20000,
            geysers@.len() <= 20000,
            resources_fit(game, minerals@, false),
            resources_fit(game, geysers@, true),
        ensures
            r@.map_values(|b: Base| base_view(b)) == bases_spec(game, minerals@, geysers@),
    {
        let mut finder = BaseFinder::new(game);
        let ghost g = finder.walk_grid@;
        let ghost sw = finder.scanw as int;
        let ghost (mx, my) = (finder.mapx as int, finder.mapy as int);
        assert(g =~= game_grid(game));
        let ghost rv0 = finder.resval@;
        let ghost rb0 = finder.resblock@;
        assert(rv0 =~= Seq::new(g.len(), |k: int| 0i32));
        assert(rb0 =~= Seq::new(g.len(), |k: int| false));
        let mut res: Vec<StaticResource> = Vec::new();
        proof {
            assert forall|q: int| 0 <= q < minerals@.len() && counts(#[trigger] minerals@[q], false)
                implies marks_fit(finder, minerals@[q].tile, 2, 1) by {}
            assert(bounded(rv0, i32::MAX - 14400 * (minerals@.len() + 1)));
        }
        finder.mark_resources(minerals, false, &mut res);
        let ghost rv1 = finder.resval@;
        proof {
            lemma_close_bounded(rv0, rv1, 0, 14400 * minerals@.len() as int);
            assert forall|q: int| 0 <= q < geysers@.len() && counts(#[trigger] geysers@[q], true)
                implies marks_fit(finder, geysers@[q].tile, 4, 2) by {}
            assert(bounded(rv1, i32::MAX - 14400 * (geysers@.len() + 1))) by {
                assert(14400 * minerals@.len() + 14400 * (geysers@.len() + 1) <= i32::MAX) by (nonlinear_arith)
                    requires minerals@.len() <= 20000, geysers@.len() <= 20000;
                assert forall|k: int| 0 <= k < rv1.len() implies
                    -(i32::MAX - 14400 * (geysers@.len() + 1)) <= #[trigger] rv1[k] <= i32::MAX - 14400 * (geysers@.len() + 1) by {
                    assert(-(14400 * minerals@.len()) <= rv1[k] <= 14400 * minerals@.len());
                }
            }
        }
        finder.mark_resources(geysers, true, &mut res);
        let ghost rv2 = finder.resval@;
        let ghost rb2 = finder.resblock@;
        let ghost res0 = res@;
        proof {
            assert((rb2, rv2) == scores_of(game, minerals@, geysers@));
            lemma_close_trans(rv0, rv1, rv2, 14400 * minerals@.len() as int, 14400 * geysers@.len() as int);
            lemma_close_bounded(rv0, rv2, 0, 14400 * (minerals@.len() + geysers@.len()) as int);
            assert(res0 =~= kept(minerals@, minerals@.len() as int, false) + kept(geysers@, geysers@.len() as int, true));
            lemma_kept(minerals@, minerals@.len() as int, false);
            lemma_kept(geysers@, geysers@.len() as int, true);
            let (rba, rva) = scored(rb0, rv0, g, sw, mx, my, minerals@, minerals@.len() as int, false);
            lemma_scored_blocked(rb0, rv0, g, sw, mx, my, minerals@, minerals@.len() as int, false);
            lemma_scored_blocked(rba, rva, g, sw, mx, my, geysers@, geysers@.len() as int, true);
            assert forall|q: int| 0 <= q < res0.len() implies takeable(g, sw, mx, my, #[trigger] res0[q]) by {
                let km = kept(minerals@, minerals@.len() as int, false);
                if q < km.len() {
                    assert(res0[q] == km[q]);
                    let t = choose|t: int| 0 <= t < minerals@.len() && minerals@[t] == km[q];
                    assert(counts(minerals@[t], false));
                } else {
                    let kg = kept(geysers@, geysers@.len() as int, true);
                    assert(res0[q] == kg[q - km.len()]);
                    let t = choose|t: int| 0 <= t < geysers@.len() && geysers@[t] == kg[q - km.len()];
                    assert(counts(geysers@[t], true));
                }
            }
        }
        let pot = finder.potential_bases();
        let ghost whole = select(rv2, rb2, g, sw, res0, pot@, 0);
        let mut bases: Vec<Base> = Vec::new();
        let mut idx: usize = 0;
        while idx < pot.len()
            invariant
                finder.wf(),
                finder.walk_grid@ == g, finder.scanw == sw, finder.mapx == mx, finder.mapy == my,
                finder.resblock@ == rb2,
                sw == mx + 2, g.len() == sw * (my + 2),
                mx == game.map_width, my == game.map_height,
                g == game_grid(game),
                idx <= pot@.len(),
                forall|o: usize| pot@.contains(o) <==> is_candidate(rv2, rb2, sw, my, o as int),
                res@.len() <= res0.len() <= 40000,
                forall|q: int| 0 <= q < res@.len() ==> takeable(g, sw, mx, my, #[trigger] res@[q]),
                bounded(rv2, 14400 * 40000int),
                close(rv2, finder.resval@, 14400 * (res0.len() - res@.len())),
                forall|k: int| 0 <= k < g.len() && g[k] ==> #[trigger] finder.resval@[k] == 0,
                bases@.map_values(|b: Base| base_view(b)) + select(finder.resval@, rb2, g, sw, res@, pot@, idx as int) == whole,
            decreases pot@.len() - idx,
        {
            let off = pot[idx];
            proof {
                assert(pot@.contains(off));
                assert(off < sw * (my + 1));
                assert(sw * (my + 1) <= g.len()) by (nonlinear_arith) requires g.len() == sw * (my + 2), sw >= 0;
            }
            let ghost rv_now = finder.resval@;
            let ghost res_now = res@;
            if finder.resval[off] <= BASE_MIN || finder.resblock[off] {
                idx += 1;
            } else {
                let ghost x = (off as int) % sw - 1;
                let ghost y = (off as int) / sw - 1;
                proof {
                    assert(!g[off as int]);
                    assert(g[off as int] == grid_cell(game, sw, mx, my, off as int));
                    assert(0 <= x < mx && 0 <= y < my);
                    vstd::arithmetic::div_mod::lemma_fundamental_div_mod(off as int, sw);
                    assert((off as int) - sw - 1 == y * sw + x) by (nonlinear_arith)
                        requires (off as int) == sw * ((off as int) / sw) + (off as int) % sw, x == (off as int) % sw - 1, y == (off as int) / sw - 1;
                    vstd::arithmetic::div_mod::lemma_fundamental_div_mod_converse((off as int) - sw - 1, sw, y, x);
                }
                let rel = off - finder.mapx - 3;
                let tile = TilePosition { x: (rel % finder.scanw) as i32, y: (rel / finder.scanw) as i32 };
                assert(tile == off_tile(off as int, sw));
                let bp = Position { x: tile.x * 32 + 64, y: tile.y * 32 + 48 };
                assert(bp == base_centre(tile));
                let mut mins: Vec<usize> = Vec::new();
                let mut geys: Vec<usize> = Vec::new();
                proof {
                    lemma_close_bounded(rv2, rv_now, 14400 * 40000int, 14400 * (res0.len() - res@.len()));
                    assert(14400 * 40000 + 14400 * (res0.len() - res@.len()) <= i32::MAX - 14400 * (res@.len() + 1))
                        by (nonlinear_arith) requires res0.len() <= 40000, res@.len() <= res0.len();
                    assert(bounded(rv_now, i32::MAX - 14400 * (res@.len() + 1))) by {
                        assert forall|k: int| 0 <= k < rv_now.len() implies
                            -(i32::MAX - 14400 * (res@.len() + 1)) <= #[trigger] rv_now[k] <= i32::MAX - 14400 * (res@.len() + 1) by {
                            assert(-(14400 * 40000 + 14400 * (res0.len() - res@.len())) <= rv_now[k]
                                <= 14400 * 40000 + 14400 * (res0.len() - res@.len()));
                        }
                    }
                }
                finder.take_resources(&mut res, bp, &mut mins, &mut geys);
                proof {
                    lemma_close_trans(rv2, rv_now, finder.resval@, 14400 * (res0.len() - res_now.len()),
                        14400 * (res_now.len() - res@.len()));
                    assert(14400 * (res0.len() - res_now.len()) + 14400 * (res_now.len() - res@.len())
                        == 14400 * (res0.len() - res@.len())) by (nonlinear_arith);
                    lemma_take_blocked(rv_now, g, sw, res_now, 0, bp);
                    assert(mins@ =~= take(rv_now, g, sw, res_now, 0, bp).2);
                    assert(geys@ =~= take(rv_now, g, sw, res_now, 0, bp).3);
                }
                let ghost view_before = bases@.map_values(|b: Base| base_view(b));
                bases.push(Base { position: tile, minerals: mins, geysers: geys });
                proof {
                    let v = bases@.map_values(|b: Base| base_view(b));
                    assert(v =~= view_before.push((tile, take(rv_now, g, sw, res_now, 0, bp).2,
                        take(rv_now, g, sw, res_now, 0, bp).3)));
                    assert(select(rv_now, rb2, g, sw, res_now, pot@, idx as int) == seq![(tile,
                        take(rv_now, g, sw, res_now, 0, bp).2, take(rv_now, g, sw, res_now, 0, bp).3)].add(
                        select(finder.resval@, rb2, g, sw, res@, pot@, idx + 1)));
                    assert(v + select(finder.resval@, rb2, g, sw, res@, pot@, idx + 1) =~=
                        view_before + select(rv_now, rb2, g, sw, res_now, pot@, idx as int));
                }
                idx += 1;
            }
        }
        proof {
            assert(select(finder.resval@, rb2, g, sw, res@, pot@, idx as int) =~= Seq::<(TilePosition, Seq<usize>, Seq<usize>)>::empty());
            assert(bases@.map_values(|b: Base| base_view(b)) =~= whole);
            assert(candidates_ranked(rv2, rb2, sw, my, pot@));
            lemma_ranked_unique(rv2, rb2, sw, my, pot@, candidates_of(rv2, rb2, sw, my));
        }
        bases
    }
}


/// A mineral field counts for the base search when it held at least 500 minerals when the
/// game started, a geyser when it held anything; and a resource belongs to a base only when
/// its squared distance from the base's centre is at most 288 * 288 (nine tiles).
pub proof fn law_search_thresholds(u: StaticResource, bp: Position)
    ensures
        counts(u, false) <==> u.resources >= 500,
        counts(u, true) <==> u.resources != 0,
        !far(u, bp) <==> (bp.x - u.position.x) * (bp.x - u.position.x) + (bp.y - u.position.y) * (bp.y - u.position.y)
            <= 82944,
        res_shape(false) == (2int, 1int, 2int, 1int, 1int),
        res_shape(true) == (4int, 1int, 4int, 2int, 3int),
{
}

/// A tile holds a base only while it scores more than 400 and is not too close to a resource.
pub proof fn law_candidates_score_above_400(rv: Seq<i32>, rb: Seq<bool>, scanw: int, mapy: int, o: int)
    ensures
        is_candidate(rv, rb, scanw, mapy, o) ==> rv[o] > 400 && !rb[o],
        scanw <= o < scanw * (mapy + 1) && rv[o] > 400 && !rb[o] ==> is_candidate(rv, rb, scanw, mapy, o),
{
}

/// Each base takes exactly the resources near its centre: a resource farther than 288 pixels
/// stays for later bases, and the first resource within that distance is taken.
pub proof fn law_bases_take_near_resources(rv: Seq<i32>, walk: Seq<bool>, scanw: int, res: Seq<StaticResource>, i: int, bp: Position)
    requires
        0 <= i < res.len(),
    ensures
        far(res[i], bp) ==> take(rv, walk, scanw, res, i, bp) == take(rv, walk, scanw, res, i + 1, bp),
        !far(res[i], bp) && res[i].is_mineral_field ==> take(rv, walk, scanw, res, i, bp).2[0] == res[i].id,
        !far(res[i], bp) && !res[i].is_mineral_field ==> take(rv, walk, scanw, res, i, bp).3[0] == res[i].id,
{
}

} // verus!
