//! Finding the units of a game by where they stand.
use vstd::prelude::*;
use crate::bwapi_wrapper::position::{abs_fits_i32, abs_int, fits_i32, Position, TilePosition};
use crate::types::Rectangle;
use crate::bwapi_wrapper::unit_type::UnitType;
use crate::game::Game;
use crate::predicate::{IntoPredicate, Predicate};
use crate::production::{spans_meet, spans_meet_exec};
use crate::unit::Unit;

verus! {

/// Whether unit `u`'s box meets the rectangle with corners `a` and `b`, either first.
pub open spec fn box_meets(u: Unit, a: Position, b: Position) -> bool {
    &&& spans_meet(u.position.x - u.kind.dimension_left, u.position.x + u.kind.dimension_right, a.x as int, b.x as int)
    &&& spans_meet(u.position.y - u.kind.dimension_up, u.position.y + u.kind.dimension_down, a.y as int, b.y as int)
}

/// The squared distance between the positions of `u` and `c`.
pub open spec fn sq_dist_to(u: Unit, c: Position) -> int {
    (c.x - u.position.x) * (c.x - u.position.x) + (c.y - u.position.y) * (c.y - u.position.y)
}

/// Whether unit `u` is looked at by a search of the rectangle with corners `a` and `b`, and,
/// with `within` given as a centre and a squared radius, no farther from the centre.
pub open spec fn searched(u: Unit, a: Position, b: Position, within: Option<(Position, int)>) -> bool {
    &&& box_meets(u, a, b)
    &&& match within {
        Some((c, r2)) => sq_dist_to(u, c) <= r2,
        None => true,
    }
}

/// The units of `s` whose entry in `keep` is true, in order.
pub open spec fn kept(s: Seq<Unit>, keep: Seq<bool>) -> Seq<Unit>
    decreases keep.len(),
{
    if keep.len() == 0 {
        Seq::empty()
    } else {
        let rest = kept(s, keep.drop_last());
        if keep.last() {
            rest.push(s[keep.len() - 1])
        } else {
            rest
        }
    }
}

/// Whether `r` holds, in order, the units of `s` that a search picks: the units it looks at
/// and for which `pred` gave true, where `pred` is run on each unit looked at.
pub open spec fn picked<P: Predicate<Item = Unit>>(s: Seq<Unit>, pred: P, a: Position, b: Position,
    within: Option<(Position, int)>, r: Seq<Unit>) -> bool {
    exists|keep: Seq<bool>| {
        &&& keep.len() == s.len()
        &&& forall|i: int| 0 <= i < s.len() ==> {
            &&& #[trigger] keep[i] ==> searched(s[i], a, b, within)
            &&& searched(s[i], a, b, within) ==> pred.may_give(&s[i], keep[i])
        }
        &&& r == kept(s, keep)
    }
}

/// Whether `pred` may be run on every unit of `s` that a search looks at.
pub open spec fn runs_on_searched<P: Predicate<Item = Unit>>(s: Seq<Unit>, pred: P, a: Position, b: Position,
    within: Option<(Position, int)>) -> bool {
    forall|i: int| 0 <= i < s.len() && searched(s[i], a, b, within) ==> pred.runs_on(&s[i])
}

/// The units as values.
pub open spec fn values(r: Seq<&Unit>) -> Seq<Unit> {
    r.map_values(|u: &Unit| *u)
}

impl Game {
    /// The units a search picks, in the order of the game's units.
    fn search_units<Q: Predicate<Item = Unit>>(&self, a: Position, b: Position, within: Option<(Position, i64)>,
        pred: &Q) -> (r: Vec<&Unit>)
        requires
            runs_on_searched(self.units@, *pred, a, b, match within { Some((c, r2)) => Some((c, r2 as int)), None => None }),
        ensures
            picked(self.units@, *pred, a, b, match within { Some((c, r2)) => Some((c, r2 as int)), None => None }, values(r@)),
    {
        let ghost w = match within {
            Some((c, r2)) => Some((c, r2 as int)),
            None => None,
        };
        let mut r: Vec<&Unit> = Vec::new();
        let ghost mut keep: Seq<bool> = Seq::empty();
        let mut i: usize = 0;
        while i < self.units.len()
            invariant
                i <= self.units@.len(),
                keep.len() == i,
                w == (match within { Some((c, r2)) => Some((c, r2 as int)), None => None }),
                runs_on_searched(self.units@, *pred, a, b, w),
                forall|j: int| 0 <= j < i ==> {
                    &&& #[trigger] keep[j] ==> searched(self.units@[j], a, b, w)
                    &&& searched(self.units@[j], a, b, w) ==> pred.may_give(&self.units@[j], keep[j])
                },
                values(r@) == kept(self.units@, keep),
            decreases self.units@.len() - i,
        {
            let u = &self.units[i];
            let left = u.position.x as i64 - u.kind.dimension_left as i64;
            let right = u.position.x as i64 + u.kind.dimension_right as i64;
            let top = u.position.y as i64 - u.kind.dimension_up as i64;
            let bottom = u.position.y as i64 + u.kind.dimension_down as i64;
            let meets = spans_meet_exec(left, right, a.x as i64, b.x as i64)
                && spans_meet_exec(top, bottom, a.y as i64, b.y as i64);
            let near = match within {
                Some((c, r2)) => {
                    let dx = c.x as i128 - u.position.x as i128;
                    let dy = c.y as i128 - u.position.y as i128;
                    assert(0 <= dx * dx <= 0x1_0000_0000_0000_0000) by (nonlinear_arith)
                        requires
                            -0x1_0000_0000 <= dx <= 0x1_0000_0000,
                    ;
                    assert(0 <= dy * dy <= 0x1_0000_0000_0000_0000) by (nonlinear_arith)
                        requires
                            -0x1_0000_0000 <= dy <= 0x1_0000_0000,
                    ;
                    dx * dx + dy * dy <= r2 as i128
                },
                None => true,
            };
            let k = if meets && near {
                pred.test(u)
            } else {
                false
            };
            if k {
                r.push(u);
            }
            proof {
                let old_keep = keep;
                keep = keep.push(k);
                assert(keep.drop_last() =~= old_keep);
                assert(values(r@) =~= kept(self.units@, keep));
            }
            i = i + 1;
        }
        assert(picked(self.units@, *pred, a, b, w, values(r@)));
        r
    }

    /// The units whose box meets the rectangle with corners `lt` and `rb` and that pass
    /// `pred`, in the order of the game's units.
    pub fn get_units_in_rectangle<P: IntoPredicate<Unit>>(&self, lt: Position, rb: Position, pred: P) -> (r: Vec<&Unit>)
        requires
            runs_on_searched(self.units@, pred.as_pred(), lt, rb, None),
        ensures
            picked(self.units@, pred.as_pred(), lt, rb, None, values(r@)),
    {
        let pred = pred.into_predicate();
        self.search_units(lt, rb, None, &pred)
    }

    /// The units whose box meets build tile `tile` and that pass `pred`; none for a tile off
    /// the map.
    pub fn get_units_on_tile<P: IntoPredicate<Unit>>(&self, tile: TilePosition, pred: P) -> (r: Vec<&Unit>)
        requires
            self.tile_on_map(tile.x as int, tile.y as int) ==> {
                &&& fits_i32(tile.x * 32 + 32)
                &&& fits_i32(tile.y * 32 + 32)
                &&& runs_on_searched(self.units@, pred.as_pred(), Position { x: (tile.x * 32) as i32, y: (tile.y * 32) as i32 },
                    Position { x: (tile.x * 32 + 32) as i32, y: (tile.y * 32 + 32) as i32 }, None)
            },
        ensures
            !self.tile_on_map(tile.x as int, tile.y as int) ==> r@.len() == 0,
            self.tile_on_map(tile.x as int, tile.y as int) ==> picked(self.units@, pred.as_pred(),
                Position { x: (tile.x * 32) as i32, y: (tile.y * 32) as i32 },
                Position { x: (tile.x * 32 + 32) as i32, y: (tile.y * 32 + 32) as i32 }, None, values(r@)),
    {
        if !(0 <= tile.x && tile.x < self.map_width && 0 <= tile.y && tile.y < self.map_height) {
            return Vec::new();
        }
        let p = Position { x: tile.x * 32, y: tile.y * 32 };
        let pred = pred.into_predicate();
        self.search_units(p, Position { x: p.x + 32, y: p.y + 32 }, None, &pred)
    }

    /// The units whose box meets the square around `position` reaching `radius` pixels each
    /// way, that stand no farther than `radius` from it, and that pass `pred`.
    pub fn get_units_in_radius<P: IntoPredicate<Unit>>(&self, position: Position, radius: i32, pred: P) -> (r: Vec<&Unit>)
        requires
            fits_i32(position.x - radius),
            fits_i32(position.y - radius),
            fits_i32(position.x + radius),
            fits_i32(position.y + radius),
            fits_i32(radius * radius),
            runs_on_searched(self.units@, pred.as_pred(),
                Position { x: (position.x - radius) as i32, y: (position.y - radius) as i32 },
                Position { x: (position.x + radius) as i32, y: (position.y + radius) as i32 },
                Some((position, radius * radius))),
        ensures
            picked(self.units@, pred.as_pred(),
                Position { x: (position.x - radius) as i32, y: (position.y - radius) as i32 },
                Position { x: (position.x + radius) as i32, y: (position.y + radius) as i32 },
                Some((position, radius * radius)), values(r@)),
    {
        let pred = pred.into_predicate();
        let r2 = radius * radius;
        self.search_units(Position { x: position.x - radius, y: position.y - radius },
            Position { x: position.x + radius, y: position.y + radius }, Some((position, r2 as i64)), &pred)
    }
}

/// The number of true entries of `s`.
pub open spec fn count_true(s: Seq<bool>) -> nat
    decreases s.len(),
{
    if s.len() == 0 {
        0
    } else {
        count_true(s.drop_last()) + if s.last() { 1nat } else { 0nat }
    }
}

/// Setting a false entry adds one true entry.
proof fn lemma_count_set(s: Seq<bool>, i: int)
    requires
        0 <= i < s.len(),
        !s[i],
    ensures
        count_true(s.update(i, true)) == count_true(s) + 1,
    decreases s.len(),
{
    let t = s.update(i, true);
    if i < s.len() - 1 {
        assert(t.drop_last() =~= s.drop_last().update(i, true));
        lemma_count_set(s.drop_last(), i);
    } else {
        assert(t.drop_last() =~= s.drop_last());
    }
}

/// A sequence with no true entry counts none; one counting as many true entries as it has
/// entries is true throughout.
proof fn lemma_count_bounds(s: Seq<bool>)
    ensures
        (forall|i: int| 0 <= i < s.len() ==> !s[i]) ==> count_true(s) == 0,
        count_true(s) <= s.len(),
        count_true(s) == s.len() ==> forall|i: int| 0 <= i < s.len() ==> s[i],
    decreases s.len(),
{
    if s.len() > 0 {
        lemma_count_bounds(s.drop_last());
        if count_true(s) == s.len() {
            assert forall|i: int| 0 <= i < s.len() implies s[i] by {
                if i < s.len() - 1 {
                    assert(s.drop_last()[i] == s[i]);
                }
            }
        }
        if forall|i: int| 0 <= i < s.len() ==> !s[i] {
            assert forall|i: int| 0 <= i < s.drop_last().len() implies !s.drop_last()[i] by {
                assert(s.drop_last()[i] == s[i]);
            }
        }
    }
}

/// The squared distance from pixel `(px, py)` to the box of unit `u` (0 inside it).
pub open spec fn sq_dist_to_box(u: Unit, px: int, py: int) -> int {
    let x0 = u.position.x - u.kind.dimension_left;
    let x1 = u.position.x + u.kind.dimension_right;
    let y0 = u.position.y - u.kind.dimension_up;
    let y1 = u.position.y + u.kind.dimension_down;
    let lo_x = if x0 <= x1 { x0 } else { x1 };
    let hi_x = if x0 <= x1 { x1 } else { x0 };
    let lo_y = if y0 <= y1 { y0 } else { y1 };
    let hi_y = if y0 <= y1 { y1 } else { y0 };
    let dx = if px < lo_x { lo_x - px } else if px > hi_x { px - hi_x } else { 0 };
    let dy = if py < lo_y { lo_y - py } else if py > hi_y { py - hi_y } else { 0 };
    dx * dx + dy * dy
}

/// The radius a search for the closest unit uses: `radius`, 32000 when none is given.
pub open spec fn search_radius(radius: Option<u32>) -> int {
    match radius {
        Some(r) => r as int,
        None => 32000,
    }
}

/// The bound on squared distances of a search for the closest unit: the squared radius, as
/// the search computes it in 32 bits.
pub open spec fn search_limit(radius: Option<u32>) -> int {
    (search_radius(radius) * search_radius(radius)) as u32 as i32 as int
}

/// Whether unit `i` of `s` comes before unit `j` in a search for the unit closest to `c`:
/// nearer, or as near and earlier in `s`.
pub open spec fn nearer_first(s: Seq<Unit>, c: Position, i: int, j: int) -> bool {
    let di = sq_dist_to_box(s[i], c.x as int, c.y as int);
    let dj = sq_dist_to_box(s[j], c.x as int, c.y as int);
    di < dj || (di == dj && i < j)
}

/// Whether unit `i` of `s` is within `limit` of `c`.
pub open spec fn within_limit(s: Seq<Unit>, c: Position, limit: int, i: int) -> bool {
    sq_dist_to_box(s[i], c.x as int, c.y as int) <= limit
}

/// The squared distance from pixel `(px, py)` to the box of unit `u`.
fn box_distance(u: &Unit, px: i64, py: i64) -> (r: i128)
    requires
        i32::MIN <= px <= i32::MAX,
        i32::MIN <= py <= i32::MAX,
    ensures
        r == sq_dist_to_box(*u, px as int, py as int),
{
    let x0 = u.position.x as i64 - u.kind.dimension_left as i64;
    let x1 = u.position.x as i64 + u.kind.dimension_right as i64;
    let y0 = u.position.y as i64 - u.kind.dimension_up as i64;
    let y1 = u.position.y as i64 + u.kind.dimension_down as i64;
    let lo_x = if x0 <= x1 { x0 } else { x1 };
    let hi_x = if x0 <= x1 { x1 } else { x0 };
    let lo_y = if y0 <= y1 { y0 } else { y1 };
    let hi_y = if y0 <= y1 { y1 } else { y0 };
    let dx: i128 = if px < lo_x { (lo_x - px) as i128 } else if px > hi_x { (px - hi_x) as i128 } else { 0 };
    let dy: i128 = if py < lo_y { (lo_y - py) as i128 } else if py > hi_y { (py - hi_y) as i128 } else { 0 };
    assert(0 <= dx * dx <= 0x10_0000_0000_0000_0000) by (nonlinear_arith)
        requires
            0 <= dx <= 0x4_0000_0000,
    ;
    assert(0 <= dy * dy <= 0x10_0000_0000_0000_0000) by (nonlinear_arith)
        requires
            0 <= dy <= 0x4_0000_0000,
    ;
    dx * dx + dy * dy
}

/// Whether unit `i` of `s` is a candidate of a search for the unit closest to `c`: within
/// `limit` of it, and, when `rect` is given, with a box meeting that rectangle.
pub open spec fn candidate(s: Seq<Unit>, c: Position, limit: int, rect: Option<(Position, Position)>, i: int) -> bool {
    &&& within_limit(s, c, limit, i)
    &&& match rect {
        Some((a, b)) => box_meets(s[i], a, b),
        None => true,
    }
}

/// Whether `r` is what a search for the candidate closest to `c` that passes `pred` finds:
/// candidates are tried nearest first, and as near in the order of `s`.
pub open spec fn closest_found<P: Predicate<Item = Unit>>(s: Seq<Unit>, c: Position, limit: int,
    rect: Option<(Position, Position)>, pred: P, r: Option<Unit>) -> bool {
    match r {
        Some(u) => exists|k: int| {
            &&& 0 <= k < s.len()
            &&& #[trigger] s[k] == u
            &&& candidate(s, c, limit, rect, k)
            &&& pred.may_give(&s[k], true)
            &&& forall|j: int| 0 <= j < s.len() && candidate(s, c, limit, rect, j) && nearer_first(s, c, j, k)
                ==> pred.may_give(&s[j], false)
        },
        None => forall|j: int| 0 <= j < s.len() && candidate(s, c, limit, rect, j) ==> pred.may_give(&s[j], false),
    }
}

/// Whether `pred` may be run on every candidate of a search.
pub open spec fn runs_on_candidates<P: Predicate<Item = Unit>>(s: Seq<Unit>, c: Position, limit: int,
    rect: Option<(Position, Position)>, pred: P) -> bool {
    forall|i: int| 0 <= i < s.len() && candidate(s, c, limit, rect, i) ==> pred.runs_on(&s[i])
}

/// The unit a reference refers to, if any.
pub open spec fn referred(r: Option<&Unit>) -> Option<Unit> {
    match r {
        Some(u) => Some(*u),
        None => None,
    }
}

impl Game {
    /// Tries the candidates of a search nearest first, and as near in the order of the game's
    /// units, until one passes `test`.
    fn closest_candidate<Q: Predicate<Item = Unit>>(&self, center: Position, test: &Q, limit: i128,
        rect: Option<(Position, Position)>) -> (r: Option<&Unit>)
        requires
            runs_on_candidates(self.units@, center, limit as int, rect, *test),
        ensures
            closest_found(self.units@, center, limit as int, rect, *test, referred(r)),
    {
        let n = self.units.len();
        let mut tried: Vec<bool> = Vec::new();
        let mut i: usize = 0;
        while i < n
            invariant
                n == self.units@.len(),
                i <= n,
                tried@.len() == i,
                forall|j: int| 0 <= j < i ==> !tried@[j],
            decreases n - i,
        {
            tried.push(false);
            i = i + 1;
        }
        let ghost s = self.units@;
        let ghost lim = limit as int;
        proof {
            lemma_count_bounds(tried@);
        }
        // Each round tries the first untried candidate; those tried all failed, and every
        // candidate before one tried in the search order was tried.
        let mut rounds: usize = 0;
        while rounds < n
            invariant
                s == self.units@,
                n == s.len(),
                lim == limit as int,
                tried@.len() == n,
                count_true(tried@) == rounds,
                forall|i: int| 0 <= i < n && candidate(s, center, lim, rect, i) ==> test.runs_on(&s[i]),
                forall|j: int| 0 <= j < n && #[trigger] tried@[j] ==> candidate(s, center, lim, rect, j)
                    && test.may_give(&s[j], false),
                forall|j: int, k: int| 0 <= j < n && 0 <= k < n && #[trigger] tried@[k] && !#[trigger] tried@[j]
                    && candidate(s, center, lim, rect, j) ==> !nearer_first(s, center, j, k),
            decreases n - rounds,
        {
            let mut best: Option<(usize, i128)> = None;
            let mut j: usize = 0;
            while j < n
                invariant
                    s == self.units@,
                    n == s.len(),
                    j <= n,
                    tried@.len() == n,
                    lim == limit as int,
                    match best {
                        Some((b, d)) => b < j && !tried@[b as int] && d == sq_dist_to_box(s[b as int], center.x as int, center.y as int)
                            && candidate(s, center, lim, rect, b as int)
                            && forall|m: int| 0 <= m < j && !tried@[m] && candidate(s, center, lim, rect, m) && m != b
                                ==> nearer_first(s, center, b as int, m),
                        None => forall|m: int| 0 <= m < j && !tried@[m] ==> !candidate(s, center, lim, rect, m),
                    },
                decreases n - j,
            {
                if !tried[j] {
                    let u = &self.units[j];
                    let d = box_distance(u, center.x as i64, center.y as i64);
                    let in_rect = match rect {
                        Some((a, b)) => spans_meet_exec(u.position.x as i64 - u.kind.dimension_left as i64,
                                u.position.x as i64 + u.kind.dimension_right as i64, a.x as i64, b.x as i64)
                            && spans_meet_exec(u.position.y as i64 - u.kind.dimension_up as i64,
                                u.position.y as i64 + u.kind.dimension_down as i64, a.y as i64, b.y as i64),
                        None => true,
                    };
                    if d <= limit && in_rect {
                        match best {
                            Some((_, bd)) => {
                                if d < bd {
                                    best = Some((j, d));
                                }
                            },
                            None => {
                                best = Some((j, d));
                            },
                        }
                    }
                }
                j = j + 1;
            }
            match best {
                None => {
                    assert forall|m: int| 0 <= m < n && candidate(s, center, lim, rect, m) implies test.may_give(&s[m], false) by {
                        assert(tried@[m]);
                    }
                    return None;
                },
                Some((b, _)) => {
                    if test.test(&self.units[b]) {
                        assert forall|m: int| 0 <= m < n && candidate(s, center, lim, rect, m)
                            && nearer_first(s, center, m, b as int) implies test.may_give(&s[m], false) by {
                            if !tried@[m] {
                                assert(m != b);
                                assert(nearer_first(s, center, b as int, m));
                            }
                        }
                        assert(self.units@[b as int] == s[b as int]);
                        return Some(&self.units[b]);
                    }
                    proof {
                        lemma_count_set(tried@, b as int);
                        assert forall|m: int, k: int| 0 <= m < n && 0 <= k < n && tried@.update(b as int, true)[k]
                            && !tried@.update(b as int, true)[m] && candidate(s, center, lim, rect, m)
                            implies !nearer_first(s, center, m, k) by {
                            if k == b as int {
                                assert(m != b);
                                assert(nearer_first(s, center, b as int, m));
                            }
                        }
                    }
                    tried.set(b, true);
                },
            }
            rounds = rounds + 1;
        }
        proof {
            lemma_count_bounds(tried@);
            assert forall|m: int| 0 <= m < n && candidate(s, center, lim, rect, m) implies test.may_give(&s[m], false) by {
                assert(tried@[m]);
            }
        }
        None
    }

    /// The unit closest to `center` that passes `pred`, among those within `radius` of it
    /// (32000 pixels if none is given); units are tried nearest first, and as near in the
    /// order of the game's units.
    pub fn get_closest_unit<P: IntoPredicate<Unit>>(&self, center: Position, pred: P, radius: Option<u32>) -> (r: Option<&Unit>)
        requires
            search_radius(radius) <= 0xffff,
            runs_on_candidates(self.units@, center, search_limit(radius), None, pred.as_pred()),
        ensures
            closest_found(self.units@, center, search_limit(radius), None, pred.as_pred(), referred(r)),
    {
        let test = pred.into_predicate();
        let rad: u32 = match radius {
            Some(r) => r,
            None => 32000,
        };
        assert(rad as int == search_radius(radius));
        assert(0 <= rad * rad <= 0xffff * 0xffff) by (nonlinear_arith)
            requires
                rad <= 0xffff,
        ;
        let limit = (#[verifier::truncate] ((rad * rad) as i32)) as i128;
        self.closest_candidate(center, &test, limit, None)
    }

    /// The unit closest to `center` that passes `pred`, among those whose box meets
    /// `rectangle` and that lie no farther from `center` than the rectangle's farthest
    /// corner; units are tried nearest first, and as near in the order of the game's units.
    pub fn get_closest_unit_in_rectangle<P: IntoPredicate<Unit>>(&self, center: Position, pred: P,
        rectangle: Rectangle<Position>) -> (r: Option<&Unit>)
        requires
            fits_i32(rectangle.tl.x - center.x),
            fits_i32(rectangle.br.x - center.x),
            fits_i32(rectangle.tl.y - center.y),
            fits_i32(rectangle.br.y - center.y),
            abs_fits_i32(rectangle.tl.x - center.x),
            abs_fits_i32(rectangle.br.x - center.x),
            abs_fits_i32(rectangle.tl.y - center.y),
            abs_fits_i32(rectangle.br.y - center.y),
            fits_i32(corner_reach(center, rectangle)),
            runs_on_candidates(self.units@, center, corner_reach(center, rectangle),
                Some((rectangle.tl, rectangle.br)), pred.as_pred()),
        ensures
            closest_found(self.units@, center, corner_reach(center, rectangle), Some((rectangle.tl, rectangle.br)),
                pred.as_pred(), referred(r)),
    {
        let test = pred.into_predicate();
        let ax = abs_diff(rectangle.tl.x, center.x);
        let bx = abs_diff(rectangle.br.x, center.x);
        let ay = abs_diff(rectangle.tl.y, center.y);
        let by = abs_diff(rectangle.br.y, center.y);
        let dx = if ax >= bx { ax } else { bx };
        let dy = if ay >= by { ay } else { by };
        assert(0 <= dx * dx) by (nonlinear_arith);
        assert(0 <= dy * dy) by (nonlinear_arith);
        let radius_2 = dx * dx + dy * dy;
        self.closest_candidate(center, &test, radius_2 as i128, Some((rectangle.tl, rectangle.br)))
    }
}

/// The squared distance from `c` to the farther, along each axis, of the corners of `rect`.
pub open spec fn corner_reach(c: Position, rect: Rectangle<Position>) -> int {
    let ax = abs_int(rect.tl.x - c.x);
    let bx = abs_int(rect.br.x - c.x);
    let ay = abs_int(rect.tl.y - c.y);
    let by = abs_int(rect.br.y - c.y);
    let dx = if ax >= bx { ax } else { bx };
    let dy = if ay >= by { ay } else { by };
    dx * dx + dy * dy
}

/// `|a - b|`.
fn abs_diff(a: i32, b: i32) -> (r: i32)
    requires
        fits_i32(a - b),
        abs_fits_i32(a - b),
    ensures
        r == abs_int(a - b),
{
    let d = a - b;
    if d < 0 {
        -d
    } else {
        d
    }
}

/// The columns of row `row` of a pylon's power field, whose cells are 32 pixels square and
/// whose 10 rows and 16 columns centre on the pylon: a row covers the columns from the first
/// to the second number.
pub open spec fn psi_row_span(row: int) -> (int, int) {
    if row == 0 || row == 9 {
        (5, 10)
    } else if row == 1 || row == 8 {
        (2, 13)
    } else if row == 2 || row == 7 {
        (1, 14)
    } else {
        (0, 15)
    }
}

/// Whether a completed pylon `p` powers pixel `(x, y)`: it lies less than 256 pixels across
/// and 160 down or up from the pylon, in a cell of its power field.
pub open spec fn powers(p: Unit, x: int, y: int) -> bool {
    let dx = x - p.position.x;
    let dy = y - p.position.y;
    let row = (dy + 160) / 32;
    let col = (dx + 256) / 32;
    &&& p.type_ == UnitType::Protoss_Pylon
    &&& p.exists
    &&& p.is_completed
    &&& -256 < dx < 256
    &&& -160 < dy < 160
    &&& psi_row_span(row).0 <= col <= psi_row_span(row).1
}

impl Game {
    /// Whether some pylon of the game powers pixel `(x, y)`.
    pub open spec fn powered(&self, x: int, y: int) -> bool {
        exists|i: int| 0 <= i < self.units@.len() && #[trigger] powers(self.units@[i], x, y)
    }

    /// Whether some pylon powers pixel `position`.
    pub fn has_power_precise(&self, position: Position) -> (r: bool)
        ensures
            r == self.powered(position.x as int, position.y as int),
    {
        let mut i: usize = 0;
        while i < self.units.len()
            invariant
                i <= self.units@.len(),
                forall|j: int| 0 <= j < i ==> !#[trigger] powers(self.units@[j], position.x as int, position.y as int),
            decreases self.units@.len() - i,
        {
            let p = &self.units[i];
            if p.type_ == UnitType::Protoss_Pylon && p.exists && p.is_completed {
                let dx = position.x as i64 - p.position.x as i64;
                let dy = position.y as i64 - p.position.y as i64;
                if -256 < dx && dx < 256 && -160 < dy && dy < 160 {
                    let row = (dy + 160) / 32;
                    let col = (dx + 256) / 32;
                    let (lo, hi): (i64, i64) = if row == 0 || row == 9 {
                        (5, 10)
                    } else if row == 1 || row == 8 {
                        (2, 13)
                    } else if row == 2 || row == 7 {
                        (1, 14)
                    } else {
                        (0, 15)
                    };
                    if lo <= col && col <= hi {
                        assert(powers(self.units@[i as int], position.x as int, position.y as int));
                        return true;
                    }
                }
            }
            i = i + 1;
        }
        false
    }

    /// Whether some pylon powers a building of `size` tiles placed at build tile `position`.
    /// As the check is written, the pixel it tests is the corner of the site plus the size
    /// in pixels times 16, not the site's centre.
    pub fn has_power(&self, position: TilePosition, size: TilePosition) -> (r: bool)
        requires
            fits_i32(position.x * 32),
            fits_i32(position.y * 32),
            fits_i32(size.x * 32),
            fits_i32(size.y * 32),
            fits_i32(size.x * 512),
            fits_i32(size.y * 512),
            fits_i32(position.x * 32 + size.x * 512),
            fits_i32(position.y * 32 + size.y * 512),
        ensures
            r == self.powered(position.x * 32 + size.x * 512, position.y * 32 + size.y * 512),
    {
        let corner = Position { x: position.x * 32, y: position.y * 32 };
        let extent = Position { x: size.x * 32 * 16, y: size.y * 32 * 16 };
        let p = Position { x: corner.x + extent.x, y: corner.y + extent.y };
        self.has_power_precise(p)
    }
}

/// Every unit a search finds is one of the units searched that the search looks at.
pub proof fn law_found_units_lie_in_the_search<P: Predicate<Item = Unit>>(s: Seq<Unit>, pred: P, a: Position,
    b: Position, within: Option<(Position, int)>, r: Seq<Unit>)
    requires
        picked(s, pred, a, b, within, r),
    ensures
        forall|k: int| 0 <= k < r.len() ==> searched(#[trigger] r[k], a, b, within)
            && exists|i: int| 0 <= i < s.len() && s[i] == r[k],
{
    let keep = choose|keep: Seq<bool>| {
        &&& keep.len() == s.len()
        &&& forall|i: int| 0 <= i < s.len() ==> {
            &&& #[trigger] keep[i] ==> searched(s[i], a, b, within)
            &&& searched(s[i], a, b, within) ==> pred.may_give(&s[i], keep[i])
        }
        &&& r == kept(s, keep)
    };
    assert forall|k: int| 0 <= k < r.len() implies searched(#[trigger] r[k], a, b, within)
        && exists|i: int| 0 <= i < s.len() && s[i] == r[k] by {
        let i = lemma_kept_index(s, keep, k);
        assert(keep[i]);
    }
}

/// The `k`th unit kept is a unit of `s` whose entry in `keep` is true; its index.
proof fn lemma_kept_index(s: Seq<Unit>, keep: Seq<bool>, k: int) -> (i: int)
    requires
        keep.len() <= s.len(),
        0 <= k < kept(s, keep).len(),
    ensures
        0 <= i < keep.len(),
        keep[i],
        kept(s, keep)[k] == s[i],
    decreases keep.len(),
{
    let d = keep.drop_last();
    if k < kept(s, d).len() {
        assert(kept(s, keep)[k] == kept(s, d)[k]);
        let i = lemma_kept_index(s, d, k);
        assert(keep[i] == d[i]);
        i
    } else {
        assert(keep.last());
        keep.len() - 1
    }
}


/// The power field of a completed pylon, by pixel offset `(dx, dy)` from it: 8 tiles either
/// side in the middle 4 rows, 7 in the rows just beyond, 6 in the next and 3 in the outermost
/// row, 5 rows up and 5 down, and nothing further.
pub proof fn law_power_field(p: Unit, dx: int, dy: int)
    requires
        p.type_ == UnitType::Protoss_Pylon,
        p.exists,
        p.is_completed,
    ensures
        (dy < -160 || dy >= 160 || dx <= -256 || dx >= 256) ==> !powers(p, p.position.x + dx, p.position.y + dy),
        -64 <= dy < 64 ==> (powers(p, p.position.x + dx, p.position.y + dy) <==> -256 < dx < 256),
        (-96 <= dy < -64 || 64 <= dy < 96) ==> (powers(p, p.position.x + dx, p.position.y + dy) <==> -224 <= dx < 224),
        (-128 <= dy < -96 || 96 <= dy < 128) ==> (powers(p, p.position.x + dx, p.position.y + dy) <==> -192 <= dx < 192),
        (-160 < dy < -128 || 128 <= dy < 160) ==> (powers(p, p.position.x + dx, p.position.y + dy) <==> -96 <= dx < 96),
{
}


/// A search for the closest unit without a radius looks 32000 pixels far, and with one, as far
/// as asked.
pub proof fn law_default_search_radius(r: u32)
    ensures
        search_radius(None) == 32000,
        search_radius(Some(r)) == r,
        search_limit(None) == 1_024_000_000,
{
    assert(32000 * 32000 == 1_024_000_000);
    assert((1_024_000_000int as u32) == 1_024_000_000u32);
    assert((1_024_000_000u32 as i32) == 1_024_000_000i32);
}

} // verus!
