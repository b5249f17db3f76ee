//! The regions of a map: what each one holds, which one lies under a position, and which
//! positions a ground unit can reach from one another.
use vstd::prelude::*;
use crate::bwapi_wrapper::position::{approx_distance, approx_distance_fits, fits_i32, MapBounds, Position, PositionValidator};
use crate::game::Game;
use crate::unit::{PathErr, Unit, UnitOrPosition};

verus! {

/// What is known of one region of the map.
#[derive(Debug, Clone, Copy, PartialEq, Eq)]
pub struct Region {
    /// The region's id, its index among the regions of the game.
    pub id: i32,
    /// The id of the group of regions that ground units can walk between.
    pub island_id: i32,
    /// The centre of the region, in pixels.
    pub center_x: i32,
    pub center_y: i32,
    /// How strongly the region is to be defended.
    pub priority: i32,
    /// The bounds of the region, in pixels.
    pub left_most: i32,
    pub top_most: i32,
    pub right_most: i32,
    pub bottom_most: i32,
    /// How many neighbours the region has.
    pub neighbor_count: i32,
    /// Whether ground units can enter the region.
    pub is_accessible: bool,
    /// Whether the region lies higher than its surroundings.
    pub is_higher_ground: bool,
}

/// The approximate distance between the centres of `a` and `b`.
pub open spec fn center_distance(a: Region, b: Region) -> int {
    approx_distance(a.center_x - b.center_x, a.center_y - b.center_y)
}

/// Whether entry `i` of `rs` is among the first `n` and has the accessibility `acc`.
pub open spec fn candidate(rs: Seq<Region>, n: int, acc: bool, i: int) -> bool {
    &&& 0 <= i < n
    &&& i < rs.len()
    &&& rs[i].is_accessible == acc
}

/// Whether entry `i` of `rs` is, of the candidates, the first whose centre lies nearest to
/// the centre of `from`.
pub open spec fn first_nearest(from: Region, rs: Seq<Region>, n: int, acc: bool, i: int) -> bool {
    &&& candidate(rs, n, acc, i)
    &&& forall|j: int| #[trigger] candidate(rs, n, acc, j)
        ==> center_distance(from, rs[i]) <= center_distance(from, rs[j])
    &&& forall|j: int| 0 <= j < i && #[trigger] candidate(rs, n, acc, j)
        ==> center_distance(from, rs[i]) < center_distance(from, rs[j])
}

/// Whether `r` is what a search among the first `n` of `rs` for the region of accessibility
/// `acc` nearest to `from` gives: `None` when there is no candidate.
pub open spec fn nearest_found(from: Region, rs: Seq<Region>, n: int, acc: bool, r: Option<Region>) -> bool {
    match r {
        None => forall|i: int| !#[trigger] candidate(rs, n, acc, i),
        Some(x) => exists|i: int| #[trigger] first_nearest(from, rs, n, acc, i) && x == rs[i],
    }
}

/// Whether the bit of `mask` for the mini tile under the pixel `(x, y)` of its tile is set.
pub open spec fn in_second_region(mask: u16, x: int, y: int) -> bool {
    let shift = (x % 32) / 8 + (y % 32) / 8 * 4;
    (mask >> (shift as u16)) & 1u16 != 0
}

impl Region {
    /// The id of the group of regions that ground units can walk between.
    pub fn get_region_group_id(&self) -> (r: i32)
        ensures
            r == self.island_id,
    {
        self.island_id
    }

    /// The centre of the region.
    pub fn get_center(&self) -> (r: Position)
        ensures
            r.x == self.center_x,
            r.y == self.center_y,
    {
        Position { x: self.center_x, y: self.center_y }
    }

    /// Whether the region lies higher than its surroundings.
    pub fn is_higher_ground(&self) -> (r: bool)
        ensures
            r == self.is_higher_ground,
    {
        self.is_higher_ground
    }

    /// How strongly the region is to be defended.
    pub fn get_defense_priority(&self) -> (r: i32)
        ensures
            r == self.priority,
    {
        self.priority
    }

    /// Whether ground units can enter the region.
    pub fn is_accessible(&self) -> (r: bool)
        ensures
            r == self.is_accessible,
    {
        self.is_accessible
    }

    /// The region's id.
    pub fn get_id(&self) -> (r: i32)
        ensures
            r == self.id,
    {
        self.id
    }

    /// The leftmost pixel column of the region.
    pub fn get_bounds_left(&self) -> (r: i32)
        ensures
            r == self.left_most,
    {
        self.left_most
    }

    /// The topmost pixel row of the region.
    pub fn get_bounds_top(&self) -> (r: i32)
        ensures
            r == self.top_most,
    {
        self.top_most
    }

    /// The rightmost pixel column of the region.
    pub fn get_bounds_right(&self) -> (r: i32)
        ensures
            r == self.right_most,
    {
        self.right_most
    }

    /// The bottommost pixel row of the region.
    pub fn get_bounds_bottom(&self) -> (r: i32)
        ensures
            r == self.bottom_most,
    {
        self.bottom_most
    }

    /// The regions the game lists first, as many as this region has neighbours.
    pub fn get_neighbors(&self, game: &Game) -> (r: Vec<Region>)
        requires
            0 <= self.neighbor_count <= game.regions@.len(),
            self.neighbor_count <= 0xffff,
        ensures
            r@ == game.regions@.subrange(0, self.neighbor_count as int),
    {
        let n = self.neighbor_count as usize;
        let mut out: Vec<Region> = Vec::new();
        let mut idx: usize = 0;
        while idx < n
            invariant
                n == self.neighbor_count,
                n <= game.regions@.len(),
                n <= 0xffff,
                idx <= n,
                out@ == game.regions@.subrange(0, idx as int),
            decreases n - idx,
        {
            let found = game.get_region(idx as u16);
            match found {
                Some(region) => out.push(region),
                None => {
                    assert(false);
                },
            }
            idx += 1;
        }
        out
    }

    /// Of the regions that `get_neighbors` gives, the first of accessibility `acc` whose centre
    /// lies nearest to this region's centre.
    fn closest_neighbor(&self, game: &Game, acc: bool) -> (r: Option<Region>)
        requires
            0 <= self.neighbor_count <= game.regions@.len(),
            self.neighbor_count <= 0xffff,
            forall|i: int| 0 <= i < self.neighbor_count ==> approx_distance_fits(
                self.center_x - #[trigger] game.regions@[i].center_x,
                self.center_y - game.regions@[i].center_y,
            ),
        ensures
            nearest_found(*self, game.regions@, self.neighbor_count as int, acc, r),
    {
        let neighbors = self.get_neighbors(game);
        let ghost rs = game.regions@;
        let ghost n = self.neighbor_count as int;
        let center = self.get_center();
        let mut best: Option<usize> = None;
        let mut best_d: i32 = 0;
        let mut i: usize = 0;
        while i < neighbors.len()
            invariant
                neighbors@ == rs.subrange(0, n),
                rs == game.regions@,
                n == self.neighbor_count,
                0 <= n <= rs.len(),
                center.x == self.center_x,
                center.y == self.center_y,
                i <= neighbors.len(),
                forall|k: int| 0 <= k < n ==> approx_distance_fits(
                    self.center_x - #[trigger] rs[k].center_x,
                    self.center_y - rs[k].center_y,
                ),
                match best {
                    None => forall|j: int| !#[trigger] candidate(rs, i as int, acc, j),
                    Some(b) => {
                        &&& first_nearest(*self, rs, i as int, acc, b as int)
                        &&& best_d == center_distance(*self, rs[b as int])
                    },
                },
            decreases neighbors.len() - i,
        {
            let region = neighbors[i];
            assert(region == rs[i as int]);
            if region.is_accessible == acc {
                let d = center.get_approx_distance(region.get_center());
                let better = match best {
                    None => true,
                    Some(_) => d < best_d,
                };
                if better {
                    best = Some(i);
                    best_d = d;
                }
            }
            proof {
                match best {
                    None => {
                        assert forall|j: int| !#[trigger] candidate(rs, i + 1, acc, j) by {
                            if candidate(rs, i + 1, acc, j) && j < i {
                                assert(candidate(rs, i as int, acc, j));
                            }
                        }
                    },
                    Some(b) => {
                        assert forall|j: int| #[trigger] candidate(rs, i + 1, acc, j)
                            implies center_distance(*self, rs[b as int]) <= center_distance(*self, rs[j]) by {
                            if j < i {
                                assert(candidate(rs, i as int, acc, j));
                            }
                        }
                        assert forall|j: int| 0 <= j < b && #[trigger] candidate(rs, i + 1, acc, j)
                            implies center_distance(*self, rs[b as int]) < center_distance(*self, rs[j]) by {
                            if j < i {
                                assert(candidate(rs, i as int, acc, j));
                            }
                        }
                    },
                }
            }
            i += 1;
        }
        match best {
            None => None,
            Some(b) => {
                let r = neighbors[b];
                assert(first_nearest(*self, rs, n, acc, b as int));
                Some(r)
            },
        }
    }

    /// Of this region's neighbours as `get_neighbors` gives them, the first accessible one
    /// whose centre lies nearest to this region's centre.
    pub fn get_closest_accessible_region(&self, game: &Game) -> (r: Option<Region>)
        requires
            0 <= self.neighbor_count <= game.regions@.len(),
            self.neighbor_count <= 0xffff,
            forall|i: int| 0 <= i < self.neighbor_count ==> approx_distance_fits(
                self.center_x - #[trigger] game.regions@[i].center_x,
                self.center_y - game.regions@[i].center_y,
            ),
        ensures
            nearest_found(*self, game.regions@, self.neighbor_count as int, true, r),
    {
        self.closest_neighbor(game, true)
    }

    /// Of this region's neighbours as `get_neighbors` gives them, the first inaccessible one
    /// whose centre lies nearest to this region's centre.
    pub fn get_closest_inaccessible_region(&self, game: &Game) -> (r: Option<Region>)
        requires
            0 <= self.neighbor_count <= game.regions@.len(),
            self.neighbor_count <= 0xffff,
            forall|i: int| 0 <= i < self.neighbor_count ==> approx_distance_fits(
                self.center_x - #[trigger] game.regions@[i].center_x,
                self.center_y - game.regions@[i].center_y,
            ),
        ensures
            nearest_found(*self, game.regions@, self.neighbor_count as int, false, r),
    {
        self.closest_neighbor(game, false)
    }
}

impl Game {
    /// The region of id `id`, if the game has one.
    pub open spec fn region_by_id(self, id: int) -> Option<Region> {
        if 0 <= id < self.regions@.len() {
            Some(self.regions@[id])
        } else {
            None
        }
    }

    /// Whether the region tables have the shape a lookup reads.
    pub open spec fn region_tables_ok(self) -> bool {
        &&& self.map_tile_region_id@.len() == 0x10000
        &&& self.map_split_tiles_region1@.len() == self.map_split_tiles_mini_tile_mask@.len()
        &&& self.map_split_tiles_region2@.len() == self.map_split_tiles_mini_tile_mask@.len()
    }

    /// The region code of the pixel `(x, y)`: that of its tile, or for a split tile the id
    /// of whichever of its two regions holds the pixel's mini tile; `None` where a split
    /// tile's entry or mask lies beyond the tables.
    pub open spec fn region_code_at(self, x: int, y: int) -> Option<int> {
        let code = self.map_tile_region_id@[(x / 32) * 256 + y / 32];
        if code & 0x2000u16 != 0 {
            let index = (code & 0x1fffu16) as int;
            if index >= self.map_split_tiles_mini_tile_mask@.len() {
                None
            } else {
                let mask = self.map_split_tiles_mini_tile_mask@[index];
                if mask as int >= self.map_split_tiles_region1@.len() {
                    None
                } else if in_second_region(mask, x, y) {
                    Some(self.map_split_tiles_region2@[index] as int)
                } else {
                    Some(self.map_split_tiles_region1@[index] as int)
                }
            }
        } else {
            Some(code as int)
        }
    }

    /// The region under the pixel `(x, y)`.
    pub open spec fn region_at(self, x: int, y: int) -> Option<Region> {
        match self.region_code_at(x, y) {
            Some(c) => self.region_by_id(c),
            None => None,
        }
    }

    /// Whether a ground unit can walk from `a` to `b`: both lie on the map, in regions of
    /// one group.
    pub open spec fn path_between(self, a: Position, b: Position) -> bool {
        let bounds = MapBounds { map_width: self.map_width, map_height: self.map_height };
        &&& bounds.valid_at(a.x as int, a.y as int, 1)
        &&& bounds.valid_at(b.x as int, b.y as int, 1)
        &&& self.region_at(a.x as int, a.y as int) is Some
        &&& self.region_at(b.x as int, b.y as int) is Some
        &&& self.region_at(a.x as int, a.y as int)->0.island_id
            == self.region_at(b.x as int, b.y as int)->0.island_id
    }

    /// The region of id `id`, if the game has one.
    pub fn get_region(&self, id: u16) -> (r: Option<Region>)
        ensures
            r == self.region_by_id(id as int),
    {
        if id as usize >= self.regions.len() {
            None
        } else {
            Some(self.regions[id as usize])
        }
    }

    /// The region under the pixel position `p`.
    pub fn get_region_at(&self, p: Position) -> (r: Option<Region>)
        requires
            self.region_tables_ok(),
            0 <= p.x < 0x2000,
            0 <= p.y < 0x2000,
        ensures
            r == self.region_at(p.x as int, p.y as int),
    {
        let x = p.x;
        let y = p.y;
        let idx = self.map_tile_region_id[(x as usize / 32) * 256 + y as usize / 32];
        let region_code = if idx & 0x2000 != 0 {
            let minitile_pos_x = (x & 0x1f) / 8;
            let minitile_pos_y = (y & 0x1f) / 8;
            assert(x & 0x1f == x % 32) by (bit_vector)
                requires
                    0 <= x,
            ;
            assert(y & 0x1f == y % 32) by (bit_vector)
                requires
                    0 <= y,
            ;
            let index = (idx & 0x1fff) as usize;
            if index >= self.map_split_tiles_mini_tile_mask.len() {
                return None;
            }
            let mini_tile_mask = self.map_split_tiles_mini_tile_mask[index];
            if mini_tile_mask as usize >= self.map_split_tiles_region1.len() {
                return None;
            }
            let minitile_shift = (minitile_pos_x + minitile_pos_y * 4) as u16;
            if (mini_tile_mask >> minitile_shift) & 1 != 0 {
                self.map_split_tiles_region2[index]
            } else {
                self.map_split_tiles_region1[index]
            }
        } else {
            idx
        };
        self.get_region(region_code)
    }

    /// Whether a ground unit can walk from `source` to `destination`: both lie on the map, in
    /// regions of one group.
    pub fn has_path(&self, source: Position, destination: Position) -> (r: bool)
        requires
            self.region_tables_ok(),
            0 <= self.map_width <= 256,
            0 <= self.map_height <= 256,
        ensures
            r == self.path_between(source, destination),
    {
        let bounds = MapBounds { map_width: self.map_width, map_height: self.map_height };
        if source.is_valid(&bounds) && destination.is_valid(&bounds) {
            let rgn_a = self.get_region_at(source);
            let rgn_b = self.get_region_at(destination);
            match (rgn_a, rgn_b) {
                (Some(a), Some(b)) => {
                    return a.get_region_group_id() == b.get_region_group_id();
                },
                _ => {},
            }
        }
        false
    }
}

/// The corner of `u`'s box at the columns `right` or left and the rows `bottom` or top.
pub open spec fn corner(u: Unit, right: bool, bottom: bool) -> Position {
    Position {
        x: (if right { u.position.x + u.kind.dimension_right } else { u.position.x - u.kind.dimension_left }) as i32,
        y: (if bottom { u.position.y + u.kind.dimension_down } else { u.position.y - u.kind.dimension_up }) as i32,
    }
}

/// Whether the corners of `u`'s box fit in pixel coordinates.
pub open spec fn corners_fit(u: Unit) -> bool {
    &&& fits_i32(u.position.x - u.kind.dimension_left)
    &&& fits_i32(u.position.x + u.kind.dimension_right)
    &&& fits_i32(u.position.y - u.kind.dimension_up)
    &&& fits_i32(u.position.y + u.kind.dimension_down)
}

/// Whether the game's region tables have the shape a path lookup reads and the map is no
/// larger than the tables cover.
pub open spec fn paths_known(game: Game) -> bool {
    &&& game.region_tables_ok()
    &&& 0 <= game.map_width <= 256
    &&& 0 <= game.map_height <= 256
}

/// Whether the corners of `u`'s box, which a path lookup from a ground unit that exists
/// tries, fit in pixel coordinates.
pub open spec fn corners_known(u: Unit) -> bool {
    !u.is_flying && u.exists ==> corners_fit(u)
}

/// Whether unit `u` can reach `target`: a flying unit reaches any target with a position; a
/// ground unit that exists reaches a position on the map to which a path leads from its
/// centre or from one of the corners tried, as written: the upper left, the upper right, the
/// lower left and the upper right again.
pub open spec fn unit_reaches(game: Game, u: Unit, target: Result<Position, PathErr>) -> bool {
    match target {
        Err(_) => false,
        Ok(t) => {
            ||| u.is_flying
            ||| {
                &&& u.exists
                &&& (MapBounds { map_width: game.map_width, map_height: game.map_height }).valid_at(t.x as int, t.y as int, 1)
                &&& {
                    ||| game.path_between(u.position, t)
                    ||| game.path_between(corner(u, false, false), t)
                    ||| game.path_between(corner(u, true, false), t)
                    ||| game.path_between(corner(u, false, true), t)
                }
            }
        },
    }
}

impl Unit {
    /// Whether this unit can reach `target`.
    pub fn has_path<P: UnitOrPosition>(&self, game: &Game, target: P) -> (r: bool)
        requires
            paths_known(*game),
            corners_known(*self),
        ensures
            r == unit_reaches(*game, *self, target.target_position()),
    {
        match target.to_position() {
            Ok(t) => {
                if self.is_flying {
                    return true;
                }
                if !self.exists {
                    return false;
                }
                let bounds = MapBounds { map_width: game.map_width, map_height: game.map_height };
                if !t.is_valid(&bounds) {
                    return false;
                }
                if game.has_path(self.position, t) {
                    return true;
                }
                let left = self.get_left();
                let top = self.get_top();
                let right = self.get_right();
                let bottom = self.get_bottom();
                game.has_path(Position { x: left, y: top }, t)
                    || game.has_path(Position { x: right, y: top }, t)
                    || game.has_path(Position { x: left, y: bottom }, t)
                    || game.has_path(Position { x: right, y: top }, t)
            },
            Err(_) => false,
        }
    }
}

/// A ground path leads from `a` to `b` exactly when one leads from `b` to `a`.
pub proof fn law_paths_run_both_ways(game: Game, a: Position, b: Position)
    ensures
        game.path_between(a, b) == game.path_between(b, a),
{
}

/// A ground path leads from a position to itself exactly when it lies on the map in a region.
pub proof fn law_path_to_itself(game: Game, a: Position)
    ensures
        game.path_between(a, a) <==> {
            &&& (MapBounds { map_width: game.map_width, map_height: game.map_height }).valid_at(a.x as int, a.y as int, 1)
            &&& game.region_at(a.x as int, a.y as int) is Some
        },
{
}


/// The region under a pixel: a tile whose code lacks the split flag 0x2000 is wholly the
/// region of that id; a split tile names by its low 13 bits the entry whose mask bit for the
/// pixel's mini tile (of the 4 by 4 mini tiles of 8 pixels, row by row) picks its second
/// region, and whose clear bit picks its first.
pub proof fn law_region_lookup(game: Game, x: int, y: int)
    requires
        game.region_tables_ok(),
        0 <= x < 0x2000,
        0 <= y < 0x2000,
    ensures
        ({
            let code = game.map_tile_region_id@[(x / 32) * 256 + y / 32];
            &&& code & 0x2000u16 == 0 ==> game.region_at(x, y) == game.region_by_id(code as int)
            &&& code & 0x2000u16 != 0 ==> ({
                let index = (code & 0x1fffu16) as int;
                let mask = game.map_split_tiles_mini_tile_mask@[index];
                let bit = (mask >> ((((x % 32) / 8) + ((y % 32) / 8) * 4) as u16)) & 1u16;
                index < game.map_split_tiles_mini_tile_mask@.len() && (mask as int) < game.map_split_tiles_region1@.len()
                    ==> game.region_at(x, y) == game.region_by_id(if bit != 0 {
                        game.map_split_tiles_region2@[index] as int
                    } else {
                        game.map_split_tiles_region1@[index] as int
                    })
            })
        }),
{
}

} // verus!
