//! What can be measured of a unit: its distance to another, the room it has left, where it
//! was first seen, whether it can be targeted, and the units around it.
use vstd::prelude::*;
use crate::bwapi_wrapper::position::{
    approx_distance, approx_distance_fits, fits_i32, rescale_fits, trunc_div, Position, TilePosition,
};
use crate::bwapi_wrapper::unit_type::UnitType;
use crate::game::Game;
use crate::predicate::IntoPredicate;
use crate::search::{closest_found, picked, referred, runs_on_candidates, runs_on_searched, search_limit,
    search_radius, values};
use crate::unit::{Unit, UnitInfo};

verus! {

/// The left edge of `u`'s box.
pub open spec fn left_of(u: Unit) -> int {
    u.position.x - u.kind.dimension_left
}

/// The top edge of `u`'s box.
pub open spec fn top_of(u: Unit) -> int {
    u.position.y - u.kind.dimension_up
}

/// The right edge of `u`'s box.
pub open spec fn right_of(u: Unit) -> int {
    u.position.x + u.kind.dimension_right
}

/// The bottom edge of `u`'s box.
pub open spec fn bottom_of(u: Unit) -> int {
    u.position.y + u.kind.dimension_down
}

/// The gaps along x and y between the box of `a` and the box of `b` grown by one pixel each
/// way; 0 along an axis where they overlap.
pub open spec fn box_gaps(a: Unit, b: Unit) -> (int, int) {
    let x0 = left_of(a) - (right_of(b) + 1);
    let x = if x0 < 0 { let o = (left_of(b) - 1) - right_of(a); if o > 0 { o } else { 0 } } else { x0 };
    let y0 = top_of(a) - (bottom_of(b) + 1);
    let y = if y0 < 0 { let o = (top_of(b) - 1) - bottom_of(a); if o > 0 { o } else { 0 } } else { y0 };
    (x, y)
}

/// The distance from `a` to `b` as Starcraft approximates it: the largest `i32` if either
/// is gone, 0 from a unit to itself, else the approximate length of the gaps between their
/// boxes.
pub open spec fn distance_spec(a: Unit, b: Unit) -> int {
    if !a.exists || !b.exists {
        i32::MAX as int
    } else if a.id == b.id {
        0
    } else {
        let (x, y) = box_gaps(a, b);
        approx_distance(-x, -y)
    }
}

/// Whether the edges of the boxes of `a` and `b`, grown by one pixel, their gaps and the
/// approximate distance all fit in an `i32`.
pub open spec fn distance_fits(a: Unit, b: Unit) -> bool {
    let (x, y) = box_gaps(a, b);
    &&& fits_i32(left_of(a)) && fits_i32(top_of(a)) && fits_i32(right_of(a)) && fits_i32(bottom_of(a))
    &&& fits_i32(left_of(b)) && fits_i32(top_of(b)) && fits_i32(right_of(b)) && fits_i32(bottom_of(b))
    &&& fits_i32(left_of(b) - 1) && fits_i32(top_of(b) - 1) && fits_i32(right_of(b) + 1) && fits_i32(bottom_of(b) + 1)
    &&& fits_i32(left_of(a) - (right_of(b) + 1)) && fits_i32((left_of(b) - 1) - right_of(a))
    &&& fits_i32(top_of(a) - (bottom_of(b) + 1)) && fits_i32((top_of(b) - 1) - bottom_of(a))
    &&& approx_distance_fits(-x, -y)
}

/// Whether `u`'s box is well formed: its left edge lies no further right than its right edge,
/// and its top edge no lower than its bottom edge.
pub open spec fn box_ok(u: Unit) -> bool {
    left_of(u) <= right_of(u) && top_of(u) <= bottom_of(u)
}

/// The distance between two units with well-formed boxes is the same either way round.
pub proof fn law_distance_is_symmetric(a: Unit, b: Unit)
    requires
        box_ok(a),
        box_ok(b),
    ensures
        distance_spec(a, b) == distance_spec(b, a),
{
    let (x, y) = box_gaps(a, b);
    let (x2, y2) = box_gaps(b, a);
    assert(x == x2 && y == y2);
}

/// The distance from a unit to another: the largest `i32` when either is gone, 0 to itself,
/// 0 between boxes that overlap or touch, and, between boxes side by side whose rows
/// overlap, the number of pixels between them less one.
pub proof fn law_distance_values(a: Unit, b: Unit)
    ensures
        !a.exists || !b.exists ==> distance_spec(a, b) == i32::MAX,
        a.exists && a.id == b.id && b.exists ==> distance_spec(a, b) == 0,
        ({
            let rows_meet = top_of(a) <= bottom_of(b) + 1 && top_of(b) - 1 <= bottom_of(a);
            let cols_meet = left_of(a) <= right_of(b) + 1 && left_of(b) - 1 <= right_of(a);
            &&& a.exists && b.exists && rows_meet && cols_meet ==> distance_spec(a, b) == 0
            &&& a.exists && b.exists && a.id != b.id && rows_meet && left_of(a) > right_of(b)
                ==> distance_spec(a, b) == left_of(a) - right_of(b) - 1
            &&& a.exists && b.exists && a.id != b.id && cols_meet && top_of(a) > bottom_of(b)
                ==> distance_spec(a, b) == top_of(a) - bottom_of(b) - 1
        }),
{
}

/// The total space the units loaded in a transport require.
pub open spec fn space_sum(s: Seq<i32>) -> int
    decreases s.len(),
{
    if s.len() == 0 {
        0
    } else {
        space_sum(s.drop_last()) + s.last()
    }
}

/// Whether unit `u` can be targeted, as the check is written: it exists and can be seen (or
/// the whole map is known), it is not a finished unit other than a building, a morphing unit
/// or an archon, and it is a scanner sweep, dark swarm, disruption web or map revealer.
pub open spec fn targetable_spec(game: &Game, u: Unit) -> bool {
    &&& u.exists
    &&& u.is_visible || game.complete_map_information
    &&& !(u.is_completed && !u.kind.is_building && !u.is_morphing && u.type_ != UnitType::Protoss_Archon
        && u.type_ != UnitType::Protoss_Dark_Archon)
    &&& (u.type_ == UnitType::Spell_Scanner_Sweep || u.type_ == UnitType::Spell_Dark_Swarm
        || u.type_ == UnitType::Spell_Disruption_Web || u.type_ == UnitType::Special_Map_Revealer)
}

impl Unit {
    /// The distance from this unit to `target` as Starcraft approximates it.
    pub fn get_distance(&self, target: &Unit) -> (r: i32)
        requires
            self.exists && target.exists && self.id != target.id ==> distance_fits(*self, *target),
        ensures
            r == distance_spec(*self, *target),
    {
        if !self.exists || !target.exists {
            return i32::MAX;
        }
        if self.id == target.id {
            return 0;
        }
        let left = target.get_left() - 1;
        let top = target.get_top() - 1;
        let right = target.get_right() + 1;
        let bottom = target.get_bottom() + 1;
        let mut x_dist = self.get_left() - right;
        if x_dist < 0 {
            let o = left - self.get_right();
            x_dist = if o > 0 { o } else { 0 };
        }
        let mut y_dist = self.get_top() - bottom;
        if y_dist < 0 {
            let o = top - self.get_bottom();
            y_dist = if o > 0 { o } else { 0 };
        }
        let origin = Position { x: 0, y: 0 };
        origin.get_approx_distance(Position { x: x_dist, y: y_dist })
    }

    /// The space this unit has left for units to load: the space its type provides less what
    /// the loaded units require.
    pub fn get_space_remaining(&self) -> (r: i32)
        requires
            forall|i: int| 0 <= i <= self.loaded_space@.len() ==> fits_i32(#[trigger] space_sum(self.loaded_space@.take(i))),
            fits_i32(self.kind.space_provided - space_sum(self.loaded_space@)),
        ensures
            r == self.kind.space_provided - space_sum(self.loaded_space@),
    {
        let mut sum: i32 = 0;
        let mut i: usize = 0;
        assert(self.loaded_space@.take(0) =~= Seq::<i32>::empty());
        while i < self.loaded_space.len()
            invariant
                i <= self.loaded_space@.len(),
                sum == space_sum(self.loaded_space@.take(i as int)),
                forall|j: int| 0 <= j <= self.loaded_space@.len() ==> fits_i32(#[trigger] space_sum(self.loaded_space@.take(j))),
            decreases self.loaded_space@.len() - i,
        {
            assert(self.loaded_space@.take(i as int + 1).drop_last() =~= self.loaded_space@.take(i as int));
            assert(fits_i32(space_sum(self.loaded_space@.take(i as int + 1))));
            sum = sum + self.loaded_space[i];
            i = i + 1;
        }
        assert(self.loaded_space@.take(i as int) =~= self.loaded_space@);
        self.kind.space_provided - sum
    }

    /// Whether this unit can be targeted.
    pub fn is_targetable(&self, game: &Game) -> (r: bool)
        ensures
            r == targetable_spec(game, *self),
    {
        if !self.exists {
            return false;
        }
        if !self.is_visible && !game.complete_map_information {
            return false;
        }
        if self.is_completed && !self.kind.is_building && !self.is_morphing && self.type_ != UnitType::Protoss_Archon
            && self.type_ != UnitType::Protoss_Dark_Archon {
            return false;
        }
        self.type_ == UnitType::Spell_Scanner_Sweep || self.type_ == UnitType::Spell_Dark_Swarm
            || self.type_ == UnitType::Spell_Disruption_Web || self.type_ == UnitType::Special_Map_Revealer
    }

    /// What `game` remembers of this unit from when it was first seen.
    pub fn info(&self, game: &Game) -> (r: UnitInfo)
        requires
            self.id < game.unit_infos@.len(),
            game.unit_infos@[self.id as int] is Some,
        ensures
            Some(r) == game.unit_infos@[self.id as int],
    {
        game.unit_infos[self.id].unwrap()
    }

    /// The frame of the last command this unit was given.
    pub fn last_command_frame(&self, game: &Game) -> (r: i32)
        requires
            self.id < game.unit_infos@.len(),
            game.unit_infos@[self.id as int] is Some,
        ensures
            r == game.unit_infos@[self.id as int].unwrap().last_command_frame,
    {
        self.info(game).last_command_frame
    }

    /// The build tile of this unit's upper left corner when it was first seen: its first
    /// position less half the size of its first type, divided by 32 toward zero.
    pub fn get_initial_tile_position(&self, game: &Game) -> (r: TilePosition)
        requires
            self.id < game.unit_infos@.len(),
            game.unit_infos@[self.id as int] is Some,
            ({
                let info = game.unit_infos@[self.id as int].unwrap();
                let k = game.unit_types.entry(info.initial_type).kind;
                &&& rescale_fits(k.tile_width as int, k.tile_height as int, 32)
                &&& fits_i32(info.initial_position.x - trunc_div(k.tile_width * 32, 2))
                &&& fits_i32(info.initial_position.y - trunc_div(k.tile_height * 32, 2))
            }),
        ensures
            ({
                let info = game.unit_infos@[self.id as int].unwrap();
                let k = game.unit_types.entry(info.initial_type).kind;
                &&& r.x == trunc_div(info.initial_position.x - trunc_div(k.tile_width * 32, 2), 32)
                &&& r.y == trunc_div(info.initial_position.y - trunc_div(k.tile_height * 32, 2), 32)
            }),
    {
        let info = self.info(game);
        let k = game.unit_types.get(info.initial_type).kind;
        let size = TilePosition { x: k.tile_width, y: k.tile_height }.to_position();
        let half = Position { x: size.x / 2, y: size.y / 2 };
        Position { x: info.initial_position.x - half.x, y: info.initial_position.y - half.y }.to_tile_position()
    }

    /// The unit closest to this unit's position that passes `pred`, within `radius`.
    pub fn get_closest_unit<'a, P: IntoPredicate<Unit>>(&self, game: &'a Game, pred: P, radius: Option<u32>) -> (r: Option<&'a Unit>)
        requires
            search_radius(radius) <= 0xffff,
            runs_on_candidates(game.units@, self.position, search_limit(radius), None, pred.as_pred()),
        ensures
            closest_found(game.units@, self.position, search_limit(radius), None, pred.as_pred(), referred(r)),
    {
        game.get_closest_unit(self.position, pred, radius)
    }

    /// The units within `radius` of this unit's position that pass `pred`.
    pub fn get_units_in_radius<'a, P: IntoPredicate<Unit>>(&self, game: &'a Game, radius: i32, pred: P) -> (r: Vec<&'a Unit>)
        requires
            fits_i32(self.position.x - radius),
            fits_i32(self.position.y - radius),
            fits_i32(self.position.x + radius),
            fits_i32(self.position.y + radius),
            fits_i32(radius * radius),
            runs_on_searched(game.units@, pred.as_pred(),
                Position { x: (self.position.x - radius) as i32, y: (self.position.y - radius) as i32 },
                Position { x: (self.position.x + radius) as i32, y: (self.position.y + radius) as i32 },
                Some((self.position, radius * radius))),
        ensures
            picked(game.units@, pred.as_pred(),
                Position { x: (self.position.x - radius) as i32, y: (self.position.y - radius) as i32 },
                Position { x: (self.position.x + radius) as i32, y: (self.position.y + radius) as i32 },
                Some((self.position, radius * radius)), values(r@)),
    {
        game.get_units_in_radius(self.position, radius, pred)
    }
}

} // verus!
