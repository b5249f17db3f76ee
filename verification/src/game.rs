//! What the command checks know of a game: the player in control, the relations between
//! players and units, and the static data of the techniques.
use vstd::prelude::*;
use vstd::std_specs::convert::IntoSpec;
use crate::bwapi_wrapper::tech_type::TechType;
use crate::bwapi_wrapper::unit_type::UnitType;
use crate::bwapi_wrapper::position::{Position, TilePosition, WalkPosition};
use crate::tables::{TechTable, TypeTable, UpgradeTable};
use crate::unit::{Unit, UnitInfo};
use crate::region::Region;
use crate::bwapi_wrapper::command::UnitCommand;
use crate::bwapi_wrapper::Error;
use crate::command::{Command, CommandType, Commands, CoordinateType, GameCommand, Shape, ShapeType};
use crate::types::{color_value, Color};

verus! {

/// The id of a player.
pub type PlayerId = usize;

/// What the command checks know of a game.
pub struct Game {
    /// The commands given during the current frame.
    pub cmd: Commands,
    /// Whether a replay is watched rather than a game played.
    pub is_replay: bool,
    /// The width of the map in build tiles.
    pub map_width: i32,
    /// The height of the map in build tiles.
    pub map_height: i32,
    /// Whether each walk tile of the map is walkable, row by row.
    pub walkable: Vec<bool>,
    /// The player this client controls.
    pub self_player: PlayerId,
    /// Whether the whole map is known, hidden units included.
    pub complete_map_information: bool,
    /// The techniques the controlled player has researched.
    pub researched: Vec<TechType>,
    /// The techniques the controlled player is researching.
    pub researching: Vec<TechType>,
    /// The techniques the controlled player may research.
    pub research_available: Vec<TechType>,
    /// The controlled player's standing with each upgrade.
    pub upgrades: UpgradeTable,
    /// The controlled player's minerals.
    pub minerals: i32,
    /// The controlled player's gas.
    pub gas: i32,
    /// The controlled player's supply available, for Zerg, Terran and Protoss units.
    pub supply_total: [i32; 3],
    /// The controlled player's supply used, for Zerg, Terran and Protoss units.
    pub supply_used: [i32; 3],
    /// What is known of each unit type.
    pub unit_types: TypeTable,
    /// What is known of each technique.
    pub tech_types: TechTable,
    /// Every unit the client can see.
    pub units: Vec<Unit>,
    /// What is remembered of each unit, by unit id: `None` for a unit never seen.
    pub unit_infos: Vec<Option<UnitInfo>>,
    /// The number of the current frame.
    pub frame_count: i32,
    /// Whether each build tile of the map is buildable, row by row.
    pub buildable: Vec<bool>,
    /// Whether each build tile of the map has been explored, row by row.
    pub explored: Vec<bool>,
    /// Whether each build tile of the map is visible, row by row.
    pub visible: Vec<bool>,
    /// Whether each build tile of the map has creep, row by row.
    pub creep: Vec<bool>,
    /// The initial build tiles of the mineral fields present when the game started, each with
    /// whether the field still exists.
    pub static_minerals: Vec<(TilePosition, bool)>,
    /// The initial build tiles of the geysers present when the game started.
    pub static_geysers: Vec<TilePosition>,
    /// The neutral players.
    pub neutral: Vec<PlayerId>,
    /// The pairs `(a, b)` where player `a` is an enemy of player `b`.
    pub enemies: Vec<(PlayerId, PlayerId)>,
    /// The pairs `(a, b)` of unit ids where unit `b` is in the weapon range of unit `a`.
    pub in_range: Vec<(usize, usize)>,
    /// The energy each technique costs; one not listed costs none.
    pub tech_energy: Vec<(TechType, i32)>,
    /// The techniques that target a unit.
    pub unit_techs: Vec<TechType>,
    /// The techniques that target a position.
    pub position_techs: Vec<TechType>,
    /// The pairs `(t, u)` where technique `t` is used by units of type `u`.
    pub tech_users: Vec<(TechType, UnitType)>,
    /// The regions of the map, by region id.
    pub regions: Vec<Region>,
    /// The region code of each build tile, at `tile_x * 256 + tile_y`.
    pub map_tile_region_id: Vec<u16>,
    /// For each split tile, the mini tiles that belong to its second region, one bit each.
    pub map_split_tiles_mini_tile_mask: Vec<u16>,
    /// For each split tile, the id of its first region.
    pub map_split_tiles_region1: Vec<u16>,
    /// For each split tile, the id of its second region.
    pub map_split_tiles_region2: Vec<u16>,
}

/// Whether `t` is in `v`.
fn tech_listed(v: &Vec<TechType>, t: TechType) -> (r: bool)
    ensures
        r == v@.contains(t),
{
    let mut i: usize = 0;
    while i < v.len()
        invariant
            i <= v@.len(),
            forall|j: int| 0 <= j < i ==> v@[j] != t,
        decreases v@.len() - i,
    {
        if v[i] == t {
            return true;
        }
        i = i + 1;
    }
    false
}

impl Game {
    /// Whether walk tile `(x, y)` lies on the map and is walkable.
    pub open spec fn walkable_at(&self, x: int, y: int) -> bool {
        let w = 4 * self.map_width;
        &&& 0 <= x < w
        &&& 0 <= y < 4 * self.map_height
        &&& y * w + x < self.walkable@.len()
        &&& self.walkable@[y * w + x]
    }

    /// Whether walk tile `wp` lies on the map and is walkable.
    pub fn is_walkable(&self, wp: WalkPosition) -> (r: bool)
        ensures
            r == self.walkable_at(wp.x as int, wp.y as int),
    {
        let w: i128 = 4 * self.map_width as i128;
        if wp.x < 0 || wp.y < 0 || (wp.x as i128) >= w || (wp.y as i128) >= 4 * self.map_height as i128 {
            return false;
        }
        assert(0 <= wp.y * w <= 0x8000_0000 * 0x2_0000_0000) by (nonlinear_arith)
            requires 0 <= wp.y < 0x8000_0000, 0 <= w <= 0x2_0000_0000;
        let i: i128 = wp.y as i128 * w + wp.x as i128;
        assert(i == wp.y * w + wp.x);
        if i >= self.walkable.len() as i128 {
            return false;
        }
        self.walkable[i as usize]
    }

    /// Whether player `p` is neutral.
    pub fn is_neutral(&self, p: PlayerId) -> (r: bool)
        ensures
            r == self.neutral@.contains(p),
    {
        let mut i: usize = 0;
        while i < self.neutral.len()
            invariant
                i <= self.neutral@.len(),
                forall|j: int| 0 <= j < i ==> self.neutral@[j] != p,
            decreases self.neutral@.len() - i,
        {
            if self.neutral[i] == p {
                return true;
            }
            i = i + 1;
        }
        false
    }

    /// Whether player `a` is an enemy of player `b`.
    pub fn is_enemy(&self, a: PlayerId, b: PlayerId) -> (r: bool)
        ensures
            r == self.enemies@.contains((a, b)),
    {
        pair_listed(&self.enemies, a, b)
    }

    /// Whether unit `b` is in the weapon range of unit `a`.
    pub fn is_in_weapon_range(&self, a: usize, b: usize) -> (r: bool)
        ensures
            r == self.in_range@.contains((a, b)),
    {
        pair_listed(&self.in_range, a, b)
    }

    /// Whether something is still remembered of unit `id`: a unit known to be dead is not.
    pub open spec fn remembered(&self, id: usize) -> bool {
        id < self.unit_infos@.len() && self.unit_infos@[id as int] is Some
    }

    /// The first unit with id `id`, if any and if it is not known to be dead.
    pub open spec fn unit_with_id(&self, id: usize) -> Option<Unit> {
        if !self.remembered(id) {
            None
        } else if exists|i: int| 0 <= i < self.units@.len() && #[trigger] self.units@[i].id == id {
            Some(self.units@[choose|i: int| 0 <= i < self.units@.len() && self.units@[i].id == id
                && forall|j: int| 0 <= j < i ==> #[trigger] self.units@[j].id != id])
        } else {
            None
        }
    }

    /// The unit with id `id`, if it exists or could exist still: for a unit known to be dead,
    /// of which nothing is remembered, `None`.
    pub fn get_unit(&self, id: usize) -> (r: Option<&Unit>)
        ensures
            match r {
                Some(u) => self.unit_with_id(id) == Some(*u),
                None => self.unit_with_id(id) is None,
            },
    {
        if id >= self.unit_infos.len() || self.unit_infos[id].is_none() {
            return None;
        }
        let mut i: usize = 0;
        while i < self.units.len()
            invariant
                self.remembered(id),
                i <= self.units@.len(),
                forall|j: int| 0 <= j < i ==> #[trigger] self.units@[j].id != id,
            decreases self.units@.len() - i,
        {
            if self.units[i].id == id {
                let ghost k = choose|k: int| 0 <= k < self.units@.len() && self.units@[k].id == id
                    && forall|j: int| 0 <= j < k ==> #[trigger] self.units@[j].id != id;
                assert(0 <= k < self.units@.len() && self.units@[k].id == id
                    && forall|j: int| 0 <= j < k ==> #[trigger] self.units@[j].id != id) by {
                    assert(forall|j: int| 0 <= j < i as int ==> #[trigger] self.units@[j].id != id);
                }
                assert(k == i as int) by {
                    if k < i as int {
                        assert(self.units@[k].id != id);
                    } else if k > i as int {
                        assert(self.units@[i as int].id != id);
                    }
                }
                return Some(&self.units[i]);
            }
            i = i + 1;
        }
        None
    }

    /// Whether the controlled player has researched `t`.
    pub fn has_researched(&self, t: TechType) -> (r: bool)
        ensures
            r == self.researched@.contains(t),
    {
        tech_listed(&self.researched, t)
    }

    /// Whether the controlled player is researching `t`.
    pub fn is_researching(&self, t: TechType) -> (r: bool)
        ensures
            r == self.researching@.contains(t),
    {
        tech_listed(&self.researching, t)
    }

    /// Whether `t` is available for the controlled player to research.
    pub fn is_research_available(&self, t: TechType) -> (r: bool)
        ensures
            r == self.research_available@.contains(t),
    {
        tech_listed(&self.research_available, t)
    }

    /// Whether technique `t` targets a unit.
    pub fn targets_unit(&self, t: TechType) -> (r: bool)
        ensures
            r == self.unit_techs@.contains(t),
    {
        let mut i: usize = 0;
        while i < self.unit_techs.len()
            invariant
                i <= self.unit_techs@.len(),
                forall|j: int| 0 <= j < i ==> self.unit_techs@[j] != t,
            decreases self.unit_techs@.len() - i,
        {
            if self.unit_techs[i] == t {
                return true;
            }
            i = i + 1;
        }
        false
    }

    /// Whether technique `t` targets a position.
    pub fn targets_position(&self, t: TechType) -> (r: bool)
        ensures
            r == self.position_techs@.contains(t),
    {
        let mut i: usize = 0;
        while i < self.position_techs.len()
            invariant
                i <= self.position_techs@.len(),
                forall|j: int| 0 <= j < i ==> self.position_techs@[j] != t,
            decreases self.position_techs@.len() - i,
        {
            if self.position_techs[i] == t {
                return true;
            }
            i = i + 1;
        }
        false
    }

    /// Whether units of type `u` use technique `t`.
    pub fn is_used_by(&self, t: TechType, u: UnitType) -> (r: bool)
        ensures
            r == self.tech_users@.contains((t, u)),
    {
        let mut i: usize = 0;
        while i < self.tech_users.len()
            invariant
                i <= self.tech_users@.len(),
                forall|j: int| 0 <= j < i ==> self.tech_users@[j] != (t, u),
            decreases self.tech_users@.len() - i,
        {
            let (a, b) = self.tech_users[i];
            if a == t && b == u {
                return true;
            }
            i = i + 1;
        }
        false
    }

    /// The energy technique `t` costs: that of its first entry, 0 if it has none.
    pub fn energy_cost(&self, t: TechType) -> (r: i32)
        ensures
            r == self.energy_spec(t),
    {
        let mut i: usize = 0;
        while i < self.tech_energy.len()
            invariant
                i <= self.tech_energy@.len(),
                forall|j: int| 0 <= j < i ==> self.tech_energy@[j].0 != t,
            decreases self.tech_energy@.len() - i,
        {
            let (a, e) = self.tech_energy[i];
            if a == t {
                return e;
            }
            i = i + 1;
        }
        0
    }

    /// The energy technique `t` costs: that of its first entry, 0 if it has none.
    pub open spec fn energy_spec(&self, t: TechType) -> i32 {
        let s = self.tech_energy@;
        if exists|j: int| 0 <= j < s.len() && s[j].0 == t {
            s[choose|j: int| 0 <= j < s.len() && s[j].0 == t && forall|k: int| 0 <= k < j ==> s[k].0 != t].1
        } else {
            0
        }
    }
}

impl Game {
    /// Draws a dot at `p`.
    pub fn draw_dot<P: Into<Position>>(&mut self, ctype: CoordinateType, p: P, color: Color)
        ensures
            P::obeys_into_spec() ==> final(self).cmd.shapes@ == old(self).cmd.shapes@.push(Shape { type_: ShapeType::Dot, ctype, x1: p.into_spec().x, y1: p.into_spec().y, x2: 0, y2: 0, extra1: 0, extra2: 0, color: color_value(color) as i32, is_solid: false }),
            final(self).cmd.commands@ == old(self).cmd.commands@,
            final(self).cmd.game_commands@ == old(self).cmd.game_commands@,
            final(self).cmd.unit_commands@ == old(self).cmd.unit_commands@,
    {
        let p = p.into();
        self.cmd.shapes.push(Shape { type_: ShapeType::Dot, ctype, x1: p.x, y1: p.y, x2: 0, y2: 0, extra1: 0, extra2: 0, color: color.value(), is_solid: false });
    }

    /// Draws a dot at `p`, on the screen.
    pub fn draw_dot_screen<P: Into<Position>>(&mut self, p: P, color: Color)
        ensures
            P::obeys_into_spec() ==> final(self).cmd.shapes@ == old(self).cmd.shapes@.push(Shape { type_: ShapeType::Dot, ctype: CoordinateType::Screen, x1: p.into_spec().x, y1: p.into_spec().y, x2: 0, y2: 0, extra1: 0, extra2: 0, color: color_value(color) as i32, is_solid: false }),
            final(self).cmd.commands@ == old(self).cmd.commands@,
            final(self).cmd.game_commands@ == old(self).cmd.game_commands@,
            final(self).cmd.unit_commands@ == old(self).cmd.unit_commands@,
    {
        self.draw_dot(CoordinateType::Screen, p, color);
    }

    /// Draws a dot at `p`, on the map.
    pub fn draw_dot_map<P: Into<Position>>(&mut self, p: P, color: Color)
        ensures
            P::obeys_into_spec() ==> final(self).cmd.shapes@ == old(self).cmd.shapes@.push(Shape { type_: ShapeType::Dot, ctype: CoordinateType::OnMap, x1: p.into_spec().x, y1: p.into_spec().y, x2: 0, y2: 0, extra1: 0, extra2: 0, color: color_value(color) as i32, is_solid: false }),
            final(self).cmd.commands@ == old(self).cmd.commands@,
            final(self).cmd.game_commands@ == old(self).cmd.game_commands@,
            final(self).cmd.unit_commands@ == old(self).cmd.unit_commands@,
    {
        self.draw_dot(CoordinateType::OnMap, p, color);
    }

    /// Draws a dot at `p`, relative to the mouse.
    pub fn draw_dot_mouse<P: Into<Position>>(&mut self, p: P, color: Color)
        ensures
            P::obeys_into_spec() ==> final(self).cmd.shapes@ == old(self).cmd.shapes@.push(Shape { type_: ShapeType::Dot, ctype: CoordinateType::Mouse, x1: p.into_spec().x, y1: p.into_spec().y, x2: 0, y2: 0, extra1: 0, extra2: 0, color: color_value(color) as i32, is_solid: false }),
            final(self).cmd.commands@ == old(self).cmd.commands@,
            final(self).cmd.game_commands@ == old(self).cmd.game_commands@,
            final(self).cmd.unit_commands@ == old(self).cmd.unit_commands@,
    {
        self.draw_dot(CoordinateType::Mouse, p, color);
    }

    /// Draws the triangle with corners `a`, `b` and `c`.
    pub fn draw_triangle<P: Into<Position>>(&mut self, ctype: CoordinateType, a: P, b: P, c: P, color: Color, solid: bool)
        ensures
            P::obeys_into_spec() ==> final(self).cmd.shapes@ == old(self).cmd.shapes@.push(Shape { type_: ShapeType::Triangle, ctype, x1: a.into_spec().x, y1: a.into_spec().y, x2: b.into_spec().x, y2: b.into_spec().y, extra1: c.into_spec().x, extra2: c.into_spec().y, color: color_value(color) as i32, is_solid: solid }),
            final(self).cmd.commands@ == old(self).cmd.commands@,
            final(self).cmd.game_commands@ == old(self).cmd.game_commands@,
            final(self).cmd.unit_commands@ == old(self).cmd.unit_commands@,
    {
        let a = a.into();
        let b = b.into();
        let c = c.into();
        self.cmd.shapes.push(Shape { type_: ShapeType::Triangle, ctype, x1: a.x, y1: a.y, x2: b.x, y2: b.y, extra1: c.x, extra2: c.y, color: color.value(), is_solid: solid });
    }

    /// Draws the triangle with corners `a`, `b` and `c`, on the screen.
    pub fn draw_triangle_screen<P: Into<Position>>(&mut self, a: P, b: P, c: P, color: Color, solid: bool)
        ensures
            P::obeys_into_spec() ==> final(self).cmd.shapes@ == old(self).cmd.shapes@.push(Shape { type_: ShapeType::Triangle, ctype: CoordinateType::Screen, x1: a.into_spec().x, y1: a.into_spec().y, x2: b.into_spec().x, y2: b.into_spec().y, extra1: c.into_spec().x, extra2: c.into_spec().y, color: color_value(color) as i32, is_solid: solid }),
            final(self).cmd.commands@ == old(self).cmd.commands@,
            final(self).cmd.game_commands@ == old(self).cmd.game_commands@,
            final(self).cmd.unit_commands@ == old(self).cmd.unit_commands@,
    {
        self.draw_triangle(CoordinateType::Screen, a, b, c, color, solid);
    }

    /// Draws the triangle with corners `a`, `b` and `c`, on the map.
    pub fn draw_triangle_map<P: Into<Position>>(&mut self, a: P, b: P, c: P, color: Color, solid: bool)
        ensures
            P::obeys_into_spec() ==> final(self).cmd.shapes@ == old(self).cmd.shapes@.push(Shape { type_: ShapeType::Triangle, ctype: CoordinateType::OnMap, x1: a.into_spec().x, y1: a.into_spec().y, x2: b.into_spec().x, y2: b.into_spec().y, extra1: c.into_spec().x, extra2: c.into_spec().y, color: color_value(color) as i32, is_solid: solid }),
            final(self).cmd.commands@ == old(self).cmd.commands@,
            final(self).cmd.game_commands@ == old(self).cmd.game_commands@,
            final(self).cmd.unit_commands@ == old(self).cmd.unit_commands@,
    {
        self.draw_triangle(CoordinateType::OnMap, a, b, c, color, solid);
    }

    /// Draws the triangle with corners `a`, `b` and `c`, relative to the mouse.
    pub fn draw_triangle_mouse<P: Into<Position>>(&mut self, a: P, b: P, c: P, color: Color, solid: bool)
        ensures
            P::obeys_into_spec() ==> final(self).cmd.shapes@ == old(self).cmd.shapes@.push(Shape { type_: ShapeType::Triangle, ctype: CoordinateType::Mouse, x1: a.into_spec().x, y1: a.into_spec().y, x2: b.into_spec().x, y2: b.into_spec().y, extra1: c.into_spec().x, extra2: c.into_spec().y, color: color_value(color) as i32, is_solid: solid }),
            final(self).cmd.commands@ == old(self).cmd.commands@,
            final(self).cmd.game_commands@ == old(self).cmd.game_commands@,
            final(self).cmd.unit_commands@ == old(self).cmd.unit_commands@,
    {
        self.draw_triangle(CoordinateType::Mouse, a, b, c, color, solid);
    }

    /// Draws the circle of `radius` around `p`.
    pub fn draw_circle<P: Into<Position>>(&mut self, ctype: CoordinateType, p: P, radius: i32, color: Color, solid: bool)
        ensures
            P::obeys_into_spec() ==> final(self).cmd.shapes@ == old(self).cmd.shapes@.push(Shape { type_: ShapeType::Circle, ctype, x1: p.into_spec().x, y1: p.into_spec().y, x2: 0, y2: 0, extra1: radius, extra2: 0, color: color_value(color) as i32, is_solid: solid }),
            final(self).cmd.commands@ == old(self).cmd.commands@,
            final(self).cmd.game_commands@ == old(self).cmd.game_commands@,
            final(self).cmd.unit_commands@ == old(self).cmd.unit_commands@,
    {
        let p = p.into();
        self.cmd.shapes.push(Shape { type_: ShapeType::Circle, ctype, x1: p.x, y1: p.y, x2: 0, y2: 0, extra1: radius, extra2: 0, color: color.value(), is_solid: solid });
    }

    /// Draws the circle of `radius` around `p`, on the screen.
    pub fn draw_circle_screen<P: Into<Position>>(&mut self, p: P, radius: i32, color: Color, solid: bool)
        ensures
            P::obeys_into_spec() ==> final(self).cmd.shapes@ == old(self).cmd.shapes@.push(Shape { type_: ShapeType::Circle, ctype: CoordinateType::Screen, x1: p.into_spec().x, y1: p.into_spec().y, x2: 0, y2: 0, extra1: radius, extra2: 0, color: color_value(color) as i32, is_solid: solid }),
            final(self).cmd.commands@ == old(self).cmd.commands@,
            final(self).cmd.game_commands@ == old(self).cmd.game_commands@,
            final(self).cmd.unit_commands@ == old(self).cmd.unit_commands@,
    {
        self.draw_circle(CoordinateType::Screen, p, radius, color, solid);
    }

    /// Draws the circle of `radius` around `p`, on the map.
    pub fn draw_circle_map<P: Into<Position>>(&mut self, p: P, radius: i32, color: Color, solid: bool)
        ensures
            P::obeys_into_spec() ==> final(self).cmd.shapes@ == old(self).cmd.shapes@.push(Shape { type_: ShapeType::Circle, ctype: CoordinateType::OnMap, x1: p.into_spec().x, y1: p.into_spec().y, x2: 0, y2: 0, extra1: radius, extra2: 0, color: color_value(color) as i32, is_solid: solid }),
            final(self).cmd.commands@ == old(self).cmd.commands@,
            final(self).cmd.game_commands@ == old(self).cmd.game_commands@,
            final(self).cmd.unit_commands@ == old(self).cmd.unit_commands@,
    {
        self.draw_circle(CoordinateType::OnMap, p, radius, color, solid);
    }

    /// Draws the circle of `radius` around `p`, relative to the mouse.
    pub fn draw_circle_mouse<P: Into<Position>>(&mut self, p: P, radius: i32, color: Color, solid: bool)
        ensures
            P::obeys_into_spec() ==> final(self).cmd.shapes@ == old(self).cmd.shapes@.push(Shape { type_: ShapeType::Circle, ctype: CoordinateType::Mouse, x1: p.into_spec().x, y1: p.into_spec().y, x2: 0, y2: 0, extra1: radius, extra2: 0, color: color_value(color) as i32, is_solid: solid }),
            final(self).cmd.commands@ == old(self).cmd.commands@,
            final(self).cmd.game_commands@ == old(self).cmd.game_commands@,
            final(self).cmd.unit_commands@ == old(self).cmd.unit_commands@,
    {
        self.draw_circle(CoordinateType::Mouse, p, radius, color, solid);
    }

    /// Draws the ellipse with radii `xrad` and `yrad` around `p`.
    pub fn draw_ellipse<P: Into<Position>>(&mut self, ctype: CoordinateType, p: P, xrad: i32, yrad: i32, color: Color, solid: bool)
        ensures
            P::obeys_into_spec() ==> final(self).cmd.shapes@ == old(self).cmd.shapes@.push(Shape { type_: ShapeType::Ellipse, ctype, x1: p.into_spec().x, y1: p.into_spec().y, x2: 0, y2: 0, extra1: xrad, extra2: yrad, color: color_value(color) as i32, is_solid: solid }),
            final(self).cmd.commands@ == old(self).cmd.commands@,
            final(self).cmd.game_commands@ == old(self).cmd.game_commands@,
            final(self).cmd.unit_commands@ == old(self).cmd.unit_commands@,
    {
        let p = p.into();
        self.cmd.shapes.push(Shape { type_: ShapeType::Ellipse, ctype, x1: p.x, y1: p.y, x2: 0, y2: 0, extra1: xrad, extra2: yrad, color: color.value(), is_solid: solid });
    }

    /// Draws the ellipse with radii `xrad` and `yrad` around `p`, on the screen.
    pub fn draw_ellipse_screen<P: Into<Position>>(&mut self, p: P, xrad: i32, yrad: i32, color: Color, solid: bool)
        ensures
            P::obeys_into_spec() ==> final(self).cmd.shapes@ == old(self).cmd.shapes@.push(Shape { type_: ShapeType::Ellipse, ctype: CoordinateType::Screen, x1: p.into_spec().x, y1: p.into_spec().y, x2: 0, y2: 0, extra1: xrad, extra2: yrad, color: color_value(color) as i32, is_solid: solid }),
            final(self).cmd.commands@ == old(self).cmd.commands@,
            final(self).cmd.game_commands@ == old(self).cmd.game_commands@,
            final(self).cmd.unit_commands@ == old(self).cmd.unit_commands@,
    {
        self.draw_ellipse(CoordinateType::Screen, p, xrad, yrad, color, solid);
    }

    /// Draws the ellipse with radii `xrad` and `yrad` around `p`, on the map.
    pub fn draw_ellipse_map<P: Into<Position>>(&mut self, p: P, xrad: i32, yrad: i32, color: Color, solid: bool)
        ensures
            P::obeys_into_spec() ==> final(self).cmd.shapes@ == old(self).cmd.shapes@.push(Shape { type_: ShapeType::Ellipse, ctype: CoordinateType::OnMap, x1: p.into_spec().x, y1: p.into_spec().y, x2: 0, y2: 0, extra1: xrad, extra2: yrad, color: color_value(color) as i32, is_solid: solid }),
            final(self).cmd.commands@ == old(self).cmd.commands@,
            final(self).cmd.game_commands@ == old(self).cmd.game_commands@,
            final(self).cmd.unit_commands@ == old(self).cmd.unit_commands@,
    {
        self.draw_ellipse(CoordinateType::OnMap, p, xrad, yrad, color, solid);
    }

    /// Draws the ellipse with radii `xrad` and `yrad` around `p`, relative to the mouse.
    pub fn draw_ellipse_mouse<P: Into<Position>>(&mut self, p: P, xrad: i32, yrad: i32, color: Color, solid: bool)
        ensures
            P::obeys_into_spec() ==> final(self).cmd.shapes@ == old(self).cmd.shapes@.push(Shape { type_: ShapeType::Ellipse, ctype: CoordinateType::Mouse, x1: p.into_spec().x, y1: p.into_spec().y, x2: 0, y2: 0, extra1: xrad, extra2: yrad, color: color_value(color) as i32, is_solid: solid }),
            final(self).cmd.commands@ == old(self).cmd.commands@,
            final(self).cmd.game_commands@ == old(self).cmd.game_commands@,
            final(self).cmd.unit_commands@ == old(self).cmd.unit_commands@,
    {
        self.draw_ellipse(CoordinateType::Mouse, p, xrad, yrad, color, solid);
    }

    /// Draws the line from `a` to `b`.
    pub fn draw_line<P: Into<Position>>(&mut self, ctype: CoordinateType, a: P, b: P, color: Color)
        ensures
            P::obeys_into_spec() ==> final(self).cmd.shapes@ == old(self).cmd.shapes@.push(Shape { type_: ShapeType::Line, ctype, x1: a.into_spec().x, y1: a.into_spec().y, x2: b.into_spec().x, y2: b.into_spec().y, extra1: 0, extra2: 0, color: color_value(color) as i32, is_solid: false }),
            final(self).cmd.commands@ == old(self).cmd.commands@,
            final(self).cmd.game_commands@ == old(self).cmd.game_commands@,
            final(self).cmd.unit_commands@ == old(self).cmd.unit_commands@,
    {
        let a = a.into();
        let b = b.into();
        self.cmd.shapes.push(Shape { type_: ShapeType::Line, ctype, x1: a.x, y1: a.y, x2: b.x, y2: b.y, extra1: 0, extra2: 0, color: color.value(), is_solid: false });
    }

    /// Draws the line from `a` to `b`, on the screen.
    pub fn draw_line_screen<P: Into<Position>>(&mut self, a: P, b: P, color: Color)
        ensures
            P::obeys_into_spec() ==> final(self).cmd.shapes@ == old(self).cmd.shapes@.push(Shape { type_: ShapeType::Line, ctype: CoordinateType::Screen, x1: a.into_spec().x, y1: a.into_spec().y, x2: b.into_spec().x, y2: b.into_spec().y, extra1: 0, extra2: 0, color: color_value(color) as i32, is_solid: false }),
            final(self).cmd.commands@ == old(self).cmd.commands@,
            final(self).cmd.game_commands@ == old(self).cmd.game_commands@,
            final(self).cmd.unit_commands@ == old(self).cmd.unit_commands@,
    {
        self.draw_line(CoordinateType::Screen, a, b, color);
    }

    /// Draws the line from `a` to `b`, on the map.
    pub fn draw_line_map<P: Into<Position>>(&mut self, a: P, b: P, color: Color)
        ensures
            P::obeys_into_spec() ==> final(self).cmd.shapes@ == old(self).cmd.shapes@.push(Shape { type_: ShapeType::Line, ctype: CoordinateType::OnMap, x1: a.into_spec().x, y1: a.into_spec().y, x2: b.into_spec().x, y2: b.into_spec().y, extra1: 0, extra2: 0, color: color_value(color) as i32, is_solid: false }),
            final(self).cmd.commands@ == old(self).cmd.commands@,
            final(self).cmd.game_commands@ == old(self).cmd.game_commands@,
            final(self).cmd.unit_commands@ == old(self).cmd.unit_commands@,
    {
        self.draw_line(CoordinateType::OnMap, a, b, color);
    }

    /// Draws the line from `a` to `b`, relative to the mouse.
    pub fn draw_line_mouse<P: Into<Position>>(&mut self, a: P, b: P, color: Color)
        ensures
            P::obeys_into_spec() ==> final(self).cmd.shapes@ == old(self).cmd.shapes@.push(Shape { type_: ShapeType::Line, ctype: CoordinateType::Mouse, x1: a.into_spec().x, y1: a.into_spec().y, x2: b.into_spec().x, y2: b.into_spec().y, extra1: 0, extra2: 0, color: color_value(color) as i32, is_solid: false }),
            final(self).cmd.commands@ == old(self).cmd.commands@,
            final(self).cmd.game_commands@ == old(self).cmd.game_commands@,
            final(self).cmd.unit_commands@ == old(self).cmd.unit_commands@,
    {
        self.draw_line(CoordinateType::Mouse, a, b, color);
    }

    /// Draws the box from `top_left` to `bottom_right`.
    pub fn draw_box<P: Into<Position>>(&mut self, ctype: CoordinateType, top_left: P, bottom_right: P, color: Color, solid: bool)
        ensures
            P::obeys_into_spec() ==> final(self).cmd.shapes@ == old(self).cmd.shapes@.push(Shape { type_: ShapeType::Box, ctype, x1: top_left.into_spec().x, y1: top_left.into_spec().y, x2: bottom_right.into_spec().x, y2: bottom_right.into_spec().y, extra1: 0, extra2: 0, color: color_value(color) as i32, is_solid: solid }),
            final(self).cmd.commands@ == old(self).cmd.commands@,
            final(self).cmd.game_commands@ == old(self).cmd.game_commands@,
            final(self).cmd.unit_commands@ == old(self).cmd.unit_commands@,
    {
        let top_left = top_left.into();
        let bottom_right = bottom_right.into();
        self.cmd.shapes.push(Shape { type_: ShapeType::Box, ctype, x1: top_left.x, y1: top_left.y, x2: bottom_right.x, y2: bottom_right.y, extra1: 0, extra2: 0, color: color.value(), is_solid: solid });
    }

    /// Draws the box from `top_left` to `bottom_right`, on the screen.
    pub fn draw_box_screen<P: Into<Position>>(&mut self, top_left: P, bottom_right: P, color: Color, solid: bool)
        ensures
            P::obeys_into_spec() ==> final(self).cmd.shapes@ == old(self).cmd.shapes@.push(Shape { type_: ShapeType::Box, ctype: CoordinateType::Screen, x1: top_left.into_spec().x, y1: top_left.into_spec().y, x2: bottom_right.into_spec().x, y2: bottom_right.into_spec().y, extra1: 0, extra2: 0, color: color_value(color) as i32, is_solid: solid }),
            final(self).cmd.commands@ == old(self).cmd.commands@,
            final(self).cmd.game_commands@ == old(self).cmd.game_commands@,
            final(self).cmd.unit_commands@ == old(self).cmd.unit_commands@,
    {
        self.draw_box(CoordinateType::Screen, top_left, bottom_right, color, solid);
    }

    /// Draws the box from `top_left` to `bottom_right`, on the map.
    pub fn draw_box_map<P: Into<Position>>(&mut self, top_left: P, bottom_right: P, color: Color, solid: bool)
        ensures
            P::obeys_into_spec() ==> final(self).cmd.shapes@ == old(self).cmd.shapes@.push(Shape { type_: ShapeType::Box, ctype: CoordinateType::OnMap, x1: top_left.into_spec().x, y1: top_left.into_spec().y, x2: bottom_right.into_spec().x, y2: bottom_right.into_spec().y, extra1: 0, extra2: 0, color: color_value(color) as i32, is_solid: solid }),
            final(self).cmd.commands@ == old(self).cmd.commands@,
            final(self).cmd.game_commands@ == old(self).cmd.game_commands@,
            final(self).cmd.unit_commands@ == old(self).cmd.unit_commands@,
    {
        self.draw_box(CoordinateType::OnMap, top_left, bottom_right, color, solid);
    }

    /// Draws the box from `top_left` to `bottom_right`, relative to the mouse.
    pub fn draw_box_mouse<P: Into<Position>>(&mut self, top_left: P, bottom_right: P, color: Color, solid: bool)
        ensures
            P::obeys_into_spec() ==> final(self).cmd.shapes@ == old(self).cmd.shapes@.push(Shape { type_: ShapeType::Box, ctype: CoordinateType::Mouse, x1: top_left.into_spec().x, y1: top_left.into_spec().y, x2: bottom_right.into_spec().x, y2: bottom_right.into_spec().y, extra1: 0, extra2: 0, color: color_value(color) as i32, is_solid: solid }),
            final(self).cmd.commands@ == old(self).cmd.commands@,
            final(self).cmd.game_commands@ == old(self).cmd.game_commands@,
            final(self).cmd.unit_commands@ == old(self).cmd.unit_commands@,
    {
        self.draw_box(CoordinateType::Mouse, top_left, bottom_right, color, solid);
    }
}

impl Game {
    /// Sends `message` to all players, or to the allies only.
    pub fn send_text_ex(&mut self, to_allies: bool, message: &str)
        ensures
            final(self).cmd.commands@.drop_last() == old(self).cmd.commands@,
            final(self).cmd.commands@.len() == old(self).cmd.commands@.len() + 1,
            final(self).cmd.commands@.last() matches Command::SendText { message: m, to_allies: a }
                && m@ == message@ && a == to_allies,
            final(self).cmd.game_commands@ == old(self).cmd.game_commands@,
            final(self).cmd.shapes@ == old(self).cmd.shapes@,
            final(self).cmd.unit_commands@ == old(self).cmd.unit_commands@,
    {
        self.cmd.commands.push(Command::SendText { message: message.to_owned(), to_allies });
    }

    /// Sends `message` to all players.
    pub fn send_text(&mut self, message: &str)
        ensures
            final(self).cmd.commands@.drop_last() == old(self).cmd.commands@,
            final(self).cmd.commands@.len() == old(self).cmd.commands@.len() + 1,
            final(self).cmd.commands@.last() matches Command::SendText { message: m, to_allies: a }
                && m@ == message@ && !a,
            final(self).cmd.game_commands@ == old(self).cmd.game_commands@,
            final(self).cmd.shapes@ == old(self).cmd.shapes@,
            final(self).cmd.unit_commands@ == old(self).cmd.unit_commands@,
    {
        self.send_text_ex(false, message);
    }

    /// Draws `string` at `position`.
    pub fn draw_text<P: Into<Position>>(&mut self, ctype: CoordinateType, position: P, string: &str)
        ensures
            final(self).cmd.commands@.drop_last() == old(self).cmd.commands@,
            final(self).cmd.commands@.len() == old(self).cmd.commands@.len() + 1,
            P::obeys_into_spec() ==> (final(self).cmd.commands@.last() matches Command::DrawText { ctype: c, x, y, string: t }
                && c == ctype && x == position.into_spec().x && y == position.into_spec().y && t@ == string@),
            final(self).cmd.game_commands@ == old(self).cmd.game_commands@,
            final(self).cmd.shapes@ == old(self).cmd.shapes@,
            final(self).cmd.unit_commands@ == old(self).cmd.unit_commands@,
    {
        let p = position.into();
        self.cmd.commands.push(Command::DrawText { ctype, x: p.x, y: p.y, string: string.to_owned() });
    }

    /// Draws `string` at `position`, on the screen.
    pub fn draw_text_screen<P: Into<Position>>(&mut self, position: P, string: &str)
        ensures
            final(self).cmd.commands@.drop_last() == old(self).cmd.commands@,
            final(self).cmd.commands@.len() == old(self).cmd.commands@.len() + 1,
            P::obeys_into_spec() ==> (final(self).cmd.commands@.last() matches Command::DrawText { ctype: c, x, y, string: t }
                && c == CoordinateType::Screen && x == position.into_spec().x && y == position.into_spec().y && t@ == string@),
            final(self).cmd.game_commands@ == old(self).cmd.game_commands@,
            final(self).cmd.shapes@ == old(self).cmd.shapes@,
            final(self).cmd.unit_commands@ == old(self).cmd.unit_commands@,
    {
        self.draw_text(CoordinateType::Screen, position, string);
    }

    /// Draws `string` at `position`, on the map.
    pub fn draw_text_map<P: Into<Position>>(&mut self, position: P, string: &str)
        ensures
            final(self).cmd.commands@.drop_last() == old(self).cmd.commands@,
            final(self).cmd.commands@.len() == old(self).cmd.commands@.len() + 1,
            P::obeys_into_spec() ==> (final(self).cmd.commands@.last() matches Command::DrawText { ctype: c, x, y, string: t }
                && c == CoordinateType::OnMap && x == position.into_spec().x && y == position.into_spec().y && t@ == string@),
            final(self).cmd.game_commands@ == old(self).cmd.game_commands@,
            final(self).cmd.shapes@ == old(self).cmd.shapes@,
            final(self).cmd.unit_commands@ == old(self).cmd.unit_commands@,
    {
        self.draw_text(CoordinateType::OnMap, position, string);
    }

    /// Draws `string` at `position`, relative to the mouse.
    pub fn draw_text_mouse<P: Into<Position>>(&mut self, position: P, string: &str)
        ensures
            final(self).cmd.commands@.drop_last() == old(self).cmd.commands@,
            final(self).cmd.commands@.len() == old(self).cmd.commands@.len() + 1,
            P::obeys_into_spec() ==> (final(self).cmd.commands@.last() matches Command::DrawText { ctype: c, x, y, string: t }
                && c == CoordinateType::Mouse && x == position.into_spec().x && y == position.into_spec().y && t@ == string@),
            final(self).cmd.game_commands@ == old(self).cmd.game_commands@,
            final(self).cmd.shapes@ == old(self).cmd.shapes@,
            final(self).cmd.unit_commands@ == old(self).cmd.unit_commands@,
    {
        self.draw_text(CoordinateType::Mouse, position, string);
    }

    /// Queues `cmd` for its unit.
    pub fn issue_command(&mut self, cmd: UnitCommand)
        ensures
            final(self).cmd.unit_commands@ == old(self).cmd.unit_commands@.push(cmd),
            final(self).cmd.commands@ == old(self).cmd.commands@,
            final(self).cmd.game_commands@ == old(self).cmd.game_commands@,
            final(self).cmd.shapes@ == old(self).cmd.shapes@,
            *final(self) == (Game { cmd: final(self).cmd, ..*old(self) }),
    {
        self.cmd.unit_commands.push(cmd);
    }

    /// Allies with `other` (sharing victory if `allied_victory`) or breaks the alliance;
    /// nothing in a replay or towards the controlled player.
    pub fn set_alliance(&mut self, other: PlayerId, allied: bool, allied_victory: bool)
        ensures
            (old(self).is_replay || other == old(self).self_player) ==> *final(self) == *old(self),
            !(old(self).is_replay || other == old(self).self_player) ==> {
                &&& final(self).cmd.game_commands@ == old(self).cmd.game_commands@.push(GameCommand {
                    type_: CommandType::SetAllies,
                    value1: other as i32,
                    value2: if allied { if allied_victory { 2i32 } else { 1i32 } } else { 0i32 },
                })
                &&& final(self).cmd.commands@ == old(self).cmd.commands@
                &&& final(self).cmd.shapes@ == old(self).cmd.shapes@
                &&& final(self).cmd.unit_commands@ == old(self).cmd.unit_commands@
            },
    {
        if self.is_replay || other == self.self_player {
            return;
        }
        let value2: i32 = if allied { if allied_victory { 2 } else { 1 } } else { 0 };
        self.cmd.game_commands.push(GameCommand { type_: CommandType::SetAllies, value1: other as i32, value2 });
    }

    /// Reveals the whole map or not; only in a replay.
    pub fn set_reveal_all(&mut self, reveal: bool) -> (r: Result<(), Error>)
        ensures
            !old(self).is_replay ==> r == Err::<(), Error>(Error::Invalid_Parameter) && *final(self) == *old(self),
            old(self).is_replay ==> {
                &&& r is Ok
                &&& final(self).cmd.game_commands@ == old(self).cmd.game_commands@.push(GameCommand {
                    type_: CommandType::SetAllies,
                    value1: if reveal { 1i32 } else { 0i32 },
                    value2: 0,
                })
                &&& final(self).cmd.commands@ == old(self).cmd.commands@
                &&& final(self).cmd.shapes@ == old(self).cmd.shapes@
                &&& final(self).cmd.unit_commands@ == old(self).cmd.unit_commands@
            },
    {
        if !self.is_replay {
            return Err(Error::Invalid_Parameter);
        }
        let value1: i32 = if reveal { 1 } else { 0 };
        self.cmd.game_commands.push(GameCommand { type_: CommandType::SetAllies, value1, value2: 0 });
        Ok(())
    }

    /// Shares the vision of `player` or not; refused for the controlled player outside a
    /// replay.
    pub fn set_vision(&mut self, player: PlayerId, enabled: bool) -> (r: Result<(), Error>)
        ensures
            (!old(self).is_replay && player == old(self).self_player) ==>
                r == Err::<(), Error>(Error::Invalid_Parameter) && *final(self) == *old(self),
            !(!old(self).is_replay && player == old(self).self_player) ==> {
                &&& r is Ok
                &&& final(self).cmd.game_commands@ == old(self).cmd.game_commands@.push(GameCommand {
                    type_: CommandType::SetAllies,
                    value1: player as i32,
                    value2: if enabled { 1i32 } else { 0i32 },
                })
                &&& final(self).cmd.commands@ == old(self).cmd.commands@
                &&& final(self).cmd.shapes@ == old(self).cmd.shapes@
                &&& final(self).cmd.unit_commands@ == old(self).cmd.unit_commands@
            },
    {
        if !self.is_replay && player == self.self_player {
            return Err(Error::Invalid_Parameter);
        }
        let value2: i32 = if enabled { 1 } else { 0 };
        self.cmd.game_commands.push(GameCommand { type_: CommandType::SetAllies, value1: player as i32, value2 });
        Ok(())
    }

    /// Sets the frame skip; a value below 1 is ignored.
    pub fn set_frame_skip(&mut self, frame_skip: i32)
        ensures
            frame_skip <= 0 ==> *final(self) == *old(self),
            frame_skip > 0 ==> final(self).cmd.game_commands@ == old(self).cmd.game_commands@.push(
                GameCommand { type_: CommandType::SetFrameSkip, value1: frame_skip, value2: 0 }),
            final(self).cmd.commands@ == old(self).cmd.commands@,
            final(self).cmd.shapes@ == old(self).cmd.shapes@,
            final(self).cmd.unit_commands@ == old(self).cmd.unit_commands@,
    {
        if frame_skip > 0 {
            self.cmd.game_commands.push(GameCommand { type_: CommandType::SetFrameSkip, value1: frame_skip, value2: 0 });
        }
    }

    /// Whether the map file `map_file_name` can be loaded, given whether a file of that name
    /// exists: its name must be shorter than 260 bytes and not empty.
    pub fn set_map_checked(&mut self, map_file_name: &str, file_exists: bool) -> (r: Result<(), Error>)
        ensures
            (map_file_name.len() >= 260 || map_file_name.is_empty()) ==>
                r == Err::<(), Error>(Error::Invalid_Parameter) && *final(self) == *old(self),
            (map_file_name.len() < 260 && !map_file_name.is_empty() && !file_exists) ==>
                r == Err::<(), Error>(Error::File_Not_Found) && *final(self) == *old(self),
            (map_file_name.len() < 260 && !map_file_name.is_empty() && file_exists) ==> {
                &&& r is Ok
                &&& final(self).cmd.commands@.drop_last() == old(self).cmd.commands@
                &&& final(self).cmd.commands@.len() == old(self).cmd.commands@.len() + 1
                &&& final(self).cmd.commands@.last() matches Command::SetMap(m) && m@ == map_file_name@
                &&& final(self).cmd.game_commands@ == old(self).cmd.game_commands@
                &&& final(self).cmd.shapes@ == old(self).cmd.shapes@
                &&& final(self).cmd.unit_commands@ == old(self).cmd.unit_commands@
            },
    {
        if map_file_name.len() >= 260 || map_file_name.is_empty() {
            return Err(Error::Invalid_Parameter);
        }
        if !file_exists {
            return Err(Error::File_Not_Found);
        }
        self.cmd.commands.push(Command::SetMap(map_file_name.to_owned()));
        Ok(())
    }

    /// Loads the map file `map_file_name` when the game restarts; refused for a name that
    /// is empty or 260 bytes long or longer, or of no existing file.
    pub fn set_map(&mut self, map_file_name: &str) -> (r: Result<(), Error>)
        ensures
            (map_file_name.len() >= 260 || map_file_name.is_empty()) ==>
                r == Err::<(), Error>(Error::Invalid_Parameter) && *final(self) == *old(self),
            (map_file_name.len() < 260 && !map_file_name.is_empty()) ==> (r == Err::<(), Error>(Error::File_Not_Found) && *final(self) == *old(self)) || {
                &&& r is Ok
                &&& final(self).cmd.commands@.drop_last() == old(self).cmd.commands@
                &&& final(self).cmd.commands@.len() == old(self).cmd.commands@.len() + 1
                &&& final(self).cmd.commands@.last() matches Command::SetMap(m) && m@ == map_file_name@
            },
    {
        if map_file_name.len() >= 260 || map_file_name.is_empty() {
            return Err(Error::Invalid_Parameter);
        }
        let exists = file_exists(map_file_name);
        self.set_map_checked(map_file_name, exists)
    }

    /// Leaves the game.
    pub fn leave_game(&mut self)
        ensures
            final(self).cmd.game_commands@ == old(self).cmd.game_commands@.push(GameCommand { type_: CommandType::LeaveGame, value1: 0, value2: 0 }),
            final(self).cmd.commands@ == old(self).cmd.commands@,
            final(self).cmd.shapes@ == old(self).cmd.shapes@,
            final(self).cmd.unit_commands@ == old(self).cmd.unit_commands@,
    {
        self.cmd.game_commands.push(GameCommand { type_: CommandType::LeaveGame, value1: 0, value2: 0 });
    }

    /// Pauses the game.
    pub fn pause_game(&mut self)
        ensures
            final(self).cmd.game_commands@ == old(self).cmd.game_commands@.push(GameCommand { type_: CommandType::PauseGame, value1: 0, value2: 0 }),
            final(self).cmd.commands@ == old(self).cmd.commands@,
            final(self).cmd.shapes@ == old(self).cmd.shapes@,
            final(self).cmd.unit_commands@ == old(self).cmd.unit_commands@,
    {
        self.cmd.game_commands.push(GameCommand { type_: CommandType::PauseGame, value1: 0, value2: 0 });
    }

    /// Restarts the game.
    pub fn restart_game(&mut self)
        ensures
            final(self).cmd.game_commands@ == old(self).cmd.game_commands@.push(GameCommand { type_: CommandType::RestartGame, value1: 0, value2: 0 }),
            final(self).cmd.commands@ == old(self).cmd.commands@,
            final(self).cmd.shapes@ == old(self).cmd.shapes@,
            final(self).cmd.unit_commands@ == old(self).cmd.unit_commands@,
    {
        self.cmd.game_commands.push(GameCommand { type_: CommandType::RestartGame, value1: 0, value2: 0 });
    }

    /// Enables game flag `flag`.
    pub fn enable_flag(&mut self, flag: i32)
        ensures
            final(self).cmd.game_commands@ == old(self).cmd.game_commands@.push(GameCommand { type_: CommandType::EnableFlag, value1: flag, value2: 0 }),
            final(self).cmd.commands@ == old(self).cmd.commands@,
            final(self).cmd.shapes@ == old(self).cmd.shapes@,
            final(self).cmd.unit_commands@ == old(self).cmd.unit_commands@,
    {
        self.cmd.game_commands.push(GameCommand { type_: CommandType::EnableFlag, value1: flag, value2: 0 });
    }

    /// Turns the game's drawing on or off.
    pub fn set_gui(&mut self, enabled: bool)
        ensures
            final(self).cmd.game_commands@ == old(self).cmd.game_commands@.push(GameCommand { type_: CommandType::SetGui, value1: if enabled { 1i32 } else { 0i32 }, value2: 0 }),
            final(self).cmd.commands@ == old(self).cmd.commands@,
            final(self).cmd.shapes@ == old(self).cmd.shapes@,
            final(self).cmd.unit_commands@ == old(self).cmd.unit_commands@,
    {
        self.cmd.game_commands.push(GameCommand { type_: CommandType::SetGui, value1: if enabled { 1 } else { 0 }, value2: 0 });
    }

    /// Turns latency compensation on or off.
    pub fn set_lat_com(&mut self, enabled: bool)
        ensures
            final(self).cmd.game_commands@ == old(self).cmd.game_commands@.push(GameCommand { type_: CommandType::SetLatCom, value1: if enabled { 1i32 } else { 0i32 }, value2: 0 }),
            final(self).cmd.commands@ == old(self).cmd.commands@,
            final(self).cmd.shapes@ == old(self).cmd.shapes@,
            final(self).cmd.unit_commands@ == old(self).cmd.unit_commands@,
    {
        self.cmd.game_commands.push(GameCommand { type_: CommandType::SetLatCom, value1: if enabled { 1 } else { 0 }, value2: 0 });
    }

    /// Sets the local game speed.
    pub fn set_local_speed(&mut self, speed: i32)
        ensures
            final(self).cmd.game_commands@ == old(self).cmd.game_commands@.push(GameCommand { type_: CommandType::SetLocalSpeed, value1: speed, value2: 0 }),
            final(self).cmd.commands@ == old(self).cmd.commands@,
            final(self).cmd.shapes@ == old(self).cmd.shapes@,
            final(self).cmd.unit_commands@ == old(self).cmd.unit_commands@,
    {
        self.cmd.game_commands.push(GameCommand { type_: CommandType::SetLocalSpeed, value1: speed, value2: 0 });
    }

    /// Pings the minimap at `p`.
    pub fn ping_minimap<P: Into<Position>>(&mut self, p: P)
        ensures
            P::obeys_into_spec() ==> final(self).cmd.game_commands@ == old(self).cmd.game_commands@.push(
                GameCommand { type_: CommandType::PingMinimap, value1: p.into_spec().x, value2: p.into_spec().y }),
            final(self).cmd.game_commands@.len() == old(self).cmd.game_commands@.len() + 1,
            final(self).cmd.commands@ == old(self).cmd.commands@,
            final(self).cmd.shapes@ == old(self).cmd.shapes@,
            final(self).cmd.unit_commands@ == old(self).cmd.unit_commands@,
    {
        let p = p.into();
        self.cmd.game_commands.push(GameCommand { type_: CommandType::PingMinimap, value1: p.x, value2: p.y });
    }
}

/// Whether a file named `path` exists: `std::path::Path::exists`. What is on disk decides,
/// so nothing is said of the answer.
#[verifier::external_body]
fn file_exists(path: &str) -> bool {
    std::path::Path::new(path).exists()
}

/// Whether the pair `(a, b)` is listed in `v`.
fn pair_listed(v: &Vec<(usize, usize)>, a: usize, b: usize) -> (r: bool)
    ensures
        r == v@.contains((a, b)),
{
    let mut i: usize = 0;
    while i < v.len()
        invariant
            i <= v@.len(),
            forall|j: int| 0 <= j < i ==> v@[j] != (a, b),
        decreases v@.len() - i,
    {
        let (x, y) = v[i];
        if x == a && y == b {
            return true;
        }
        i = i + 1;
    }
    false
}

} // verus!
