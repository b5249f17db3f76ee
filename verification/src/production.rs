//! Whether the controlled player can make a unit type, and whether a building of a type fits
//! on a site.
use vstd::prelude::*;
use crate::bwapi_wrapper::position::{fits_i32, trunc_div, Position, TilePosition};
use crate::bwapi_wrapper::race::{race_id, Race};
use crate::bwapi_wrapper::tech_type::TechType;
use crate::bwapi_wrapper::unit_type::UnitType;
use crate::bwapi_wrapper::upgrade_type::UpgradeType;
use crate::bwapi_wrapper::Error;
use crate::can_do::BwResult;
use crate::tables::has_supply_pool;
use crate::game::Game;
use crate::unit::Unit;
use crate::region::{corners_known, paths_known, unit_reaches};

verus! {

impl Game {
    /// How many finished units of type `t` the controlled player has.
    pub open spec fn completed_of(&self, t: UnitType) -> int {
        self.unit_types.entry(t).completed_count as int
    }

    /// How many units of type `t` the controlled player has, finished or not.
    pub open spec fn all_of(&self, t: UnitType) -> int {
        self.unit_types.entry(t).all_count as int
    }

    /// Whether the controlled player has `amount` units of type `t`, as a requirement counts
    /// them: a hatchery also counts every lair and hive, a lair every hive, and a spire every
    /// greater spire, finished or not. A requirement of no type always holds.
    pub open spec fn has_requirement(&self, t: UnitType, amount: i32) -> bool {
        if t == UnitType::NoneType {
            true
        } else {
            let n = if t == UnitType::Zerg_Hatchery {
                self.completed_of(t) + self.all_of(UnitType::Zerg_Lair) + self.all_of(UnitType::Zerg_Hive)
            } else if t == UnitType::Zerg_Lair {
                self.completed_of(t) + self.all_of(UnitType::Zerg_Hive)
            } else if t == UnitType::Zerg_Spire {
                self.completed_of(t) + self.all_of(UnitType::Zerg_Greater_Spire)
            } else {
                self.completed_of(t)
            };
            n >= amount
        }
    }

    /// Whether the controlled player has `amount` units of type `unit`, as a requirement
    /// counts them.
    pub fn has_unit_type_requirement(&self, unit: UnitType, amount: i32) -> (r: bool)
        ensures
            r == self.has_requirement(unit, amount),
    {
        if unit == UnitType::NoneType {
            return true;
        }
        let completed = self.unit_types.get(unit).completed_count as i64;
        let n: i64 = match unit {
            UnitType::Zerg_Hatchery => completed + self.unit_types.get(UnitType::Zerg_Lair).all_count as i64
                + self.unit_types.get(UnitType::Zerg_Hive).all_count as i64,
            UnitType::Zerg_Lair => completed + self.unit_types.get(UnitType::Zerg_Hive).all_count as i64,
            UnitType::Zerg_Spire => completed + self.unit_types.get(UnitType::Zerg_Greater_Spire).all_count as i64,
            _ => completed,
        };
        n >= amount as i64
    }

    /// Whether making a unit of type `t` takes more supply than the controlled player has
    /// free: a type that takes supply needs its own supply (twice that when one egg gives two
    /// units) less the supply of the unit it is made from, if that is of the same race.
    pub open spec fn supply_short(&self, t: UnitType) -> bool {
        let info = self.unit_types.entry(t);
        let from = self.unit_types.entry(info.what_builds);
        let need = info.supply_required * (if info.is_two_units_in_one_egg { 2int } else { 1int });
        let pool = race_id(info.kind.race);
        let refund = if from.kind.race == info.kind.race { from.supply_required as int } else { 0int };
        need > 0 && self.supply_total@[pool] < self.supply_used@[pool] + need - refund
    }

    /// Going through the required units `reqs` in order: `Err` at the first the player lacks,
    /// else the last addon among them (`addon` if there is none).
    pub open spec fn scan_required(&self, reqs: Seq<(UnitType, i32)>, addon: UnitType) -> Result<UnitType, Error>
        decreases reqs.len(),
    {
        if reqs.len() == 0 {
            Ok(addon)
        } else {
            let (t, n) = reqs[0];
            let next = if self.unit_types.entry(t).kind.is_addon { t } else { addon };
            if !self.has_requirement(t, n) {
                Err(Error::Insufficient_Tech)
            } else {
                self.scan_required(reqs.skip(1), next)
            }
        }
    }

    /// Whether a carrier or reaver `b` has no room for another interceptor or scarab: a
    /// carrier holds 4 (8 with Carrier Capacity, or as the hero), a reaver 5 (10 with Reaver
    /// Capacity, or as the hero), counting those queued.
    pub open spec fn hangar_full(&self, b: Unit) -> bool {
        let queued = b.training_queue_len as i32 as int;
        if b.type_ == UnitType::Protoss_Carrier || b.type_ == UnitType::Hero_Gantrithor {
            let max = if self.upgrades.entry(UpgradeType::Carrier_Capacity).level > 0
                || b.type_ == UnitType::Hero_Gantrithor { 8int } else { 4int };
            b.interceptor_count + queued >= max
        } else if b.type_ == UnitType::Protoss_Reaver || b.type_ == UnitType::Hero_Warbringer {
            let max = if self.upgrades.entry(UpgradeType::Reaver_Capacity).level > 0
                || b.type_ == UnitType::Hero_Warbringer { 10int } else { 5int };
            b.scarab_count + queued >= max
        } else {
            false
        }
    }

    /// What builder `b` decides of making a `t`: `Some` outcome where it decides, `None` where
    /// the costs decide. The builder must be the controlled player's; a finished Nydus canal
    /// without an exit may always make its exit; a larva producer stands for its larvae, and
    /// needs one; any other builder must be of the type that makes `t`, with room left.
    pub open spec fn builder_verdict(&self, b: Unit, t: UnitType) -> Option<BwResult<bool>> {
        let from = self.unit_types.entry(t).what_builds;
        let by_larva = from == UnitType::Zerg_Larva && b.kind.produces_larva;
        if b.player != self.self_player {
            Some(Err(Error::Unit_Not_Owned))
        } else if t == UnitType::Zerg_Nydus_Canal && b.type_ == UnitType::Zerg_Nydus_Canal {
            if !b.is_completed {
                Some(Err(Error::Unit_Busy))
            } else if b.has_nydus_exit {
                Some(Err(Error::Unknown))
            } else {
                Some(Ok(true))
            }
        } else if by_larva && b.larva@.len() == 0 {
            Some(Err(Error::Unit_Does_Not_Exist))
        } else if !by_larva && b.type_ != from {
            Some(Err(Error::Incompatible_UnitType))
        } else if self.hangar_full(b) {
            Some(Err(Error::Insufficient_Space))
        } else {
            None
        }
    }

    /// What the costs and requirements decide of making a `t` with `builder`: enough
    /// minerals, gas and supply, every required unit, the required technique, and (as the
    /// check is written) a builder whose addon is neither missing nor of the required addon
    /// type when that addon is made by the same type as `t`.
    pub open spec fn cost_verdict(&self, builder: Option<&Unit>, t: UnitType) -> BwResult<bool> {
        let info = self.unit_types.entry(t);
        if self.minerals < info.mineral_price {
            Err(Error::Insufficient_Minerals)
        } else if self.gas < info.gas_price {
            Err(Error::Insufficient_Gas)
        } else if self.supply_short(t) {
            Err(Error::Insufficient_Supply)
        } else {
            match self.scan_required(info.required_units@, UnitType::NoneType) {
                Err(e) => Err(e),
                Ok(addon) => {
                    if info.required_tech != TechType::NoneType && !self.researched@.contains(info.required_tech) {
                        Err(Error::Insufficient_Tech)
                    } else if (builder matches Some(b) && addon != UnitType::NoneType
                        && self.unit_types.entry(addon).what_builds == info.what_builds
                        && (b.addon is None || b.addon == Some(addon))) {
                        Err(Error::Insufficient_Tech)
                    } else {
                        Ok(true)
                    }
                },
            }
        }
    }

    /// Whether the controlled player can make a unit of type `t`, with `builder` if given: the
    /// type must be available to the player, then the builder decides, then the costs.
    pub open spec fn make_spec(&self, builder: Option<&Unit>, t: UnitType) -> BwResult<bool> {
        if !self.unit_types.entry(t).available {
            Err(Error::Access_Denied)
        } else {
            match builder {
                Some(b) => match self.builder_verdict(*b, t) {
                    Some(r) => r,
                    None => self.cost_verdict(builder, t),
                },
                None => self.cost_verdict(builder, t),
            }
        }
    }

    /// Whether making a unit of type `t` takes more supply than the controlled player has
    /// free.
    fn lacks_supply(&self, t: UnitType) -> (r: bool)
        ensures
            r == self.supply_short(t),
    {
        let info = self.unit_types.get(t);
        let from = self.unit_types.get(info.what_builds);
        let need: i64 = info.supply_required as i64 * (if info.is_two_units_in_one_egg { 2i64 } else { 1i64 });
        if need <= 0 {
            return false;
        }
        let pool: usize = match info.kind.race {
            Race::Zerg => 0,
            Race::Terran => 1,
            _ => 2,
        };
        let refund: i64 = if from.kind.race == info.kind.race { from.supply_required as i64 } else { 0 };
        (self.supply_total[pool] as i64) < self.supply_used[pool] as i64 + need - refund
    }

    /// Goes through the required units of `t` as [`Game::scan_required`] does.
    fn check_required_units(&self, t: UnitType) -> (r: Result<UnitType, Error>)
        ensures
            r == self.scan_required(self.unit_types.entry(t).required_units@, UnitType::NoneType),
    {
        let reqs = &self.unit_types.get(t).required_units;
        let mut addon = UnitType::NoneType;
        let mut i: usize = 0;
        assert(reqs@.skip(0) =~= reqs@);
        while i < reqs.len()
            invariant
                i <= reqs@.len(),
                reqs@ == self.unit_types.entry(t).required_units@,
                self.scan_required(reqs@, UnitType::NoneType) == self.scan_required(reqs@.skip(i as int), addon),
            decreases reqs@.len() - i,
        {
            let (u, n) = reqs[i];
            assert(reqs@.skip(i as int)[0] == reqs@[i as int]);
            assert(reqs@.skip(i as int).skip(1) =~= reqs@.skip(i as int + 1));
            if self.unit_types.get(u).kind.is_addon {
                addon = u;
            }
            if !self.has_unit_type_requirement(u, n) {
                return Err(Error::Insufficient_Tech);
            }
            i = i + 1;
        }
        assert(reqs@.skip(i as int).len() == 0);
        Ok(addon)
    }

    /// Whether a carrier or reaver `b` has no room for another interceptor or scarab.
    fn hangar_is_full(&self, b: &Unit) -> (r: bool)
        ensures
            r == self.hangar_full(*b),
    {
        let queued = b.training_queue_len as i32 as i64;
        if b.type_ == UnitType::Protoss_Carrier || b.type_ == UnitType::Hero_Gantrithor {
            let max: i64 = if self.upgrades.get(UpgradeType::Carrier_Capacity).level > 0
                || b.type_ == UnitType::Hero_Gantrithor { 8 } else { 4 };
            b.interceptor_count as i64 + queued >= max
        } else if b.type_ == UnitType::Protoss_Reaver || b.type_ == UnitType::Hero_Warbringer {
            let max: i64 = if self.upgrades.get(UpgradeType::Reaver_Capacity).level > 0
                || b.type_ == UnitType::Hero_Warbringer { 10 } else { 5 };
            b.scarab_count as i64 + queued >= max
        } else {
            false
        }
    }

    /// Whether the controlled player can make a unit of type `type_`, with `builder` if given.
    pub fn can_make(&self, builder: Option<&Unit>, type_: UnitType) -> (r: BwResult<bool>)
        ensures
            r == self.make_spec(builder, type_),
    {
        let info = self.unit_types.get(type_);
        if !info.available {
            return Err(Error::Access_Denied);
        }
        let required_type = info.what_builds;
        if let Some(b) = builder {
            if b.player != self.self_player {
                return Err(Error::Unit_Not_Owned);
            }
            if type_ == UnitType::Zerg_Nydus_Canal && b.type_ == UnitType::Zerg_Nydus_Canal {
                if !b.is_completed {
                    return Err(Error::Unit_Busy);
                }
                if b.has_nydus_exit {
                    return Err(Error::Unknown);
                }
                return Ok(true);
            }
            if required_type == UnitType::Zerg_Larva && b.kind.produces_larva {
                if b.larva.len() == 0 {
                    return Err(Error::Unit_Does_Not_Exist);
                }
            } else if b.type_ != required_type {
                return Err(Error::Incompatible_UnitType);
            }
            if self.hangar_is_full(b) {
                return Err(Error::Insufficient_Space);
            }
        }
        if self.minerals < info.mineral_price {
            return Err(Error::Insufficient_Minerals);
        }
        if self.gas < info.gas_price {
            return Err(Error::Insufficient_Gas);
        }
        if self.lacks_supply(type_) {
            return Err(Error::Insufficient_Supply);
        }
        let addon = match self.check_required_units(type_) {
            Ok(a) => a,
            Err(e) => return Err(e),
        };
        if info.required_tech != TechType::NoneType && !self.has_researched(info.required_tech) {
            return Err(Error::Insufficient_Tech);
        }
        if let Some(b) = builder {
            if addon != UnitType::NoneType && self.unit_types.get(addon).what_builds == required_type {
                let mismatched = match b.addon {
                    None => true,
                    Some(a) => a == addon,
                };
                if mismatched {
                    return Err(Error::Insufficient_Tech);
                }
            }
        }
        Ok(true)
    }
}

/// A test made of each build tile of a site.
#[derive(Clone, Copy, Debug)]
pub enum TileTest {
    /// The tile is buildable, and explored if `check_explored`.
    Buildable { check_explored: bool },
    /// The tile has creep exactly when `needed`.
    Creep { needed: bool },
}

/// Whether the spans `[a0, a1]` and `[b0, b1]` (either end first) share a point.
pub open spec fn spans_meet(a0: int, a1: int, b0: int, b1: int) -> bool {
    let a_lo = if a0 <= a1 { a0 } else { a1 };
    let a_hi = if a0 <= a1 { a1 } else { a0 };
    let b_lo = if b0 <= b1 { b0 } else { b1 };
    let b_hi = if b0 <= b1 { b1 } else { b0 };
    a_lo <= b_hi && a_hi >= b_lo
}

/// Whether the spans `[a0, a1]` and `[b0, b1]` (either end first) share a point.
pub(crate) fn spans_meet_exec(a0: i64, a1: i64, b0: i64, b1: i64) -> (r: bool)
    ensures
        r == spans_meet(a0 as int, a1 as int, b0 as int, b1 as int),
{
    let a_lo = if a0 <= a1 { a0 } else { a1 };
    let a_hi = if a0 <= a1 { a1 } else { a0 };
    let b_lo = if b0 <= b1 { b0 } else { b1 };
    let b_hi = if b0 <= b1 { b1 } else { b0 };
    a_lo <= b_hi && a_hi >= b_lo
}

impl Game {
    /// Whether build tile `(x, y)` lies on the map.
    pub open spec fn tile_on_map(&self, x: int, y: int) -> bool {
        0 <= x < self.map_width && 0 <= y < self.map_height
    }

    /// Whether pixel `(x, y)` lies on the map.
    pub open spec fn pixel_on_map(&self, x: int, y: int) -> bool {
        0 <= x < self.map_width * 32 && 0 <= y < self.map_height * 32
    }

    /// The flag of build tile `(x, y)` in the row by row grid `v`; false off the map or the
    /// grid.
    pub open spec fn tile_flag(&self, v: Seq<bool>, x: int, y: int) -> bool {
        self.tile_on_map(x, y) && y * self.map_width + x < v.len() && v[y * self.map_width + x]
    }

    /// Whether build tile `(x, y)` passes `test`.
    pub open spec fn tile_passes(&self, x: int, y: int, test: TileTest) -> bool {
        match test {
            TileTest::Buildable { check_explored } => self.tile_flag(self.buildable@, x, y)
                && (check_explored ==> self.tile_flag(self.explored@, x, y)),
            TileTest::Creep { needed } => self.tile_flag(self.creep@, x, y) == needed,
        }
    }

    /// Whether every build tile of `[lx, rx) × [ly, ry)` passes `test`.
    pub open spec fn all_tiles_pass(&self, lx: int, ly: int, rx: int, ry: int, test: TileTest) -> bool {
        forall|x: int, y: int| lx <= x < rx && ly <= y < ry ==> #[trigger] self.tile_passes(x, y, test)
    }

    /// Whether unit `u` is a Vespene geyser whose build tile is `(x, y)`.
    pub open spec fn geyser_on(u: Unit, x: int, y: int) -> bool {
        &&& u.type_ == UnitType::Resource_Vespene_Geyser
        &&& u.tile_position_spec().x == x
        &&& u.tile_position_spec().y == y
    }

    /// Whether a Vespene geyser of the game stands on build tile `(x, y)`.
    pub open spec fn geyser_at(&self, x: int, y: int) -> bool {
        exists|i: int| 0 <= i < self.units@.len() && #[trigger] Self::geyser_on(self.units@[i], x, y)
    }

    /// Whether the path lookup that a builder which is no building makes stays within the
    /// game's tables.
    pub open spec fn builder_paths_known(&self, builder: Option<&Unit>) -> bool {
        match builder {
            Some(b) => !b.kind.is_building ==> paths_known(*self) && corners_known(*b),
            None => true,
        }
    }

    /// Whether unit `u` stands in the way of a `t` with upper left build tile `(lx, ly)`: a
    /// ground unit, not loaded, other than the builder, whose box meets the pixels of the
    /// site and reaches into the building's own extent around the site's centre, unless it
    /// is an addon that can move.
    pub open spec fn blocks_site(&self, builder: Option<&Unit>, u: Unit, lx: int, ly: int, t: UnitType) -> bool {
        let k = self.unit_types.entry(t).kind;
        let cx = lx * 32 + k.tile_width * 16;
        let cy = ly * 32 + k.tile_height * 16;
        let left = u.position.x - u.kind.dimension_left;
        let top = u.position.y - u.kind.dimension_up;
        let right = u.position.x + u.kind.dimension_right;
        let bottom = u.position.y + u.kind.dimension_down;
        &&& spans_meet(left, right, lx * 32, (lx + k.tile_width) * 32)
        &&& spans_meet(top, bottom, ly * 32, (ly + k.tile_height) * 32)
        &&& !u.is_flying
        &&& !u.is_loaded
        &&& (builder matches Some(b) ==> b.id != u.id)
        &&& left <= cx + k.dimension_right
        &&& top <= cy + k.dimension_down
        &&& right >= cx - k.dimension_left
        &&& bottom >= cy - k.dimension_up
        &&& !(u.kind.is_addon && u.kind.can_move)
    }

    /// Whether some unit stands in the way of a `t` with upper left build tile `(lx, ly)`.
    pub open spec fn site_blocked(&self, builder: Option<&Unit>, lx: int, ly: int, t: UnitType) -> bool {
        exists|i: int| 0 <= i < self.units@.len() && #[trigger] self.blocks_site(builder, self.units@[i], lx, ly, t)
    }

    /// Whether mineral field `m` (its initial build tile, and whether it still exists) is too
    /// close to a resource depot with upper left build tile `(lx, ly)`; a field whose tile is
    /// visible, or that is gone while the tile right of it is visible, is not counted.
    pub open spec fn mineral_too_close(&self, m: (TilePosition, bool), lx: int, ly: int) -> bool {
        let tp = m.0;
        &&& !(self.tile_flag(self.visible@, tp.x as int, tp.y as int)
            || (self.tile_flag(self.visible@, tp.x + 1, tp.y as int) && !m.1))
        &&& tp.x > lx - 5 && tp.y > ly - 4 && tp.x < lx + 7 && tp.y < ly + 6
    }

    /// Whether the geyser with initial build tile `tp` is too close to a resource depot with
    /// upper left build tile `(lx, ly)`.
    pub open spec fn geyser_too_close(&self, tp: TilePosition, lx: int, ly: int) -> bool {
        tp.x > lx - 7 && tp.y > ly - 5 && tp.x < lx + 7 && tp.y < ly + 6
    }

    /// Whether a starting resource is too close to a resource depot with upper left build
    /// tile `(lx, ly)`.
    pub open spec fn resources_too_close(&self, lx: int, ly: int) -> bool {
        ||| exists|i: int| 0 <= i < self.static_minerals@.len()
            && #[trigger] self.mineral_too_close(self.static_minerals@[i], lx, ly)
        ||| exists|i: int| 0 <= i < self.static_geysers@.len()
            && #[trigger] self.geyser_too_close(self.static_geysers@[i], lx, ly)
    }

    /// What the builder decides of a `t` with upper left build tile `(lx, ly)`: a builder that
    /// is no building needs a path to the site's centre; a building may only place a flying
    /// building's landing, a Nydus canal's exit or a beacon.
    pub open spec fn site_builder_verdict(&self, builder: Option<&Unit>, lx: int, ly: int, t: UnitType) -> Option<BwResult<bool>> {
        let k = self.unit_types.entry(t).kind;
        match builder {
            Some(b) => if !b.kind.is_building {
                if !unit_reaches(*self, *b, Ok(Position {
                    x: (lx * 32 + k.tile_width * 16) as i32,
                    y: (ly * 32 + k.tile_height * 16) as i32,
                })) {
                    Some(Err(Error::Unreachable_Location))
                } else {
                    None
                }
            } else if !b.kind.is_flying_building && t != UnitType::Zerg_Nydus_Canal && !k.is_flag_beacon {
                Some(Ok(false))
            } else {
                None
            },
            None => None,
        }
    }

    /// Whether a `t` fits with upper left build tile `(lx, ly)`, by `builder` if given: the
    /// site lies on the map; a refinery needs a geyser there; every tile is buildable (and
    /// explored if `check_explored`); the builder agrees; and, but for a start location, no
    /// unit is in the way, creep lies exactly where the type needs it (for Zerg types, only
    /// where it needs creep), and a resource depot keeps its distance from the starting
    /// resources.
    pub open spec fn site_spec(&self, builder: Option<&Unit>, lx: int, ly: int, t: UnitType, check_explored: bool) -> BwResult<bool> {
        let k = self.unit_types.entry(t).kind;
        let rx = lx + k.tile_width;
        let ry = ly + k.tile_height;
        if !self.tile_on_map(lx, ly) || !self.pixel_on_map(rx * 32 - 1, ry * 32 - 1) {
            Err(Error::Unbuildable_Location)
        } else if k.is_refinery {
            Ok(self.geyser_at(lx, ly))
        } else if !self.all_tiles_pass(lx, ly, rx, ry, TileTest::Buildable { check_explored }) {
            Ok(false)
        } else {
            match self.site_builder_verdict(builder, lx, ly, t) {
                Some(r) => r,
                None => if t == UnitType::Special_Start_Location {
                    Ok(true)
                } else if self.site_blocked(builder, lx, ly, t) {
                    Ok(false)
                } else if (k.race != Race::Zerg || k.requires_creep)
                    && !self.all_tiles_pass(lx, ly, rx, ry, TileTest::Creep { needed: k.requires_creep }) {
                    Ok(false)
                } else if k.is_resource_depot && self.resources_too_close(lx, ly) {
                    Ok(false)
                } else {
                    Ok(true)
                },
            }
        }
    }

    /// The upper left build tile of a `t` asked for at `(x, y)`: an addon placed by a builder
    /// sits four tiles right and one down.
    pub open spec fn site_origin(&self, builder: Option<&Unit>, x: int, y: int, t: UnitType) -> (int, int) {
        if builder is Some && self.unit_types.entry(t).kind.is_addon {
            (x + 4, y + 1)
        } else {
            (x, y)
        }
    }

    /// Whether a building of type `t` can be placed at `pos`, by `builder` if given: its site
    /// must fit, and when an addon builder places an addon, the builder's own site must fit too.
    pub open spec fn build_here_spec(&self, builder: Option<&Unit>, pos: TilePosition, t: UnitType, check_explored: bool) -> BwResult<bool> {
        let (lx, ly) = self.site_origin(builder, pos.x as int, pos.y as int, t);
        match self.site_spec(builder, lx, ly, t, check_explored) {
            Ok(true) => match builder {
                Some(b) => if b.kind.is_addon && self.unit_types.entry(t).kind.is_addon {
                    let (ix, iy) = self.site_origin(builder, lx - 4, ly - 1, b.type_);
                    self.site_spec(builder, ix, iy, b.type_, check_explored)
                } else {
                    Ok(true)
                },
                None => Ok(true),
            },
            other => other,
        }
    }

    /// Whether the placement check of a `t` at `pos` never returns: an addon builder placing
    /// an addon checks its own type's site in turn, and checks it again and again once that
    /// site fits and its type is an addon as well.
    pub open spec fn build_here_loops(&self, builder: Option<&Unit>, pos: TilePosition, t: UnitType, check_explored: bool) -> bool {
        let (lx, ly) = self.site_origin(builder, pos.x as int, pos.y as int, t);
        &&& builder matches Some(b)
        &&& b.kind.is_addon
        &&& self.unit_types.entry(t).kind.is_addon
        &&& self.site_spec(builder, lx, ly, t, check_explored) == Ok::<bool, Error>(true)
        &&& self.unit_types.entry(b.type_).kind.is_addon
        &&& self.site_spec(builder, lx, ly, b.type_, check_explored) == Ok::<bool, Error>(true)
    }

    /// The flag of build tile `(x, y)` in the row by row grid `v`.
    fn tile_at(&self, v: &Vec<bool>, x: i64, y: i64) -> (r: bool)
        ensures
            r == self.tile_flag(v@, x as int, y as int),
    {
        let w = self.map_width as i64;
        if !(0 <= x && x < w && 0 <= y && y < self.map_height as i64) {
            return false;
        }
        assert(0 <= y * w <= i32::MAX as int * i32::MAX as int) by (nonlinear_arith)
            requires
                0 <= y <= i32::MAX,
                0 < w <= i32::MAX,
        ;
        let idx: i64 = y * w + x;
        if (idx as u64) < (v.len() as u64) {
            v[idx as usize]
        } else {
            false
        }
    }

    /// Whether build tile `(x, y)` passes `test`.
    fn tile_test(&self, x: i64, y: i64, test: TileTest) -> (r: bool)
        requires
            0 <= x <= i32::MAX,
            0 <= y <= i32::MAX,
        ensures
            r == self.tile_passes(x as int, y as int, test),
    {
        match test {
            TileTest::Buildable { check_explored } => self.tile_at(&self.buildable, x, y)
                && (!check_explored || self.tile_at(&self.explored, x, y)),
            TileTest::Creep { needed } => self.tile_at(&self.creep, x, y) == needed,
        }
    }

    /// Whether every build tile of `[lx, rx) × [ly, ry)` passes `test`.
    fn tiles_pass(&self, lx: i64, ly: i64, rx: i64, ry: i64, test: TileTest) -> (r: bool)
        requires
            0 <= lx,
            0 <= ly,
            rx <= i32::MAX,
            ry <= i32::MAX,
        ensures
            r == self.all_tiles_pass(lx as int, ly as int, rx as int, ry as int, test),
    {
        let mut x = lx;
        while x < rx
            invariant
                0 <= lx <= x,
                x == lx || x <= rx,
                0 <= ly,
                rx <= i32::MAX,
                ry <= i32::MAX,
                forall|a: int, b: int| lx <= a < x && ly <= b < ry ==> #[trigger] self.tile_passes(a, b, test),
            decreases rx - x,
        {
            let mut y = ly;
            while y < ry
                invariant
                    0 <= lx <= x < rx,
                    0 <= ly <= y,
                    y == ly || y <= ry,
                    rx <= i32::MAX,
                    ry <= i32::MAX,
                    forall|a: int, b: int| lx <= a < x && ly <= b < ry ==> #[trigger] self.tile_passes(a, b, test),
                    forall|b: int| ly <= b < y ==> #[trigger] self.tile_passes(x as int, b, test),
                decreases ry - y,
            {
                if !self.tile_test(x, y, test) {
                    assert(!self.tile_passes(x as int, y as int, test));
                    return false;
                }
                y = y + 1;
            }
            x = x + 1;
        }
        true
    }

    /// Whether a Vespene geyser of the game stands on build tile `(x, y)`.
    fn geyser_listed(&self, x: i64, y: i64) -> (r: bool)
        ensures
            r == self.geyser_at(x as int, y as int),
    {
        let mut i: usize = 0;
        while i < self.units.len()
            invariant
                i <= self.units@.len(),
                forall|j: int| 0 <= j < i ==> !#[trigger] Self::geyser_on(self.units@[j], x as int, y as int),
            decreases self.units@.len() - i,
        {
            let u = &self.units[i];
            if u.type_ == UnitType::Resource_Vespene_Geyser {
                let t = u.get_tile_position();
                if t.x as i64 == x && t.y as i64 == y {
                    assert(Self::geyser_on(self.units@[i as int], x as int, y as int));
                    return true;
                }
            }
            i = i + 1;
        }
        false
    }

    /// Whether unit `u` stands in the way of a `t` with upper left build tile `(lx, ly)`.
    fn unit_blocks(&self, builder: Option<&Unit>, u: &Unit, lx: i64, ly: i64, t: UnitType) -> (r: bool)
        requires
            0 <= lx <= i32::MAX,
            0 <= ly <= i32::MAX,
        ensures
            r == self.blocks_site(builder, *u, lx as int, ly as int, t),
    {
        let k = self.unit_types.get(t).kind;
        let cx = lx * 32 + k.tile_width as i64 * 16;
        let cy = ly * 32 + k.tile_height as i64 * 16;
        let left = u.position.x as i64 - u.kind.dimension_left as i64;
        let top = u.position.y as i64 - u.kind.dimension_up as i64;
        let right = u.position.x as i64 + u.kind.dimension_right as i64;
        let bottom = u.position.y as i64 + u.kind.dimension_down as i64;
        let other = match builder {
            Some(b) => b.id != u.id,
            None => true,
        };
        spans_meet_exec(left, right, lx * 32, (lx + k.tile_width as i64) * 32)
            && spans_meet_exec(top, bottom, ly * 32, (ly + k.tile_height as i64) * 32)
            && !u.is_flying
            && !u.is_loaded
            && other
            && left <= cx + k.dimension_right as i64
            && top <= cy + k.dimension_down as i64
            && right >= cx - k.dimension_left as i64
            && bottom >= cy - k.dimension_up as i64
            && !(u.kind.is_addon && u.kind.can_move)
    }

    /// Whether some unit stands in the way of a `t` with upper left build tile `(lx, ly)`.
    fn has_blocker(&self, builder: Option<&Unit>, lx: i64, ly: i64, t: UnitType) -> (r: bool)
        requires
            0 <= lx <= i32::MAX,
            0 <= ly <= i32::MAX,
        ensures
            r == self.site_blocked(builder, lx as int, ly as int, t),
    {
        let mut i: usize = 0;
        while i < self.units.len()
            invariant
                0 <= lx <= i32::MAX,
                0 <= ly <= i32::MAX,
                i <= self.units@.len(),
                forall|j: int| 0 <= j < i ==> !#[trigger] self.blocks_site(builder, self.units@[j], lx as int, ly as int, t),
            decreases self.units@.len() - i,
        {
            if self.unit_blocks(builder, &self.units[i], lx, ly, t) {
                return true;
            }
            i = i + 1;
        }
        false
    }

    /// Whether a starting resource is too close to a resource depot with upper left build
    /// tile `(lx, ly)`.
    fn resources_near(&self, lx: i64, ly: i64) -> (r: bool)
        requires
            0 <= lx <= i32::MAX,
            0 <= ly <= i32::MAX,
        ensures
            r == self.resources_too_close(lx as int, ly as int),
    {
        let mut i: usize = 0;
        while i < self.static_minerals.len()
            invariant
                0 <= lx <= i32::MAX,
                0 <= ly <= i32::MAX,
                i <= self.static_minerals@.len(),
                forall|j: int| 0 <= j < i ==> !#[trigger] self.mineral_too_close(self.static_minerals@[j], lx as int, ly as int),
            decreases self.static_minerals@.len() - i,
        {
            let (tp, exists) = self.static_minerals[i];
            let hidden = self.tile_at(&self.visible, tp.x as i64, tp.y as i64)
                || (self.tile_at(&self.visible, tp.x as i64 + 1, tp.y as i64) && !exists);
            let (mx, my) = (tp.x as i64, tp.y as i64);
            if !hidden && mx > lx - 5 && my > ly - 4 && mx < lx + 7 && my < ly + 6 {
                assert(self.mineral_too_close(self.static_minerals@[i as int], lx as int, ly as int));
                return true;
            }
            i = i + 1;
        }
        let mut i: usize = 0;
        while i < self.static_geysers.len()
            invariant
                0 <= lx <= i32::MAX,
                0 <= ly <= i32::MAX,
                i <= self.static_geysers@.len(),
                !(exists|j: int| 0 <= j < self.static_minerals@.len()
                    && #[trigger] self.mineral_too_close(self.static_minerals@[j], lx as int, ly as int)),
                forall|j: int| 0 <= j < i ==> !#[trigger] self.geyser_too_close(self.static_geysers@[j], lx as int, ly as int),
            decreases self.static_geysers@.len() - i,
        {
            let tp = self.static_geysers[i];
            let (gx, gy) = (tp.x as i64, tp.y as i64);
            if gx > lx - 7 && gy > ly - 5 && gx < lx + 7 && gy < ly + 6 {
                assert(self.geyser_too_close(self.static_geysers@[i as int], lx as int, ly as int));
                return true;
            }
            i = i + 1;
        }
        false
    }

    /// Whether a `t` fits with upper left build tile `(lx, ly)`, by `builder` if given.
    fn site_check(&self, builder: Option<&Unit>, lx: i64, ly: i64, t: UnitType, check_explored: bool) -> (r: BwResult<bool>)
        requires
            self.builder_paths_known(builder),
            -0x1_0000_0000 <= lx <= 0x1_0000_0000,
            -0x1_0000_0000 <= ly <= 0x1_0000_0000,
        ensures
            r == self.site_spec(builder, lx as int, ly as int, t, check_explored),
    {
        let k = self.unit_types.get(t).kind;
        let rx = lx + k.tile_width as i64;
        let ry = ly + k.tile_height as i64;
        let w = self.map_width as i64;
        let h = self.map_height as i64;
        if !(0 <= lx && lx < w && 0 <= ly && ly < h)
            || !(0 <= rx * 32 - 1 && rx * 32 - 1 < w * 32 && 0 <= ry * 32 - 1 && ry * 32 - 1 < h * 32) {
            return Err(Error::Unbuildable_Location);
        }
        if k.is_refinery {
            return Ok(self.geyser_listed(lx, ly));
        }
        if !self.tiles_pass(lx, ly, rx, ry, TileTest::Buildable { check_explored }) {
            return Ok(false);
        }
        if let Some(b) = builder {
            if !b.kind.is_building {
                let site_centre = Position {
                    x: (lx * 32 + k.tile_width as i64 * 16) as i32,
                    y: (ly * 32 + k.tile_height as i64 * 16) as i32,
                };
                if !b.has_path(self, site_centre) {
                    return Err(Error::Unreachable_Location);
                }
            } else if !b.kind.is_flying_building && t != UnitType::Zerg_Nydus_Canal && !k.is_flag_beacon {
                return Ok(false);
            }
        }
        if t != UnitType::Special_Start_Location {
            if self.has_blocker(builder, lx, ly, t) {
                return Ok(false);
            }
            if (k.race != Race::Zerg || k.requires_creep)
                && !self.tiles_pass(lx, ly, rx, ry, TileTest::Creep { needed: k.requires_creep }) {
                return Ok(false);
            }
            if k.is_resource_depot && self.resources_near(lx, ly) {
                return Ok(false);
            }
        }
        Ok(true)
    }

    /// Whether a building of type `type_` can be placed at `position`, by `builder` if given.
    pub fn can_build_here(&self, builder: Option<&Unit>, position: TilePosition, type_: UnitType, check_explored: bool) -> (r: BwResult<bool>)
        requires
            !self.build_here_loops(builder, position, type_, check_explored),
            self.builder_paths_known(builder),
        ensures
            r == self.build_here_spec(builder, position, type_, check_explored),
    {
        let is_addon = self.unit_types.get(type_).kind.is_addon;
        let (lx, ly) = if builder.is_some() && is_addon {
            (position.x as i64 + 4, position.y as i64 + 1)
        } else {
            (position.x as i64, position.y as i64)
        };
        match self.site_check(builder, lx, ly, type_, check_explored) {
            Ok(true) => {},
            other => return other,
        }
        if let Some(b) = builder {
            if b.kind.is_addon && is_addon {
                let (ix, iy) = if self.unit_types.get(b.type_).kind.is_addon { (lx, ly) } else { (lx - 4, ly - 1) };
                return self.site_check(builder, ix, iy, b.type_, check_explored);
            }
        }
        Ok(true)
    }
}

impl Game {
    /// The supply the controlled player has for units of race `race`.
    pub fn supply_total_for(&self, race: Race) -> (r: i32)
        requires
            has_supply_pool(race),
        ensures
            r == self.supply_total@[race_id(race)],
    {
        self.supply_total[race_pool(race)]
    }

    /// The supply the controlled player's units of race `race` use.
    pub fn supply_used_by(&self, race: Race) -> (r: i32)
        requires
            has_supply_pool(race),
        ensures
            r == self.supply_used@[race_id(race)],
    {
        self.supply_used[race_pool(race)]
    }

    /// How many finished units of type `t` the controlled player has.
    pub fn completed_unit_count(&self, t: UnitType) -> (r: i32)
        ensures
            r == self.completed_of(t),
    {
        self.unit_types.get(t).completed_count
    }

    /// How many units of type `t` the controlled player has, finished or not.
    pub fn all_unit_count(&self, t: UnitType) -> (r: i32)
        ensures
            r == self.all_of(t),
    {
        self.unit_types.get(t).all_count
    }

    /// How many units of type `t` the controlled player has that are not finished.
    pub fn incomplete_unit_count(&self, t: UnitType) -> (r: i32)
        requires
            i32::MIN <= self.all_of(t) - self.completed_of(t) <= i32::MAX,
        ensures
            r == self.all_of(t) - self.completed_of(t),
    {
        let info = self.unit_types.get(t);
        info.all_count - info.completed_count
    }

    /// Whether the controlled player may make units of type `t`.
    pub fn is_unit_available(&self, t: UnitType) -> (r: bool)
        ensures
            r == self.unit_types.entry(t).available,
    {
        self.unit_types.get(t).available
    }

    /// The level the controlled player has reached in upgrade `t`.
    pub fn get_upgrade_level(&self, t: UpgradeType) -> (r: i32)
        ensures
            r == self.upgrades.entry(t).level,
    {
        self.upgrades.get(t).level
    }

    /// The highest level the controlled player may reach in upgrade `t`.
    pub fn get_max_upgrade_level(&self, t: UpgradeType) -> (r: i32)
        ensures
            r == self.upgrades.entry(t).max_level,
    {
        self.upgrades.get(t).max_level
    }

    /// Whether the controlled player is researching the next level of upgrade `t`.
    pub fn is_upgrading(&self, t: UpgradeType) -> (r: bool)
        ensures
            r == self.upgrades.entry(t).upgrading,
    {
        self.upgrades.get(t).upgrading
    }

    /// Whether build tile `tp` is buildable.
    pub fn is_buildable(&self, tp: TilePosition) -> (r: bool)
        requires
            0 <= tp.x < 256,
            0 <= tp.y < 256,
        ensures
            r == self.tile_flag(self.buildable@, tp.x as int, tp.y as int),
    {
        self.tile_at(&self.buildable, tp.x as i64, tp.y as i64)
    }

    /// Whether build tile `tp` has been explored.
    pub fn is_explored(&self, tp: TilePosition) -> (r: bool)
        requires
            0 <= tp.x < 256,
            0 <= tp.y < 256,
        ensures
            r == self.tile_flag(self.explored@, tp.x as int, tp.y as int),
    {
        self.tile_at(&self.explored, tp.x as i64, tp.y as i64)
    }

    /// Whether build tile `tp` is visible.
    pub fn is_visible(&self, tp: TilePosition) -> (r: bool)
        requires
            0 <= tp.x < 256,
            0 <= tp.y < 256,
        ensures
            r == self.tile_flag(self.visible@, tp.x as int, tp.y as int),
    {
        self.tile_at(&self.visible, tp.x as i64, tp.y as i64)
    }

    /// Whether build tile `tp` has creep.
    pub fn has_creep(&self, tp: TilePosition) -> (r: bool)
        requires
            0 <= tp.x < 256,
            0 <= tp.y < 256,
        ensures
            r == self.tile_flag(self.creep@, tp.x as int, tp.y as int),
    {
        self.tile_at(&self.creep, tp.x as i64, tp.y as i64)
    }
}

/// The index of the supply pool of a race that has one.
fn race_pool(race: Race) -> (r: usize)
    requires
        has_supply_pool(race),
    ensures
        r == race_id(race),
{
    match race {
        Race::Zerg => 0,
        Race::Terran => 1,
        _ => 2,
    }
}

/// Whether `t` is a unit type whose energy an upgrade raises by 50, with that upgrade.
pub open spec fn energy_upgrade_of(t: UnitType, u: UpgradeType) -> bool {
    ||| t == UnitType::Protoss_Arbiter && u == UpgradeType::Khaydarin_Core
    ||| t == UnitType::Protoss_Corsair && u == UpgradeType::Argus_Jewel
    ||| t == UnitType::Protoss_Dark_Archon && u == UpgradeType::Argus_Talisman
    ||| t == UnitType::Protoss_High_Templar && u == UpgradeType::Khaydarin_Amulet
    ||| t == UnitType::Terran_Ghost && u == UpgradeType::Moebius_Reactor
    ||| t == UnitType::Terran_Battlecruiser && u == UpgradeType::Colossus_Reactor
    ||| t == UnitType::Terran_Science_Vessel && u == UpgradeType::Titan_Reactor
    ||| t == UnitType::Terran_Wraith && u == UpgradeType::Apollo_Reactor
    ||| t == UnitType::Terran_Medic && u == UpgradeType::Caduceus_Reactor
    ||| t == UnitType::Zerg_Defiler && u == UpgradeType::Metasynaptic_Node
    ||| t == UnitType::Zerg_Queen && u == UpgradeType::Gamete_Meiosis
}

/// Whether `t` is a unit type whose sight an upgrade raises to 11 tiles, with that upgrade.
pub open spec fn sight_upgrade_of(t: UnitType, u: UpgradeType) -> bool {
    ||| t == UnitType::Terran_Ghost && u == UpgradeType::Ocular_Implants
    ||| t == UnitType::Zerg_Overlord && u == UpgradeType::Antennae
    ||| t == UnitType::Protoss_Observer && u == UpgradeType::Sensor_Array
    ||| t == UnitType::Protoss_Scout && u == UpgradeType::Apial_Sensors
}

impl Game {
    /// Whether the controlled player has some level of upgrade `u`.
    pub open spec fn upgraded(&self, u: UpgradeType) -> bool {
        self.upgrades.entry(u).level > 0
    }

    /// The armor of the controlled player's units of type `t`: the type's armor, one more for
    /// each level of its armor upgrade, and two more for an Ultralisk with Chitinous Plating
    /// or for Torrasque.
    pub open spec fn armor_spec(&self, t: UnitType) -> int {
        let info = self.unit_types.entry(t);
        info.armor + self.upgrades.entry(info.armor_upgrade).level
            + if (t == UnitType::Zerg_Ultralisk && self.upgraded(UpgradeType::Chitinous_Plating))
                || t == UnitType::Hero_Torrasque { 2int } else { 0int }
    }

    /// The armor of the controlled player's units of type `unit`.
    pub fn armor(&self, unit: UnitType) -> (r: i32)
        requires
            fits_i32(self.armor_spec(unit)),
            fits_i32(self.unit_types.entry(unit).armor + self.upgrades.entry(self.unit_types.entry(unit).armor_upgrade).level),
        ensures
            r == self.armor_spec(unit),
    {
        let info = self.unit_types.get(unit);
        let mut armor = info.armor + self.upgrades.get(info.armor_upgrade).level;
        if (unit == UnitType::Zerg_Ultralisk && self.upgrades.get(UpgradeType::Chitinous_Plating).level > 0)
            || unit == UnitType::Hero_Torrasque {
            armor = armor + 2;
        }
        armor
    }

    /// The greatest energy of the controlled player's units of type `t`: the type's, 50 more
    /// with the upgrade that raises it.
    pub open spec fn max_energy_spec(&self, t: UnitType) -> int {
        let base = self.unit_types.entry(t).max_energy as int;
        if exists|u: UpgradeType| energy_upgrade_of(t, u) && self.upgraded(u) { base + 50 } else { base }
    }

    /// The greatest energy of the controlled player's units of type `unit`.
    pub fn max_energy(&self, unit: UnitType) -> (r: i32)
        requires
            fits_i32(self.unit_types.entry(unit).max_energy + 50),
        ensures
            r == self.max_energy_spec(unit),
    {
        let lvl = |u: UpgradeType| -> (r: bool)
            ensures
                r == self.upgraded(u),
        {
            self.upgrades.get(u).level > 0
        };
        let raised = (unit == UnitType::Protoss_Arbiter && lvl(UpgradeType::Khaydarin_Core))
            || (unit == UnitType::Protoss_Corsair && lvl(UpgradeType::Argus_Jewel))
            || (unit == UnitType::Protoss_Dark_Archon && lvl(UpgradeType::Argus_Talisman))
            || (unit == UnitType::Protoss_High_Templar && lvl(UpgradeType::Khaydarin_Amulet))
            || (unit == UnitType::Terran_Ghost && lvl(UpgradeType::Moebius_Reactor))
            || (unit == UnitType::Terran_Battlecruiser && lvl(UpgradeType::Colossus_Reactor))
            || (unit == UnitType::Terran_Science_Vessel && lvl(UpgradeType::Titan_Reactor))
            || (unit == UnitType::Terran_Wraith && lvl(UpgradeType::Apollo_Reactor))
            || (unit == UnitType::Terran_Medic && lvl(UpgradeType::Caduceus_Reactor))
            || (unit == UnitType::Zerg_Defiler && lvl(UpgradeType::Metasynaptic_Node))
            || (unit == UnitType::Zerg_Queen && lvl(UpgradeType::Gamete_Meiosis));
        let energy = self.unit_types.get(unit).max_energy;
        if raised {
            energy + 50
        } else {
            energy
        }
    }

    /// The sight range of the controlled player's units of type `t`: the type's, or 11 tiles
    /// with the upgrade that raises it.
    pub open spec fn sight_range_spec(&self, t: UnitType) -> int {
        if exists|u: UpgradeType| sight_upgrade_of(t, u) && self.upgraded(u) {
            352int
        } else {
            self.unit_types.entry(t).sight_range as int
        }
    }

    /// The sight range of the controlled player's units of type `unit`.
    pub fn sight_range(&self, unit: UnitType) -> (r: i32)
        ensures
            r == self.sight_range_spec(unit),
    {
        let lvl = |u: UpgradeType| -> (r: bool)
            ensures
                r == self.upgraded(u),
        {
            self.upgrades.get(u).level > 0
        };
        let raised = (unit == UnitType::Terran_Ghost && lvl(UpgradeType::Ocular_Implants))
            || (unit == UnitType::Zerg_Overlord && lvl(UpgradeType::Antennae))
            || (unit == UnitType::Protoss_Observer && lvl(UpgradeType::Sensor_Array))
            || (unit == UnitType::Protoss_Scout && lvl(UpgradeType::Apial_Sensors));
        proof {
            if raised {
                if unit == UnitType::Terran_Ghost {
                    assert(sight_upgrade_of(unit, UpgradeType::Ocular_Implants));
                } else if unit == UnitType::Zerg_Overlord {
                    assert(sight_upgrade_of(unit, UpgradeType::Antennae));
                } else if unit == UnitType::Protoss_Observer {
                    assert(sight_upgrade_of(unit, UpgradeType::Sensor_Array));
                } else {
                    assert(sight_upgrade_of(unit, UpgradeType::Apial_Sensors));
                }
            }
        }
        if raised {
            11 * 32
        } else {
            self.unit_types.get(unit).sight_range
        }
    }

    /// The ground weapon cooldown of the controlled player's units of type `t`: the type's,
    /// halved (toward zero) and kept between 5 and 250 for Zerglings with Adrenal Glands.
    pub open spec fn weapon_cooldown_spec(&self, t: UnitType) -> int {
        let base = self.unit_types.entry(t).ground_weapon_cooldown as int;
        if t == UnitType::Zerg_Zergling && self.upgraded(UpgradeType::Adrenal_Glands) {
            let half = trunc_div(base, 2);
            if half < 5 { 5 } else if half > 250 { 250 } else { half }
        } else {
            base
        }
    }

    /// The ground weapon cooldown of the controlled player's units of type `unit`.
    pub fn weapon_damage_cooldown(&self, unit: UnitType) -> (r: i32)
        ensures
            r == self.weapon_cooldown_spec(unit),
    {
        let mut cooldown = self.unit_types.get(unit).ground_weapon_cooldown;
        if unit == UnitType::Zerg_Zergling && self.upgrades.get(UpgradeType::Adrenal_Glands).level > 0 {
            cooldown = cooldown / 2;
            if cooldown < 5 {
                cooldown = 5;
            }
            if cooldown > 250 {
                cooldown = 250;
            }
        }
        cooldown
    }
}

/// A unit type the player can make is available to it and paid for: minerals, gas and supply
/// suffice and every required unit is present. The one exception is a Nydus canal's exit,
/// which its canal makes for free.
pub proof fn law_made_units_are_paid_for(game: &Game, builder: Option<&Unit>, t: UnitType)
    requires
        game.make_spec(builder, t) == Ok::<bool, Error>(true),
        !(builder matches Some(b) && b.type_ == UnitType::Zerg_Nydus_Canal && t == UnitType::Zerg_Nydus_Canal),
    ensures
        game.unit_types.entry(t).available,
        game.minerals >= game.unit_types.entry(t).mineral_price,
        game.gas >= game.unit_types.entry(t).gas_price,
        !game.supply_short(t),
        game.scan_required(game.unit_types.entry(t).required_units@, UnitType::NoneType) is Ok,
{
}

/// A site that fits when explored tiles are required also fits when they are not: the check
/// of explored tiles only ever refuses.
pub proof fn law_explored_check_only_narrows(game: &Game, builder: Option<&Unit>, pos: TilePosition, t: UnitType)
    requires
        game.build_here_spec(builder, pos, t, true) == Ok::<bool, Error>(true),
    ensures
        game.build_here_spec(builder, pos, t, false) == Ok::<bool, Error>(true),
{
    let (lx, ly) = game.site_origin(builder, pos.x as int, pos.y as int, t);
    lemma_site_without_explored(game, builder, lx, ly, t);
    if let Some(b) = builder {
        if b.kind.is_addon && game.unit_types.entry(t).kind.is_addon {
            let (ix, iy) = game.site_origin(builder, lx - 4, ly - 1, b.type_);
            lemma_site_without_explored(game, builder, ix, iy, b.type_);
        }
    }
}

/// A site that fits with explored tiles required fits without.
proof fn lemma_site_without_explored(game: &Game, builder: Option<&Unit>, lx: int, ly: int, t: UnitType)
    ensures
        game.site_spec(builder, lx, ly, t, true) == Ok::<bool, Error>(true)
            ==> game.site_spec(builder, lx, ly, t, false) == Ok::<bool, Error>(true),
{
    let k = game.unit_types.entry(t).kind;
    let rx = lx + k.tile_width;
    let ry = ly + k.tile_height;
    if game.all_tiles_pass(lx, ly, rx, ry, TileTest::Buildable { check_explored: true }) {
        assert forall|x: int, y: int| lx <= x < rx && ly <= y < ry implies
            #[trigger] game.tile_passes(x, y, TileTest::Buildable { check_explored: false }) by {
            assert(game.tile_passes(x, y, TileTest::Buildable { check_explored: true }));
        }
    }
}

/// A building placed anywhere stands on the map: the upper left tile of its site lies on it.
pub proof fn law_sites_lie_on_the_map(game: &Game, builder: Option<&Unit>, pos: TilePosition, t: UnitType,
    check_explored: bool)
    requires
        game.build_here_spec(builder, pos, t, check_explored) == Ok::<bool, Error>(true),
    ensures
        ({
            let (lx, ly) = game.site_origin(builder, pos.x as int, pos.y as int, t);
            game.tile_on_map(lx, ly)
        }),
{
}


/// Each of the eleven energy upgrades raises the greatest energy of its unit type by 50 once
/// the player has it: Khaydarin Core the Arbiter's, Argus Jewel the Corsair's, Argus Talisman
/// the Dark Archon's, Khaydarin Amulet the High Templar's, Moebius Reactor the Ghost's,
/// Colossus Reactor the Battlecruiser's, Titan Reactor the Science Vessel's, Apollo Reactor
/// the Wraith's, Caduceus Reactor the Medic's, Metasynaptic Node the Defiler's and Gamete
/// Meiosis the Queen's; no other type's energy changes, and none by anything but 50.
pub proof fn law_energy_upgrades(game: &Game, t: UnitType)
    ensures
        game.upgrades.entry(UpgradeType::Khaydarin_Core).level > 0 ==> game.max_energy_spec(UnitType::Protoss_Arbiter)
            == game.unit_types.entry(UnitType::Protoss_Arbiter).max_energy + 50,
        game.upgrades.entry(UpgradeType::Argus_Jewel).level > 0 ==> game.max_energy_spec(UnitType::Protoss_Corsair)
            == game.unit_types.entry(UnitType::Protoss_Corsair).max_energy + 50,
        game.upgrades.entry(UpgradeType::Argus_Talisman).level > 0 ==> game.max_energy_spec(UnitType::Protoss_Dark_Archon)
            == game.unit_types.entry(UnitType::Protoss_Dark_Archon).max_energy + 50,
        game.upgrades.entry(UpgradeType::Khaydarin_Amulet).level > 0 ==> game.max_energy_spec(UnitType::Protoss_High_Templar)
            == game.unit_types.entry(UnitType::Protoss_High_Templar).max_energy + 50,
        game.upgrades.entry(UpgradeType::Moebius_Reactor).level > 0 ==> game.max_energy_spec(UnitType::Terran_Ghost)
            == game.unit_types.entry(UnitType::Terran_Ghost).max_energy + 50,
        game.upgrades.entry(UpgradeType::Colossus_Reactor).level > 0 ==> game.max_energy_spec(UnitType::Terran_Battlecruiser)
            == game.unit_types.entry(UnitType::Terran_Battlecruiser).max_energy + 50,
        game.upgrades.entry(UpgradeType::Titan_Reactor).level > 0 ==> game.max_energy_spec(UnitType::Terran_Science_Vessel)
            == game.unit_types.entry(UnitType::Terran_Science_Vessel).max_energy + 50,
        game.upgrades.entry(UpgradeType::Apollo_Reactor).level > 0 ==> game.max_energy_spec(UnitType::Terran_Wraith)
            == game.unit_types.entry(UnitType::Terran_Wraith).max_energy + 50,
        game.upgrades.entry(UpgradeType::Caduceus_Reactor).level > 0 ==> game.max_energy_spec(UnitType::Terran_Medic)
            == game.unit_types.entry(UnitType::Terran_Medic).max_energy + 50,
        game.upgrades.entry(UpgradeType::Metasynaptic_Node).level > 0 ==> game.max_energy_spec(UnitType::Zerg_Defiler)
            == game.unit_types.entry(UnitType::Zerg_Defiler).max_energy + 50,
        game.upgrades.entry(UpgradeType::Gamete_Meiosis).level > 0 ==> game.max_energy_spec(UnitType::Zerg_Queen)
            == game.unit_types.entry(UnitType::Zerg_Queen).max_energy + 50,
        t != UnitType::Protoss_Arbiter && t != UnitType::Protoss_Corsair && t != UnitType::Protoss_Dark_Archon && t != UnitType::Protoss_High_Templar && t != UnitType::Terran_Ghost && t != UnitType::Terran_Battlecruiser && t != UnitType::Terran_Science_Vessel && t != UnitType::Terran_Wraith && t != UnitType::Terran_Medic && t != UnitType::Zerg_Defiler && t != UnitType::Zerg_Queen
            ==> game.max_energy_spec(t) == game.unit_types.entry(t).max_energy,
        game.max_energy_spec(t) == game.unit_types.entry(t).max_energy
            || game.max_energy_spec(t) == game.unit_types.entry(t).max_energy + 50,
{
    assert(energy_upgrade_of(UnitType::Protoss_Arbiter, UpgradeType::Khaydarin_Core));
    assert(energy_upgrade_of(UnitType::Protoss_Corsair, UpgradeType::Argus_Jewel));
    assert(energy_upgrade_of(UnitType::Protoss_Dark_Archon, UpgradeType::Argus_Talisman));
    assert(energy_upgrade_of(UnitType::Protoss_High_Templar, UpgradeType::Khaydarin_Amulet));
    assert(energy_upgrade_of(UnitType::Terran_Ghost, UpgradeType::Moebius_Reactor));
    assert(energy_upgrade_of(UnitType::Terran_Battlecruiser, UpgradeType::Colossus_Reactor));
    assert(energy_upgrade_of(UnitType::Terran_Science_Vessel, UpgradeType::Titan_Reactor));
    assert(energy_upgrade_of(UnitType::Terran_Wraith, UpgradeType::Apollo_Reactor));
    assert(energy_upgrade_of(UnitType::Terran_Medic, UpgradeType::Caduceus_Reactor));
    assert(energy_upgrade_of(UnitType::Zerg_Defiler, UpgradeType::Metasynaptic_Node));
    assert(energy_upgrade_of(UnitType::Zerg_Queen, UpgradeType::Gamete_Meiosis));
}

/// Each of the four sight upgrades gives its unit type a sight of 11 tiles once the player
/// has it: Ocular Implants the Ghost, Antennae the Overlord, Sensor Array the Observer and
/// Apial Sensors the Scout; no other type's sight changes.
pub proof fn law_sight_upgrades(game: &Game, t: UnitType)
    ensures
        game.upgrades.entry(UpgradeType::Ocular_Implants).level > 0 ==> game.sight_range_spec(UnitType::Terran_Ghost) == 11 * 32,
        game.upgrades.entry(UpgradeType::Antennae).level > 0 ==> game.sight_range_spec(UnitType::Zerg_Overlord) == 11 * 32,
        game.upgrades.entry(UpgradeType::Sensor_Array).level > 0 ==> game.sight_range_spec(UnitType::Protoss_Observer) == 11 * 32,
        game.upgrades.entry(UpgradeType::Apial_Sensors).level > 0 ==> game.sight_range_spec(UnitType::Protoss_Scout) == 11 * 32,
        t != UnitType::Terran_Ghost && t != UnitType::Zerg_Overlord && t != UnitType::Protoss_Observer && t != UnitType::Protoss_Scout
            ==> game.sight_range_spec(t) == game.unit_types.entry(t).sight_range,
{
    assert(sight_upgrade_of(UnitType::Terran_Ghost, UpgradeType::Ocular_Implants));
    assert(sight_upgrade_of(UnitType::Zerg_Overlord, UpgradeType::Antennae));
    assert(sight_upgrade_of(UnitType::Protoss_Observer, UpgradeType::Sensor_Array));
    assert(sight_upgrade_of(UnitType::Protoss_Scout, UpgradeType::Apial_Sensors));
}

/// Chitinous Plating adds 2 to the Ultralisk's armor and Torrasque always has 2 more; every
/// other type has its own armor and one more per level of its armor upgrade. Adrenal Glands
/// halve the Zergling's cooldown, kept between 5 and 250; no other cooldown changes.
pub proof fn law_armor_and_cooldown(game: &Game, t: UnitType)
    ensures
        game.upgrades.entry(UpgradeType::Chitinous_Plating).level > 0 ==> game.armor_spec(UnitType::Zerg_Ultralisk)
            == game.unit_types.entry(UnitType::Zerg_Ultralisk).armor
            + game.upgrades.entry(game.unit_types.entry(UnitType::Zerg_Ultralisk).armor_upgrade).level + 2,
        game.armor_spec(UnitType::Hero_Torrasque) == game.unit_types.entry(UnitType::Hero_Torrasque).armor
            + game.upgrades.entry(game.unit_types.entry(UnitType::Hero_Torrasque).armor_upgrade).level + 2,
        t != UnitType::Zerg_Ultralisk && t != UnitType::Hero_Torrasque ==> game.armor_spec(t)
            == game.unit_types.entry(t).armor + game.upgrades.entry(game.unit_types.entry(t).armor_upgrade).level,
        game.upgrades.entry(UpgradeType::Adrenal_Glands).level > 0 ==> {
            let c = game.weapon_cooldown_spec(UnitType::Zerg_Zergling);
            let base = game.unit_types.entry(UnitType::Zerg_Zergling).ground_weapon_cooldown;
            &&& 5 <= c <= 250
            &&& (5 < c < 250 ==> c == trunc_div(base as int, 2))
            &&& (10 <= base <= 501 ==> c == trunc_div(base as int, 2))
        },
        t != UnitType::Zerg_Zergling ==> game.weapon_cooldown_spec(t) == game.unit_types.entry(t).ground_weapon_cooldown,
{
}

/// A resource depot never fits with its upper left tile at `(lx, ly)` while a starting mineral
/// field that is not seen lies in the box from 4 tiles left to 6 right and from 3 up to 5
/// down of that tile.
pub proof fn law_depots_keep_away_from_minerals(game: &Game, pos: TilePosition, t: UnitType, check_explored: bool, i: int)
    requires
        game.unit_types.entry(t).kind.is_resource_depot,
        !game.unit_types.entry(t).kind.is_refinery,
        t != UnitType::Special_Start_Location,
        0 <= i < game.static_minerals@.len(),
        !game.tile_flag(game.visible@, game.static_minerals@[i].0.x as int, game.static_minerals@[i].0.y as int),
        !(game.tile_flag(game.visible@, game.static_minerals@[i].0.x + 1, game.static_minerals@[i].0.y as int)
            && !game.static_minerals@[i].1),
        pos.x - 5 < game.static_minerals@[i].0.x < pos.x + 7,
        pos.y - 4 < game.static_minerals@[i].0.y < pos.y + 6,
    ensures
        game.resources_too_close(pos.x as int, pos.y as int),
        game.site_spec(None, pos.x as int, pos.y as int, t, check_explored) != Ok::<bool, Error>(true),
        game.build_here_spec(None, pos, t, check_explored) != Ok::<bool, Error>(true),
{
    assert(game.mineral_too_close(game.static_minerals@[i], pos.x as int, pos.y as int));
}


/// A resource depot never fits with its upper left tile at `pos` while a starting geyser lies
/// in the box from 6 tiles left to 6 right and from 4 up to 5 down of that tile.
pub proof fn law_depots_keep_away_from_geysers(game: &Game, pos: TilePosition, t: UnitType, check_explored: bool, i: int)
    requires
        game.unit_types.entry(t).kind.is_resource_depot,
        !game.unit_types.entry(t).kind.is_refinery,
        t != UnitType::Special_Start_Location,
        0 <= i < game.static_geysers@.len(),
        pos.x - 7 < game.static_geysers@[i].x < pos.x + 7,
        pos.y - 5 < game.static_geysers@[i].y < pos.y + 6,
    ensures
        game.resources_too_close(pos.x as int, pos.y as int),
        game.build_here_spec(None, pos, t, check_explored) != Ok::<bool, Error>(true),
{
    assert(game.geyser_too_close(game.static_geysers@[i], pos.x as int, pos.y as int));
}


/// Making a unit checks its costs in order: too few minerals refuse it first, then too little
/// gas, then too little supply, where the supply needed is the type's (twice that when one
/// egg gives two units) less what the unit it is made from held, if of the same race; a type
/// needing no supply is never refused for it.
pub proof fn law_costs_in_order(game: &Game, t: UnitType)
    ensures
        game.minerals < game.unit_types.entry(t).mineral_price
            ==> game.cost_verdict(None, t) == Err::<bool, Error>(Error::Insufficient_Minerals),
        game.minerals >= game.unit_types.entry(t).mineral_price && game.gas < game.unit_types.entry(t).gas_price
            ==> game.cost_verdict(None, t) == Err::<bool, Error>(Error::Insufficient_Gas),
        game.unit_types.entry(t).supply_required <= 0 ==> !game.supply_short(t),
        ({
            let info = game.unit_types.entry(t);
            let from = game.unit_types.entry(info.what_builds);
            let pool = race_id(info.kind.race);
            let need = if info.is_two_units_in_one_egg { 2 * info.supply_required } else { info.supply_required as int };
            let back = if from.kind.race == info.kind.race { from.supply_required as int } else { 0 };
            info.supply_required > 0 ==> (game.supply_short(t)
                <==> game.supply_used@[pool] + need - back > game.supply_total@[pool])
        }),
{
}

} // verus!
