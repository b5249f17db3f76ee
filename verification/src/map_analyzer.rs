//! A simple map analysis: bases from mineral clusters, altitudes of walk tiles, and areas
//! grown from the highest walk tiles down.
pub mod min_heap;

use vstd::prelude::*;
use crate::bwapi_wrapper::position::{abs_int, trunc_div, TilePosition, WalkPosition};
use self::min_heap::{least, MinHeap};
use std::collections::HashMap;
use vstd::multiset::Multiset;

verus! {

/// The side length, in walk tiles, of the largest map.
pub const MAX_WALK_SIDE: usize = 1024;

/// A walk tile of the analysis: its altitude (positive on walkable ground, negative on
/// unwalkable ground, 0 while not computed) and its area (0 for none).
#[derive(Debug, Copy, Clone, PartialEq, Eq)]
pub struct MiniTile {
    pub altitude: i32,
    pub area_id: i32,
}

impl Default for MiniTile {
    fn default() -> (r: Self)
        ensures
            r.altitude == 0,
            r.area_id == 0,
    {
        MiniTile { altitude: 0, area_id: 0 }
    }
}

/// What a walk position is on the map.
#[derive(Debug, Copy, Clone, PartialEq, Eq, Structural)]
pub enum TileState {
    Invalid,
    Walkable,
    Unwalkable,
}

/// What the analysis needs to know about a map.
pub trait MapUtil {
    /// The width of the map in build tiles.
    spec fn width_spec(&self) -> int;

    /// The height of the map in build tiles.
    spec fn height_spec(&self) -> int;

    /// What the walk position `(x, y)` is.
    spec fn state_spec(&self, x: int, y: int) -> TileState;

    /// The build tiles of the static minerals, in order.
    spec fn minerals_spec(&self) -> Seq<TilePosition>;

    /// The width of the map in build tiles.
    fn map_width(&self) -> (r: i32)
        ensures
            r == self.width_spec(),
    ;

    /// The height of the map in build tiles.
    fn map_height(&self) -> (r: i32)
        ensures
            r == self.height_spec(),
    ;

    /// What the walk position `pos` is.
    fn get_tile_state(&self, pos: &WalkPosition) -> (r: TileState)
        ensures
            r == self.state_spec(pos.x as int, pos.y as int),
    ;

    /// The build tiles of the static minerals.
    fn get_static_minerals(&self) -> (r: Vec<TilePosition>)
        ensures
            r@ == self.minerals_spec(),
    ;
}

/// The map fits the analysis: it is at most 256 build tiles on each side, and only walk
/// positions on it are valid.
pub open spec fn map_fits<M: MapUtil>(map: &M) -> bool {
    &&& 0 <= map.width_spec() <= 256
    &&& 0 <= map.height_spec() <= 256
    &&& forall|x: int, y: int| #[trigger] map.state_spec(x, y) != TileState::Invalid ==>
        0 <= x < 4 * map.width_spec() && 0 <= y < 4 * map.height_spec()
}

/// A map given by its size, its walkable walk tiles and its mineral fields.
pub struct GridMap {
    /// The width in build tiles.
    pub width: i32,
    /// The height in build tiles.
    pub height: i32,
    /// Whether each walk tile is walkable, row by row.
    pub walkable: Vec<bool>,
    /// The build tiles of the static minerals.
    pub minerals: Vec<TilePosition>,
}

impl GridMap {
    /// The grid has one entry per walk tile.
    pub open spec fn well_formed(&self) -> bool {
        &&& 0 <= self.width <= 256
        &&& 0 <= self.height <= 256
        &&& self.walkable@.len() == 16 * self.width * self.height
    }
}

impl MapUtil for GridMap {
    open spec fn width_spec(&self) -> int {
        self.width as int
    }

    open spec fn height_spec(&self) -> int {
        self.height as int
    }

    open spec fn state_spec(&self, x: int, y: int) -> TileState {
        if self.well_formed() && 0 <= x < 4 * self.width && 0 <= y < 4 * self.height {
            if self.walkable@[y * (4 * self.width) + x] {
                TileState::Walkable
            } else {
                TileState::Unwalkable
            }
        } else {
            TileState::Invalid
        }
    }

    open spec fn minerals_spec(&self) -> Seq<TilePosition> {
        self.minerals@
    }

    fn map_width(&self) -> (r: i32) {
        self.width
    }

    fn map_height(&self) -> (r: i32) {
        self.height
    }

    fn get_tile_state(&self, pos: &WalkPosition) -> (r: TileState) {
        if self.width < 0 || self.width > 256 || self.height < 0 || self.height > 256 {
            return TileState::Invalid;
        }
        let wu = self.width as usize;
        let hu = self.height as usize;
        assert(16 * wu * hu <= 16 * 256 * 256) by (nonlinear_arith)
            requires wu <= 256, hu <= 256;
        if self.walkable.len() != 16 * wu * hu {
            return TileState::Invalid;
        }
        if pos.x < 0 || pos.y < 0 || pos.x >= 4 * self.width || pos.y >= 4 * self.height {
            return TileState::Invalid;
        }
        let w = 4 * self.width as usize;
        assert(pos.y * w <= 1024 * 1024) by (nonlinear_arith)
            requires 0 <= pos.y < 1024, w <= 1024;
        let i = pos.y as usize * w + pos.x as usize;
        assert(i < self.walkable@.len()) by (nonlinear_arith)
            requires
                i == pos.y * w + pos.x, 0 <= pos.x < w, 0 <= pos.y < 4 * self.height,
                w == 4 * self.width, self.walkable@.len() == 16 * self.width * self.height;
        if self.walkable[i] {
            TileState::Walkable
        } else {
            TileState::Unwalkable
        }
    }

    fn get_static_minerals(&self) -> (r: Vec<TilePosition>) {
        let mut r: Vec<TilePosition> = Vec::new();
        let mut i: usize = 0;
        while i < self.minerals.len()
            invariant
                i <= self.minerals@.len(),
                r@ == self.minerals@.take(i as int),
            decreases self.minerals@.len() - i,
        {
            r.push(self.minerals[i]);
            i = i + 1;
            assert(r@ =~= self.minerals@.take(i as int));
        }
        assert(self.minerals@.take(self.minerals@.len() as int) =~= self.minerals@);
        r
    }
}

/// A grid map that is well formed fits the analysis.
pub proof fn lemma_grid_map_fits(map: &GridMap)
    requires
        map.well_formed(),
    ensures
        map_fits(map),
{
}

/// The walk position `p` moved by `(dx, dy)`.
pub open spec fn moved(p: WalkPosition, dx: int, dy: int) -> WalkPosition {
    WalkPosition { x: (p.x + dx) as i32, y: (p.y + dy) as i32 }
}

/// `pos` is walkable ground next to something that is not.
pub open spec fn coast<M: MapUtil>(map: &M, pos: WalkPosition) -> bool {
    &&& map.state_spec(pos.x as int, pos.y as int) == TileState::Walkable
    &&& {
        ||| map.state_spec(pos.x - 1, pos.y as int) != TileState::Walkable
        ||| map.state_spec(pos.x as int, pos.y - 1) != TileState::Walkable
        ||| map.state_spec(pos.x + 1, pos.y as int) != TileState::Walkable
        ||| map.state_spec(pos.x as int, pos.y + 1) != TileState::Walkable
    }
}

/// Whether `pos` is walkable ground next to something that is not.
pub fn is_coast<M: MapUtil>(map: &M, pos: WalkPosition) -> (r: bool)
    requires
        i32::MIN < pos.x < i32::MAX,
        i32::MIN < pos.y < i32::MAX,
    ensures
        r == coast(map, pos),
{
    if map.get_tile_state(&pos) != TileState::Walkable {
        return false;
    }
    map.get_tile_state(&WalkPosition::new(pos.x - 1, pos.y)) != TileState::Walkable
        || map.get_tile_state(&WalkPosition::new(pos.x, pos.y - 1)) != TileState::Walkable
        || map.get_tile_state(&WalkPosition::new(pos.x + 1, pos.y)) != TileState::Walkable
        || map.get_tile_state(&WalkPosition::new(pos.x, pos.y + 1)) != TileState::Walkable
}

/// The areas found next to a walk tile: none, one, or the two with the smallest ids after
/// the first one found.
#[derive(Debug, Copy, Clone, PartialEq, Eq, Structural)]
pub enum Neighbor {
    Nothing,
    One(i32),
    Two(i32, i32),
}

/// What is known about the neighbouring areas after looking at a neighbour in area `id`
/// (0 for none).
pub open spec fn neighbor_step(n: Neighbor, id: int) -> Neighbor {
    if id > 0 {
        match n {
            Neighbor::Nothing => Neighbor::One(id as i32),
            Neighbor::One(a) => if a != id { Neighbor::Two(a, id as i32) } else { n },
            Neighbor::Two(a, b) => if a != id && id < b { Neighbor::Two(a, id as i32) } else { n },
        }
    } else {
        n
    }
}

/// The index of walk position `(x, y)` in the tile grid.
pub open spec fn grid_index(x: int, y: int) -> int {
    y * MAX_WALK_SIDE + x
}

/// The area of the walk tile at `(x, y)` as seen from a neighbour: 0 off the map.
pub open spec fn area_seen<M: MapUtil>(tiles: Seq<MiniTile>, map: &M, x: int, y: int) -> int {
    if map.state_spec(x, y) != TileState::Invalid {
        tiles[grid_index(x, y)].area_id as int
    } else {
        0
    }
}

/// The areas around `pos`, looking left, up, right and down in that order.
pub open spec fn adjacent_areas<M: MapUtil>(tiles: Seq<MiniTile>, map: &M, pos: WalkPosition) -> Neighbor {
    let n1 = neighbor_step(Neighbor::Nothing, area_seen(tiles, map, pos.x - 1, pos.y as int));
    let n2 = neighbor_step(n1, area_seen(tiles, map, pos.x as int, pos.y - 1));
    let n3 = neighbor_step(n2, area_seen(tiles, map, pos.x + 1, pos.y as int));
    neighbor_step(n3, area_seen(tiles, map, pos.x as int, pos.y + 1))
}

/// A mineral cluster that may become a base: the sums of its minerals' coordinates and their
/// number.
#[derive(Debug, Copy, Clone, PartialEq, Eq)]
pub struct PotentialBase {
    pub agg_x: i32,
    pub agg_y: i32,
    pub count: i32,
}

/// The center of a cluster: the mean of its minerals, rounded toward zero.
pub open spec fn cluster_center(b: PotentialBase) -> TilePosition {
    TilePosition {
        x: trunc_div(b.agg_x as int, b.count as int) as i32,
        y: trunc_div(b.agg_y as int, b.count as int) as i32,
    }
}

/// Whether mineral `m` joins cluster `b`: it lies less than 16 tiles from the center.
pub open spec fn joins(b: PotentialBase, m: TilePosition) -> bool {
    let c = cluster_center(b);
    (c.x - m.x) * (c.x - m.x) + (c.y - m.y) * (c.y - m.y) < 16 * 16
}

/// The first cluster from index `i` on that mineral `m` joins.
pub open spec fn first_joined(bases: Seq<PotentialBase>, m: TilePosition, i: int) -> Option<int>
    decreases bases.len() - i,
{
    if i >= bases.len() || i < 0 {
        None
    } else if joins(bases[i], m) {
        Some(i)
    } else {
        first_joined(bases, m, i + 1)
    }
}

/// The clusters after adding mineral `m`: to the first cluster it joins, or as a new cluster.
pub open spec fn cluster_step(bases: Seq<PotentialBase>, m: TilePosition) -> Seq<PotentialBase> {
    match first_joined(bases, m, 0) {
        Some(i) => bases.update(i, PotentialBase {
            agg_x: (bases[i].agg_x + m.x) as i32,
            agg_y: (bases[i].agg_y + m.y) as i32,
            count: (bases[i].count + 1) as i32,
        }),
        None => bases.push(PotentialBase { agg_x: m.x, agg_y: m.y, count: 1 }),
    }
}

/// The clusters of the minerals `ms`, added in order.
pub open spec fn clusters(ms: Seq<TilePosition>) -> Seq<PotentialBase>
    decreases ms.len(),
{
    if ms.len() == 0 {
        Seq::empty()
    } else {
        cluster_step(clusters(ms.drop_last()), ms.last())
    }
}

/// The largest coordinate of a mineral tile the clustering accepts, and the largest number
/// of minerals: together they keep the sums within an `i32`.
pub open spec fn minerals_in_range(ms: Seq<TilePosition>) -> bool {
    &&& ms.len() < 65536
    &&& forall|i: int| 0 <= i < ms.len() ==> 0 <= #[trigger] ms[i].x < 4096 && 0 <= ms[i].y < 4096
}

/// A cluster's sums stay between 0 and its count times 4095.
pub open spec fn cluster_ok(b: PotentialBase) -> bool {
    &&& 1 <= b.count <= 65536
    &&& 0 <= b.agg_x <= b.count * 4095
    &&& 0 <= b.agg_y <= b.count * 4095
}

/// An area being grown: its id, the walk tiles added to it (some more than once), and the
/// altitude of its first tile.
pub struct AreaHolder {
    pub id: i32,
    pub wps: Vec<WalkPosition>,
    pub max_alt: i32,
}

/// What is known of an area being grown.
pub struct AreaModel {
    pub id: int,
    pub wps: Seq<WalkPosition>,
    pub max_alt: int,
}

impl AreaHolder {
    /// The area as a model.
    pub open spec fn model(&self) -> AreaModel {
        AreaModel { id: self.id as int, wps: self.wps@, max_alt: self.max_alt as int }
    }
}

/// The state of the area growing: the tiles, the areas so far (area 0 is a placeholder) and,
/// for each pair of areas, how many tiles on their border were handed out.
pub struct GrowState {
    pub tiles: Seq<MiniTile>,
    pub areas: Seq<AreaModel>,
    pub counts: Map<(int, int), int>,
}

/// `tiles` with the tile at `p` put in area `id`.
pub open spec fn set_area(tiles: Seq<MiniTile>, p: WalkPosition, id: int) -> Seq<MiniTile> {
    let i = grid_index(p.x as int, p.y as int);
    tiles.update(i, MiniTile { area_id: id as i32, ..tiles[i] })
}

/// `tiles` with the tiles at `wps` put in area `id`, in order.
pub open spec fn relabel(tiles: Seq<MiniTile>, wps: Seq<WalkPosition>, id: int) -> Seq<MiniTile>
    decreases wps.len(),
{
    if wps.len() == 0 {
        tiles
    } else {
        set_area(relabel(tiles, wps.drop_last(), id), wps.last(), id)
    }
}

/// `m` with `p` added to its tiles.
pub open spec fn with_wp(m: AreaModel, p: WalkPosition) -> AreaModel {
    AreaModel { wps: m.wps.push(p), ..m }
}

/// Whether two neighbouring areas merge when tile `pos` of altitude `alt` joins them: the
/// smaller one is small or low, or the tile is nearly as high as either area's first tile.
pub open spec fn merges(smaller: AreaModel, bigger: AreaModel, alt: int) -> bool {
    ||| smaller.wps.len() < 80
    ||| smaller.max_alt < 10
    ||| alt * 10 > bigger.max_alt * 9
    ||| alt * 10 > smaller.max_alt * 9
}

/// The growing state after handling tile `pos`.
pub open spec fn grow_step<M: MapUtil>(s: GrowState, map: &M, pos: WalkPosition) -> GrowState {
    let i = grid_index(pos.x as int, pos.y as int);
    match adjacent_areas(s.tiles, map, pos) {
        Neighbor::Nothing => {
            let id = s.areas.len() as int;
            GrowState {
                tiles: set_area(s.tiles, pos, id),
                areas: s.areas.push(AreaModel { id, wps: seq![pos], max_alt: s.tiles[i].altitude as int }),
                counts: s.counts,
            }
        },
        Neighbor::One(id) => GrowState {
            tiles: set_area(s.tiles, pos, s.areas[id as int].id),
            areas: s.areas.update(id as int, with_wp(s.areas[id as int], pos)),
            counts: s.counts,
        },
        Neighbor::Two(x, y) => {
            let (smaller, bigger) = if s.areas[x as int].wps.len() > s.areas[y as int].wps.len() {
                (y as int, x as int)
            } else {
                (x as int, y as int)
            };
            let (a, b) = if smaller > bigger { (bigger, smaller) } else { (smaller, bigger) };
            let alt = s.tiles[i].altitude as int;
            if merges(s.areas[smaller], s.areas[bigger], alt) {
                let big = s.areas[bigger];
                let small = s.areas[smaller];
                GrowState {
                    tiles: set_area(relabel(s.tiles, small.wps, bigger), pos, big.id),
                    areas: s.areas.update(
                        bigger,
                        AreaModel { wps: big.wps.push(pos) + small.wps.push(pos), ..big },
                    ).update(smaller, AreaModel { wps: Seq::empty(), ..small }),
                    counts: s.counts,
                }
            } else {
                let c = if s.counts.contains_key((a, b)) { s.counts[(a, b)] } else { 0 };
                let chosen = if c % 2 == 0 { a } else { b };
                GrowState {
                    tiles: set_area(s.tiles, pos, s.areas[chosen].id),
                    areas: s.areas.update(chosen, with_wp(with_wp(s.areas[chosen], pos), pos)),
                    counts: s.counts.insert((a, b), c + 1),
                }
            }
        },
    }
}

/// The growing state after handling the tiles `ps` in order.
pub open spec fn grow_all<M: MapUtil>(s: GrowState, map: &M, ps: Seq<WalkPosition>) -> GrowState
    decreases ps.len(),
{
    if ps.len() == 0 {
        s
    } else {
        grow_step(grow_all(s, map, ps.drop_last()), map, ps.last())
    }
}

/// The growing state before any tile: only the placeholder area.
pub open spec fn grow_start(tiles: Seq<MiniTile>) -> GrowState {
    GrowState {
        tiles,
        areas: seq![AreaModel { id: 0, wps: Seq::empty(), max_alt: 0 }],
        counts: Map::empty(),
    }
}

/// The largest altitude, in either direction, that the area growing accepts: ten times it
/// still fits an `i32`.
pub const ALT_LIMIT: i32 = 214748364;

/// A walk position inside the tile grid.
pub open spec fn in_grid(p: WalkPosition) -> bool {
    0 <= p.x < MAX_WALK_SIDE && 0 <= p.y < MAX_WALK_SIDE
}

/// The tile grid is complete, each tile's area is below `n` and each altitude is within
/// the limit.
pub open spec fn tiles_ok(tiles: Seq<MiniTile>, n: int) -> bool {
    &&& tiles.len() == MAX_WALK_SIDE * MAX_WALK_SIDE
    &&& forall|i: int| 0 <= i < tiles.len() ==> {
        &&& 0 <= #[trigger] tiles[i].area_id < n
        &&& -ALT_LIMIT <= tiles[i].altitude <= ALT_LIMIT
    }
}

/// Each area's id is its index, its first altitude is within the limit and its tiles lie
/// in the grid.
pub open spec fn areas_ok(areas: Seq<AreaModel>) -> bool {
    forall|i: int| 0 <= i < areas.len() ==> {
        &&& (#[trigger] areas[i]).id == i
        &&& -ALT_LIMIT <= areas[i].max_alt <= ALT_LIMIT
        &&& forall|j: int| 0 <= j < areas[i].wps.len() ==> in_grid(#[trigger] areas[i].wps[j])
    }
}

/// The growing state after `k` tiles is consistent: at most `k` areas besides the
/// placeholder, tiles and areas as above, and no border count above `k`.
pub open spec fn grow_ok(s: GrowState, k: int) -> bool {
    &&& 1 <= s.areas.len() <= k + 1
    &&& tiles_ok(s.tiles, s.areas.len() as int)
    &&& areas_ok(s.areas)
    &&& forall|a: int, b: int| #[trigger] s.counts.contains_key((a, b)) ==> 0 <= s.counts[(a, b)] <= k
}

/// The neighbours found are existing areas other than the placeholder, and two are different.
pub open spec fn neighbor_ok(n: Neighbor, len: int) -> bool {
    match n {
        Neighbor::Nothing => true,
        Neighbor::One(a) => 1 <= a < len,
        Neighbor::Two(a, b) => 1 <= a < len && 1 <= b < len && a != b,
    }
}

/// The areas found around a tile exist, when every tile's area does.
pub proof fn lemma_adjacent_ok<M: MapUtil>(tiles: Seq<MiniTile>, map: &M, pos: WalkPosition, n: int)
    requires
        tiles_ok(tiles, n),
        map_fits(map),
    ensures
        neighbor_ok(adjacent_areas(tiles, map, pos), n),
{
    assert forall|x: int, y: int| true implies 0 <= #[trigger] area_seen(tiles, map, x, y) < n || area_seen(tiles, map, x, y) == 0 by {
        if map.state_spec(x, y) != TileState::Invalid {
            assert(0 <= grid_index(x, y) < tiles.len());
            assert(0 <= tiles[grid_index(x, y)].area_id < n);
        }
    }
    let n1 = neighbor_step(Neighbor::Nothing, area_seen(tiles, map, pos.x - 1, pos.y as int));
    let n2 = neighbor_step(n1, area_seen(tiles, map, pos.x as int, pos.y - 1));
    let n3 = neighbor_step(n2, area_seen(tiles, map, pos.x + 1, pos.y as int));
    assert(neighbor_ok(n1, n));
    assert(neighbor_ok(n2, n));
    assert(neighbor_ok(n3, n));
}

/// Putting one grid tile in an existing area keeps the tiles consistent.
pub proof fn lemma_set_area_ok(tiles: Seq<MiniTile>, p: WalkPosition, id: int, n: int)
    requires
        tiles_ok(tiles, n),
        in_grid(p),
        0 <= id < n,
        id <= i32::MAX,
    ensures
        tiles_ok(set_area(tiles, p, id), n),
        set_area(tiles, p, id).len() == tiles.len(),
{
    let i = grid_index(p.x as int, p.y as int);
    assert(0 <= i < tiles.len());
    let t = set_area(tiles, p, id);
    assert forall|j: int| 0 <= j < t.len() implies {
        &&& 0 <= #[trigger] t[j].area_id < n
        &&& -ALT_LIMIT <= t[j].altitude <= ALT_LIMIT
    } by {
        assert(0 <= tiles[j].area_id < n);
        if j == i {
            assert(t[j].area_id == id);
        } else {
            assert(t[j] == tiles[j]);
        }
        assert(tiles[j].altitude == t[j].altitude);
    }
}

/// Putting grid tiles in an existing area keeps the tiles consistent.
pub proof fn lemma_relabel_ok(tiles: Seq<MiniTile>, wps: Seq<WalkPosition>, id: int, n: int)
    requires
        tiles_ok(tiles, n),
        forall|j: int| 0 <= j < wps.len() ==> in_grid(#[trigger] wps[j]),
        0 <= id < n,
        id <= i32::MAX,
    ensures
        tiles_ok(relabel(tiles, wps, id), n),
    decreases wps.len(),
{
    if wps.len() > 0 {
        lemma_relabel_ok(tiles, wps.drop_last(), id, n);
        lemma_set_area_ok(relabel(tiles, wps.drop_last(), id), wps.last(), id, n);
    }
}

/// Tiles that stay consistent for fewer areas stay so for more.
pub proof fn lemma_tiles_ok_more(tiles: Seq<MiniTile>, n: int, m: int)
    requires
        tiles_ok(tiles, n),
        n <= m,
    ensures
        tiles_ok(tiles, m),
{
    assert forall|i: int| 0 <= i < tiles.len() implies {
        &&& 0 <= #[trigger] tiles[i].area_id < m
        &&& -ALT_LIMIT <= tiles[i].altitude <= ALT_LIMIT
    } by {
        assert(0 <= tiles[i].area_id < n);
    }
}

/// One step of the area growing keeps the state consistent.
pub proof fn lemma_grow_step_ok<M: MapUtil>(s: GrowState, map: &M, pos: WalkPosition, k: int)
    requires
        grow_ok(s, k),
        map_fits(map),
        in_grid(pos),
        0 <= k < i32::MAX,
    ensures
        grow_ok(grow_step(s, map, pos), k + 1),
{
    let n = s.areas.len() as int;
    let i = grid_index(pos.x as int, pos.y as int);
    assert(0 <= i < s.tiles.len());
    lemma_adjacent_ok(s.tiles, map, pos, n);
    let r = grow_step(s, map, pos);
    match adjacent_areas(s.tiles, map, pos) {
        Neighbor::Nothing => {
            lemma_tiles_ok_more(s.tiles, n, n + 1);
            lemma_set_area_ok(s.tiles, pos, n, n + 1);
            assert(s.tiles[i].area_id < n);
            assert forall|q: int| 0 <= q < r.areas.len() implies {
                &&& (#[trigger] r.areas[q]).id == q
                &&& -ALT_LIMIT <= r.areas[q].max_alt <= ALT_LIMIT
                &&& forall|j: int| 0 <= j < r.areas[q].wps.len() ==> in_grid(#[trigger] r.areas[q].wps[j])
            } by {
                if q < n {
                    assert(r.areas[q] == s.areas[q]);
                }
            }
        },
        Neighbor::One(id) => {
            lemma_set_area_ok(s.tiles, pos, id as int, n);
            assert forall|q: int| 0 <= q < r.areas.len() implies {
                &&& (#[trigger] r.areas[q]).id == q
                &&& -ALT_LIMIT <= r.areas[q].max_alt <= ALT_LIMIT
                &&& forall|j: int| 0 <= j < r.areas[q].wps.len() ==> in_grid(#[trigger] r.areas[q].wps[j])
            } by {
                if q != id {
                    assert(r.areas[q] == s.areas[q]);
                } else {
                    assert forall|j: int| 0 <= j < r.areas[q].wps.len() implies in_grid(#[trigger] r.areas[q].wps[j]) by {
                        if j < s.areas[q].wps.len() {
                            assert(r.areas[q].wps[j] == s.areas[q].wps[j]);
                        }
                    }
                }
            }
        },
        Neighbor::Two(x, y) => {
            let (smaller, bigger) = if s.areas[x as int].wps.len() > s.areas[y as int].wps.len() {
                (y as int, x as int)
            } else {
                (x as int, y as int)
            };
            let (a, b) = if smaller > bigger { (bigger, smaller) } else { (smaller, bigger) };
            let alt = s.tiles[i].altitude as int;
            let big = s.areas[bigger];
            let small = s.areas[smaller];
            if merges(small, big, alt) {
                assert(s.areas[smaller].id == smaller);
                assert(forall|j: int| 0 <= j < small.wps.len() ==> in_grid(#[trigger] small.wps[j]));
                lemma_relabel_ok(s.tiles, small.wps, bigger, n);
                lemma_set_area_ok(relabel(s.tiles, small.wps, bigger), pos, big.id, n);
                let nw = big.wps.push(pos) + small.wps.push(pos);
                assert forall|j: int| 0 <= j < nw.len() implies in_grid(#[trigger] nw[j]) by {
                    if j < big.wps.len() {
                        assert(nw[j] == big.wps[j]);
                    } else if j == big.wps.len() {
                    } else if j < big.wps.len() + 1 + small.wps.len() {
                        assert(nw[j] == small.wps[j - big.wps.len() - 1]);
                    }
                }
                assert forall|q: int| 0 <= q < r.areas.len() implies {
                    &&& (#[trigger] r.areas[q]).id == q
                    &&& -ALT_LIMIT <= r.areas[q].max_alt <= ALT_LIMIT
                    &&& forall|j: int| 0 <= j < r.areas[q].wps.len() ==> in_grid(#[trigger] r.areas[q].wps[j])
                } by {
                    if q != smaller && q != bigger {
                        assert(r.areas[q] == s.areas[q]);
                    } else if q == bigger {
                        assert(r.areas[q].wps == nw);
                    }
                }
            } else {
                let c = if s.counts.contains_key((a, b)) { s.counts[(a, b)] } else { 0 };
                let chosen = if c % 2 == 0 { a } else { b };
                lemma_set_area_ok(s.tiles, pos, s.areas[chosen].id, n);
                assert forall|q: int| 0 <= q < r.areas.len() implies {
                    &&& (#[trigger] r.areas[q]).id == q
                    &&& -ALT_LIMIT <= r.areas[q].max_alt <= ALT_LIMIT
                    &&& forall|j: int| 0 <= j < r.areas[q].wps.len() ==> in_grid(#[trigger] r.areas[q].wps[j])
                } by {
                    if q != chosen {
                        assert(r.areas[q] == s.areas[q]);
                    } else {
                        assert forall|j: int| 0 <= j < r.areas[q].wps.len() implies in_grid(#[trigger] r.areas[q].wps[j]) by {
                            if j < s.areas[q].wps.len() {
                                assert(r.areas[q].wps[j] == s.areas[q].wps[j]);
                            }
                        }
                    }
                }
                assert forall|a2: int, b2: int| #[trigger] r.counts.contains_key((a2, b2)) implies 0 <= r.counts[(a2, b2)] <= k + 1 by {
                    if (a2, b2) != (a, b) {
                        assert(s.counts.contains_key((a2, b2)));
                    }
                }
            }
        },
    }
}

/// Relabelling leaves each tile's area as it was or sets it to `id`.
pub proof fn lemma_relabel_area(tiles: Seq<MiniTile>, wps: Seq<WalkPosition>, id: int, j: int)
    requires
        forall|q: int| 0 <= q < wps.len() ==> in_grid(#[trigger] wps[q]),
        tiles.len() == MAX_WALK_SIDE * MAX_WALK_SIDE,
        0 <= j < tiles.len(),
    ensures
        relabel(tiles, wps, id).len() == tiles.len(),
        relabel(tiles, wps, id)[j].area_id == tiles[j].area_id
            || relabel(tiles, wps, id)[j].area_id == id as i32,
    decreases wps.len(),
{
    if wps.len() > 0 {
        lemma_relabel_area(tiles, wps.drop_last(), id, j);
        let p = wps.last();
        assert(in_grid(wps[wps.len() - 1]));
        assert(0 <= grid_index(p.x as int, p.y as int) < tiles.len());
    }
}

/// The area growing keeps its state consistent over any walk tiles of the grid.
pub proof fn lemma_grow_all_ok<M: MapUtil>(tiles: Seq<MiniTile>, map: &M, ps: Seq<WalkPosition>)
    requires
        tiles_ok(tiles, 1),
        map_fits(map),
        forall|i: int| 0 <= i < ps.len() ==> in_grid(#[trigger] ps[i]),
        ps.len() < i32::MAX,
    ensures
        grow_ok(grow_all(grow_start(tiles), map, ps), ps.len() as int),
    decreases ps.len(),
{
    if ps.len() == 0 {
        assert(grow_ok(grow_start(tiles), 0));
    } else {
        lemma_grow_all_ok(tiles, map, ps.drop_last());
        assert(in_grid(ps[ps.len() - 1]));
        lemma_grow_step_ok(grow_all(grow_start(tiles), map, ps.drop_last()), map, ps.last(), ps.len() - 1);
    }
}

/// One step of the area growing puts its tile in an area and takes no tile out of one.
pub proof fn lemma_grow_step_labels<M: MapUtil>(s: GrowState, map: &M, pos: WalkPosition, k: int)
    requires
        grow_ok(s, k),
        map_fits(map),
        in_grid(pos),
        0 <= k < i32::MAX,
    ensures
        grow_step(s, map, pos).tiles[grid_index(pos.x as int, pos.y as int)].area_id >= 1,
        forall|i: int| 0 <= i < s.tiles.len() && s.tiles[i].area_id >= 1
            ==> #[trigger] grow_step(s, map, pos).tiles[i].area_id >= 1,
{
    let n = s.areas.len() as int;
    let pi = grid_index(pos.x as int, pos.y as int);
    assert(0 <= pi < s.tiles.len());
    lemma_adjacent_ok(s.tiles, map, pos, n);
    let r = grow_step(s, map, pos);
    match adjacent_areas(s.tiles, map, pos) {
        Neighbor::Nothing => {},
        Neighbor::One(id) => {
            assert(s.areas[id as int].id == id);
        },
        Neighbor::Two(x, y) => {
            let (smaller, bigger) = if s.areas[x as int].wps.len() > s.areas[y as int].wps.len() {
                (y as int, x as int)
            } else {
                (x as int, y as int)
            };
            let (a, b) = if smaller > bigger { (bigger, smaller) } else { (smaller, bigger) };
            let big = s.areas[bigger];
            let small = s.areas[smaller];
            assert(s.areas[smaller].id == smaller);
            assert(s.areas[bigger].id == bigger);
            assert(s.areas[a].id == a);
            assert(s.areas[b].id == b);
            if merges(small, big, s.tiles[pi].altitude as int) {
                assert(forall|j: int| 0 <= j < small.wps.len() ==> in_grid(#[trigger] small.wps[j]));
                assert forall|i: int| 0 <= i < s.tiles.len() && s.tiles[i].area_id >= 1
                    implies #[trigger] r.tiles[i].area_id >= 1 by {
                    lemma_relabel_area(s.tiles, small.wps, bigger, i);
                }
                lemma_relabel_area(s.tiles, small.wps, bigger, pi);
            }
        },
    }
}

/// Every walk tile the area growing handles ends up in an area: the growing puts each tile
/// in one and never takes a tile out of its area.
pub proof fn law_handled_tiles_in_areas<M: MapUtil>(tiles: Seq<MiniTile>, map: &M, ps: Seq<WalkPosition>)
    requires
        tiles_ok(tiles, 1),
        map_fits(map),
        forall|i: int| 0 <= i < ps.len() ==> in_grid(#[trigger] ps[i]),
        ps.len() < i32::MAX,
    ensures
        forall|j: int| 0 <= j < ps.len() ==>
            #[trigger] grow_all(grow_start(tiles), map, ps).tiles[grid_index(ps[j].x as int, ps[j].y as int)].area_id >= 1,
    decreases ps.len(),
{
    if ps.len() > 0 {
        let prev = ps.drop_last();
        law_handled_tiles_in_areas(tiles, map, prev);
        lemma_grow_all_ok(tiles, map, prev);
        let s = grow_all(grow_start(tiles), map, prev);
        assert(in_grid(ps[ps.len() - 1]));
        lemma_grow_step_labels(s, map, ps.last(), ps.len() - 1);
        assert forall|j: int| 0 <= j < ps.len() implies
            #[trigger] grow_all(grow_start(tiles), map, ps).tiles[grid_index(ps[j].x as int, ps[j].y as int)].area_id >= 1 by {
            if j < ps.len() - 1 {
                assert(prev[j] == ps[j]);
                assert(in_grid(ps[j]));
                assert(s.tiles[grid_index(prev[j].x as int, prev[j].y as int)].area_id >= 1);
            }
        }
    }
}

/// The key under which the border count of areas `a` and `b` is kept.
pub open spec fn pair_key(a: int, b: int) -> u64 {
    (a * 0x1_0000_0000 + b) as u64
}

/// Two pairs of areas below 2^32 have the same key only if they are the same pair.
pub proof fn lemma_pair_key(a: int, b: int, c: int, d: int)
    requires
        0 <= a < 0x1_0000_0000, 0 <= b < 0x1_0000_0000,
        0 <= c < 0x1_0000_0000, 0 <= d < 0x1_0000_0000,
    ensures
        pair_key(a, b) == a * 0x1_0000_0000 + b,
        pair_key(a, b) == pair_key(c, d) <==> (a == c && b == d),
{
    assert(0 <= a * 0x1_0000_0000 + b < 0x1_0000_0000_0000_0000) by (nonlinear_arith)
        requires 0 <= a < 0x1_0000_0000, 0 <= b < 0x1_0000_0000;
    assert(0 <= c * 0x1_0000_0000 + d < 0x1_0000_0000_0000_0000) by (nonlinear_arith)
        requires 0 <= c < 0x1_0000_0000, 0 <= d < 0x1_0000_0000;
    assert(a * 0x1_0000_0000 + b == c * 0x1_0000_0000 + d ==> (a == c && b == d)) by (nonlinear_arith)
        requires 0 <= b < 0x1_0000_0000, 0 <= d < 0x1_0000_0000;
}

/// The border counts kept in a hash map are those of the model, for pairs below 2^32.
pub open spec fn counts_match(hm: Map<u64, i32>, counts: Map<(int, int), int>) -> bool {
    forall|a: int, b: int| 0 <= a < 0x1_0000_0000 && 0 <= b < 0x1_0000_0000 ==> {
        &&& #[trigger] counts.contains_key((a, b)) == hm.contains_key(pair_key(a, b))
        &&& counts.contains_key((a, b)) ==> counts[(a, b)] == hm[pair_key(a, b)]
    }
}

/// The executable areas are the model's.
pub open spec fn holders_match(areas: Seq<AreaHolder>, models: Seq<AreaModel>) -> bool {
    &&& areas.len() == models.len()
    &&& forall|i: int| 0 <= i < areas.len() ==> (#[trigger] areas[i]).model() == models[i]
}

impl AreaHolder {
    /// Adds walk tile `wp` to this area and marks it so in `tiles`.
    pub fn add(&mut self, wp: WalkPosition, tiles: &mut Vec<MiniTile>)
        requires
            in_grid(wp),
            old(tiles)@.len() == MAX_WALK_SIDE * MAX_WALK_SIDE,
        ensures
            final(self).model() == with_wp(old(self).model(), wp),
            final(tiles)@ == set_area(old(tiles)@, wp, old(self).id as int),
    {
        self.wps.push(wp);
        let i = wp.y as usize * MAX_WALK_SIDE + wp.x as usize;
        let t = tiles[i];
        tiles.set(i, MiniTile { area_id: self.id, ..t });
        assert(self.wps@ =~= old(self).wps@.push(wp));
    }
}

/// Puts the grid tiles at `wps` in area `id`.
fn relabel_tiles(tiles: &mut Vec<MiniTile>, wps: &Vec<WalkPosition>, id: i32)
    requires
        old(tiles)@.len() == MAX_WALK_SIDE * MAX_WALK_SIDE,
        forall|j: int| 0 <= j < wps@.len() ==> in_grid(#[trigger] wps@[j]),
    ensures
        final(tiles)@ == relabel(old(tiles)@, wps@, id as int),
        final(tiles)@.len() == old(tiles)@.len(),
{
    let ghost t0 = tiles@;
    let mut j: usize = 0;
    while j < wps.len()
        invariant
            j <= wps@.len(),
            forall|q: int| 0 <= q < wps@.len() ==> in_grid(#[trigger] wps@[q]),
            tiles@ == relabel(t0, wps@.take(j as int), id as int),
            tiles@.len() == MAX_WALK_SIDE * MAX_WALK_SIDE,
        decreases wps@.len() - j,
    {
        let p = wps[j];
        assert(in_grid(wps@[j as int]));
        let i = p.y as usize * MAX_WALK_SIDE + p.x as usize;
        let t = tiles[i];
        tiles.set(i, MiniTile { area_id: id, ..t });
        assert(wps@.take(j as int + 1).drop_last() =~= wps@.take(j as int));
        j = j + 1;
    }
    assert(wps@.take(wps@.len() as int) =~= wps@);
}

/// The number of walk tiles in the grid.
pub open spec fn grid_len() -> int {
    MAX_WALK_SIDE * MAX_WALK_SIDE
}

/// The key under which a walk position waits with an altitude: ordered by the altitude's
/// magnitude, then by x, then by y, then by its sign.
pub open spec fn alt_key(alt: int, x: int, y: int) -> int {
    ((abs_int(alt) * 1024 + x) * 1024 + y) * 2 + (if alt < 0 { 1int } else { 0int })
}

/// The altitude of a key.
pub open spec fn key_alt(k: int) -> int {
    if k % 2 == 1 {
        -(k / 2097152)
    } else {
        k / 2097152
    }
}

/// The walk position of a key.
pub open spec fn key_pos(k: int) -> WalkPosition {
    WalkPosition { x: ((k / 2048) % 1024) as i32, y: ((k / 2) % 1024) as i32 }
}

/// A key gives back the altitude and the position it was made of.
pub proof fn lemma_alt_key(alt: int, x: int, y: int)
    requires
        abs_int(alt) <= 0x4000_0000,
        0 <= x < 1024,
        0 <= y < 1024,
    ensures
        0 <= alt_key(alt, x, y) < 0x4000_0000_0000_0000,
        alt_key(alt, x, y) / 2097152 == abs_int(alt),
        key_alt(alt_key(alt, x, y)) == alt,
        key_pos(alt_key(alt, x, y)) == (WalkPosition { x: x as i32, y: y as i32 }),
{
    let m = abs_int(alt);
    let s: int = if alt < 0 { 1 } else { 0 };
    let k = alt_key(alt, x, y);
    assert(k == m * 2097152 + x * 2048 + y * 2 + s) by (nonlinear_arith)
        requires k == ((m * 1024 + x) * 1024 + y) * 2 + s;
    assert(0 <= k < 0x4000_0000_0000_0000) by (nonlinear_arith)
        requires k == m * 2097152 + x * 2048 + y * 2 + s, 0 <= m <= 0x4000_0000,
            0 <= x < 1024, 0 <= y < 1024, 0 <= s <= 1;
    assert(k / 2097152 == m && k % 2 == s) by (nonlinear_arith)
        requires k == m * 2097152 + x * 2048 + y * 2 + s, 0 <= x < 1024, 0 <= y < 1024, 0 <= s <= 1, m >= 0;
    assert((k / 2048) % 1024 == x) by (nonlinear_arith)
        requires k == m * 2097152 + x * 2048 + y * 2 + s, 0 <= x < 1024, 0 <= y < 1024, 0 <= s <= 1, m >= 0;
    assert((k / 2) % 1024 == y) by (nonlinear_arith)
        requires k == m * 2097152 + x * 2048 + y * 2 + s, 0 <= x < 1024, 0 <= y < 1024, 0 <= s <= 1, m >= 0;
}

/// The state of the altitude computation: the tiles, the keys waiting to be handled, and the
/// walkable tiles in the order they got their altitude.
pub struct AltState {
    pub tiles: Seq<MiniTile>,
    pub horizon: Multiset<u64>,
    pub sorted: Seq<WalkPosition>,
}

/// `tiles` with the tile at `p` given altitude `a`.
pub open spec fn set_altitude(tiles: Seq<MiniTile>, p: WalkPosition, a: int) -> Seq<MiniTile> {
    let i = grid_index(p.x as int, p.y as int);
    tiles.update(i, MiniTile { altitude: a as i32, ..tiles[i] })
}

/// The eight neighbour offsets, in the order they are visited.
pub open spec fn around() -> Seq<(int, int)> {
    seq![(-1, 0), (-1, -1), (0, -1), (1, -1), (1, 0), (1, 1), (0, 1), (-1, 1)]
}

/// The keys that the first `n` neighbours of `p` on the map receive with altitude `a`.
pub open spec fn spread<M: MapUtil>(map: &M, p: WalkPosition, a: int, n: int) -> Multiset<u64>
    decreases n,
{
    if n <= 0 {
        Multiset::empty()
    } else {
        let (dx, dy) = around()[n - 1];
        let (qx, qy) = (p.x + dx, p.y + dy);
        spread(map, p, a, n - 1).add(
            if map.state_spec(qx, qy) != TileState::Invalid {
                Multiset::singleton(alt_key(a, qx, qy) as u64)
            } else {
                Multiset::empty()
            },
        )
    }
}

/// One step of the altitude computation: the least key is taken; if its tile has no altitude
/// yet, a walkable tile gets one more than the key's altitude (at least 1) and is recorded, an
/// unwalkable tile one less (at most -1), and its neighbours on the map receive that altitude.
pub open spec fn alt_step<M: MapUtil>(st: AltState, map: &M) -> AltState {
    if st.horizon.len() == 0 {
        st
    } else {
        let e = least(st.horizon);
        let h = st.horizon.remove(e);
        let alt = key_alt(e as int);
        let p = key_pos(e as int);
        let i = grid_index(p.x as int, p.y as int);
        if st.tiles[i].altitude != 0 {
            AltState { horizon: h, ..st }
        } else {
            match map.state_spec(p.x as int, p.y as int) {
                TileState::Walkable => {
                    let a = if alt + 1 > 1 { alt + 1 } else { 1 };
                    AltState {
                        tiles: set_altitude(st.tiles, p, a),
                        horizon: h.add(spread(map, p, a, 8)),
                        sorted: st.sorted.push(p),
                    }
                },
                TileState::Unwalkable => {
                    let a = if alt - 1 < -1 { alt - 1 } else { -1 };
                    AltState {
                        tiles: set_altitude(st.tiles, p, a),
                        horizon: h.add(spread(map, p, a, 8)),
                        sorted: st.sorted,
                    }
                },
                TileState::Invalid => AltState { horizon: h, ..st },
            }
        }
    }
}

/// The altitude computation after `n` steps.
pub open spec fn alt_iter<M: MapUtil>(st: AltState, map: &M, n: nat) -> AltState
    decreases n,
{
    if n == 0 {
        st
    } else {
        alt_step(alt_iter(st, map, (n - 1) as nat), map)
    }
}

/// The walk position with row-major index `j` on a grid `w` walk tiles wide.
pub open spec fn row_major(j: int, w: int) -> WalkPosition {
    WalkPosition { x: (j % w) as i32, y: (j / w) as i32 }
}

/// The coast tiles among the first `n` walk positions of the map, row by row.
pub open spec fn coasts<M: MapUtil>(map: &M, n: int) -> Seq<WalkPosition>
    decreases n,
{
    if n <= 0 {
        Seq::empty()
    } else {
        let p = row_major(n - 1, 4 * map.width_spec());
        if coast(map, p) {
            coasts(map, n - 1).push(p)
        } else {
            coasts(map, n - 1)
        }
    }
}

/// The key of a coast tile: altitude 0 at its position.
pub open spec fn coast_key(p: WalkPosition) -> u64 {
    alt_key(0, p.x as int, p.y as int) as u64
}

/// The keys of coast tiles `s`.
pub open spec fn coast_keys(s: Seq<WalkPosition>) -> Seq<u64> {
    s.map_values(|p: WalkPosition| coast_key(p))
}

/// The altitude computation before its first step: every coast tile waits with altitude 0
/// and is recorded.
pub open spec fn alt_start<M: MapUtil>(map: &M, tiles: Seq<MiniTile>) -> AltState {
    let cs = coasts(map, 16 * map.width_spec() * map.height_spec());
    AltState { tiles, horizon: coast_keys(cs).to_multiset(), sorted: cs }
}

/// The number of tiles without an altitude.
pub open spec fn zeros(s: Seq<MiniTile>) -> int
    decreases s.len(),
{
    if s.len() == 0 {
        0
    } else {
        zeros(s.drop_last()) + (if s.last().altitude == 0 { 1int } else { 0int })
    }
}

/// Between none and all tiles lack an altitude.
pub proof fn lemma_zeros_bounds(s: Seq<MiniTile>)
    ensures
        0 <= zeros(s) <= s.len(),
    decreases s.len(),
{
    if s.len() > 0 {
        lemma_zeros_bounds(s.drop_last());
    }
}

/// When no tile has an altitude, all lack one.
pub proof fn lemma_zeros_all(s: Seq<MiniTile>)
    requires
        forall|i: int| 0 <= i < s.len() ==> (#[trigger] s[i]).altitude == 0,
    ensures
        zeros(s) == s.len(),
    decreases s.len(),
{
    if s.len() > 0 {
        lemma_zeros_all(s.drop_last());
    }
}

/// Giving a tile without an altitude one leaves one fewer without.
pub proof fn lemma_zeros_update(s: Seq<MiniTile>, i: int, t: MiniTile)
    requires
        0 <= i < s.len(),
        s[i].altitude == 0,
        t.altitude != 0,
    ensures
        zeros(s.update(i, t)) == zeros(s) - 1,
    decreases s.len(),
{
    if i == s.len() - 1 {
        assert(s.update(i, t).drop_last() =~= s.drop_last());
    } else {
        lemma_zeros_update(s.drop_last(), i, t);
        assert(s.update(i, t).drop_last() =~= s.drop_last().update(i, t));
    }
}

/// Every tile with an altitude has one of the sign of its ground: positive on walkable
/// ground, negative on unwalkable ground.
#[verifier::opaque]
pub open spec fn signs_ok<M: MapUtil>(map: &M, tiles: Seq<MiniTile>) -> bool {
    forall|i: int| 0 <= i < tiles.len() ==> {
        &&& (#[trigger] tiles[i]).altitude > 0 ==> map.state_spec(i % 1024, i / 1024) == TileState::Walkable
        &&& tiles[i].altitude < 0 ==> map.state_spec(i % 1024, i / 1024) == TileState::Unwalkable
    }
}

/// The altitude computation state matches a step count and keeps its bounds: every altitude
/// and every waiting altitude is at most the number of tiles given one, the recorded tiles
/// lie in the grid and are at most the grid plus that number.
#[verifier::opaque]
pub open spec fn alt_ok(st: AltState, t0: Seq<MiniTile>) -> bool {
    let given = grid_len() - zeros(st.tiles);
    &&& st.tiles.len() == grid_len()
    &&& forall|i: int| 0 <= i < st.tiles.len() ==> {
        &&& (#[trigger] st.tiles[i]).area_id == t0[i].area_id
        &&& abs_int(st.tiles[i].altitude as int) <= given
    }
    &&& forall|e: u64| st.horizon.contains(e) ==> e / 2097152 <= given
    &&& forall|j: int| 0 <= j < st.sorted.len() ==> in_grid(#[trigger] st.sorted[j])
    &&& st.sorted.len() <= grid_len() + given
}

/// The keys that neighbours receive with altitude `a` all carry its magnitude.
pub proof fn lemma_spread_keys<M: MapUtil>(map: &M, p: WalkPosition, a: int, n: int)
    requires
        map_fits(map),
        abs_int(a) <= 0x4000_0000,
        n <= 8,
    ensures
        forall|e: u64| spread(map, p, a, n).contains(e) ==> e / 2097152 == abs_int(a),
    decreases n,
{
    broadcast use vstd::multiset::group_multiset_axioms;
    if n > 0 {
        lemma_spread_keys(map, p, a, n - 1);
        let (dx, dy) = around()[n - 1];
        let (qx, qy) = (p.x + dx, p.y + dy);
        let last = if map.state_spec(qx, qy) != TileState::Invalid {
            Multiset::singleton(alt_key(a, qx, qy) as u64)
        } else {
            Multiset::empty()
        };
        if map.state_spec(qx, qy) != TileState::Invalid {
            lemma_alt_key(a, qx, qy);
        }
        assert forall|e: u64| spread(map, p, a, n).contains(e) implies e / 2097152 == abs_int(a) by {
            if !spread(map, p, a, n - 1).contains(e) {
                assert(last.contains(e));
            }
        }
    }
}

/// Giving tile `p`, without an altitude, altitude `a` of magnitude at most one more than the
/// tiles given one so far, and spreading it, keeps the bounds of the computation.
pub proof fn lemma_alt_set_ok<M: MapUtil>(st: AltState, map: &M, t0: Seq<MiniTile>, e: u64, p: WalkPosition, a: int, record: bool)
    requires
        alt_ok(st, t0),
        map_fits(map),
        st.horizon.contains(e),
        in_grid(p),
        st.tiles[grid_index(p.x as int, p.y as int)].altitude == 0,
        a != 0,
        abs_int(a) <= grid_len() - zeros(st.tiles) + 1,
    ensures
        alt_ok(AltState {
            tiles: set_altitude(st.tiles, p, a),
            horizon: st.horizon.remove(e).add(spread(map, p, a, 8)),
            sorted: if record { st.sorted.push(p) } else { st.sorted },
        }, t0),
        zeros(set_altitude(st.tiles, p, a)) == zeros(st.tiles) - 1,
{
    broadcast use vstd::multiset::group_multiset_axioms;
    reveal(alt_ok);
    lemma_zeros_bounds(st.tiles);
    let i = grid_index(p.x as int, p.y as int);
    let r = AltState {
        tiles: set_altitude(st.tiles, p, a),
        horizon: st.horizon.remove(e).add(spread(map, p, a, 8)),
        sorted: if record { st.sorted.push(p) } else { st.sorted },
    };
    lemma_zeros_update(st.tiles, i, MiniTile { altitude: a as i32, ..st.tiles[i] });
    lemma_spread_keys(map, p, a, 8);
    lemma_zeros_bounds(r.tiles);
    assert forall|j: int| 0 <= j < r.tiles.len() implies {
        &&& (#[trigger] r.tiles[j]).area_id == t0[j].area_id
        &&& abs_int(r.tiles[j].altitude as int) <= grid_len() - zeros(r.tiles)
    } by {
        assert(st.tiles[j].area_id == t0[j].area_id);
        if j != i {
            assert(r.tiles[j] == st.tiles[j]);
        }
    }
    assert(zeros(r.tiles) == zeros(st.tiles) - 1);
    assert forall|f: u64| r.horizon.contains(f) implies f / 2097152 <= grid_len() - zeros(r.tiles) by {
        if spread(map, p, a, 8).contains(f) {
            assert(f / 2097152 == abs_int(a));
        } else {
            assert(st.horizon.remove(e).contains(f));
            assert(st.horizon.contains(f));
        }
    }
    assert forall|j: int| 0 <= j < r.sorted.len() implies in_grid(#[trigger] r.sorted[j]) by {
        if j < st.sorted.len() {
            assert(r.sorted[j] == st.sorted[j]);
        }
    }
}

/// One step of the altitude computation keeps its bounds.
#[verifier::rlimit(40)]
pub proof fn lemma_alt_step_ok<M: MapUtil>(st: AltState, map: &M, t0: Seq<MiniTile>)
    requires
        alt_ok(st, t0),
        map_fits(map),
        st.horizon.len() > 0 ==> st.horizon.contains(least(st.horizon)),
    ensures
        alt_ok(alt_step(st, map), t0),
        st.horizon.len() > 0 ==> {
            ||| zeros(alt_step(st, map).tiles) < zeros(st.tiles)
            ||| zeros(alt_step(st, map).tiles) == zeros(st.tiles) && alt_step(st, map).horizon.len() < st.horizon.len()
        },
{
    broadcast use vstd::multiset::group_multiset_axioms;
    reveal(alt_ok);
    lemma_zeros_bounds(st.tiles);
    if st.horizon.len() > 0 {
        let e = least(st.horizon);
        let alt = key_alt(e as int);
        let p = key_pos(e as int);
        let i = grid_index(p.x as int, p.y as int);
        assert(e / 2097152 <= grid_len() - zeros(st.tiles));
        assert(in_grid(p));
        let state = map.state_spec(p.x as int, p.y as int);
        if st.tiles[i].altitude == 0 && state == TileState::Walkable {
            let a = if alt + 1 > 1 { alt + 1 } else { 1 };
            lemma_alt_set_ok(st, map, t0, e, p, a, true);
            assert(alt_step(st, map) == AltState {
                tiles: set_altitude(st.tiles, p, a),
                horizon: st.horizon.remove(e).add(spread(map, p, a, 8)),
                sorted: st.sorted.push(p),
            });
        } else if st.tiles[i].altitude == 0 && state == TileState::Unwalkable {
            let a = if alt - 1 < -1 { alt - 1 } else { -1 };
            lemma_alt_set_ok(st, map, t0, e, p, a, false);
            assert(alt_step(st, map) == AltState {
                tiles: set_altitude(st.tiles, p, a),
                horizon: st.horizon.remove(e).add(spread(map, p, a, 8)),
                sorted: st.sorted,
            });
        } else {
            assert(alt_step(st, map) == AltState { horizon: st.horizon.remove(e), ..st });
            assert forall|f: u64| st.horizon.remove(e).contains(f) implies f / 2097152 <= grid_len() - zeros(st.tiles) by {
                assert(st.horizon.contains(f));
            }
        }
    }
}

/// The key of walk position `(x, y)` waiting with altitude `alt`.
fn encode_key(alt: i32, x: i32, y: i32) -> (k: u64)
    requires
        abs_int(alt as int) <= 0x4000_0000,
        0 <= x < 1024,
        0 <= y < 1024,
    ensures
        k == alt_key(alt as int, x as int, y as int),
{
    proof {
        lemma_alt_key(alt as int, x as int, y as int);
    }
    let m: u64 = if alt < 0 { (-(alt as i64)) as u64 } else { alt as u64 };
    let s: u64 = if alt < 0 { 1 } else { 0 };
    ((m * 1024 + x as u64) * 1024 + y as u64) * 2 + s
}

/// Pushes the keys that the neighbours of `p` on the map receive with altitude `a`.
fn spread_from<M: MapUtil>(map: &M, horizon: &mut MinHeap, p: WalkPosition, a: i32)
    requires
        old(horizon).wf(),
        map_fits(map),
        in_grid(p),
        abs_int(a as int) <= 0x4000_0000,
    ensures
        final(horizon).wf(),
        final(horizon)@ == old(horizon)@.add(spread(map, p, a as int, 8)),
{
    let offsets: [(i32, i32); 8] = [(-1, 0), (-1, -1), (0, -1), (1, -1), (1, 0), (1, 1), (0, 1), (-1, 1)];
    let ghost h0 = horizon@;
    let mut d: usize = 0;
    while d < 8
        invariant
            d <= 8,
            horizon.wf(),
            map_fits(map),
            in_grid(p),
            abs_int(a as int) <= 0x4000_0000,
            offsets@ == seq![(-1i32, 0i32), (-1i32, -1i32), (0i32, -1i32), (1i32, -1i32), (1i32, 0i32), (1i32, 1i32), (0i32, 1i32), (-1i32, 1i32)],
            horizon@ == h0.add(spread(map, p, a as int, d as int)),
        decreases 8 - d,
    {
        let (dx, dy) = offsets[d];
        assert(around()[d as int] == (dx as int, dy as int));
        let q = WalkPosition::new(p.x + dx, p.y + dy);
        let ghost before = horizon@;
        if map.get_tile_state(&q) != TileState::Invalid {
            let k = encode_key(a, q.x, q.y);
            horizon.push(k);
            assert(horizon@ =~= before.add(Multiset::singleton(k)));
        } else {
            assert(horizon@ =~= before.add(Multiset::<u64>::empty()));
        }
        assert(h0.add(spread(map, p, a as int, d as int + 1)) =~= before.add(
            if map.state_spec(q.x as int, q.y as int) != TileState::Invalid {
                Multiset::singleton(alt_key(a as int, q.x as int, q.y as int) as u64)
            } else {
                Multiset::empty()
            }));
        d = d + 1;
    }
}

/// The coast tiles of the map, row by row, each also waiting with altitude 0.
fn scan_coasts<M: MapUtil>(map: &M) -> (r: (MinHeap, Vec<WalkPosition>))
    requires
        map_fits(map),
    ensures
        r.0.wf(),
        r.0@ == alt_start(map, Seq::<MiniTile>::empty()).horizon,
        r.1@ == alt_start(map, Seq::<MiniTile>::empty()).sorted,
        r.1@.len() <= grid_len(),
        forall|j: int| 0 <= j < r.1@.len() ==> in_grid(#[trigger] r.1@[j]),
        forall|e: u64| r.0@.contains(e) ==> e / 2097152 == 0,
{
    broadcast use {vstd::seq_lib::group_to_multiset_ensures, vstd::multiset::group_multiset_axioms};
    let w4: i32 = map.map_width() * 4;
    let h4: i32 = map.map_height() * 4;
    assert(w4 as usize * h4 as usize <= 1024 * 1024) by (nonlinear_arith)
        requires 0 <= w4 <= 1024, 0 <= h4 <= 1024;
    let total: usize = w4 as usize * h4 as usize;
    assert(total == 16 * map.width_spec() * map.height_spec()) by (nonlinear_arith)
        requires total == (4 * map.width_spec()) * (4 * map.height_spec());
    assert(total <= grid_len()) by (nonlinear_arith)
        requires total == w4 * h4, 0 <= w4 <= 1024, 0 <= h4 <= 1024;
    let mut horizon = MinHeap::new();
    let mut sorted: Vec<WalkPosition> = Vec::new();
    assert(coast_keys(sorted@) =~= Seq::<u64>::empty());
    assert(Seq::<u64>::empty().to_multiset().len() == 0);
    assert(horizon@ =~= coast_keys(sorted@).to_multiset());
    let mut j: usize = 0;
    while j < total
        invariant
            j <= total,
            total == w4 * h4,
            total <= grid_len(),
            w4 == 4 * map.width_spec(),
            0 <= w4 <= 1024,
            0 <= h4 <= 1024,
            map_fits(map),
            horizon.wf(),
            sorted@ == coasts(map, j as int),
            horizon@ == coast_keys(sorted@).to_multiset(),
            sorted@.len() <= j,
            forall|q: int| 0 <= q < sorted@.len() ==> in_grid(#[trigger] sorted@[q]),
            forall|e: u64| horizon@.contains(e) ==> e / 2097152 == 0,
        decreases total - j,
    {
        assert(w4 > 0) by (nonlinear_arith)
            requires j < total, total == w4 * h4, w4 >= 0, h4 >= 0;
        let x = (j % w4 as usize) as i32;
        let y = (j / w4 as usize) as i32;
        assert(y < h4) by (nonlinear_arith)
            requires y == (j as int) / (w4 as int), j < w4 * h4, w4 > 0;
        let wp = WalkPosition::new(x, y);
        assert(wp == row_major(j as int, 4 * map.width_spec()));
        if is_coast(map, wp) {
            let k = encode_key(0, x, y);
            proof {
                lemma_alt_key(0, x as int, y as int);
            }
            let ghost before = sorted@;
            let ghost hb = horizon@;
            horizon.push(k);
            assert forall|e: u64| horizon@.contains(e) implies e / 2097152 == 0 by {
                if e != k {
                    assert(hb.contains(e));
                }
            }
            sorted.push(wp);
            assert(coast_keys(sorted@) =~= coast_keys(before).push(k));
            proof {
                vstd::seq_lib::to_multiset_build(coast_keys(before), k);
            }
            assert(horizon@ =~= coast_keys(sorted@).to_multiset());
        }
        j = j + 1;
    }
    (horizon, sorted)
}

/// Giving tile `i` an altitude of the sign of its ground keeps the signs right.
pub proof fn lemma_signs_set<M: MapUtil>(map: &M, tiles: Seq<MiniTile>, i: int, t: MiniTile)
    requires
        signs_ok(map, tiles),
        0 <= i < tiles.len(),
        t.altitude > 0 ==> map.state_spec(i % 1024, i / 1024) == TileState::Walkable,
        t.altitude < 0 ==> map.state_spec(i % 1024, i / 1024) == TileState::Unwalkable,
    ensures
        signs_ok(map, tiles.update(i, t)),
{
    reveal(signs_ok);
    let u = tiles.update(i, t);
    assert forall|j: int| 0 <= j < u.len() implies {
        &&& (#[trigger] u[j]).altitude > 0 ==> map.state_spec(j % 1024, j / 1024) == TileState::Walkable
        &&& u[j].altitude < 0 ==> map.state_spec(j % 1024, j / 1024) == TileState::Unwalkable
    } by {
        if j != i {
            assert(u[j] == tiles[j]);
        }
    }
}

/// One step of the altitude computation on the tiles, the waiting keys and the recorded
/// walkable tiles.
#[verifier::rlimit(60)]
fn altitude_step<M: MapUtil>(
    map: &M,
    tiles: &mut Vec<MiniTile>,
    horizon: &mut MinHeap,
    sorted: &mut Vec<WalkPosition>,
)
    requires
        map_fits(map),
        old(horizon).wf(),
        old(horizon)@.len() > 0,
        old(tiles)@.len() == grid_len(),
        forall|e: u64| old(horizon)@.contains(e) ==> e / 2097152 <= grid_len(),
        signs_ok(map, old(tiles)@),
    ensures
        final(horizon).wf(),
        signs_ok(map, final(tiles)@),
        old(horizon)@.contains(least(old(horizon)@)),
        (AltState { tiles: final(tiles)@, horizon: final(horizon)@, sorted: final(sorted)@ }) == alt_step(
            AltState { tiles: old(tiles)@, horizon: old(horizon)@, sorted: old(sorted)@ },
            map,
        ),
{
    broadcast use vstd::multiset::group_multiset_axioms;
    let ghost st = AltState { tiles: tiles@, horizon: horizon@, sorted: sorted@ };
    let key = horizon.pop_min();
    assert(key == least(st.horizon));
    assert(st.horizon.contains(key));
    assert(key / 2097152 <= grid_len());
    let mag = key / 2097152;
    let px = ((key / 2048) % 1024) as i32;
    let py = ((key / 2) % 1024) as i32;
    let alt: i32 = if key % 2 == 1 { -(mag as i32) } else { mag as i32 };
    let pos = WalkPosition::new(px, py);
    assert(pos == key_pos(key as int));
    assert(alt == key_alt(key as int));
    let idx = py as usize * MAX_WALK_SIDE + px as usize;
    assert(idx == grid_index(pos.x as int, pos.y as int));
    assert(idx % 1024 == px && idx / 1024 == py);
    if tiles[idx].altitude == 0 {
        let state = map.get_tile_state(&pos);
        if state == TileState::Walkable {
            let a: i32 = if alt + 1 > 1 { alt + 1 } else { 1 };
            let t = tiles[idx];
            tiles.set(idx, MiniTile { altitude: a, ..t });
            proof {
                lemma_signs_set(map, st.tiles, idx as int, MiniTile { altitude: a, ..t });
            }
            sorted.push(pos);
            spread_from(map, horizon, pos, a);
        } else if state == TileState::Unwalkable {
            let a: i32 = if alt - 1 < -1 { alt - 1 } else { -1 };
            let t = tiles[idx];
            tiles.set(idx, MiniTile { altitude: a, ..t });
            proof {
                lemma_signs_set(map, st.tiles, idx as int, MiniTile { altitude: a, ..t });
            }
            spread_from(map, horizon, pos, a);
        }
    }
}

/// The grid before the analysis: no altitude and no area anywhere.
pub open spec fn blank_tiles() -> Seq<MiniTile> {
    Seq::new(grid_len() as nat, |i: int| MiniTile { altitude: 0, area_id: 0 })
}

/// The tile map: the walk tiles of the largest possible map, row by row, and the bases found.
pub struct TileMap {
    pub mini_tiles: Vec<MiniTile>,
    pub bases: Vec<TilePosition>,
}

impl TileMap {
    /// The tile grid has one entry per walk tile of the largest map.
    pub open spec fn grid_ok(&self) -> bool {
        self.mini_tiles@.len() == MAX_WALK_SIDE * MAX_WALK_SIDE
    }

    /// The analysis of a map: its bases, the altitude of each walk tile and the areas grown
    /// from the highest walkable tiles down.
    pub fn new<M: MapUtil>(map: &M) -> (r: Self)
        requires
            map_fits(map),
            minerals_in_range(map.minerals_spec()),
        ensures
            r.bases@ == clusters(map.minerals_spec()).map_values(|b: PotentialBase| cluster_center(b)),
            exists|n: nat| {
                let st = #[trigger] alt_iter(alt_start(map, blank_tiles()), map, n);
                &&& st.horizon.len() == 0
                &&& r.mini_tiles@ == grow_all(grow_start(st.tiles), map, st.sorted.reverse()).tiles
            },
    {
        let mut mini_tiles: Vec<MiniTile> = Vec::new();
        let mut i: usize = 0;
        while i < MAX_WALK_SIDE * MAX_WALK_SIDE
            invariant
                i <= MAX_WALK_SIDE * MAX_WALK_SIDE,
                mini_tiles@ == blank_tiles().take(i as int),
            decreases MAX_WALK_SIDE * MAX_WALK_SIDE - i,
        {
            mini_tiles.push(MiniTile::default());
            i = i + 1;
            assert(mini_tiles@ =~= blank_tiles().take(i as int));
        }
        assert(mini_tiles@ =~= blank_tiles());
        let mut result = TileMap { mini_tiles, bases: Vec::new() };
        result.create_bases(map);
        let sorted = result.compute_altitude(map);
        let ghost alt_tiles = result.mini_tiles@;
        let ghost n = choose|n: nat| {
            let st = #[trigger] alt_iter(alt_start(map, blank_tiles()), map, n);
            &&& st.horizon.len() == 0
            &&& alt_tiles == st.tiles
            &&& sorted@ == st.sorted.reverse()
        };
        proof {
            assert forall|j: int| 0 <= j < alt_tiles.len() implies {
                &&& 0 <= #[trigger] alt_tiles[j].area_id < 1
                &&& -ALT_LIMIT <= alt_tiles[j].altitude <= ALT_LIMIT
            } by {
                assert(alt_tiles[j].area_id == blank_tiles()[j].area_id);
                assert(abs_int(alt_tiles[j].altitude as int) <= grid_len());
            }
        }
        result.create_areas(map, sorted);
        assert(alt_iter(alt_start(map, blank_tiles()), map, n).horizon.len() == 0);
        result
    }

    /// The areas around `pos`, looking left, up, right and down in that order.
    pub fn find_adjacent_areas<M: MapUtil>(&self, map: &M, pos: WalkPosition) -> (r: Neighbor)
        requires
            self.grid_ok(),
            map_fits(map),
            i32::MIN < pos.x < i32::MAX,
            i32::MIN < pos.y < i32::MAX,
        ensures
            r == adjacent_areas(self.mini_tiles@, map, pos),
    {
        let mut result = Neighbor::Nothing;
        let ghost tiles = self.mini_tiles@;
        let offsets: [(i32, i32); 4] = [(-1, 0), (0, -1), (1, 0), (0, 1)];
        let mut k: usize = 0;
        while k < 4
            invariant
                k <= 4,
                tiles == self.mini_tiles@,
                self.grid_ok(),
                map_fits(map),
                i32::MIN < pos.x < i32::MAX,
                i32::MIN < pos.y < i32::MAX,
                offsets@ == seq![(-1i32, 0i32), (0i32, -1i32), (1i32, 0i32), (0i32, 1i32)],
                k == 0 ==> result == Neighbor::Nothing,
                k == 1 ==> result == neighbor_step(Neighbor::Nothing, area_seen(tiles, map, pos.x - 1, pos.y as int)),
                k == 2 ==> result == neighbor_step(
                    neighbor_step(Neighbor::Nothing, area_seen(tiles, map, pos.x - 1, pos.y as int)),
                    area_seen(tiles, map, pos.x as int, pos.y - 1)),
                k == 3 ==> result == neighbor_step(neighbor_step(
                    neighbor_step(Neighbor::Nothing, area_seen(tiles, map, pos.x - 1, pos.y as int)),
                    area_seen(tiles, map, pos.x as int, pos.y - 1)), area_seen(tiles, map, pos.x + 1, pos.y as int)),
                k == 4 ==> result == adjacent_areas(tiles, map, pos),
            decreases 4 - k,
        {
            let (dx, dy) = offsets[k];
            let p = WalkPosition::new(pos.x + dx, pos.y + dy);
            let mut area_id: i32 = 0;
            if map.get_tile_state(&p) != TileState::Invalid {
                assert(0 <= p.x < 1024 && 0 <= p.y < 1024);
                let i = p.y as usize * MAX_WALK_SIDE + p.x as usize;
                assert(i == grid_index(p.x as int, p.y as int));
                area_id = self.mini_tiles[i].area_id;
            }
            assert(area_id == area_seen(tiles, map, p.x as int, p.y as int));
            if area_id > 0 {
                result = match result {
                    Neighbor::Nothing => Neighbor::One(area_id),
                    Neighbor::One(x) => if x != area_id { Neighbor::Two(x, area_id) } else { result },
                    Neighbor::Two(x, y) => if x != area_id && area_id < y { Neighbor::Two(x, area_id) } else { result },
                };
            }
            k = k + 1;
        }
        result
    }

    /// The bases: the centers of the clusters of static minerals, where each mineral joins the
    /// first cluster whose center is less than 16 tiles away, or starts a new one.
    pub fn create_bases<M: MapUtil>(&mut self, map: &M)
        requires
            minerals_in_range(map.minerals_spec()),
        ensures
            final(self).bases@ == clusters(map.minerals_spec()).map_values(|b: PotentialBase| cluster_center(b)),
            final(self).mini_tiles@ == old(self).mini_tiles@,
    {
        let minerals = map.get_static_minerals();
        let mut pot_bases: Vec<PotentialBase> = Vec::new();
        let mut i: usize = 0;
        while i < minerals.len()
            invariant
                i <= minerals@.len(),
                minerals@ == map.minerals_spec(),
                minerals_in_range(minerals@),
                pot_bases@ == clusters(minerals@.take(i as int)),
                pot_bases@.len() <= i,
                forall|j: int| 0 <= j < pot_bases@.len() ==> cluster_ok(#[trigger] pot_bases@[j]) && pot_bases@[j].count <= i,
            decreases minerals@.len() - i,
        {
            let mineral = minerals[i];
            assert(minerals@.take(i as int + 1).drop_last() =~= minerals@.take(i as int));
            assert(minerals@.take(i as int + 1).last() == mineral);
            let ghost before = pot_bases@;
            let joined = find_joined(&pot_bases, mineral);
            if let Some(j) = joined {
                let b = pot_bases[j];
                assert(b.agg_x + mineral.x <= (b.count + 1) * 4095) by (nonlinear_arith)
                    requires b.agg_x <= b.count * 4095, mineral.x < 4096, mineral.x >= 0, b.count >= 1;
                assert(b.agg_y + mineral.y <= (b.count + 1) * 4095) by (nonlinear_arith)
                    requires b.agg_y <= b.count * 4095, mineral.y < 4096, mineral.y >= 0, b.count >= 1;
                assert((b.count + 1) * 4095 <= 65536 * 4095) by (nonlinear_arith)
                    requires b.count + 1 <= 65536;
                let nb = PotentialBase { agg_x: b.agg_x + mineral.x, agg_y: b.agg_y + mineral.y, count: b.count + 1 };
                pot_bases.set(j, nb);
            } else {
                assert(first_joined(before, mineral, before.len() as int) == None::<int>);
                pot_bases.push(PotentialBase { agg_x: mineral.x, agg_y: mineral.y, count: 1 });
            }
            assert(pot_bases@ =~= cluster_step(before, mineral));
            i = i + 1;
        }
        assert(minerals@.take(minerals@.len() as int) =~= minerals@);
        let mut bases: Vec<TilePosition> = Vec::new();
        let mut k: usize = 0;
        while k < pot_bases.len()
            invariant
                k <= pot_bases@.len(),
                forall|j: int| 0 <= j < pot_bases@.len() ==> cluster_ok(#[trigger] pot_bases@[j]),
                bases@ == pot_bases@.take(k as int).map_values(|b: PotentialBase| cluster_center(b)),
            decreases pot_bases@.len() - k,
        {
            let b = pot_bases[k];
            proof {
                lemma_center_in_range(b);
            }
            bases.push(TilePosition::new(b.agg_x / b.count, b.agg_y / b.count));
            k = k + 1;
            assert(bases@ =~= pot_bases@.take(k as int).map_values(|b: PotentialBase| cluster_center(b)));
        }
        assert(pot_bases@.take(pot_bases@.len() as int) =~= pot_bases@);
        self.bases = bases;
    }

    /// The altitudes: from the coast tiles outward, each walk tile gets, the first time a
    /// neighbour reaches it, one more than that neighbour (at least 1) if walkable and one
    /// less (at most -1) if not; the neighbours waiting with the smallest altitude in
    /// magnitude, then smallest x, then smallest y go first. Returns the walkable tiles from
    /// the last to get its altitude to the first, the coast tiles among them twice.
    #[verifier::rlimit(50)]
    pub fn compute_altitude<M: MapUtil>(&mut self, map: &M) -> (r: Vec<WalkPosition>)
        requires
            old(self).mini_tiles@.len() == grid_len(),
            forall|i: int| 0 <= i < old(self).mini_tiles@.len() ==> (#[trigger] old(self).mini_tiles@[i]).altitude == 0,
            map_fits(map),
        ensures
            exists|n: nat| {
                let st = #[trigger] alt_iter(alt_start(map, old(self).mini_tiles@), map, n);
                &&& st.horizon.len() == 0
                &&& final(self).mini_tiles@ == st.tiles
                &&& r@ == st.sorted.reverse()
            },
            final(self).bases@ == old(self).bases@,
            final(self).mini_tiles@.len() == grid_len(),
            forall|i: int| 0 <= i < final(self).mini_tiles@.len() ==> {
                &&& (#[trigger] final(self).mini_tiles@[i]).area_id == old(self).mini_tiles@[i].area_id
                &&& abs_int(final(self).mini_tiles@[i].altitude as int) <= grid_len()
            },
            r@.len() <= 2 * grid_len(),
            forall|j: int| 0 <= j < r@.len() ==> in_grid(#[trigger] r@[j]),
            signs_ok(map, final(self).mini_tiles@),
    {
        broadcast use vstd::multiset::group_multiset_axioms;
        let (mut horizon, mut sorted) = scan_coasts(map);
        let ghost t0 = self.mini_tiles@;
        let ghost start = alt_start(map, t0);
        let ghost mut n: nat = 0;
        proof {
            lemma_zeros_all(t0);
            assert forall|i: int| 0 <= i < t0.len() implies {
                &&& (#[trigger] t0[i]).area_id == t0[i].area_id
                &&& abs_int(t0[i].altitude as int) <= grid_len() - zeros(t0)
            } by {
                assert(t0[i].altitude == 0);
            }
            reveal(alt_ok);
            assert(alt_ok(start, t0));
            reveal(signs_ok);
            assert(signs_ok(map, t0));
        }
        while horizon.len() > 0
            invariant
                map_fits(map),
                horizon.wf(),
                alt_ok(alt_iter(start, map, n), t0),
                self.mini_tiles@ == alt_iter(start, map, n).tiles,
                horizon@ == alt_iter(start, map, n).horizon,
                sorted@ == alt_iter(start, map, n).sorted,
                self.bases@ == old(self).bases@,
                t0 == old(self).mini_tiles@,
                start == alt_start(map, t0),
                signs_ok(map, self.mini_tiles@),
            decreases zeros(self.mini_tiles@), horizon@.len(),
        {
            let ghost st = alt_iter(start, map, n);
            proof {
                lemma_zeros_bounds(st.tiles);
                reveal(alt_ok);
            }
            altitude_step(map, &mut self.mini_tiles, &mut horizon, &mut sorted);
            proof {
                lemma_alt_step_ok(st, map, t0);
                lemma_zeros_bounds(self.mini_tiles@);
                assert(alt_iter(start, map, (n + 1) as nat) == alt_step(st, map));
            }
            proof {
                n = n + 1;
            }
        }
        let ghost fin = alt_iter(start, map, n);
        assert(fin.horizon.len() == 0);
        let mut r: Vec<WalkPosition> = Vec::new();
        let ghost full = sorted@;
        while sorted.len() > 0
            invariant
                full == fin.sorted,
                sorted@ == full.take(sorted@.len() as int),
                sorted@.len() <= full.len(),
                r@ == full.skip(sorted@.len() as int).reverse(),
            decreases sorted@.len(),
        {
            let p = sorted.pop().unwrap();
            r.push(p);
            assert(r@ =~= full.skip(sorted@.len() as int).reverse());
        }
        assert(full.skip(0) =~= full);
        proof {
            lemma_zeros_bounds(fin.tiles);
            reveal(alt_ok);
        }
        r
    }

    /// The areas: the walk tiles `sorted`, highest first, each join the area of their
    /// neighbours, start a new area when they have none, and between two areas either merge
    /// them or go to each in turn.
    pub fn create_areas<M: MapUtil>(&mut self, map: &M, sorted: Vec<WalkPosition>)
        requires
            tiles_ok(old(self).mini_tiles@, 1),
            map_fits(map),
            sorted@.len() < i32::MAX,
            forall|i: int| 0 <= i < sorted@.len() ==> in_grid(#[trigger] sorted@[i]),
        ensures
            final(self).mini_tiles@ == grow_all(grow_start(old(self).mini_tiles@), map, sorted@).tiles,
            final(self).bases@ == old(self).bases@,
    {
        broadcast use vstd::std_specs::hash::group_hash_axioms;
        let ghost t0 = self.mini_tiles@;
        let mut areas: Vec<AreaHolder> = Vec::new();
        areas.push(AreaHolder { id: 0, wps: Vec::new(), max_alt: 0 });
        let mut border_count: HashMap<u64, i32> = HashMap::new();
        let ghost mut s = grow_start(t0);
        proof {
            assert(sorted@.take(0) =~= Seq::<WalkPosition>::empty());
            assert(areas@[0].wps@ =~= Seq::<WalkPosition>::empty());
            assert(holders_match(areas@, s.areas));
            assert(grow_ok(s, 0));
        }
        let mut k: usize = 0;
        while k < sorted.len()
            invariant
                k <= sorted@.len(),
                sorted@.len() < i32::MAX,
                forall|i: int| 0 <= i < sorted@.len() ==> in_grid(#[trigger] sorted@[i]),
                map_fits(map),
                s == grow_all(grow_start(t0), map, sorted@.take(k as int)),
                grow_ok(s, k as int),
                self.mini_tiles@ == s.tiles,
                self.bases@ == old(self).bases@,
                holders_match(areas@, s.areas),
                counts_match(border_count@, s.counts),
            decreases sorted@.len() - k,
        {
            let pos = sorted[k];
            assert(in_grid(sorted@[k as int]));
            let n = areas.len();
            proof {
                lemma_adjacent_ok(s.tiles, map, pos, n as int);
                lemma_grow_step_ok(s, map, pos, k as int);
            }
            let ghost next = grow_step(s, map, pos);
            let idx = pos.y as usize * MAX_WALK_SIDE + pos.x as usize;
            assert(idx == grid_index(pos.x as int, pos.y as int));
            let nb = self.find_adjacent_areas(map, pos);
            match nb {
                Neighbor::Nothing => {
                    let alt = self.mini_tiles[idx].altitude;
                    let mut area = AreaHolder { id: n as i32, wps: Vec::new(), max_alt: alt };
                    area.add(pos, &mut self.mini_tiles);
                    let ghost before = areas@;
                    areas.push(area);
                    proof {
                        assert(area.wps@ =~= seq![pos]);
                        assert forall|i: int| 0 <= i < areas@.len() implies (#[trigger] areas@[i]).model() == next.areas[i] by {
                            if i < n {
                                assert(areas@[i] == before[i]);
                            }
                        }
                    }
                },
                Neighbor::One(id) => {
                    let ghost before = areas@;
                    areas[id as usize].add(pos, &mut self.mini_tiles);
                    proof {
                        assert forall|i: int| 0 <= i < areas@.len() implies (#[trigger] areas@[i]).model() == next.areas[i] by {
                            if i != id {
                                assert(areas@[i] == before[i]);
                            }
                        }
                    }
                },
                Neighbor::Two(x, y) => {
                    let ghost before = areas@;
                    let mut smaller: usize = x as usize;
                    let mut bigger: usize = y as usize;
                    if areas[smaller].wps.len() > areas[bigger].wps.len() {
                        smaller = y as usize;
                        bigger = x as usize;
                    }
                    let a: usize = if smaller > bigger { bigger } else { smaller };
                    let b: usize = if smaller > bigger { smaller } else { bigger };
                    let current_alt = self.mini_tiles[idx].altitude;
                    assert(0 <= s.tiles[idx as int].area_id);
                    assert(s.areas[bigger as int].id == bigger);
                    assert(s.areas[smaller as int].id == smaller);
                    assert(areas@[smaller as int].model() == s.areas[smaller as int]);
                    assert(areas@[bigger as int].model() == s.areas[bigger as int]);
                    if areas[smaller].wps.len() < 80 || areas[smaller].max_alt < 10
                        || current_alt * 10 > areas[bigger].max_alt * 9
                        || current_alt * 10 > areas[smaller].max_alt * 9
                    {
                        let ghost small = s.areas[smaller as int];
                        let ghost big = s.areas[bigger as int];
                        areas[bigger].wps.push(pos);
                        relabel_tiles(&mut self.mini_tiles, &areas[smaller].wps, bigger as i32);
                        let mut tmp: Vec<WalkPosition> = Vec::new();
                        std::mem::swap(&mut tmp, &mut areas[smaller].wps);
                        areas[bigger].wps.append(&mut tmp);
                        areas[bigger].add(pos, &mut self.mini_tiles);
                        proof {
                            assert(areas@[bigger as int].wps@ =~= big.wps.push(pos) + small.wps.push(pos));
                            assert(areas@[smaller as int].wps@ =~= Seq::<WalkPosition>::empty());
                            assert forall|i: int| 0 <= i < areas@.len() implies (#[trigger] areas@[i]).model() == next.areas[i] by {
                                if i != smaller && i != bigger {
                                    assert(areas@[i] == before[i]);
                                }
                            }
                        }
                    } else {
                        let key: u64 = a as u64 * 0x1_0000_0000 + b as u64;
                        proof {
                            lemma_pair_key(a as int, b as int, a as int, b as int);
                        }
                        assert(key == pair_key(a as int, b as int));
                        assert(s.counts.contains_key((a as int, b as int)) == border_count@.contains_key(key));
                        let value: i32 = match border_count.get(&key) {
                            Some(v) => *v,
                            None => 0,
                        };
                        let chosen: usize = if value % 2 == 0 { a } else { b };
                        let ghost hm0 = border_count@;
                        border_count.insert(key, value + 1);
                        let ghost mid = areas@;
                        areas[chosen].wps.push(pos);
                        areas[chosen].add(pos, &mut self.mini_tiles);
                        proof {
                            assert forall|i: int| 0 <= i < areas@.len() implies (#[trigger] areas@[i]).model() == next.areas[i] by {
                                if i != chosen {
                                    assert(areas@[i] == before[i]);
                                } else {
                                    assert(areas@[i].wps@ =~= before[i].wps@.push(pos).push(pos));
                                }
                            }
                            assert forall|a2: int, b2: int| 0 <= a2 < 0x1_0000_0000 && 0 <= b2 < 0x1_0000_0000 implies {
                                &&& #[trigger] next.counts.contains_key((a2, b2)) == border_count@.contains_key(pair_key(a2, b2))
                                &&& next.counts.contains_key((a2, b2)) ==> next.counts[(a2, b2)] == border_count@[pair_key(a2, b2)]
                            } by {
                                lemma_pair_key(a2, b2, a as int, b as int);
                                assert(s.counts.contains_key((a2, b2)) == hm0.contains_key(pair_key(a2, b2)));
                            }
                        }
                    }
                },
            }
            proof {
                assert(sorted@.take(k as int + 1).drop_last() =~= sorted@.take(k as int));
                assert(sorted@.take(k as int + 1).last() == pos);
                s = next;
            }
            k = k + 1;
        }
        assert(sorted@.take(sorted@.len() as int) =~= sorted@);
    }
}

/// The first cluster that mineral `m` joins.
fn find_joined(pot_bases: &Vec<PotentialBase>, mineral: TilePosition) -> (r: Option<usize>)
    requires
        0 <= mineral.x < 4096, 0 <= mineral.y < 4096,
        forall|k: int| 0 <= k < pot_bases@.len() ==> cluster_ok(#[trigger] pot_bases@[k]),
    ensures
        r matches Some(j) ==> j < pot_bases@.len() && first_joined(pot_bases@, mineral, 0) == Some(j as int),
        r is None ==> first_joined(pot_bases@, mineral, 0) == None::<int>,
{
    let mut j: usize = 0;
    while j < pot_bases.len()
        invariant
            j <= pot_bases@.len(),
            0 <= mineral.x < 4096, 0 <= mineral.y < 4096,
            forall|k: int| 0 <= k < pot_bases@.len() ==> cluster_ok(#[trigger] pot_bases@[k]),
            first_joined(pot_bases@, mineral, 0) == first_joined(pot_bases@, mineral, j as int),
        decreases pot_bases@.len() - j,
    {
        let b = pot_bases[j];
        proof {
            lemma_center_in_range(b);
        }
        let cx = b.agg_x / b.count;
        let cy = b.agg_y / b.count;
        let dx = cx - mineral.x;
        let dy = cy - mineral.y;
        assert(dx * dx <= 4096 * 4096 && dy * dy <= 4096 * 4096) by (nonlinear_arith)
            requires -4096 <= dx <= 4096, -4096 <= dy <= 4096;
        assert(dx * dx >= 0 && dy * dy >= 0) by (nonlinear_arith);
        if dx * dx + dy * dy < 16 * 16 {
            return Some(j);
        }
        j = j + 1;
    }
    None
}

/// The center of a cluster lies within the range of its minerals.
pub proof fn lemma_center_in_range(b: PotentialBase)
    requires
        cluster_ok(b),
    ensures
        0 <= b.agg_x / b.count <= 4095,
        0 <= b.agg_y / b.count <= 4095,
        cluster_center(b).x == b.agg_x / b.count,
        cluster_center(b).y == b.agg_y / b.count,
{
    assert(0 <= b.agg_x / b.count <= 4095) by (nonlinear_arith)
        requires 0 <= b.agg_x <= b.count * 4095, b.count >= 1;
    assert(0 <= b.agg_y / b.count <= 4095) by (nonlinear_arith)
        requires 0 <= b.agg_y <= b.count * 4095, b.count >= 1;
}


/// The squared distance in tiles between the center of cluster `b` and mineral `m`.
pub open spec fn center_gap(b: PotentialBase, m: TilePosition) -> int {
    let c = cluster_center(b);
    (c.x - m.x) * (c.x - m.x) + (c.y - m.y) * (c.y - m.y)
}

/// The first cluster from index `i` on that mineral `m` joins is the first whose center lies
/// less than 16 tiles from it.
pub proof fn lemma_first_joined(bases: Seq<PotentialBase>, m: TilePosition, i: int)
    requires
        0 <= i,
    ensures
        match first_joined(bases, m, i) {
            Some(j) => i <= j < bases.len() && center_gap(bases[j], m) < 256
                && forall|k: int| i <= k < j ==> center_gap(#[trigger] bases[k], m) >= 256,
            None => forall|k: int| i <= k < bases.len() ==> center_gap(#[trigger] bases[k], m) >= 256,
        },
    decreases bases.len() - i,
{
    if i < bases.len() {
        lemma_first_joined(bases, m, i + 1);
    }
}

/// A mineral joins the first cluster whose center lies less than 16 tiles (a squared distance
/// below 256) from it, adding its coordinates and one to the count; a mineral no cluster's
/// center is that close to starts a cluster of its own at the end.
pub proof fn law_minerals_join_the_first_near_cluster(bases: Seq<PotentialBase>, m: TilePosition, j: int)
    ensures
        0 <= j < bases.len() && center_gap(bases[j], m) < 256
            && (forall|k: int| 0 <= k < j ==> center_gap(#[trigger] bases[k], m) >= 256)
            ==> cluster_step(bases, m) == bases.update(j, PotentialBase {
                agg_x: (bases[j].agg_x + m.x) as i32,
                agg_y: (bases[j].agg_y + m.y) as i32,
                count: (bases[j].count + 1) as i32,
            }),
        (forall|k: int| 0 <= k < bases.len() ==> center_gap(#[trigger] bases[k], m) >= 256)
            ==> cluster_step(bases, m) == bases.push(PotentialBase { agg_x: m.x, agg_y: m.y, count: 1 }),
{
    lemma_first_joined(bases, m, 0);
    match first_joined(bases, m, 0) {
        Some(f) => {
            if 0 <= j < bases.len() && center_gap(bases[j], m) < 256
                && (forall|k: int| 0 <= k < j ==> center_gap(#[trigger] bases[k], m) >= 256) {
                if f < j {
                    assert(center_gap(bases[f], m) >= 256);
                } else if j < f {
                    assert(center_gap(bases[j], m) >= 256);
                }
            }
        },
        None => {},
    }
}

/// Two minerals less than 16 tiles apart (a squared distance below 256) make one cluster,
/// whose center is their mean; two farther apart make two clusters, one at each.
pub proof fn law_two_minerals(a: TilePosition, b: TilePosition)
    requires
        0 <= a.x < 4096, 0 <= a.y < 4096,
        0 <= b.x < 4096, 0 <= b.y < 4096,
    ensures
        (a.x - b.x) * (a.x - b.x) + (a.y - b.y) * (a.y - b.y) < 256 ==> {
            &&& clusters(seq![a, b]).len() == 1
            &&& clusters(seq![a, b]).map_values(|p: PotentialBase| cluster_center(p))[0]
                == TilePosition { x: ((a.x + b.x) / 2) as i32, y: ((a.y + b.y) / 2) as i32 }
        },
        (a.x - b.x) * (a.x - b.x) + (a.y - b.y) * (a.y - b.y) >= 256 ==> {
            &&& clusters(seq![a, b]).len() == 2
            &&& clusters(seq![a, b]).map_values(|p: PotentialBase| cluster_center(p))[0] == a
            &&& clusters(seq![a, b]).map_values(|p: PotentialBase| cluster_center(p))[1] == b
        },
{
    let s = seq![a, b];
    assert(s.drop_last() =~= seq![a]);
    assert(seq![a].drop_last() =~= Seq::<TilePosition>::empty());
    let one = clusters(seq![a]);
    let e = Seq::<PotentialBase>::empty();
    assert(clusters(Seq::<TilePosition>::empty()) == e);
    assert(clusters(seq![a]) == cluster_step(clusters(seq![a].drop_last()), a));
    assert(first_joined(e, a, 0) == None::<int>);
    assert(cluster_step(e, a) =~= seq![PotentialBase { agg_x: a.x, agg_y: a.y, count: 1 }]);
    assert(one == seq![PotentialBase { agg_x: a.x, agg_y: a.y, count: 1 }]);
    let p = one[0];
    assert(cluster_center(p) == a);
    assert(center_gap(p, b) == (a.x - b.x) * (a.x - b.x) + (a.y - b.y) * (a.y - b.y));
    law_minerals_join_the_first_near_cluster(one, b, 0);
    let q = PotentialBase { agg_x: (a.x + b.x) as i32, agg_y: (a.y + b.y) as i32, count: 2 };
    assert(trunc_div((a.x + b.x) as int, 2) == (a.x + b.x) / 2);
}


/// Two neighbouring areas merge at a tile of altitude `alt` when the smaller has fewer than 80
/// tiles, or its first tile lies lower than 10, or the tile lies higher than nine tenths of
/// either area's first tile; otherwise the tile lies on the frontier between them.
pub proof fn law_merge_rule(smaller: AreaModel, bigger: AreaModel, alt: int)
    ensures
        smaller.wps.len() < 80 ==> merges(smaller, bigger, alt),
        smaller.max_alt < 10 ==> merges(smaller, bigger, alt),
        alt * 10 > bigger.max_alt * 9 ==> merges(smaller, bigger, alt),
        alt * 10 > smaller.max_alt * 9 ==> merges(smaller, bigger, alt),
        smaller.wps.len() >= 80 && smaller.max_alt >= 10 && alt * 10 <= bigger.max_alt * 9
            && alt * 10 <= smaller.max_alt * 9 ==> !merges(smaller, bigger, alt),
{
}

} // verus!
