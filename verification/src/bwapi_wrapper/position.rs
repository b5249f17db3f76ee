//! Positions on the map at three granularities: pixels, walk tiles (8x8 pixels)
//! and build tiles (32x32 pixels).
use vstd::prelude::*;

verus! {

/// A position on the map whose unit is `N` pixels.
#[derive(Default, Debug, Copy, Clone, Eq, PartialEq)]
pub struct ScaledPosition<const N: u32> {
    pub x: i32,
    pub y: i32,
}

/// A position in pixels.
pub type Position = ScaledPosition<1>;

/// A position in walk tiles (8 x 8 pixels).
pub type WalkPosition = ScaledPosition<8>;

/// A position in build tiles (32 x 32 pixels).
pub type TilePosition = ScaledPosition<32>;

/// A plain `(x, y)` pair.
pub type PositionTuple = (i32, i32);

/// Integer division that rounds toward zero, as Rust's `/` does on integers.
pub open spec fn trunc_div(a: int, b: int) -> int {
    if a >= 0 {
        a / b
    } else {
        -((-a) / b)
    }
}

/// Absolute value of an integer.
pub open spec fn abs_int(a: int) -> int {
    if a < 0 {
        -a
    } else {
        a
    }
}

/// The absolute value of `v`.
pub fn abs_i32(v: i32) -> (r: i32)
    requires
        v > i32::MIN,
    ensures
        r == abs_int(v as int),
{
    if v < 0 {
        -v
    } else {
        v
    }
}

/// True when `v` fits in an `i32`.
pub open spec fn fits_i32(v: int) -> bool {
    i32::MIN <= v <= i32::MAX
}

/// True when `v` fits in an `i32` and its absolute value does too.
pub open spec fn abs_fits_i32(v: int) -> bool {
    i32::MIN < v <= i32::MAX
}

/// The four orthogonal neighbour offsets: up, left, right, down.
pub fn dir_4<const N: u32>() -> (r: [ScaledPosition<N>; 4])
    ensures
        r@ == seq![
            (ScaledPosition::<N> { x: 0i32, y: -1i32 }),
            (ScaledPosition::<N> { x: -1i32, y: 0i32 }),
            (ScaledPosition::<N> { x: 1i32, y: 0i32 }),
            (ScaledPosition::<N> { x: 0i32, y: 1i32 }),
        ],
{
    [
        ScaledPosition::<N>::new(0, -1),
        ScaledPosition::<N>::new(-1, 0),
        ScaledPosition::<N>::new(1, 0),
        ScaledPosition::<N>::new(0, 1),
    ]
}

/// The eight neighbour offsets, clockwise starting at the upper left corner.
pub fn dir_8<const N: u32>() -> (r: [ScaledPosition<N>; 8])
    ensures
        r@ == seq![
            (ScaledPosition::<N> { x: -1i32, y: -1i32 }),
            (ScaledPosition::<N> { x: 0i32, y: -1i32 }),
            (ScaledPosition::<N> { x: 1i32, y: -1i32 }),
            (ScaledPosition::<N> { x: 1i32, y: 0i32 }),
            (ScaledPosition::<N> { x: 1i32, y: 1i32 }),
            (ScaledPosition::<N> { x: 0i32, y: 1i32 }),
            (ScaledPosition::<N> { x: -1i32, y: 1i32 }),
            (ScaledPosition::<N> { x: -1i32, y: 0i32 }),
        ],
{
    [
        ScaledPosition::<N>::new(-1, -1),
        ScaledPosition::<N>::new(0, -1),
        ScaledPosition::<N>::new(1, -1),
        ScaledPosition::<N>::new(1, 0),
        ScaledPosition::<N>::new(1, 1),
        ScaledPosition::<N>::new(0, 1),
        ScaledPosition::<N>::new(-1, 1),
        ScaledPosition::<N>::new(-1, 0),
    ]
}

/// A coordinate `c` in units of `i` pixels, expressed in units of `o` pixels.
pub open spec fn rescale(c: int, i: int, o: int) -> int {
    trunc_div(c * i, o)
}

/// True when converting `pos` from scale `i` does not overflow.
pub open spec fn rescale_fits(x: int, y: int, i: int) -> bool {
    fits_i32(x * i) && fits_i32(y * i)
}

fn pos_to_pos<const I: u32, const O: u32>(pos: ScaledPosition<I>) -> (r: ScaledPosition<O>)
    requires
        1 <= I <= i32::MAX,
        1 <= O <= i32::MAX,
        rescale_fits(pos.x as int, pos.y as int, I as int),
    ensures
        r.x == rescale(pos.x as int, I as int, O as int),
        r.y == rescale(pos.y as int, I as int, O as int),
{
    let i = I as i32;
    let o = O as i32;
    ScaledPosition { x: pos.x * i / o, y: pos.y * i / o }
}

impl Position {
    /// The build tile that holds this pixel position (coordinates divided by 32, toward zero).
    pub fn to_tile_position(self) -> (r: TilePosition)
        ensures
            r.x == trunc_div(self.x as int, 32),
            r.y == trunc_div(self.y as int, 32),
    {
        pos_to_pos::<1, 32>(self)
    }

    /// The walk tile that holds this pixel position (coordinates divided by 8, toward zero).
    pub fn to_walk_position(self) -> (r: WalkPosition)
        ensures
            r.x == trunc_div(self.x as int, 8),
            r.y == trunc_div(self.y as int, 8),
    {
        pos_to_pos::<1, 8>(self)
    }

    /// A cheap approximation of the Euclidean distance to `other`, as Starcraft computes it.
    pub fn get_approx_distance(&self, other: Position) -> (r: i32)
        requires
            approx_distance_fits(self.x - other.x, self.y - other.y),
        ensures
            r == approx_distance(self.x - other.x, self.y - other.y),
    {
        let p = other;
        let mut max = abs_i32(self.x - p.x);
        let mut min = abs_i32(self.y - p.y);

        if max < min {
            let t = max;
            max = min;
            min = t;
        }

        if min <= max / 4 {
            return max;
        }

        let min_calc = (3 * min) / 8;
        (min_calc / 32) + min_calc + max - (max / 16) - (max / 64)
    }
}

/// The larger of two integers.
pub open spec fn max_int(a: int, b: int) -> int {
    if a < b {
        b
    } else {
        a
    }
}

/// The smaller of two integers.
pub open spec fn min_int(a: int, b: int) -> int {
    if a < b {
        a
    } else {
        b
    }
}

/// Starcraft's octagonal distance approximation for the offset `(dx, dy)`.
pub open spec fn approx_distance(dx: int, dy: int) -> int {
    let hi = max_int(abs_int(dx), abs_int(dy));
    let lo = min_int(abs_int(dx), abs_int(dy));
    if lo <= hi / 4 {
        hi
    } else {
        let mc = (3 * lo) / 8;
        mc / 32 + mc + hi - hi / 16 - hi / 64
    }
}

/// The offsets for which the approximation is computed without overflow.
pub open spec fn approx_distance_fits(dx: int, dy: int) -> bool {
    let hi = max_int(abs_int(dx), abs_int(dy));
    let lo = min_int(abs_int(dx), abs_int(dy));
    &&& abs_fits_i32(dx)
    &&& abs_fits_i32(dy)
    &&& (lo <= hi / 4 || (3 * lo <= i32::MAX && (3 * lo) / 8 / 32 + (3 * lo) / 8 + hi
        <= i32::MAX))
}

impl TilePosition {
    /// The pixel position of this tile's upper left corner.
    pub fn to_position(self) -> (r: Position)
        requires
            rescale_fits(self.x as int, self.y as int, 32),
        ensures
            r.x == self.x * 32,
            r.y == self.y * 32,
    {
        pos_to_pos::<32, 1>(self)
    }

    /// The walk position of this tile's upper left corner.
    pub fn to_walk_position(self) -> (r: WalkPosition)
        requires
            rescale_fits(self.x as int, self.y as int, 32),
        ensures
            r.x == self.x * 4,
            r.y == self.y * 4,
    {
        let r = pos_to_pos::<32, 8>(self);
        assert(r.x == self.x * 4) by (nonlinear_arith)
            requires
                r.x == trunc_div(self.x * 32, 8),
        ;
        assert(r.y == self.y * 4) by (nonlinear_arith)
            requires
                r.y == trunc_div(self.y * 32, 8),
        ;
        r
    }
}

impl WalkPosition {
    /// The build tile that holds this walk position (coordinates divided by 4, toward zero).
    pub fn to_tile_position(self) -> (r: TilePosition)
        requires
            rescale_fits(self.x as int, self.y as int, 8),
        ensures
            r.x == trunc_div(self.x as int, 4),
            r.y == trunc_div(self.y as int, 4),
    {
        let r = pos_to_pos::<8, 32>(self);
        assert(r.x == trunc_div(self.x as int, 4)) by (nonlinear_arith)
            requires
                r.x == trunc_div(self.x * 8, 32),
        ;
        assert(r.y == trunc_div(self.y as int, 4)) by (nonlinear_arith)
            requires
                r.y == trunc_div(self.y * 8, 32),
        ;
        r
    }

    /// The pixel position of this walk tile's upper left corner.
    pub fn to_position(self) -> (r: Position)
        requires
            rescale_fits(self.x as int, self.y as int, 8),
        ensures
            r.x == self.x * 8,
            r.y == self.y * 8,
    {
        pos_to_pos::<8, 1>(self)
    }
}

/// Items kept in a grid of rows indexed by positions of scale `N`: `grid[pos]` is row
/// `pos.y`, column `pos.x`.
pub trait PositionIndexed<const N: u32> {}

impl<T: PositionIndexed<N>, const N: u32, const M: usize> core::ops::Index<ScaledPosition<N>> for Vec<[T; M]> {
    type Output = T;

    fn index(&self, index: ScaledPosition<N>) -> (r: &T) {
        &self[index.y as usize][index.x as usize]
    }
}

impl<T: PositionIndexed<N>, const N: u32, const M: usize> vstd::std_specs::core::IndexSpecImpl<ScaledPosition<N>> for Vec<[T; M]> {
    open spec fn index_req(&self, index: &ScaledPosition<N>) -> bool {
        0 <= index.y < self@.len() && 0 <= index.x < M
    }
}

/// Something that knows which positions lie on the map.
pub trait PositionValidator {
    /// Whether `(x, y)`, in units of `scale` pixels, lies on the map.
    spec fn valid_at(&self, x: int, y: int, scale: int) -> bool;

    /// Whether `pos` lies on the map; with a scale of 0 pixels only a position with a negative
    /// coordinate can be asked about, as the map's extent at that scale is a division by zero.
    fn is_valid<const N: u32>(&self, pos: ScaledPosition<N>) -> (r: bool)
        requires
            N >= 1 || pos.x < 0 || pos.y < 0,
        ensures
            r == self.valid_at(pos.x as int, pos.y as int, N as int),
    ;
}

/// The size of a map in build tiles, which decides which positions lie on it.
#[derive(Debug, Clone, Copy, PartialEq, Eq)]
pub struct MapBounds {
    pub map_width: i32,
    pub map_height: i32,
}

impl PositionValidator for MapBounds {
    open spec fn valid_at(&self, x: int, y: int, scale: int) -> bool {
        &&& x >= 0
        &&& y >= 0
        &&& x < trunc_div(self.map_width * 32, scale)
        &&& y < trunc_div(self.map_height * 32, scale)
    }

    fn is_valid<const N: u32>(&self, pos: ScaledPosition<N>) -> (r: bool) {
        if pos.x < 0 || pos.y < 0 {
            return false;
        }
        let w: i64 = self.map_width as i64 * 32 / N as i64;
        let h: i64 = self.map_height as i64 * 32 / N as i64;
        (pos.x as i64) < w && (pos.y as i64) < h
    }
}

impl<const N: u32> ScaledPosition<N> {
    /// The position `(x, y)` if the validator accepts it.
    pub fn new_checked<V: PositionValidator>(validator: &V, x: i32, y: i32) -> (r: Option<Self>)
        requires
            N >= 1 || x < 0 || y < 0,
        ensures
            r == (if validator.valid_at(x as int, y as int, N as int) {
                Some(Self { x, y })
            } else {
                None
            }),
    {
        let pos = Self::new(x, y);
        if validator.is_valid(pos) {
            Some(pos)
        } else {
            None
        }
    }

    /// The position `(x, y)`.
    pub fn new(x: i32, y: i32) -> (r: Self)
        ensures
            r.x == x,
            r.y == y,
    {
        Self { x, y }
    }

    /// Whether the validator accepts this position.
    pub fn is_valid<V: PositionValidator>(self, validator: &V) -> (r: bool)
        requires
            N >= 1 || self.x < 0 || self.y < 0,
        ensures
            r == validator.valid_at(self.x as int, self.y as int, N as int),
    {
        validator.is_valid(self)
    }

    /// The squared Euclidean distance to `other`.
    pub fn distance_squared(&self, other: Self) -> (r: u32)
        requires
            fits_i32(self.x - other.x),
            fits_i32(self.y - other.y),
            fits_i32((self.x - other.x) * (self.x - other.x)),
            fits_i32((self.y - other.y) * (self.y - other.y)),
            fits_i32(squared_distance(self.x - other.x, self.y - other.y)),
        ensures
            r == squared_distance(self.x - other.x, self.y - other.y),
    {
        let dx = self.x - other.x;
        let dy = self.y - other.y;
        assert(dx * dx >= 0 && dy * dy >= 0) by (nonlinear_arith);
        (dx * dx + dy * dy) as u32
    }

    /// The Chebyshev (chessboard) distance to `other`.
    pub fn chebyshev_distance(&self, other: Self) -> (r: u32)
        requires
            abs_fits_i32(self.x - other.x),
            abs_fits_i32(self.y - other.y),
        ensures
            r == max_int(abs_int(self.x - other.x), abs_int(self.y - other.y)),
    {
        let a = abs_i32(self.x - other.x);
        let b = abs_i32(self.y - other.y);
        if a < b {
            b as u32
        } else {
            a as u32
        }
    }

    /// The coordinates as a pair.
    pub fn to_tuple(self) -> (r: PositionTuple)
        ensures
            r == (self.x, self.y),
    {
        (self.x, self.y)
    }
}

/// The squared length of the offset `(dx, dy)`.
pub open spec fn squared_distance(dx: int, dy: int) -> int {
    dx * dx + dy * dy
}

impl<const N: u32> core::ops::Add for ScaledPosition<N> {
    type Output = Self;

    fn add(self, other: Self) -> (r: Self) {
        Self { x: self.x + other.x, y: self.y + other.y }
    }
}

impl<const N: u32> vstd::std_specs::ops::AddSpecImpl for ScaledPosition<N> {
    open spec fn obeys_add_spec() -> bool {
        true
    }

    open spec fn add_req(self, rhs: Self) -> bool {
        fits_i32(self.x + rhs.x) && fits_i32(self.y + rhs.y)
    }

    open spec fn add_spec(self, rhs: Self) -> Self {
        Self { x: (self.x + rhs.x) as i32, y: (self.y + rhs.y) as i32 }
    }
}

impl<const N: u32> core::ops::Sub for ScaledPosition<N> {
    type Output = Self;

    fn sub(self, other: Self) -> (r: Self) {
        Self { x: self.x - other.x, y: self.y - other.y }
    }
}

impl<const N: u32> vstd::std_specs::ops::SubSpecImpl for ScaledPosition<N> {
    open spec fn obeys_sub_spec() -> bool {
        true
    }

    open spec fn sub_req(self, rhs: Self) -> bool {
        fits_i32(self.x - rhs.x) && fits_i32(self.y - rhs.y)
    }

    open spec fn sub_spec(self, rhs: Self) -> Self {
        Self { x: (self.x - rhs.x) as i32, y: (self.y - rhs.y) as i32 }
    }
}

impl<const N: u32> core::ops::Add<PositionTuple> for ScaledPosition<N> {
    type Output = Self;

    fn add(self, other: PositionTuple) -> (r: Self) {
        Self { x: self.x + other.0, y: self.y + other.1 }
    }
}

impl<const N: u32> vstd::std_specs::ops::AddSpecImpl<PositionTuple> for ScaledPosition<N> {
    open spec fn obeys_add_spec() -> bool {
        true
    }

    open spec fn add_req(self, rhs: PositionTuple) -> bool {
        fits_i32(self.x + rhs.0) && fits_i32(self.y + rhs.1)
    }

    open spec fn add_spec(self, rhs: PositionTuple) -> Self {
        Self { x: (self.x + rhs.0) as i32, y: (self.y + rhs.1) as i32 }
    }
}

impl<const N: u32> core::ops::Sub<PositionTuple> for ScaledPosition<N> {
    type Output = Self;

    fn sub(self, other: PositionTuple) -> (r: Self) {
        Self { x: self.x - other.0, y: self.y - other.1 }
    }
}

impl<const N: u32> vstd::std_specs::ops::SubSpecImpl<PositionTuple> for ScaledPosition<N> {
    open spec fn obeys_sub_spec() -> bool {
        true
    }

    open spec fn sub_req(self, rhs: PositionTuple) -> bool {
        fits_i32(self.x - rhs.0) && fits_i32(self.y - rhs.1)
    }

    open spec fn sub_spec(self, rhs: PositionTuple) -> Self {
        Self { x: (self.x - rhs.0) as i32, y: (self.y - rhs.1) as i32 }
    }
}

impl<const N: u32> core::ops::Mul<i32> for ScaledPosition<N> {
    type Output = Self;

    fn mul(self, other: i32) -> (r: Self) {
        Self { x: self.x * other, y: self.y * other }
    }
}

impl<const N: u32> vstd::std_specs::ops::MulSpecImpl<i32> for ScaledPosition<N> {
    open spec fn obeys_mul_spec() -> bool {
        true
    }

    open spec fn mul_req(self, rhs: i32) -> bool {
        fits_i32(self.x * rhs) && fits_i32(self.y * rhs)
    }

    open spec fn mul_spec(self, rhs: i32) -> Self {
        Self { x: (self.x * rhs) as i32, y: (self.y * rhs) as i32 }
    }
}

impl<const N: u32> core::ops::Mul<ScaledPosition<N>> for i32 {
    type Output = ScaledPosition<N>;

    fn mul(self, other: ScaledPosition<N>) -> (r: ScaledPosition<N>) {
        ScaledPosition { x: self * other.x, y: self * other.y }
    }
}

impl<const N: u32> vstd::std_specs::ops::MulSpecImpl<ScaledPosition<N>> for i32 {
    open spec fn obeys_mul_spec() -> bool {
        true
    }

    open spec fn mul_req(self, rhs: ScaledPosition<N>) -> bool {
        fits_i32(self * rhs.x) && fits_i32(self * rhs.y)
    }

    open spec fn mul_spec(self, rhs: ScaledPosition<N>) -> ScaledPosition<N> {
        ScaledPosition { x: (self * rhs.x) as i32, y: (self * rhs.y) as i32 }
    }
}

impl<const N: u32> core::ops::Div<i32> for ScaledPosition<N> {
    type Output = Self;

    fn div(self, other: i32) -> (r: Self) {
        Self { x: self.x / other, y: self.y / other }
    }
}

impl<const N: u32> vstd::std_specs::ops::DivSpecImpl<i32> for ScaledPosition<N> {
    open spec fn obeys_div_spec() -> bool {
        true
    }

    /// Each coordinate is divided toward zero; dividing by zero, or the least `i32` by -1,
    /// is refused.
    open spec fn div_req(self, rhs: i32) -> bool {
        rhs != 0 && !(rhs == -1 && (self.x == i32::MIN || self.y == i32::MIN))
    }

    open spec fn div_spec(self, rhs: i32) -> Self {
        Self { x: trunc_div(self.x as int, rhs as int) as i32, y: trunc_div(self.y as int, rhs as int) as i32 }
    }
}

} // verus!

verus! {

impl<const N: u32> From<PositionTuple> for ScaledPosition<N> {
    fn from(pos: PositionTuple) -> (r: Self) {
        ScaledPosition { x: pos.0, y: pos.1 }
    }
}

impl<const N: u32> vstd::std_specs::convert::FromSpecImpl<PositionTuple> for ScaledPosition<N> {
    open spec fn obeys_from_spec() -> bool {
        true
    }

    open spec fn from_spec(pos: PositionTuple) -> Self {
        ScaledPosition { x: pos.0, y: pos.1 }
    }
}

} // verus!

verus! {

/// Scaling a coordinate up by a factor and back down gives the coordinate back: converting a
/// tile to pixels or walk tiles and back, or walk tiles to pixels and back, is the identity.
pub proof fn law_rescale_round_trip(c: int, k: int)
    requires
        k > 0,
    ensures
        trunc_div(c * k, k) == c,
{
    if c >= 0 {
        assert((c * k) / k == c) by (nonlinear_arith)
            requires
                c >= 0,
                k > 0,
        ;
    } else {
        assert(((-c) * k) / k == -c) by (nonlinear_arith)
            requires
                c < 0,
                k > 0,
        ;
        assert(-(c * k) == (-c) * k) by (nonlinear_arith);
    }
}

/// A pixel lies in the tile that [`Position::to_tile_position`] gives for it: for pixels with
/// non-negative coordinates the tile's corner is at most 31 pixels up and left of the pixel.
pub proof fn law_pixel_in_its_tile(c: int)
    requires
        c >= 0,
    ensures
        trunc_div(c, 32) * 32 <= c < trunc_div(c, 32) * 32 + 32,
{
}

/// The squared distance, the Chebyshev distance and the approximate distance do not depend
/// on the order of the two positions.
pub proof fn law_distances_symmetric(dx: int, dy: int)
    ensures
        squared_distance(dx, dy) == squared_distance(-dx, -dy),
        max_int(abs_int(dx), abs_int(dy)) == max_int(abs_int(-dx), abs_int(-dy)),
        approx_distance(dx, dy) == approx_distance(-dx, -dy),
        approx_distance(dx, dy) == approx_distance(dy, dx),
{
    assert(squared_distance(dx, dy) == squared_distance(-dx, -dy)) by (nonlinear_arith);
}

/// The approximate distance is never below the larger coordinate difference, and never more
/// than one and a half times it.
pub proof fn law_approx_distance_bounds(dx: int, dy: int)
    ensures
        max_int(abs_int(dx), abs_int(dy)) <= approx_distance(dx, dy),
        2 * approx_distance(dx, dy) <= 3 * max_int(abs_int(dx), abs_int(dy)),
{
}

} // verus!
