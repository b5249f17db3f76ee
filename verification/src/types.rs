//! Rectangles of positions and the drawing enums.
use vstd::prelude::*;
use vstd::std_specs::convert::IntoSpec;
use vstd::std_specs::iter::IteratorSpec;
use crate::bwapi_wrapper::position::{
    fits_i32, max_int, min_int, rescale_fits, ScaledPosition, TilePosition, WalkPosition,
};

verus! {

/// Colors for drawing on screen, by their palette index (see [`Color::value`]).
#[derive(Debug, Copy, Clone, PartialEq, Eq)]
pub enum Color {
    /// The default color for Player 1.
    Red,
    /// The default color for Player 2.
    Blue,
    /// The default color for Player 3.
    Teal,
    /// The default color for Player 4.
    Purple,
    /// The default color for Player 5.
    Orange,
    /// The default color for Player 6.
    Brown,
    /// A bright white. Note that this is lighter than Player 7's white.
    White,
    /// The default color for Player 8.
    Yellow,
    /// The alternate color for Player 7 on Ice tilesets.
    Green,
    /// The default color for Neutral (Player 12).
    Cyan,
    /// The color black.
    Black,
    /// The color grey.
    Grey,
}

impl Color {
    /// The palette index of the color.
    pub fn value(&self) -> (r: i32)
        ensures
            r == color_value(*self),
    {
        match self {
            Color::Red => 111,
            Color::Blue => 165,
            Color::Teal => 159,
            Color::Purple => 164,
            Color::Orange => 179,
            Color::Brown => 19,
            Color::White => 255,
            Color::Yellow => 135,
            Color::Green => 117,
            Color::Cyan => 128,
            Color::Black => 0,
            Color::Grey => 74,
        }
    }

    /// The color with palette index `v`, if there is one.
    pub fn from_value(v: i32) -> (r: Option<Color>)
        ensures
            r matches Some(c) ==> color_value(c) == v,
            r is None ==> forall|c: Color| color_value(c) != v,
    {
        if v == 111 { Some(Color::Red) }
        else if v == 165 { Some(Color::Blue) }
        else if v == 159 { Some(Color::Teal) }
        else if v == 164 { Some(Color::Purple) }
        else if v == 179 { Some(Color::Orange) }
        else if v == 19 { Some(Color::Brown) }
        else if v == 255 { Some(Color::White) }
        else if v == 135 { Some(Color::Yellow) }
        else if v == 117 { Some(Color::Green) }
        else if v == 128 { Some(Color::Cyan) }
        else if v == 0 { Some(Color::Black) }
        else if v == 74 { Some(Color::Grey) }
        else { None }
    }
}

/// The palette index of each color.
pub open spec fn color_value(c: Color) -> int {
    match c {
        Color::Red => 111,
        Color::Blue => 165,
        Color::Teal => 159,
        Color::Purple => 164,
        Color::Orange => 179,
        Color::Brown => 19,
        Color::White => 255,
        Color::Yellow => 135,
        Color::Green => 117,
        Color::Cyan => 128,
        Color::Black => 0,
        Color::Grey => 74,
    }
}

/// Text sizes for drawing on screen.
#[derive(Debug, Copy, Clone, PartialEq, Eq)]
pub enum TextSize {
    /// The smallest text size in the game.
    Small,
    /// The standard text size, used for most things in the game such as chat messages.
    Default,
    /// A larger text size, used for the in-game countdown timer in @CTF and @UMS games.
    Large,
    /// The largest text size in the game.
    Huge,
}

impl TextSize {
    /// The size's index: 0 for `Small` up to 3 for `Huge`.
    pub fn value(&self) -> (r: i32)
        ensures
            r == text_size_value(*self),
    {
        match self {
            TextSize::Small => 0,
            TextSize::Default => 1,
            TextSize::Large => 2,
            TextSize::Huge => 3,
        }
    }
}

/// The index of each text size.
pub open spec fn text_size_value(t: TextSize) -> int {
    match t {
        TextSize::Small => 0,
        TextSize::Default => 1,
        TextSize::Large => 2,
        TextSize::Huge => 3,
    }
}

/// A rectangle given by its top left and bottom right corners, both inclusive.
#[derive(Default, Debug, Clone, Copy, Eq, PartialEq)]
pub struct Rectangle<P> {
    pub tl: P,
    pub br: P,
}

/// The rectangle spanned by two corners, whatever their order.
pub open spec fn spanned<const N: u32>(a: ScaledPosition<N>, b: ScaledPosition<N>) -> Rectangle<ScaledPosition<N>> {
    Rectangle {
        tl: ScaledPosition { x: min_int(a.x as int, b.x as int) as i32, y: min_int(a.y as int, b.y as int) as i32 },
        br: ScaledPosition { x: max_int(a.x as int, b.x as int) as i32, y: max_int(a.y as int, b.y as int) as i32 },
    }
}

impl<const N: u32> Rectangle<ScaledPosition<N>> {
    /// The rectangle spanned by two corners, whatever their order.
    pub fn new<P1: Into<ScaledPosition<N>>, P2: Into<ScaledPosition<N>>>(corner_a: P1, corner_b: P2) -> (r: Self)
        ensures
            (P1::obeys_into_spec() && P2::obeys_into_spec()) ==> r == spanned(corner_a.into_spec(), corner_b.into_spec()),
    {
        Self::from_corners(corner_a.into(), corner_b.into())
    }

    /// The rectangle spanned by two corners, whatever their order.
    pub fn from_corners(a: ScaledPosition<N>, b: ScaledPosition<N>) -> (r: Self)
        ensures
            r == spanned(a, b),
    {
        let (mut a, mut b) = (a, b);
        if a.x > b.x {
            let t = a.x;
            a.x = b.x;
            b.x = t;
        }
        if a.y > b.y {
            let t = a.y;
            a.y = b.y;
            b.y = t;
        }
        Rectangle { tl: a, br: b }
    }

    /// The positions on the rectangle's edge, clockwise from the top left corner:
    /// the top row left to right, the right column downwards, the bottom row right to left
    /// and the left column upwards.
    pub fn border(&self) -> (r: Vec<ScaledPosition<N>>)
        requires
            self.tl.y < i32::MAX,
        ensures
            r@ == border_spec(*self),
    {
        let mut r: Vec<ScaledPosition<N>> = Vec::new();
        let tl = self.tl;
        let br = self.br;
        // top row, left to right
        let mut x: i64 = tl.x as i64;
        while x <= br.x as i64
            invariant
                tl == self.tl, br == self.br, tl.x <= x <= br.x + 1 || (x == tl.x && br.x < tl.x),
                r@ == top_row(*self).take(x - tl.x),
            decreases br.x + 1 - x,
        {
            r.push(ScaledPosition::new(x as i32, tl.y));
            assert(r@ =~= top_row(*self).take(x + 1 - tl.x));
            x = x + 1;
        }
        assert(top_row(*self).take(row_len(*self) as int) =~= top_row(*self));
        assert(top_row(*self).take(0) =~= Seq::<ScaledPosition<N>>::empty());
        assert(r@ =~= top_row(*self));
        let ghost p1 = r@;
        // right column, downwards
        let mut y = tl.y + 1;
        while y < br.y
            invariant
                tl == self.tl, br == self.br, tl.y + 1 <= y, y <= br.y || y == tl.y + 1,
                p1 == top_row(*self),
                r@ == p1 + right_col(*self).take(y - tl.y - 1),
            decreases br.y - y,
        {
            r.push(ScaledPosition::new(br.x, y));
            assert(r@ =~= p1 + right_col(*self).take(y + 1 - tl.y - 1));
            y = y + 1;
        }
        assert(right_col(*self).take(inner_len(*self) as int) =~= right_col(*self));
        assert(right_col(*self).take(0) =~= Seq::<ScaledPosition<N>>::empty());
        assert(r@ =~= top_row(*self) + right_col(*self));
        let ghost p2 = r@;
        // bottom row, right to left
        let mut x: i64 = br.x as i64;
        while x >= tl.x as i64
            invariant
                tl == self.tl, br == self.br, tl.x - 1 <= x <= br.x || (x == br.x && br.x < tl.x),
                p2 == top_row(*self) + right_col(*self),
                r@ == p2 + bottom_row(*self).take(br.x - x),
            decreases x + 1 - tl.x,
        {
            r.push(ScaledPosition::new(x as i32, br.y));
            assert(r@ =~= p2 + bottom_row(*self).take(br.x - x + 1));
            x = x - 1;
        }
        assert(bottom_row(*self).take(row_len(*self) as int) =~= bottom_row(*self));
        assert(bottom_row(*self).take(0) =~= Seq::<ScaledPosition<N>>::empty());
        assert(r@ =~= top_row(*self) + right_col(*self) + bottom_row(*self));
        let ghost p3 = r@;
        // left column, upwards
        let mut y = br.y;
        let lo = tl.y + 1;
        while y > lo
            invariant
                lo == tl.y + 1,
                tl == self.tl, br == self.br, y == br.y || (tl.y + 1 <= y < br.y),
                p3 == top_row(*self) + right_col(*self) + bottom_row(*self),
                r@ == p3 + left_col(*self).take(br.y - y),
            decreases y - tl.y,
        {
            y = y - 1;
            r.push(ScaledPosition::new(tl.x, y));
            assert(r@ =~= p3 + left_col(*self).take(br.y - y));
        }
        assert(left_col(*self).take(inner_len(*self) as int) =~= left_col(*self));
        assert(left_col(*self).take(0) =~= Seq::<ScaledPosition<N>>::empty());
        assert(r@ =~= border_spec(*self));
        r
    }
    /// The rectangle grown by `amount` on every side (shrunk when `amount` is negative).
    pub fn extrude(self, amount: i32) -> (r: Self)
        requires
            fits_i32(self.tl.x - amount), fits_i32(self.tl.y - amount),
            fits_i32(self.br.x + amount), fits_i32(self.br.y + amount),
        ensures
            r == spanned(
                at::<N>(self.tl.x - amount, self.tl.y - amount),
                at::<N>(self.br.x + amount, self.br.y + amount),
            ),
    {
        Self::new((self.tl.x - amount, self.tl.y - amount), (self.br.x + amount, self.br.y + amount))
    }

    /// The rectangle shrunk by `amount` on every side.
    pub fn shrink(self, amount: i32) -> (r: Self)
        requires
            amount > i32::MIN,
            fits_i32(self.tl.x + amount), fits_i32(self.tl.y + amount),
            fits_i32(self.br.x - amount), fits_i32(self.br.y - amount),
        ensures
            r == spanned(
                at::<N>(self.tl.x + amount, self.tl.y + amount),
                at::<N>(self.br.x - amount, self.br.y - amount),
            ),
    {
        self.extrude(-amount)
    }

    /// Whether this rectangle covers `other`, comparing in pixels.
    pub fn envelops<const M: u32>(&self, other: Rectangle<ScaledPosition<M>>) -> (r: bool)
        requires
            N <= i32::MAX, M <= i32::MAX,
            fits_i32(self.tl.x * N), fits_i32(self.tl.y * N),
            fits_i32(self.br.x * N), fits_i32(self.br.y * N),
            fits_i32(other.tl.x * M), fits_i32(other.tl.y * M),
            fits_i32(other.br.x * M), fits_i32(other.br.y * M),
        ensures
            r == (self.tl.x * N <= other.tl.x * M && self.tl.y * N <= other.tl.y * M
                && self.br.x * N >= other.br.x * M && self.br.y * N >= other.br.y * M),
    {
        let n = N as i32;
        let m = M as i32;
        self.tl.x * n <= other.tl.x * m && self.tl.y * n <= other.tl.y * m
            && self.br.x * n >= other.br.x * m && self.br.y * n >= other.br.y * m
    }

    /// Whether `pos` lies inside this rectangle, comparing in pixels.
    pub fn contains<const M: u32>(&self, pos: ScaledPosition<M>) -> (r: bool)
        requires
            N <= i32::MAX, M <= i32::MAX,
            fits_i32(self.tl.x * N), fits_i32(self.tl.y * N),
            fits_i32(self.br.x * N), fits_i32(self.br.y * N),
            fits_i32(pos.x * M), fits_i32(pos.y * M),
        ensures
            r == (self.tl.x * N <= pos.x * M && self.tl.y * N <= pos.y * M
                && self.br.x * N >= pos.x * M && self.br.y * N >= pos.y * M),
    {
        let n = N as i32;
        let m = M as i32;
        self.tl.x * n <= pos.x * m && self.tl.y * n <= pos.y * m
            && self.br.x * n >= pos.x * m && self.br.y * n >= pos.y * m
    }

    /// Each corner coordinate lowered to `pos`'s coordinate where that is smaller.
    pub fn resize_to_contain(self, pos: ScaledPosition<N>) -> (r: Self)
        ensures
            r.tl.x == min_int(self.tl.x as int, pos.x as int),
            r.br.x == min_int(self.br.x as int, pos.x as int),
            r.tl.y == min_int(self.tl.y as int, pos.y as int),
            r.br.y == min_int(self.br.y as int, pos.y as int),
    {
        let mut s = self;
        s.tl.x = if s.tl.x < pos.x { s.tl.x } else { pos.x };
        s.br.x = if s.br.x < pos.x { s.br.x } else { pos.x };
        s.tl.y = if s.tl.y < pos.y { s.tl.y } else { pos.y };
        s.br.y = if s.br.y < pos.y { s.br.y } else { pos.y };
        s
    }

    /// The number of columns, corners included.
    pub fn width(&self) -> (r: i32)
        requires
            fits_i32(self.br.x - self.tl.x),
            fits_i32(self.br.x - self.tl.x + 1),
        ensures
            r == self.br.x - self.tl.x + 1,
    {
        self.br.x - self.tl.x + 1
    }

    /// The number of rows, corners included.
    pub fn height(&self) -> (r: i32)
        requires
            fits_i32(self.br.y - self.tl.y),
            fits_i32(self.br.y - self.tl.y + 1),
        ensures
            r == self.br.y - self.tl.y + 1,
    {
        self.br.y - self.tl.y + 1
    }

    /// All positions of the rectangle, row by row from the top, each row left to right.
    pub fn positions(&self) -> (r: Vec<ScaledPosition<N>>)
        ensures
            r@ == positions_spec(*self),
    {
        let mut r: Vec<ScaledPosition<N>> = Vec::new();
        let tl = self.tl;
        let br = self.br;
        let mut y: i64 = tl.y as i64;
        while y <= br.y as i64
            invariant
                tl == self.tl, br == self.br,
                tl.y <= y <= br.y + 1 || (y == tl.y && br.y < tl.y),
                r@ == rows_spec(*self, (y - tl.y) as nat),
            decreases br.y + 1 - y,
        {
            let ghost before = r@;
            let mut x: i64 = tl.x as i64;
            while x <= br.x as i64
                invariant
                    tl == self.tl, br == self.br,
                    tl.y <= y <= br.y,
                    tl.x <= x <= br.x + 1 || (x == tl.x && br.x < tl.x),
                    before == rows_spec(*self, (y - tl.y) as nat),
                    r@ == before + row_spec(*self, y as int).take(x - tl.x),
                decreases br.x + 1 - x,
            {
                r.push(ScaledPosition::new(x as i32, y as i32));
                assert(r@ =~= before + row_spec(*self, y as int).take(x + 1 - tl.x));
                x = x + 1;
            }
            assert(row_spec(*self, y as int).take(row_len(*self) as int) =~= row_spec(*self, y as int));
            assert(row_spec(*self, y as int).take(0) =~= Seq::<ScaledPosition<N>>::empty());
            assert(r@ =~= rows_spec(*self, (y + 1 - tl.y) as nat));
            y = y + 1;
        }
        r
    }

    /// An iterator over [`Rectangle::positions`].
    pub fn into_iter(self) -> (r: std::vec::IntoIter<ScaledPosition<N>>)
        ensures
            r.remaining() == positions_spec(self),
    {
        broadcast use vstd::std_specs::vec::axiom_spec_into_iter;
        self.positions().into_iter()
    }
}

impl Rectangle<TilePosition> {
    /// The same rectangle with both corners converted to walk positions.
    pub fn to_walk_rect(self) -> (r: Rectangle<WalkPosition>)
        requires
            rescale_fits(self.tl.x as int, self.tl.y as int, 32),
            rescale_fits(self.br.x as int, self.br.y as int, 32),
        ensures
            r.tl.x == self.tl.x * 4, r.tl.y == self.tl.y * 4,
            r.br.x == self.br.x * 4, r.br.y == self.br.y * 4,
    {
        Rectangle { tl: self.tl.to_walk_position(), br: self.br.to_walk_position() }
    }
}

/// The row at height `y` of `r`, left to right.
pub open spec fn row_spec<const N: u32>(r: Rectangle<ScaledPosition<N>>, y: int) -> Seq<ScaledPosition<N>> {
    Seq::new(row_len(r), |i: int| at::<N>(r.tl.x + i, y))
}

/// The first `n` rows of `r`, from the top.
pub open spec fn rows_spec<const N: u32>(r: Rectangle<ScaledPosition<N>>, n: nat) -> Seq<ScaledPosition<N>>
    decreases n,
{
    if n == 0 {
        Seq::empty()
    } else {
        rows_spec(r, (n - 1) as nat) + row_spec(r, r.tl.y + n - 1)
    }
}

/// The number of rows of `r` (0 when the corners are inverted).
pub open spec fn col_len<const N: u32>(r: Rectangle<ScaledPosition<N>>) -> nat {
    if r.br.y >= r.tl.y { (r.br.y - r.tl.y + 1) as nat } else { 0 }
}

/// All positions of `r`, row by row from the top.
pub open spec fn positions_spec<const N: u32>(r: Rectangle<ScaledPosition<N>>) -> Seq<ScaledPosition<N>> {
    rows_spec(r, col_len(r))
}


/// The number of positions in one row of `r` (0 when the corners are inverted).
pub open spec fn row_len<const N: u32>(r: Rectangle<ScaledPosition<N>>) -> nat {
    if r.br.x >= r.tl.x { (r.br.x - r.tl.x + 1) as nat } else { 0 }
}

/// The number of positions strictly between the top and bottom rows of `r`.
pub open spec fn inner_len<const N: u32>(r: Rectangle<ScaledPosition<N>>) -> nat {
    if r.br.y - r.tl.y - 1 >= 0 { (r.br.y - r.tl.y - 1) as nat } else { 0 }
}

/// The position `(x, y)`.
pub open spec fn at<const N: u32>(x: int, y: int) -> ScaledPosition<N> {
    ScaledPosition { x: x as i32, y: y as i32 }
}

/// The top row of `r`, left to right.
pub open spec fn top_row<const N: u32>(r: Rectangle<ScaledPosition<N>>) -> Seq<ScaledPosition<N>> {
    Seq::new(row_len(r), |i: int| at::<N>(r.tl.x + i, r.tl.y as int))
}

/// The right column of `r` without its corners, downwards.
pub open spec fn right_col<const N: u32>(r: Rectangle<ScaledPosition<N>>) -> Seq<ScaledPosition<N>> {
    Seq::new(inner_len(r), |i: int| at::<N>(r.br.x as int, r.tl.y + 1 + i))
}

/// The bottom row of `r`, right to left.
pub open spec fn bottom_row<const N: u32>(r: Rectangle<ScaledPosition<N>>) -> Seq<ScaledPosition<N>> {
    Seq::new(row_len(r), |i: int| at::<N>(r.br.x - i, r.br.y as int))
}

/// The left column of `r` without its corners, upwards.
pub open spec fn left_col<const N: u32>(r: Rectangle<ScaledPosition<N>>) -> Seq<ScaledPosition<N>> {
    Seq::new(inner_len(r), |i: int| at::<N>(r.tl.x as int, r.br.y - 1 - i))
}

/// The edge of `r`, clockwise from the top left corner.
pub open spec fn border_spec<const N: u32>(r: Rectangle<ScaledPosition<N>>) -> Seq<ScaledPosition<N>> {
    top_row(r) + right_col(r) + bottom_row(r) + left_col(r)
}

} // verus!

verus! {

/// A rectangle of positions whose corners are in order.
pub open spec fn normalized<const N: u32>(r: Rectangle<ScaledPosition<N>>) -> bool {
    r.tl.x <= r.br.x && r.tl.y <= r.br.y
}

/// Whether `p` lies in the rectangle `r`, corners included.
pub open spec fn inside<const N: u32>(r: Rectangle<ScaledPosition<N>>, p: ScaledPosition<N>) -> bool {
    r.tl.x <= p.x <= r.br.x && r.tl.y <= p.y <= r.br.y
}

/// [`Rectangle::new`] orders the corners, and it does not matter which corner comes first.
pub proof fn law_new_normalizes<const N: u32>(a: ScaledPosition<N>, b: ScaledPosition<N>)
    ensures
        normalized(spanned(a, b)),
        spanned(a, b) == spanned(b, a),
        inside(spanned(a, b), a),
        inside(spanned(a, b), b),
{
}

/// Growing an ordered rectangle and shrinking it by the same amount gives it back.
pub proof fn law_extrude_shrink<const N: u32>(r: Rectangle<ScaledPosition<N>>, amount: int)
    requires
        normalized(r),
        amount >= 0,
        fits_i32(r.tl.x - amount), fits_i32(r.tl.y - amount),
        fits_i32(r.br.x + amount), fits_i32(r.br.y + amount),
    ensures
        ({
            let e = spanned(at::<N>(r.tl.x - amount, r.tl.y - amount), at::<N>(r.br.x + amount, r.br.y + amount));
            spanned(at::<N>(e.tl.x + amount, e.tl.y + amount), at::<N>(e.br.x - amount, e.br.y - amount)) == r
        }),
{
}

/// The border of a rectangle runs around it: it has `2 * width + 2 * (height - 2)` positions,
/// all of them in the rectangle, and each one on its edge.
pub proof fn law_border_on_edge<const N: u32>(r: Rectangle<ScaledPosition<N>>)
    requires
        normalized(r),
    ensures
        border_spec(r).len() == 2 * row_len(r) + 2 * inner_len(r),
        forall|i: int| 0 <= i < border_spec(r).len() ==> {
            let p = #[trigger] border_spec(r)[i];
            inside(r, p) && (p.x == r.tl.x || p.x == r.br.x || p.y == r.tl.y || p.y == r.br.y)
        },
{
    let b = border_spec(r);
    let t = top_row(r);
    let rc = right_col(r);
    let bo = bottom_row(r);
    let l = left_col(r);
    assert forall|i: int| 0 <= i < b.len() implies {
        let p = #[trigger] b[i];
        inside(r, p) && (p.x == r.tl.x || p.x == r.br.x || p.y == r.tl.y || p.y == r.br.y)
    } by {
        if i < t.len() {
            assert(b[i] == t[i]);
        } else if i < t.len() + rc.len() {
            assert(b[i] == rc[i - t.len()]);
        } else if i < t.len() + rc.len() + bo.len() {
            assert(b[i] == bo[i - t.len() - rc.len()]);
        } else {
            assert(b[i] == l[i - t.len() - rc.len() - bo.len()]);
        }
    }
}

/// The first `n` rows of a rectangle hold `n` times the row length positions, all inside it,
/// with column `i` of row `j` at index `j * width + i`.
pub proof fn lemma_rows<const N: u32>(r: Rectangle<ScaledPosition<N>>, n: nat)
    requires
        normalized(r),
        n <= col_len(r),
    ensures
        rows_spec(r, n).len() == n * row_len(r),
        forall|i: int| 0 <= i < rows_spec(r, n).len() ==> inside(r, #[trigger] rows_spec(r, n)[i]),
        forall|i: int, j: int| 0 <= i < row_len(r) && 0 <= j < n ==>
            #[trigger] rows_spec(r, n)[j * row_len(r) + i] == at::<N>(r.tl.x + i, r.tl.y + j),
    decreases n,
{
    if n > 0 {
        lemma_rows(r, (n - 1) as nat);
        let prev = rows_spec(r, (n - 1) as nat);
        let row = row_spec(r, r.tl.y + n - 1);
        assert(rows_spec(r, n) == prev + row);
        assert((n - 1) * row_len(r) + row_len(r) == n * row_len(r)) by (nonlinear_arith);
        assert forall|i: int| 0 <= i < rows_spec(r, n).len() implies inside(r, #[trigger] rows_spec(r, n)[i]) by {
            if i >= prev.len() {
                assert(rows_spec(r, n)[i] == row[i - prev.len()]);
            } else {
                assert(rows_spec(r, n)[i] == prev[i]);
            }
        }
        let w = row_len(r);
        assert forall|i: int, j: int| 0 <= i < w && 0 <= j < n implies
            #[trigger] rows_spec(r, n)[j * w + i] == at::<N>(r.tl.x + i, r.tl.y + j) by {
            if j < n - 1 {
                assert(j * w + i < (n - 1) * w) by (nonlinear_arith)
                    requires 0 <= i < w, 0 <= j < n - 1;
                assert(0 <= j * w + i) by (nonlinear_arith)
                    requires 0 <= i < w, 0 <= j;
            } else {
                assert(j * w + i - prev.len() == i) by (nonlinear_arith)
                    requires j == n - 1, prev.len() == (n - 1) * w;
            }
        }
    }
}

/// The positions of an ordered rectangle are exactly its points: there are width times height
/// of them, all inside it, and every point inside it is among them.
pub proof fn law_positions_fill_rectangle<const N: u32>(r: Rectangle<ScaledPosition<N>>)
    requires
        normalized(r),
    ensures
        positions_spec(r).len() == row_len(r) * col_len(r),
        forall|i: int| 0 <= i < positions_spec(r).len() ==> inside(r, #[trigger] positions_spec(r)[i]),
        forall|p: ScaledPosition<N>| inside(r, p) ==> positions_spec(r).contains(p),
{
    lemma_rows(r, col_len(r));
    assert(col_len(r) * row_len(r) == row_len(r) * col_len(r)) by (nonlinear_arith);
    assert forall|p: ScaledPosition<N>| inside(r, p) implies positions_spec(r).contains(p) by {
        let i = p.x - r.tl.x;
        let j = p.y - r.tl.y;
        let k = j * row_len(r) + i;
        assert(positions_spec(r)[k] == at::<N>(r.tl.x + i, r.tl.y + j));
        assert(0 <= k < positions_spec(r).len()) by (nonlinear_arith)
            requires 0 <= i < row_len(r), 0 <= j < col_len(r), k == j * row_len(r) + i,
                positions_spec(r).len() == col_len(r) * row_len(r);
    }
}


/// Whether `p`, compared in pixels, lies in `r`: the test that [`Rectangle::contains`] makes
/// for a position of the rectangle's own scale.
pub open spec fn contains_in_pixels<const N: u32>(r: Rectangle<ScaledPosition<N>>, p: ScaledPosition<N>) -> bool {
    r.tl.x * N <= p.x * N && r.tl.y * N <= p.y * N && r.br.x * N >= p.x * N && r.br.y * N >= p.y * N
}

/// For an ordered rectangle and a position of its own scale, [`Rectangle::contains`] holds
/// exactly when the position lies between the corners, and exactly when it is among the
/// rectangle's positions.
pub proof fn law_contains_means_among_positions<const N: u32>(r: Rectangle<ScaledPosition<N>>, p: ScaledPosition<N>)
    requires
        normalized(r),
        N >= 1,
    ensures
        contains_in_pixels(r, p) == inside(r, p),
        inside(r, p) == positions_spec(r).contains(p),
{
    let n = N as int;
    assert(r.tl.x * n <= p.x * n <==> r.tl.x <= p.x) by (nonlinear_arith) requires n >= 1;
    assert(r.tl.y * n <= p.y * n <==> r.tl.y <= p.y) by (nonlinear_arith) requires n >= 1;
    assert(r.br.x * n >= p.x * n <==> r.br.x >= p.x) by (nonlinear_arith) requires n >= 1;
    assert(r.br.y * n >= p.y * n <==> r.br.y >= p.y) by (nonlinear_arith) requires n >= 1;
    law_positions_fill_rectangle(r);
    if positions_spec(r).contains(p) {
        let k = choose|k: int| 0 <= k < positions_spec(r).len() && positions_spec(r)[k] == p;
        assert(inside(r, positions_spec(r)[k]));
    }
}

} // verus!
