//! The game objects of **Whack!**: vectors, sprites and the board.

use vstd::prelude::*;

use crate::colours::Colour;
use crate::colours::Colour::Red;

verus! {

/// A two-dimensional vector of whole pixels.
#[derive(Clone, Copy, Debug, PartialEq, Eq, Structural)]
pub struct Vec2D {
    pub x: i64,
    pub y: i64,
}

impl Vec2D {
    /// Returns a new `Vec2D` instance.
    pub fn new(x: i64, y: i64) -> (r: Vec2D)
        ensures
            r.x == x,
            r.y == y,
    {
        Vec2D { x, y }
    }

    /// Returns a new `Vec2D` instance where `x` and `y` are zero.
    pub fn empty() -> (r: Vec2D)
        ensures
            r.x == 0,
            r.y == 0,
    {
        Vec2D { x: 0, y: 0 }
    }

    /// Whether adding `other` keeps both coordinates within `i64`.
    pub open spec fn can_add(self, other: Vec2D) -> bool {
        &&& i64::MIN <= self.x + other.x <= i64::MAX
        &&& i64::MIN <= self.y + other.y <= i64::MAX
    }

    /// Updates the fields of the `Vec2D` by pairwise addition of another instance.
    pub fn add(&mut self, other: Vec2D)
        requires
            old(self).can_add(other),
        ensures
            final(self).x == old(self).x + other.x,
            final(self).y == old(self).y + other.y,
    {
        self.x = self.x + other.x;
        self.y = self.y + other.y;
    }
}

/// An axis-aligned rectangle that can be drawn: its top-left corner, its size
/// and its colour.
#[derive(Clone, Copy, Debug, PartialEq, Eq, Structural)]
pub struct Sprite {
    pub pos: Vec2D,
    pub width: u32,
    pub height: u32,
    pub colour: Colour,
}

impl Sprite {
    /// Whether the rectangles of two sprites share a point: they are apart
    /// only where one ends strictly before the other begins along an axis,
    /// so rectangles that merely touch overlap.
    pub open spec fn overlaps(self, other: Sprite) -> bool {
        !(self.pos.x + self.width < other.pos.x || other.pos.x + other.width < self.pos.x
            || self.pos.y + self.height < other.pos.y || other.pos.y + other.height
            < self.pos.y)
    }

    /// Returns a sprite with its top-left corner at `(x, y)`.
    pub fn new(x: i64, y: i64, width: u32, height: u32, colour: Colour) -> (r: Sprite)
        ensures
            r.pos.x == x,
            r.pos.y == y,
            r.width == width,
            r.height == height,
            r.colour == colour,
    {
        Sprite { pos: Vec2D { x, y }, width, height, colour }
    }

    /// The sprite's rectangle as `[x, y, width, height]`.
    pub fn get_rect(&self) -> (r: [i64; 4])
        ensures
            r@ == seq![self.pos.x, self.pos.y, self.width as i64, self.height as i64],
    {
        let r = [self.pos.x, self.pos.y, self.width as i64, self.height as i64];
        assert(r@ =~= seq![self.pos.x, self.pos.y, self.width as i64, self.height as i64]);
        r
    }

    /// Tests if the `Sprite` overlaps with a reference `Sprite`.
    pub fn is_overlapping(&self, other: &Sprite) -> (r: bool)
        ensures
            r == self.overlaps(*other),
    {
        // Sums of an i64 and a u32 are taken in i128, where they cannot overflow.
        let (ax, ay) = (self.pos.x as i128, self.pos.y as i128);
        let (bx, by) = (other.pos.x as i128, other.pos.y as i128);
        let (aw, ah) = (self.width as i128, self.height as i128);
        let (bw, bh) = (other.width as i128, other.height as i128);
        if ax + aw < bx || bx + bw < ax || ay + ah < by || by + bh < ay {
            return false;
        }
        true
    }
}

/// The tile slots of the board, indexed row by row from the top-left corner.
pub type Tiles = [Option<Sprite>; 9];

/// The free slots among the first `n` of `tiles`, in ascending order.
pub open spec fn free_upto(tiles: Seq<Option<Sprite>>, n: int) -> Seq<usize>
    decreases n,
{
    if n <= 0 {
        seq![]
    } else {
        free_upto(tiles, n - 1) + if tiles[n - 1] is None {
            seq![(n - 1) as usize]
        } else {
            seq![]
        }
    }
}

/// A slot is listed as free exactly when it lies below `n` and holds no tile.
pub proof fn lemma_free_upto_contains(tiles: Seq<Option<Sprite>>, n: int, k: usize)
    requires
        0 <= n <= tiles.len(),
        n <= 9,
    ensures
        free_upto(tiles, n).contains(k) <==> (k < n && tiles[k as int] is None),
    decreases n,
{
    if n > 0 {
        lemma_free_upto_contains(tiles, n - 1, k);
        let prev = free_upto(tiles, n - 1);
        let tail = if tiles[n - 1] is None {
            seq![(n - 1) as usize]
        } else {
            seq![]
        };
        let all = prev + tail;
        if all.contains(k) {
            let j = choose|j: int| 0 <= j < all.len() && #[trigger] all[j] == k;
            if j >= prev.len() {
                assert(tail[j - prev.len()] == k);
            } else {
                assert(prev[j] == k);
            }
        }
        if k < n && tiles[k as int] is None {
            if k == n - 1 {
                assert(all[all.len() - 1] == k);
            } else {
                let j = choose|j: int| 0 <= j < prev.len() && #[trigger] prev[j] == k;
                assert(all[j] == k);
            }
        }
    }
}

/// No slot below `n` is free exactly when every one of them holds a tile.
pub proof fn lemma_free_upto_empty(tiles: Seq<Option<Sprite>>, n: int)
    requires
        0 <= n <= tiles.len(),
    ensures
        free_upto(tiles, n).len() == 0 <==> (forall|j: int| 0 <= j < n ==> tiles[j] is Some),
    decreases n,
{
    if n > 0 {
        lemma_free_upto_empty(tiles, n - 1);
    }
}

/// Filling one free slot below `n` leaves one free slot fewer.
pub proof fn lemma_free_upto_fill(tiles: Seq<Option<Sprite>>, n: int, i: int, s: Sprite)
    requires
        0 <= i < n <= tiles.len(),
        tiles[i] is None,
    ensures
        free_upto(tiles.update(i, Some(s)), n).len() == free_upto(tiles, n).len() - 1,
    decreases n,
{
    let t2 = tiles.update(i, Some(s));
    if i < n - 1 {
        lemma_free_upto_fill(tiles, n - 1, i, s);
    } else {
        assert(free_upto(t2, n - 1) == free_upto(tiles, n - 1)) by {
            lemma_free_upto_same(tiles, t2, n - 1);
        }
    }
}

/// Slot lists agree on sequences that agree below `n`.
proof fn lemma_free_upto_same(a: Seq<Option<Sprite>>, b: Seq<Option<Sprite>>, n: int)
    requires
        0 <= n <= a.len(),
        n <= b.len(),
        forall|j: int| 0 <= j < n ==> a[j] == b[j],
    ensures
        free_upto(a, n) == free_upto(b, n),
    decreases n,
{
    if n > 0 {
        lemma_free_upto_same(a, b, n - 1);
    }
}

/// Where no slot below `n` holds a tile, every index below `n` is free.
pub proof fn lemma_free_upto_all(tiles: Seq<Option<Sprite>>, n: int)
    requires
        0 <= n <= tiles.len(),
        forall|j: int| 0 <= j < n ==> tiles[j] is None,
    ensures
        free_upto(tiles, n) == Seq::new(n as nat, |j: int| j as usize),
    decreases n,
{
    if n > 0 {
        lemma_free_upto_all(tiles, n - 1);
        assert(free_upto(tiles, n) =~= Seq::new(n as nat, |j: int| j as usize));
    }
}

/// Relies on `rand::sample` with the thread-local generator: asked for one
/// element of a list, it returns exactly one when the list is not empty, and
/// only elements of the list.
#[verifier::external_body]
#[allow(deprecated)]
fn sample_one(candidates: Vec<usize>) -> (r: Vec<usize>)
    ensures
        candidates@.len() > 0 ==> r@.len() == 1,
        forall|k: int| 0 <= k < r@.len() ==> candidates@.contains(#[trigger] r@[k]),
{
    let mut rng = rand::thread_rng();
    rand::sample(&mut rng, candidates, 1)
}

/// The game board: nine tile slots over a square of side `length`.
#[derive(Debug)]
pub struct Board {
    pub tiles: Tiles,
    pub length: u32,
}

impl Board {
    /// The side of one cell: a third of the board's side.
    pub open spec fn tile_length(self) -> int {
        self.length as int / 3
    }

    /// The left edge of the cell at index `i`.
    pub open spec fn x_spec(self, i: int) -> int {
        (i % 3) * self.tile_length()
    }

    /// The top edge of the cell at index `i`.
    pub open spec fn y_spec(self, i: int) -> int {
        (i / 3) * self.tile_length()
    }

    /// The tile that a filled slot `i` holds: the cell's square, in red.
    pub open spec fn tile_for(self, i: int) -> Sprite {
        Sprite {
            pos: Vec2D { x: self.x_spec(i) as i64, y: self.y_spec(i) as i64 },
            width: self.tile_length() as u32,
            height: self.tile_length() as u32,
            colour: Red,
        }
    }

    /// The free slots in ascending order.
    pub open spec fn free_spec(self) -> Seq<usize> {
        free_upto(self.tiles@, 9)
    }

    /// Every slot holds a tile.
    pub open spec fn full_spec(self) -> bool {
        forall|j: int| 0 <= j < 9 ==> self.tiles[j] is Some
    }

    /// Every filled slot holds the tile of its own cell.
    pub open spec fn wf(self) -> bool {
        forall|j: int| 0 <= j < 9 && self.tiles[j] is Some ==> self.tiles[j] == Some(self.tile_for(j))
    }

    /// `after` is this board with one tile added as `add_tile` adds it: the
    /// tile of a slot that was free, or nothing when the board was full.
    pub open spec fn tile_added(self, after: Board) -> bool {
        &&& after.length == self.length
        &&& self.full_spec() ==> after.tiles@ == self.tiles@
        &&& !self.full_spec() ==> exists|i: usize|
            #![trigger self.free_spec().contains(i)]
            i < 9 && self.free_spec().contains(i) && after.tiles@ == self.tiles@.update(
                i as int,
                Some(self.tile_for(i as int)),
            )
    }

    /// Returns a board of side `length` with all nine slots empty.
    pub fn from_length(length: u32) -> (r: Board)
        ensures
            r.length == length,
            forall|j: int| 0 <= j < 9 ==> r.tiles[j] is None,
            r.wf(),
    {
        Board { tiles: [None; 9], length }
    }

    /// Returns the indices of all the free slots, in ascending order.
    pub fn free_positions(&self) -> (r: Vec<usize>)
        ensures
            r@ == self.free_spec(),
    {
        let mut r: Vec<usize> = Vec::new();
        let mut i: usize = 0;
        while i < 9
            invariant
                i <= 9,
                r@ == free_upto(self.tiles@, i as int),
            decreases 9 - i,
        {
            match self.tiles[i] {
                None => r.push(i),
                Some(_) => {},
            }
            i = i + 1;
        }
        r
    }

    /// True if there are no free positions on the `Board`.
    pub fn is_full(&self) -> (r: bool)
        ensures
            r == self.full_spec(),
            r == (self.free_spec().len() == 0),
    {
        proof {
            lemma_free_upto_empty(self.tiles@, 9);
        }
        self.free_positions().len() == 0
    }

    /// Puts the tile of cell `i` into slot `i`.
    pub fn place_tile(&mut self, i: usize)
        requires
            i < 9,
        ensures
            final(self).tiles@ == old(self).tiles@.update(i as int, Some(old(self).tile_for(i as int))),
            final(self).length == old(self).length,
            old(self).wf() ==> final(self).wf(),
    {
        let x = self.x_from_index(i);
        let y = self.y_from_index(i);
        let side = self.length / 3;
        self.tiles[i] = Some(Sprite::new(x, y, side, side, Red));
    }

    /// Adds a tile to a free slot chosen at random; does nothing when the
    /// board is full.
    pub fn add_tile(&mut self)
        ensures
            old(self).tile_added(*final(self)),
            old(self).free_spec().len() > 0 ==> final(self).free_spec().len() == old(
                self,
            ).free_spec().len() - 1,
            old(self).wf() ==> final(self).wf(),
    {
        let ghost before = *self;
        match self.random_position() {
            Some(i) => {
                proof {
                    lemma_free_upto_contains(self.tiles@, 9, i);
                    lemma_free_upto_fill(self.tiles@, 9, i as int, self.tile_for(i as int));
                }
                self.place_tile(i);
                assert(before.free_spec().contains(i));
            },
            None => {
                proof {
                    lemma_free_upto_empty(self.tiles@, 9);
                }
            },
        }
    }

    /// A free slot chosen at random, or `None` when the board is full.
    pub fn random_position(&self) -> (r: Option<usize>)
        ensures
            r is None <==> self.full_spec(),
            r matches Some(i) ==> i < 9 && self.tiles[i as int] is None,
    {
        let free = self.free_positions();
        proof {
            lemma_free_upto_empty(self.tiles@, 9);
        }
        if free.len() == 0 {
            return None;
        }
        let picked = sample_one(free);
        let i = picked[0];
        proof {
            assert(self.free_spec().contains(picked@[0]));
            lemma_free_upto_contains(self.tiles@, 9, i);
        }
        Some(i)
    }

    /// Calculates the x coordinate of a position on the `Board` from its index.
    pub fn x_from_index(&self, i: usize) -> (r: i64)
        requires
            i < 9,
        ensures
            r == self.x_spec(i as int),
    {
        let tile_length = (self.length / 3) as i64;
        let col = (i % 3) as i64;
        assert(col * tile_length <= 2 * tile_length) by (nonlinear_arith)
            requires
                col <= 2,
                tile_length >= 0,
        ;
        col * tile_length
    }

    /// Calculates the y coordinate of a position on the `Board` from its index.
    pub fn y_from_index(&self, i: usize) -> (r: i64)
        requires
            i < 9,
        ensures
            r == self.y_spec(i as int),
    {
        let tile_length = (self.length / 3) as i64;
        let row = (i / 3) as i64;
        assert(row * tile_length <= 2 * tile_length) by (nonlinear_arith)
            requires
                row <= 2,
                tile_length >= 0,
        ;
        row * tile_length
    }

    /// Removes all tiles from the `Board`.
    pub fn clear_board(&mut self)
        ensures
            final(self).length == old(self).length,
            forall|j: int| 0 <= j < 9 ==> final(self).tiles[j] is None,
            final(self).free_spec() == Seq::new(9, |j: int| j as usize),
            !final(self).full_spec(),
            final(self).wf(),
    {
        self.tiles = [None; 9];
        proof {
            lemma_free_upto_all(self.tiles@, 9);
        }
    }
}

impl PartialEq for Board {
    fn eq(&self, other: &Board) -> bool {
        if self.length != other.length {
            return false;
        }
        let mut i: usize = 0;
        while i < 9
            invariant
                i <= 9,
                self.length == other.length,
                forall|j: int| 0 <= j < i ==> self.tiles[j] == other.tiles[j],
            decreases 9 - i,
        {
            let same = match (self.tiles[i], other.tiles[i]) {
                (None, None) => true,
                (Some(a), Some(b)) => a == b,
                _ => false,
            };
            if !same {
                return false;
            }
            i = i + 1;
        }
        assert(self.tiles@ =~= other.tiles@);
        true
    }
}

impl vstd::std_specs::cmp::PartialEqSpecImpl for Board {
    open spec fn obeys_eq_spec() -> bool {
        true
    }

    open spec fn eq_spec(&self, other: &Board) -> bool {
        self.length == other.length && self.tiles@ == other.tiles@
    }
}

/// The coordinates of a cell depend on its index and the board's side alone:
/// two boards of one side place every cell at the same corner, whatever tiles
/// they hold.
pub proof fn lemma_coordinates_of_index(a: Board, b: Board, i: int)
    requires
        a.length == b.length,
        0 <= i < 9,
    ensures
        a.x_spec(i) == b.x_spec(i),
        a.y_spec(i) == b.y_spec(i),
        0 <= a.x_spec(i) <= 2 * a.tile_length(),
        0 <= a.y_spec(i) <= 2 * a.tile_length(),
{
    assert(0 <= (i % 3) * a.tile_length() <= 2 * a.tile_length()) by (nonlinear_arith)
        requires
            0 <= i % 3 <= 2,
            a.tile_length() >= 0,
    ;
    assert(0 <= (i / 3) * a.tile_length() <= 2 * a.tile_length()) by (nonlinear_arith)
        requires
            0 <= i / 3 <= 2,
            a.tile_length() >= 0,
    ;
}

/// Adding a tile to a board with `k > 0` free slots leaves `k - 1` free
/// slots, and the slot filled was one of the free ones: no tile is ever
/// overwritten.
pub proof fn lemma_add_tile_fills_one_free_slot(before: Board, after: Board)
    requires
        before.tile_added(after),
        before.free_spec().len() > 0,
    ensures
        after.free_spec().len() == before.free_spec().len() - 1,
        exists|i: usize|
            #![trigger before.free_spec().contains(i)]
            before.free_spec().contains(i) && !after.free_spec().contains(i) && forall|j: int|
                0 <= j < 9 && j != i ==> after.tiles[j] == before.tiles[j],
{
    lemma_free_upto_empty(before.tiles@, 9);
    let i = choose|i: usize|
        #![trigger before.free_spec().contains(i)]
        i < 9 && before.free_spec().contains(i) && after.tiles@ == before.tiles@.update(
            i as int,
            Some(before.tile_for(i as int)),
        );
    lemma_free_upto_contains(before.tiles@, 9, i);
    lemma_free_upto_contains(after.tiles@, 9, i);
    lemma_free_upto_fill(before.tiles@, 9, i as int, before.tile_for(i as int));
}

/// A board is full exactly when it has no free slot; once cleared it is not
/// full and every index from 0 to 8 is free again.
pub proof fn lemma_full_iff_no_free(b: Board, cleared: Board)
    requires
        forall|j: int| 0 <= j < 9 ==> cleared.tiles[j] is None,
    ensures
        b.full_spec() <==> b.free_spec().len() == 0,
        !cleared.full_spec(),
        cleared.free_spec() == Seq::new(9, |j: int| j as usize),
{
    lemma_free_upto_empty(b.tiles@, 9);
    lemma_free_upto_all(cleared.tiles@, 9);
    assert(cleared.tiles[0] is None);
}

} // verus!
