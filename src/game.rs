//! The game manager: the board, the cursor, the score and the state machine
//! that moves between them on each tick and each key press.

use vstd::prelude::*;

use crate::colours::Colour;
use crate::gobs::{Board, Sprite, Vec2D};

verus! {

/// Represents the state of the game.
#[derive(Clone, Copy, Debug, PartialEq, Eq, Structural)]
pub enum GameState {
    Ready,
    Playing,
    /// Declared for a win condition that the rules do not yet define: no
    /// transition enters it.
    Win,
    Lose,
}

/// The keys the game reacts to; every other key is `Other`.
#[derive(Clone, Copy, Debug, PartialEq, Eq, Structural)]
pub enum Key {
    Up,
    Down,
    Left,
    Right,
    Space,
    Backspace,
    Other,
}

/// The score from which new tiles come at the shortest interval.
pub const FULL_SPEED_SCORE: u32 = 100;

/// The side of the cursor for a window of side `window_size`.
pub open spec fn cursor_side(window_size: u32) -> int {
    window_size as int / 16
}

/// The coordinate that centres a span of `side` on a board of side `length`.
pub open spec fn centred(length: u32, side: u32) -> int {
    length as int / 2 - side as int / 2
}

/// The interval before the next tile at score `score`: `max_time` moved
/// towards `min_time` by `score` hundredths of the gap between them, rounded
/// towards `max_time`, and `min_time` from a score of 100 on.
pub open spec fn spawn_interval(score: u32, max_time: u64, min_time: u64) -> int {
    if score >= FULL_SPEED_SCORE {
        min_time as int
    } else if max_time >= min_time {
        max_time - (max_time - min_time) * score / 100
    } else {
        max_time + (min_time - max_time) * score / 100
    }
}

/// The horizontal step of the cursor for `key`, cells being `dist` wide.
pub open spec fn step_x(key: Key, dist: int) -> int {
    match key {
        Key::Left => -dist,
        Key::Right => dist,
        _ => 0,
    }
}

/// The vertical step of the cursor for `key`, cells being `dist` high.
pub open spec fn step_y(key: Key, dist: int) -> int {
    match key {
        Key::Up => -dist,
        Key::Down => dist,
        _ => 0,
    }
}

/// The indices below `n` whose slot holds a tile that overlaps `cursor`, in
/// ascending order.
pub open spec fn hits_upto(tiles: Seq<Option<Sprite>>, cursor: Sprite, n: int) -> Seq<usize>
    decreases n,
{
    if n <= 0 {
        seq![]
    } else {
        hits_upto(tiles, cursor, n - 1) + if tiles[n - 1] matches Some(t) && t.overlaps(cursor) {
            seq![(n - 1) as usize]
        } else {
            seq![]
        }
    }
}

/// The tiles held by the slots below `n`, in index order.
pub open spec fn occupied_upto(tiles: Seq<Option<Sprite>>, n: int) -> Seq<Sprite>
    decreases n,
{
    if n <= 0 {
        seq![]
    } else {
        occupied_upto(tiles, n - 1) + match tiles[n - 1] {
            Some(t) => seq![t],
            None => seq![],
        }
    }
}

/// Every index listed as hit lies below `n` and holds a tile.
proof fn lemma_hits_bounded(tiles: Seq<Option<Sprite>>, cursor: Sprite, n: int)
    requires
        0 <= n <= tiles.len(),
        n <= 9,
    ensures
        forall|j: int|
            0 <= j < hits_upto(tiles, cursor, n).len() ==> {
                let k = #[trigger] hits_upto(tiles, cursor, n)[j];
                k < n && tiles[k as int] is Some
            },
    decreases n,
{
    if n > 0 {
        lemma_hits_bounded(tiles, cursor, n - 1);
        let prev = hits_upto(tiles, cursor, n - 1);
        assert forall|j: int| 0 <= j < hits_upto(tiles, cursor, n).len() implies {
            let k = #[trigger] hits_upto(tiles, cursor, n)[j];
            k < n && tiles[k as int] is Some
        } by {
            if j < prev.len() {
                assert(hits_upto(tiles, cursor, n)[j] == prev[j]);
            }
        }
    }
}

/// The `GameManager` struct contains data and methods to run an instance of **Whack!**
///
/// Times are in microseconds; `tile_timer` is what remains before the next
/// tile appears.
#[derive(Debug)]
pub struct GameManager {
    pub board: Board,
    pub cursor: Sprite,
    pub state: GameState,
    pub score: u32,
    pub max_time: u64,
    pub min_time: u64,
    pub tile_timer: u64,
}

impl GameManager {
    /// The cell distance the cursor moves by.
    pub open spec fn move_dist(self) -> int {
        self.board.tile_length()
    }

    /// The slots whose tile the cursor overlaps.
    pub open spec fn hits(self) -> Seq<usize> {
        hits_upto(self.board.tiles@, self.cursor, 9)
    }

    /// This manager is the one `new` builds from these values.
    pub open spec fn is_fresh(self, window_size: u32, max_time: u64, min_time: u64) -> bool {
        let side = cursor_side(window_size);
        let c = centred(window_size, side as u32);
        &&& self.board.length == window_size
        &&& forall|j: int| 0 <= j < 9 ==> self.board.tiles[j] is None
        &&& self.cursor == (Sprite {
            pos: Vec2D { x: c as i64, y: c as i64 },
            width: side as u32,
            height: side as u32,
            colour: Colour::Yellow,
        })
        &&& self.state == GameState::Ready
        &&& self.score == 0
        &&& self.max_time == max_time
        &&& self.min_time == min_time
        &&& self.tile_timer == 0
    }

    /// This manager is `before` after `reset`: the board emptied, the cursor
    /// centred with its size and colour kept, the game ready with no score and
    /// no time on the timer, the timing bounds kept.
    pub open spec fn is_reset_of(self, before: GameManager) -> bool {
        &&& self.board.length == before.board.length
        &&& forall|j: int| 0 <= j < 9 ==> self.board.tiles[j] is None
        &&& self.cursor == (Sprite {
            pos: Vec2D {
                x: centred(before.board.length, before.cursor.width) as i64,
                y: centred(before.board.length, before.cursor.height) as i64,
            },
            ..before.cursor
        })
        &&& self.state == GameState::Ready
        &&& self.score == 0
        &&& self.max_time == before.max_time
        &&& self.min_time == before.min_time
        &&& self.tile_timer == 0
    }

    /// `input(key)` can be taken without leaving the machine's integers and
    /// without meeting more than one overlapping tile: while playing, the
    /// cursor's step stays within `i64`, and a whack meets at most one tile
    /// and has room left on the score.
    pub open spec fn accepts(self, key: Key) -> bool {
        self.state == GameState::Playing ==> {
            &&& self.cursor.pos.can_add(
                Vec2D {
                    x: step_x(key, self.move_dist()) as i64,
                    y: step_y(key, self.move_dist()) as i64,
                },
            )
            &&& key == Key::Space ==> self.hits().len() <= 1
            &&& key == Key::Space && self.hits().len() == 1 ==> self.score < u32::MAX
        }
    }

    /// Returns a new game manager for a window of side `window_size`, with
    /// tiles coming every `max_time` microseconds at first and every
    /// `min_time` at full speed.
    pub fn new(window_size: u32, max_time: u64, min_time: u64) -> (r: GameManager)
        ensures
            r.is_fresh(window_size, max_time, min_time),
            r.board.wf(),
    {
        let side = window_size / 16;
        let c = (window_size / 2) as i64 - (side / 2) as i64;
        GameManager {
            board: Board::from_length(window_size),
            cursor: Sprite::new(c, c, side, side, Colour::Yellow),
            state: GameState::Ready,
            score: 0,
            max_time,
            min_time,
            tile_timer: 0,
        }
    }

    /// Resets the state of the `GameManager`.
    pub fn reset(&mut self)
        ensures
            final(self).is_reset_of(*old(self)),
            final(self).board.wf(),
    {
        self.board.clear_board();
        let length = self.board.length;
        self.cursor.pos = Vec2D {
            x: (length / 2) as i64 - (self.cursor.width / 2) as i64,
            y: (length / 2) as i64 - (self.cursor.height / 2) as i64,
        };
        self.state = GameState::Ready;
        self.score = 0;
        self.tile_timer = 0;
    }

    /// The interval before the next tile at the current score.
    pub fn spawn_time(&self) -> (r: u64)
        ensures
            r == spawn_interval(self.score, self.max_time, self.min_time),
    {
        if self.score >= FULL_SPEED_SCORE {
            return self.min_time;
        }
        let score = self.score as u128;
        if self.max_time >= self.min_time {
            let gap = (self.max_time - self.min_time) as u128;
            assert(gap * score / 100 <= gap) by (nonlinear_arith)
                requires
                    score < 100,
            ;
            let delta = (gap * score / 100) as u64;
            self.max_time - delta
        } else {
            let gap = (self.min_time - self.max_time) as u128;
            assert(gap * score / 100 <= gap) by (nonlinear_arith)
                requires
                    score < 100,
            ;
            let delta = (gap * score / 100) as u64;
            self.max_time + delta
        }
    }

    /// Advances the game by `dt` microseconds: while playing, runs the tile
    /// timer down, adds a tile and restarts the timer when it runs out, and
    /// loses the game once the board is full. Other states ignore time.
    pub fn update(&mut self, dt: u64)
        ensures
            old(self).state != GameState::Playing ==> *final(self) == *old(self),
            old(self).state == GameState::Playing ==> {
                &&& dt > old(self).tile_timer ==> {
                    &&& final(self).tile_timer == spawn_interval(
                        old(self).score,
                        old(self).max_time,
                        old(self).min_time,
                    )
                    &&& old(self).board.tile_added(final(self).board)
                }
                &&& dt <= old(self).tile_timer ==> {
                    &&& final(self).tile_timer == old(self).tile_timer - dt
                    &&& final(self).board == old(self).board
                }
                &&& final(self).state == if final(self).board.full_spec() {
                    GameState::Lose
                } else {
                    GameState::Playing
                }
                &&& final(self).cursor == old(self).cursor
                &&& final(self).score == old(self).score
                &&& final(self).max_time == old(self).max_time
                &&& final(self).min_time == old(self).min_time
            },
            old(self).board.wf() ==> final(self).board.wf(),
    {
        match self.state {
            GameState::Playing => self.playing_update(dt),
            _ => {},
        }
    }

    /// Called by `update` when the `GameState` is `Playing`.
    fn playing_update(&mut self, dt: u64)
        ensures
            dt > old(self).tile_timer ==> {
                &&& final(self).tile_timer == spawn_interval(
                    old(self).score,
                    old(self).max_time,
                    old(self).min_time,
                )
                &&& old(self).board.tile_added(final(self).board)
            },
            dt <= old(self).tile_timer ==> {
                &&& final(self).tile_timer == old(self).tile_timer - dt
                &&& final(self).board == old(self).board
            },
            final(self).state == if final(self).board.full_spec() {
                GameState::Lose
            } else {
                old(self).state
            },
            final(self).cursor == old(self).cursor,
            final(self).score == old(self).score,
            final(self).max_time == old(self).max_time,
            final(self).min_time == old(self).min_time,
            old(self).board.wf() ==> final(self).board.wf(),
    {
        if dt > self.tile_timer {
            self.tile_timer = self.spawn_time();
            self.board.add_tile();
        } else {
            self.tile_timer = self.tile_timer - dt;
        }
        if self.board.is_full() {
            self.state = GameState::Lose;
        }
    }

    /// Whether `input(key)` may be called now: see `accepts`.
    pub fn accepts_input(&self, key: Key) -> (r: bool)
        ensures
            r == self.accepts(key),
    {
        if self.state != GameState::Playing {
            return true;
        }
        let dx = self.step(key).x as i128;
        let dy = self.step(key).y as i128;
        let x = self.cursor.pos.x as i128 + dx;
        let y = self.cursor.pos.y as i128 + dy;
        if x < i64::MIN as i128 || x > i64::MAX as i128 || y < i64::MIN as i128 || y
            > i64::MAX as i128 {
            return false;
        }
        if key == Key::Space {
            let hits = self.overlapping_tiles();
            if hits.len() > 1 {
                return false;
            }
            if hits.len() == 1 && self.score == u32::MAX {
                return false;
            }
        }
        true
    }

    /// Called by the event loop when a key is pressed.
    pub fn input(&mut self, key: Key)
        requires
            old(self).accepts(key),
        ensures
            old(self).state == GameState::Ready ==> *final(self) == if key == Key::Space {
                (GameManager { state: GameState::Playing, ..*old(self) })
            } else {
                *old(self)
            },
            old(self).state == GameState::Lose ==> if key == Key::Space {
                final(self).is_reset_of(*old(self))
            } else {
                *final(self) == *old(self)
            },
            old(self).state == GameState::Win ==> *final(self) == *old(self),
            old(self).state == GameState::Playing ==> old(self).played(key, *final(self)),
            old(self).board.wf() ==> final(self).board.wf(),
    {
        match self.state {
            GameState::Ready => self.ready_key_press(key),
            GameState::Playing => self.playing_key_press(key),
            GameState::Lose => self.lose_key_press(key),
            GameState::Win => {},
        }
    }

    /// `after` is this manager after `key` while playing: the cursor moved a
    /// cell for an arrow key; for Space, the one tile the cursor overlaps, if
    /// any, removed and the score raised by one. Nothing else changes.
    pub open spec fn played(self, key: Key, after: GameManager) -> bool {
        let whacked = key == Key::Space && self.hits().len() == 1;
        &&& after.cursor.pos.x == self.cursor.pos.x + step_x(key, self.move_dist())
        &&& after.cursor.pos.y == self.cursor.pos.y + step_y(key, self.move_dist())
        &&& after.cursor.width == self.cursor.width
        &&& after.cursor.height == self.cursor.height
        &&& after.cursor.colour == self.cursor.colour
        &&& after.board.length == self.board.length
        &&& after.board.tiles@ == if whacked {
            self.board.tiles@.update(self.hits()[0] as int, None)
        } else {
            self.board.tiles@
        }
        &&& after.score == if whacked {
            self.score + 1
        } else {
            self.score as int
        }
        &&& after.state == self.state
        &&& after.max_time == self.max_time
        &&& after.min_time == self.min_time
        &&& after.tile_timer == self.tile_timer
    }

    /// Called by `input` when the `GameState` is `Ready`.
    fn ready_key_press(&mut self, key: Key)
        ensures
            *final(self) == if key == Key::Space {
                (GameManager { state: GameState::Playing, ..*old(self) })
            } else {
                *old(self)
            },
    {
        if key == Key::Space {
            self.state = GameState::Playing;
        }
    }

    /// Called by `input` when the `GameState` is `Playing`.
    fn playing_key_press(&mut self, key: Key)
        requires
            old(self).accepts(key),
            old(self).state == GameState::Playing,
        ensures
            old(self).played(key, *final(self)),
            old(self).board.wf() ==> final(self).board.wf(),
    {
        self.handle_movement(key);
        self.whack(key);
    }

    /// Called by `input` when the `GameState` is `Lose`.
    fn lose_key_press(&mut self, key: Key)
        ensures
            key == Key::Space ==> final(self).is_reset_of(*old(self)),
            key != Key::Space ==> *final(self) == *old(self),
            old(self).board.wf() ==> final(self).board.wf(),
    {
        if key == Key::Space {
            self.reset();
            self.state = GameState::Ready;
        }
    }

    /// The step of the cursor for `key`: one cell in the arrow's direction,
    /// nothing for any other key.
    pub fn step(&self, key: Key) -> (r: Vec2D)
        ensures
            r.x == step_x(key, self.move_dist()),
            r.y == step_y(key, self.move_dist()),
    {
        let dist = (self.board.length / 3) as i64;
        match key {
            Key::Up => Vec2D { x: 0, y: -dist },
            Key::Down => Vec2D { x: 0, y: dist },
            Key::Right => Vec2D { x: dist, y: 0 },
            Key::Left => Vec2D { x: -dist, y: 0 },
            _ => Vec2D { x: 0, y: 0 },
        }
    }

    /// Moves the cursor one cell for an arrow key.
    fn handle_movement(&mut self, key: Key)
        requires
            old(self).cursor.pos.can_add(
                Vec2D {
                    x: step_x(key, old(self).move_dist()) as i64,
                    y: step_y(key, old(self).move_dist()) as i64,
                },
            ),
        ensures
            final(self).cursor.pos.x == old(self).cursor.pos.x + step_x(key, old(self).move_dist()),
            final(self).cursor.pos.y == old(self).cursor.pos.y + step_y(key, old(self).move_dist()),
            final(self).cursor.width == old(self).cursor.width,
            final(self).cursor.height == old(self).cursor.height,
            final(self).cursor.colour == old(self).cursor.colour,
            final(self).board == old(self).board,
            final(self).state == old(self).state,
            final(self).score == old(self).score,
            final(self).max_time == old(self).max_time,
            final(self).min_time == old(self).min_time,
            final(self).tile_timer == old(self).tile_timer,
    {
        let move_vec = self.step(key);
        self.cursor.pos.add(move_vec);
    }

    /// The slots whose tile the cursor overlaps, in ascending order.
    pub fn overlapping_tiles(&self) -> (r: Vec<usize>)
        ensures
            r@ == self.hits(),
    {
        let mut r: Vec<usize> = Vec::new();
        let mut i: usize = 0;
        while i < 9
            invariant
                i <= 9,
                r@ == hits_upto(self.board.tiles@, self.cursor, i as int),
            decreases 9 - i,
        {
            match self.board.tiles[i] {
                Some(t) => {
                    if t.is_overlapping(&self.cursor) {
                        r.push(i);
                    }
                },
                None => {},
            }
            i = i + 1;
        }
        r
    }

    /// On Space, removes the tile the cursor overlaps, if there is one, and
    /// scores a point for it.
    fn whack(&mut self, key: Key)
        requires
            key == Key::Space ==> old(self).hits().len() <= 1,
            key == Key::Space && old(self).hits().len() == 1 ==> old(self).score < u32::MAX,
        ensures
            ({
                let whacked = key == Key::Space && old(self).hits().len() == 1;
                &&& final(self).board.length == old(self).board.length
                &&& final(self).board.tiles@ == if whacked {
                    old(self).board.tiles@.update(old(self).hits()[0] as int, None)
                } else {
                    old(self).board.tiles@
                }
                &&& final(self).score == if whacked {
                    old(self).score + 1
                } else {
                    old(self).score as int
                }
            }),
            final(self).cursor == old(self).cursor,
            final(self).state == old(self).state,
            final(self).max_time == old(self).max_time,
            final(self).min_time == old(self).min_time,
            final(self).tile_timer == old(self).tile_timer,
            old(self).board.wf() ==> final(self).board.wf(),
    {
        if key == Key::Space {
            let overlapping = self.overlapping_tiles();
            if overlapping.len() > 0 {
                let i = overlapping[0];
                proof {
                    lemma_hits_bounded(self.board.tiles@, self.cursor, 9);
                    assert(overlapping@[0] == i);
                }
                self.board.tiles[i] = None;
                self.score = self.score + 1;
            }
        }
    }

    /// The sprites to draw, bottom first: the tiles in slot order, then the
    /// cursor on top.
    pub fn get_sprites(&self) -> (r: Vec<Sprite>)
        ensures
            r@ == occupied_upto(self.board.tiles@, 9).push(self.cursor),
    {
        let mut r: Vec<Sprite> = Vec::new();
        let mut i: usize = 0;
        while i < 9
            invariant
                i <= 9,
                r@ == occupied_upto(self.board.tiles@, i as int),
            decreases 9 - i,
        {
            match self.board.tiles[i] {
                Some(t) => r.push(t),
                None => {},
            }
            i = i + 1;
        }
        r.push(self.cursor);
        r
    }
}

impl PartialEq for GameManager {
    fn eq(&self, other: &GameManager) -> bool {
        self.board == other.board && self.cursor == other.cursor && self.state == other.state
            && self.score == other.score && self.max_time == other.max_time && self.min_time
            == other.min_time && self.tile_timer == other.tile_timer
    }
}

impl vstd::std_specs::cmp::PartialEqSpecImpl for GameManager {
    open spec fn obeys_eq_spec() -> bool {
        true
    }

    open spec fn eq_spec(&self, other: &GameManager) -> bool {
        &&& self.board.length == other.board.length
        &&& self.board.tiles@ == other.board.tiles@
        &&& self.cursor == other.cursor
        &&& self.state == other.state
        &&& self.score == other.score
        &&& self.max_time == other.max_time
        &&& self.min_time == other.min_time
        &&& self.tile_timer == other.tile_timer
    }
}

/// Resetting a manager gives, field for field, the manager that `new` builds
/// for the same window size and timing bounds, however the game went: the
/// board's side and the cursor's size and colour, which play never changes,
/// are those that `new` derives from that window size.
pub proof fn lemma_reset_is_fresh(
    before: GameManager,
    after: GameManager,
    fresh: GameManager,
    window_size: u32,
    max_time: u64,
    min_time: u64,
)
    requires
        after.is_reset_of(before),
        fresh.is_fresh(window_size, max_time, min_time),
        before.board.length == window_size,
        before.cursor.width == cursor_side(window_size),
        before.cursor.height == cursor_side(window_size),
        before.cursor.colour == Colour::Yellow,
        before.max_time == max_time,
        before.min_time == min_time,
    ensures
        after == fresh,
{
    assert(after.board.tiles =~= fresh.board.tiles);
}

} // verus!
