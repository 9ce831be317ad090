//! The game: the grid, the falling piece, the queue of coming kinds, the
//! score, and the rules that move the game from one tick to the next.
//!
//! The contracts speak of a game through its view, a `GameView`, and every
//! operation is stated as a function from views to views. The kinds that
//! enter the queue are drawn at random; each operation that draws one has a
//! twin that takes the kind as an argument and is stated exactly.

use vstd::prelude::*;
use crate::cell::Cell;
use crate::grid::{
    board_wf, collapse, empty_board, empty_row, fits, full_row_count, landing,
    lemma_collapse_bottom_row, lemma_collapse_keeps_cells, lemma_collapse_leaves_no_full_row,
    lemma_piece_in_grid_is_near, lemma_shadow_reaches_floor, piece_in_grid, place_spec,
    remove_spec, row_is_full, without_shadows, Board, Grid, GRID_HEIGHT, GRID_WIDTH,
};
use crate::key::Key;
use crate::piece::{Piece, Placement};
use crate::tetromino::{cells_spec, kind_at, lemma_cells_distinct, Tetromino, KINDS};
use crate::vec2::Vec2;

verus! {

/// Whether the game goes on.
#[derive(Debug, Clone, Copy, PartialEq, Eq, Structural)]
pub enum State {
    Running,
    GameOver,
}

/// What a player can ask of the game.
#[derive(Debug, Clone, Copy, PartialEq, Eq, Structural)]
pub enum Command {
    /// Move the view of the grid two columns to the left on the screen.
    ShiftViewLeft,
    /// Move the view of the grid two columns to the right on the screen.
    ShiftViewRight,
    /// Move the view of the grid one line up on the screen.
    ShiftViewUp,
    /// Move the view of the grid one line down on the screen.
    ShiftViewDown,
    /// Turn the falling piece by a quarter turn clockwise.
    RotateClockwise,
    /// Let the falling piece drop one row each tick until it comes to rest.
    SoftDrop,
    /// Move the falling piece one column to the left.
    MoveLeft,
    /// Move the falling piece one column to the right.
    MoveRight,
}

/// The command that a key stands for, if any.
pub open spec fn command_of(key: Key) -> Option<Command> {
    match key {
        Key::A => Some(Command::ShiftViewLeft),
        Key::D => Some(Command::ShiftViewRight),
        Key::W => Some(Command::ShiftViewUp),
        Key::S => Some(Command::ShiftViewDown),
        Key::Up | Key::Space => Some(Command::RotateClockwise),
        Key::Down | Key::Enter => Some(Command::SoftDrop),
        Key::Left => Some(Command::MoveLeft),
        Key::Right => Some(Command::MoveRight),
        _ => None,
    }
}

/// The keys that act once for each time they are pressed: while such a key
/// is held down it is not handled again.
pub open spec fn acts_once(key: Key) -> bool {
    key == Key::Up || key == Key::Space || key == Key::Down || key == Key::Enter
}

/// How many kinds the queue holds while a game is played.
pub const NEXT_PIECES: usize = 3;

/// The points for a piece that comes to rest.
pub const LOCK_POINTS: i32 = 4;

/// The lowest level.
pub const MIN_LEVEL: i32 = 1;

/// The highest level.
pub const MAX_LEVEL: i32 = 10;

/// The score that earns one more level.
pub const LEVEL_POINTS: i32 = 100;

/// The most points that one tick can bring: a piece comes to rest and every
/// row is cleared.
pub const MAX_GAIN: i32 = 204;

/// The width of the grid on the screen: each square is two characters wide.
pub const SCREEN_WIDTH: i32 = 20;

/// A game.
pub struct GameState {
    dimension: Vec2,
    grid: Grid,
    grid_pos: Vec2,
    running: State,
    pub prev_key: Option<Key>,
    // the piece that is falling
    current_piece: Option<Piece>,
    drop_current_piece: bool,
    // the kinds that come next, the first one at the front
    next_pieces: Vec<Tetromino>,
    lines_cleared: i32,
    score: i32,
    level: i32,
}

/// What a game is, for the contracts.
pub struct GameView {
    /// The size of the window.
    pub dimension: Vec2,
    /// Where on the screen the top-left corner of the grid is drawn.
    pub grid_pos: Vec2,
    /// The grid.
    pub board: Board,
    /// Whether the game goes on.
    pub status: State,
    /// The key that was handled last, if it counts for the next one.
    pub prev_key: Option<Key>,
    /// The falling piece.
    pub piece: Option<Placement>,
    /// Whether the falling piece drops one row each tick.
    pub soft_drop: bool,
    /// The kinds that come next, the first one at the front.
    pub queue: Seq<Tetromino>,
    /// The number of rows cleared so far.
    pub lines_cleared: int,
    /// The score.
    pub score: int,
    /// The level, from `MIN_LEVEL` to `MAX_LEVEL`.
    pub level: int,
}

/// The level that a score earns: one more for every `LEVEL_POINTS` points,
/// from `MIN_LEVEL` up to `MAX_LEVEL`.
pub open spec fn level_spec(score: int) -> int {
    let raw = 1 + score / (LEVEL_POINTS as int);
    if raw < MIN_LEVEL {
        MIN_LEVEL as int
    } else if raw > MAX_LEVEL {
        MAX_LEVEL as int
    } else {
        raw
    }
}

/// `a / 2`, rounded towards zero.
pub open spec fn half(a: int) -> int {
    if a >= 0 {
        a / 2
    } else {
        -((-a) / 2)
    }
}

/// The place of the grid in a window of size `dim` that leaves as much room
/// to its left as to its right, and as much above as below.
pub open spec fn centered(dim: Vec2) -> Vec2 {
    Vec2 { x: half(dim.x - SCREEN_WIDTH) as i32, y: half(dim.y - GRID_HEIGHT) as i32 }
}

/// `v + delta`, but not less than 0, and then not more than `limit`.
pub open spec fn pan_axis(v: int, delta: int, limit: int) -> int {
    let low = if v + delta < 0 {
        0
    } else {
        v + delta
    };
    if limit < low {
        limit
    } else {
        low
    }
}

/// A window of size `dim` is one for which the place of the grid can be
/// computed.
pub open spec fn window_ok(dim: Vec2) -> bool {
    dim.x - SCREEN_WIDTH >= i32::MIN && dim.y - GRID_HEIGHT >= i32::MIN
}

/// The placement with which a piece of kind `kind` enters the grid: in its
/// first orientation, in the middle columns, its topmost squares in row 0.
pub open spec fn spawn_spec(kind: Tetromino) -> Placement {
    Placement { kind, rot: 0, x: GRID_WIDTH / 2 - 1, y: -cells_spec(kind, 0)[0].y }
}

/// A game that sets out from a position: the grid `board` in the middle of a
/// window of size `dim`, with `piece` falling and the kinds `queue` to come,
/// no points yet and no key handled.
pub open spec fn set_out(
    dim: Vec2,
    board: Board,
    piece: Option<Placement>,
    queue: Seq<Tetromino>,
) -> GameView {
    GameView {
        dimension: dim,
        grid_pos: centered(dim),
        board,
        status: State::Running,
        prev_key: None,
        piece,
        soft_drop: false,
        queue,
        lines_cleared: 0,
        score: 0,
        level: MIN_LEVEL as int,
    }
}

/// The piece at place `n` of the show of all shapes: the kinds from top to
/// bottom, five rows apart, and the four orientations of each from left to
/// right, five columns apart.
pub open spec fn show_piece(n: int) -> Placement {
    Placement { kind: kind_at(n / 4), rot: n % 4, x: (n % 4) * 5, y: (n / 4) * 5 }
}

/// `b` with the shadow mark on the squares of the first `n` pieces of the
/// show of all shapes, as far as they lie in the grid.
pub open spec fn show_board(b: Board, n: int) -> Board
    decreases n,
{
    if n <= 0 {
        b
    } else {
        place_spec(show_board(b, n - 1), show_piece(n - 1), true)
    }
}

impl GameView {
    /// The view is one of a game: the grid has its dimensions, the counters
    /// are not negative, the level is the one that the score earns, and a
    /// falling piece lies in the grid and has a queue behind it.
    pub open spec fn valid(self) -> bool {
        &&& self.sound()
        &&& self.level == level_spec(self.score)
    }

    /// All of `valid()` but the level, which is brought up to date at the end
    /// of a tick.
    pub open spec fn sound(self) -> bool {
        &&& board_wf(self.board)
        &&& window_ok(self.dimension)
        &&& 0 <= self.score
        &&& 0 <= self.lines_cleared
        &&& self.piece matches Some(p) ==> piece_in_grid(p) && self.queue.len() > 0
    }

    /// The number of ticks between two steps of the falling piece.
    pub open spec fn step_delay(self) -> int {
        if self.soft_drop {
            1
        } else {
            MAX_LEVEL + 1 - self.level
        }
    }

    /// Whether the falling piece is due to move down at tick `step`.
    pub open spec fn gravity_due(self, step: int) -> bool {
        step % self.step_delay() == 0 && step != 0
    }

    /// Whether the game takes `candidate` in place of the falling piece: there
    /// is a falling piece, the game goes on, and `candidate` fits on the grid
    /// from which the falling piece was taken off.
    pub open spec fn accepts(self, candidate: Placement) -> bool {
        &&& self.status == State::Running
        &&& self.piece matches Some(p)
        &&& fits(remove_spec(self.board, p), candidate)
    }

    /// The game after an attempt to put `candidate` in place of the falling
    /// piece. The falling piece is taken off the grid in any case; it is
    /// replaced only if the candidate fits. A game that is over, or has no
    /// falling piece, does not change.
    pub open spec fn attempt(self, candidate: Placement) -> GameView {
        match self.piece {
            Some(p) if self.status == State::Running => GameView {
                board: remove_spec(self.board, p),
                piece: if self.accepts(candidate) {
                    Some(candidate)
                } else {
                    self.piece
                },
                ..self
            },
            _ => self,
        }
    }

    /// The placement that a move by `(dx, dy)` asks for.
    pub open spec fn moved(self, dx: int, dy: int) -> Placement {
        self.piece.unwrap().shifted(dx, dy)
    }

    /// The placement that a quarter turn clockwise asks for.
    pub open spec fn turned(self) -> Placement {
        self.piece.unwrap().turned(1)
    }

    /// The game after `kind` joined the queue at the back.
    pub open spec fn enqueued(self, kind: Tetromino) -> GameView {
        GameView { queue: self.queue.push(kind), ..self }
    }

    /// The game after the kind at the front of the queue became the falling
    /// piece and `fresh` joined the queue at the back. The new piece stands
    /// at its place of entry, whatever the grid holds there, and falls at the
    /// pace of the level.
    pub open spec fn picked(self, fresh: Tetromino) -> GameView {
        GameView {
            queue: self.queue.drop_first().push(fresh),
            piece: Some(spawn_spec(self.queue[0])),
            soft_drop: false,
            ..self
        }
    }

    /// The game after a start with the kinds `kinds`: all but the last join
    /// the queue, then the kind at the front of the queue becomes the falling
    /// piece and the last of `kinds` joins the queue.
    pub open spec fn started(self, kinds: Seq<Tetromino>) -> GameView {
        GameView { queue: self.queue + kinds.drop_last(), ..self }.picked(kinds.last())
    }

    /// The game with every shadow mark taken off the grid.
    pub open spec fn cleared_of_shadows(self) -> GameView {
        GameView { board: without_shadows(self.board), ..self }
    }

    /// The game with the falling piece and its shadow drawn on the grid: the
    /// piece is taken off, the shadow is marked where the piece would come to
    /// rest, and the piece is placed over it.
    pub open spec fn redrawn(self) -> GameView {
        let p = self.piece.unwrap();
        let b = remove_spec(self.board, p);
        GameView { board: place_spec(place_spec(b, landing(b, p), true), p, false), ..self }
    }

    /// The game after the falling piece came to rest: it is placed on the
    /// grid for good, which brings `LOCK_POINTS` points; then the full rows
    /// are cleared, each of which counts as a line and brings `GRID_WIDTH`
    /// points.
    pub open spec fn locked(self) -> GameView {
        let placed = place_spec(self.board, self.piece.unwrap(), false);
        let cleared = full_row_count(placed);
        GameView {
            board: collapse(placed),
            score: self.score + LOCK_POINTS + GRID_WIDTH * cleared,
            lines_cleared: self.lines_cleared + cleared,
            ..self
        }
    }

    /// The game after the next piece entered, with `fresh` joining the queue.
    /// The grid is left as it is: the next tick draws the piece and its
    /// shadow. Where the new piece does not fit, the game is over.
    pub open spec fn spawned(self, fresh: Tetromino) -> GameView {
        let s = self.picked(fresh);
        if fits(s.board, s.piece.unwrap()) {
            s
        } else {
            GameView { status: State::GameOver, ..s }
        }
    }

    /// The grid with the falling piece placed on it for good and no shadow
    /// mark left: what the full rows are looked for in when the piece comes
    /// to rest.
    pub open spec fn settled_board(self) -> Board {
        let p = self.piece.unwrap();
        place_spec(remove_spec(without_shadows(self.board), p), p, false)
    }

    /// The counters have room for what tick `step` adds to them: where the
    /// falling piece comes to rest at that tick, the score is at least
    /// `MAX_GAIN` and the number of lines at least `GRID_HEIGHT` below the
    /// largest number that they can hold.
    pub open spec fn has_room_at(self, step: int) -> bool {
        self.blocked_at(step) ==> self.score <= i32::MAX - MAX_GAIN && self.lines_cleared
            <= i32::MAX - GRID_HEIGHT
    }

    /// The game with the level that its score earns.
    pub open spec fn releveled(self) -> GameView {
        GameView { level: level_spec(self.score), ..self }
    }

    /// Whether the falling piece comes to rest at tick `step`: the game goes
    /// on, the piece is due to move down, and it cannot.
    pub open spec fn blocked_at(self, step: int) -> bool {
        &&& self.status == State::Running
        &&& self.piece is Some
        &&& self.gravity_due(step)
        &&& !self.cleared_of_shadows().accepts(self.moved(0, 1))
    }

    /// The game after tick `step`, up to the entry of the next piece. A game
    /// that is over does not change. Else the shadow marks are taken off, the
    /// falling piece moves down by one row if it is due and can, and is drawn
    /// again with its shadow; if it is due and cannot, it comes to rest.
    /// Last the level is brought up to date.
    pub open spec fn advanced(self, step: int) -> GameView {
        if self.status == State::GameOver {
            self
        } else if self.piece is None {
            self.releveled()
        } else {
            let s = self.cleared_of_shadows();
            let t = if self.gravity_due(step) {
                s.attempt(s.moved(0, 1))
            } else {
                s
            };
            if self.blocked_at(step) {
                t.locked().releveled()
            } else {
                t.redrawn().releveled()
            }
        }
    }

    /// The game after tick `step`: as `advanced` says, and if the falling
    /// piece came to rest, the next piece enters and `fresh` joins the queue.
    pub open spec fn ticked(self, step: int, fresh: Tetromino) -> GameView {
        if self.blocked_at(step) {
            self.advanced(step).spawned(fresh)
        } else {
            self.advanced(step)
        }
    }

    /// The game after command `c`. A game that is over takes no command.
    pub open spec fn applied(self, c: Command) -> GameView {
        if self.status == State::GameOver {
            self
        } else {
            match c {
                Command::ShiftViewLeft => self.panned(-2, 0),
                Command::ShiftViewRight => self.panned(2, 0),
                Command::ShiftViewUp => self.panned(0, -1),
                Command::ShiftViewDown => self.panned(0, 1),
                Command::RotateClockwise => self.attempt(self.turned()),
                Command::SoftDrop => GameView { soft_drop: true, ..self },
                Command::MoveLeft => self.attempt(self.moved(-1, 0)),
                Command::MoveRight => self.attempt(self.moved(1, 0)),
            }
        }
    }

    /// The game after `key` was found held down. A key that was handled last
    /// is not handled again: if it acts once per press nothing changes, else
    /// it is forgotten, so that it is handled on every other tick. Any other
    /// key has its command carried out, if it stands for one, and is
    /// remembered. A game that is over takes no key.
    pub open spec fn key_handled(self, key: Key) -> GameView {
        if self.status == State::GameOver {
            self
        } else if self.prev_key == Some(key) {
            if acts_once(key) {
                self
            } else {
                GameView { prev_key: None, ..self }
            }
        } else {
            let after = match command_of(key) {
                Some(c) => self.applied(c),
                None => self,
            };
            GameView { prev_key: Some(key), ..after }
        }
    }

    /// The game after each of `keys` was handled, in their order.
    pub open spec fn keys_folded(self, keys: Seq<Key>) -> GameView
        decreases keys.len(),
    {
        if keys.len() == 0 {
            self
        } else {
            self.keys_folded(keys.drop_last()).key_handled(keys.last())
        }
    }

    /// The game after the keys `keys` were found held down at a tick. With no
    /// key held down the key that was handled last is forgotten. A game that
    /// is over takes no key.
    pub open spec fn keys_handled(self, keys: Seq<Key>) -> GameView {
        if self.status == State::GameOver {
            self
        } else if keys.len() == 0 {
            GameView { prev_key: None, ..self }
        } else {
            self.keys_folded(keys)
        }
    }

    /// The game with the view of the grid moved by `(dx, dy)` on the screen,
    /// kept inside the window.
    pub open spec fn panned(self, dx: int, dy: int) -> GameView {
        GameView {
            grid_pos: Vec2 {
                x: pan_axis(self.grid_pos.x as int, dx, self.dimension.x - SCREEN_WIDTH) as i32,
                y: pan_axis(self.grid_pos.y as int, dy, self.dimension.y - GRID_HEIGHT) as i32,
            },
            ..self
        }
    }
}

impl View for GameState {
    type V = GameView;

    closed spec fn view(&self) -> GameView {
        GameView {
            dimension: self.dimension,
            grid_pos: self.grid_pos,
            board: self.grid@,
            status: self.running,
            prev_key: self.prev_key,
            piece: match self.current_piece {
                Some(p) => Some(p@),
                None => None,
            },
            soft_drop: self.drop_current_piece,
            queue: self.next_pieces@,
            lines_cleared: self.lines_cleared as int,
            score: self.score as int,
            level: self.level as int,
        }
    }
}

/// The level that `score` earns.
pub fn level_for_score(score: i32) -> (level: i32)
    ensures
        level == level_spec(score as int),
        MIN_LEVEL <= level <= MAX_LEVEL,
{
    let raw: i32 = 1 + score / LEVEL_POINTS;
    if raw < MIN_LEVEL {
        MIN_LEVEL
    } else if raw > MAX_LEVEL {
        MAX_LEVEL
    } else {
        raw
    }
}

/// A higher score never earns a lower level.
pub proof fn lemma_level_is_monotonic(lower: int, higher: int)
    requires
        lower <= higher,
    ensures
        level_spec(lower) <= level_spec(higher),
        MIN_LEVEL <= level_spec(lower) <= MAX_LEVEL,
{
    assert(lower / 100 <= higher / 100) by (nonlinear_arith)
        requires
            lower <= higher,
    ;
}

impl GameState {
    /// The invariant of a game: its view is valid.
    pub open spec fn wf(&self) -> bool {
        self@.valid()
    }

    /// A new game for a window of size `dim`: an empty grid in the middle of
    /// the window, no falling piece, an empty queue.
    pub fn new(dim: Vec2) -> (game: Self)
        requires
            window_ok(dim),
        ensures
            game.wf(),
            game@ == set_out(dim, empty_board(), None, Seq::empty()),
    {
        let game = Self {
            dimension: dim,
            grid: Grid::new(),
            grid_pos: Vec2::xy((dim.x - GRID_WIDTH * 2) / 2, (dim.y - GRID_HEIGHT) / 2),
            running: State::Running,
            prev_key: None,
            current_piece: None,
            drop_current_piece: false,
            next_pieces: Vec::new(),
            lines_cleared: 0,
            score: 0,
            level: 1,
        };
        proof {
            game.grid.lemma_view_wf();
        }
        game
    }

    /// The score.
    pub fn score(&self) -> (score: i32)
        ensures
            score == self@.score,
    {
        self.score
    }

    /// The number of rows cleared so far.
    pub fn lines_cleared(&self) -> (lines: i32)
        ensures
            lines == self@.lines_cleared,
    {
        self.lines_cleared
    }

    /// The level.
    pub fn level(&self) -> (level: i32)
        ensures
            level == self@.level,
    {
        self.level
    }

    /// Whether the game goes on.
    pub fn status(&self) -> (status: State)
        ensures
            status == self@.status,
    {
        self.running
    }

    /// The grid, as it is to be drawn.
    pub fn grid(&self) -> (grid: &Grid)
        ensures
            grid@ == self@.board,
    {
        &self.grid
    }

    /// The falling piece.
    pub fn current_piece(&self) -> (piece: Option<Piece>)
        ensures
            piece is Some == self@.piece is Some,
            piece matches Some(p) ==> self@.piece == Some(p@),
    {
        self.current_piece
    }

    /// The kinds that come next, the first one at the front.
    pub fn next_pieces(&self) -> (queue: &Vec<Tetromino>)
        ensures
            queue@ == self@.queue,
    {
        &self.next_pieces
    }

    /// The key that was handled last, if it counts for the next one: what
    /// the field `prev_key` holds.
    pub fn prev_key(&self) -> (key: Option<Key>)
        ensures
            key == self@.prev_key,
    {
        self.prev_key
    }

    /// Whether the falling piece drops one row each tick.
    pub fn is_dropping(&self) -> (dropping: bool)
        ensures
            dropping == self@.soft_drop,
    {
        self.drop_current_piece
    }

    /// The size of the window that the game was made for.
    pub fn dimension(&self) -> (dim: Vec2)
        ensures
            dim == self@.dimension,
    {
        self.dimension
    }

    /// Where on the screen the top-left corner of the grid is drawn.
    pub fn grid_pos(&self) -> (pos: Vec2)
        ensures
            pos == self@.grid_pos,
    {
        self.grid_pos
    }

    /// The screen position of the point `(x, y)`, counted from the top-left
    /// corner of the grid.
    pub fn tx_to_grid(&self, x: i32, y: i32) -> (pos: Vec2)
        requires
            i32::MIN <= x + self@.grid_pos.x <= i32::MAX,
            i32::MIN <= y + self@.grid_pos.y <= i32::MAX,
        ensures
            pos.x == x + self@.grid_pos.x,
            pos.y == y + self@.grid_pos.y,
    {
        Vec2::xy(x + self.grid_pos.x, y + self.grid_pos.y)
    }

    /// Moves the view of the grid by `delta` on the screen, and keeps it
    /// inside the window.
    pub fn move_gpos(&mut self, delta: Vec2)
        requires
            old(self).wf(),
        ensures
            final(self).wf(),
            final(self)@ == old(self)@.panned(delta.x as int, delta.y as int),
    {
        let x: i64 = pan(self.grid_pos.x, delta.x, self.dimension.x as i64 - SCREEN_WIDTH as i64);
        let y: i64 = pan(self.grid_pos.y, delta.y, self.dimension.y as i64 - GRID_HEIGHT as i64);
        self.grid_pos = Vec2::xy(x as i32, y as i32);
    }

    /// Asks the falling piece to fall by one row each tick from now on.
    pub fn drop_current_piece(&mut self)
        ensures
            final(self)@ == (GameView { soft_drop: true, ..old(self)@ }),
            old(self).wf() ==> final(self).wf(),
    {
        self.drop_current_piece = true;
    }

    /// Tries to put `candidate` in place of the falling piece.
    fn replace_current_piece(&mut self, piece: Piece, candidate: Piece) -> (done: bool)
        requires
            old(self).wf(),
            old(self)@.status == State::Running,
            old(self)@.piece == Some(piece@),
        ensures
            final(self).wf(),
            done == old(self)@.accepts(candidate@),
            final(self)@ == old(self)@.attempt(candidate@),
    {
        // take the falling piece off the grid first: it is no obstacle to itself
        self.grid.remove_piece(&piece);
        proof {
            self.grid.lemma_view_wf();
        }
        if self.grid.fits(&candidate) {
            self.current_piece = Some(candidate);
            return true;
        }
        false
    }

    /// Tries to move the falling piece by `delta`. The move is made if every
    /// square of the moved piece lies in the grid and is `Empty` or `Shadow`;
    /// else the piece stays as it is. The piece is taken off the grid in
    /// either case: `update` puts it back. Returns whether the move was made.
    pub fn move_current_piece(&mut self, delta: Vec2) -> (moved: bool)
        requires
            old(self).wf(),
        ensures
            final(self).wf(),
            moved == old(self)@.accepts(old(self)@.moved(delta.x as int, delta.y as int)),
            final(self)@ == old(self)@.attempt(old(self)@.moved(delta.x as int, delta.y as int)),
            !moved ==> final(self)@.piece == old(self)@.piece,
    {
        if self.running == State::GameOver {
            return false;
        }
        if let Some(piece) = self.current_piece {
            let ghost target = piece@.shifted(delta.x as int, delta.y as int);
            proof {
                lemma_piece_in_grid_is_near(piece@);
                if piece_in_grid(target) {
                    lemma_piece_in_grid_is_near(target);
                }
            }
            let x: i64 = piece.pos.x as i64 + delta.x as i64;
            let y: i64 = piece.pos.y as i64 + delta.y as i64;
            if x < -3 || x >= GRID_WIDTH as i64 || y < -3 || y >= GRID_HEIGHT as i64 {
                // no square of the moved piece would lie in the grid
                self.grid.remove_piece(&piece);
                proof {
                    self.grid.lemma_view_wf();
                }
                return false;
            }
            let mut new_piece = piece;
            new_piece.pos = Vec2::xy(x as i32, y as i32);
            return self.replace_current_piece(piece, new_piece);
        }
        false
    }

    /// Tries to turn the falling piece by a quarter turn clockwise, under the
    /// rule of `move_current_piece`: a turned piece that does not fit is not
    /// moved aside to make it fit.
    pub fn rotate_current_piece(&mut self) -> (turned: bool)
        requires
            old(self).wf(),
        ensures
            final(self).wf(),
            turned == old(self)@.accepts(old(self)@.turned()),
            final(self)@ == old(self)@.attempt(old(self)@.turned()),
            !turned ==> final(self)@.piece == old(self)@.piece,
    {
        if self.running == State::GameOver {
            return false;
        }
        if let Some(piece) = self.current_piece {
            let mut new_piece = piece;
            new_piece.rotate(1);
            return self.replace_current_piece(piece, new_piece);
        }
        false
    }

    /// Puts `kind` at the back of the queue.
    pub fn enqueue(&mut self, kind: Tetromino)
        requires
            old(self).wf(),
        ensures
            final(self).wf(),
            final(self)@ == old(self)@.enqueued(kind),
    {
        self.next_pieces.push(kind);
    }

    /// Makes the kind at the front of the queue the falling piece and puts
    /// `fresh` at the back of the queue. The piece enters in the middle
    /// columns with its topmost squares in row 0, and falls at the pace of
    /// the level.
    pub fn pick_current_piece_with(&mut self, fresh: Tetromino)
        requires
            old(self).wf(),
            old(self)@.queue.len() > 0,
        ensures
            final(self).wf(),
            final(self)@ == old(self)@.picked(fresh),
    {
        let ghost before = self.next_pieces@;
        let tetromino = self.next_pieces.remove(0);
        self.next_pieces.push(fresh);
        assert(self.next_pieces@ =~= before.drop_first().push(fresh));
        let mut piece = Piece::new(tetromino);
        let cells = piece.cells();
        proof {
            lemma_cells_distinct(tetromino, 0);
            lemma_spawn_in_grid(tetromino);
        }
        let min_y = cells[0].y;
        piece.pos = Vec2::xy(GRID_WIDTH / 2 - 1, -min_y);
        self.current_piece = Some(piece);
        self.drop_current_piece = false;
    }

    /// Makes the kind at the front of the queue the falling piece and puts a
    /// kind drawn at random at the back of the queue, where it can be read
    /// afterwards.
    pub fn pick_current_piece(&mut self)
        requires
            old(self).wf(),
            old(self)@.queue.len() > 0,
        ensures
            final(self).wf(),
            final(self)@ == old(self)@.picked(final(self)@.queue.last()),
    {
        let fresh = Tetromino::random();
        self.pick_current_piece_with(fresh);
    }

    /// Starts the game: `NEXT_PIECES` kinds drawn at random join the queue,
    /// then the kind at the front of the queue becomes the falling piece and
    /// one more kind drawn at random joins the queue.
    pub fn init(&mut self)
        requires
            old(self).wf(),
        ensures
            final(self).wf(),
            exists|kinds: Seq<Tetromino>|
                kinds.len() == NEXT_PIECES + 1 && final(self)@ == #[trigger] old(self)@.started(
                    kinds,
                ),
    {
        let ghost mut drawn: Seq<Tetromino> = Seq::empty();
        let mut i: usize = 0;
        while i < NEXT_PIECES
            invariant
                i <= NEXT_PIECES,
                self.wf(),
                drawn.len() == i,
                self@ == (GameView { queue: old(self)@.queue + drawn, ..old(self)@ }),
            decreases NEXT_PIECES - i,
        {
            let kind = Tetromino::random();
            self.enqueue(kind);
            proof {
                assert((old(self)@.queue + drawn).push(kind) =~= old(self)@.queue + drawn.push(
                    kind,
                ));
                drawn = drawn.push(kind);
            }
            i += 1;
        }
        self.pick_current_piece();
        proof {
            let kinds = drawn.push(self@.queue.last());
            assert(kinds.drop_last() =~= drawn);
            assert(self@ == old(self)@.started(kinds));
        }
    }

    /// Starts the game with the kinds `kinds`: the first `NEXT_PIECES` of them
    /// join the queue, then the kind at the front of the queue becomes the
    /// falling piece and the last of `kinds` joins the queue.
    pub fn init_with(&mut self, kinds: [Tetromino; 4])
        requires
            old(self).wf(),
        ensures
            final(self).wf(),
            final(self)@ == old(self)@.started(kinds@),
    {
        let mut i: usize = 0;
        while i < NEXT_PIECES
            invariant
                i <= NEXT_PIECES,
                self.wf(),
                self@ == (GameView {
                    queue: old(self)@.queue + kinds@.take(i as int),
                    ..old(self)@
                }),
            decreases NEXT_PIECES - i,
        {
            self.enqueue(kinds[i]);
            assert((old(self)@.queue + kinds@.take(i as int)).push(kinds@[i as int]) =~= old(
                self,
            )@.queue + kinds@.take(i + 1));
            i += 1;
        }
        assert(kinds@.take(NEXT_PIECES as int) =~= kinds@.drop_last());
        self.pick_current_piece_with(kinds[NEXT_PIECES]);
    }

    /// Marks the shapes of all kinds in all orientations on the grid, as
    /// shadows, for a look at them: the kinds from top to bottom, the
    /// orientations from left to right, as far as the grid reaches.
    pub fn init_with_all_pieces(&mut self)
        requires
            old(self).wf(),
        ensures
            final(self).wf(),
            final(self)@ == (GameView {
                board: show_board(old(self)@.board, 4 * KINDS as int),
                ..old(self)@
            }),
    {
        let mut t_nb: i32 = 0;
        while t_nb < KINDS
            invariant
                0 <= t_nb <= KINDS,
                self.wf(),
                self@ == (GameView {
                    board: show_board(old(self)@.board, 4 * t_nb as int),
                    ..old(self)@
                }),
            decreases KINDS - t_nb,
        {
            let t = Tetromino::from_index(t_nb);
            let mut rot: i32 = 0;
            while rot <= 3
                invariant
                    0 <= rot <= 4,
                    0 <= t_nb < KINDS,
                    t == kind_at(t_nb as int),
                    self.wf(),
                    self@ == (GameView {
                        board: show_board(old(self)@.board, 4 * t_nb as int + rot as int),
                        ..old(self)@
                    }),
                decreases 4 - rot,
            {
                let mut piece = Piece::new(t);
                piece.pos = Vec2::xy(rot * 5, t_nb * 5);
                piece.rotate(rot);
                assert(piece@ == show_piece(4 * t_nb as int + rot as int));
                self.grid.place_piece(&piece, true);
                proof {
                    self.grid.lemma_view_wf();
                }
                rot += 1;
            }
            t_nb += 1;
        }
    }

    /// A game that goes on from a given position: `grid` with `piece` falling
    /// and the kinds `next` in the queue, in a window of size `dim`, with no
    /// points yet. There is no such game if the place of the grid in the
    /// window cannot be computed, if a square of `piece` lies outside the
    /// grid, or if `next` is empty.
    pub fn from_position(dim: Vec2, grid: Grid, piece: Piece, next: Vec<Tetromino>) -> (game:
        Option<Self>)
        ensures
            game is Some == (window_ok(dim) && piece_in_grid(piece@) && next@.len() > 0),
            game matches Some(g) ==> g.wf() && g@ == set_out(dim, grid@, Some(piece@), next@),
    {
        if dim.x < i32::MIN + SCREEN_WIDTH || dim.y < i32::MIN + GRID_HEIGHT {
            return None;
        }
        if !grid.is_piece_in_grid(&piece) || next.len() == 0 {
            return None;
        }
        proof {
            grid.lemma_view_wf();
        }
        Some(
            Self {
                dimension: dim,
                grid,
                grid_pos: Vec2::xy((dim.x - GRID_WIDTH * 2) / 2, (dim.y - GRID_HEIGHT) / 2),
                running: State::Running,
                prev_key: None,
                current_piece: Some(piece),
                drop_current_piece: false,
                next_pieces: next,
                lines_cleared: 0,
                score: 0,
                level: 1,
            },
        )
    }

    /// Draws the falling piece and its shadow on the grid.
    fn redraw(&mut self)
        requires
            old(self)@.sound(),
            old(self)@.piece is Some,
        ensures
            final(self)@ == old(self)@.redrawn(),
            final(self)@.sound(),
    {
        if let Some(piece) = self.current_piece {
            proof {
                lemma_piece_in_grid_is_near(piece@);
            }
            // take the piece off first, so that its shadow can pass through it
            self.grid.remove_piece(&piece);
            let shadow_piece = self.grid.shadow_of(&piece);
            self.grid.place_piece(&shadow_piece, true);
            self.grid.place_piece(&piece, false);
            proof {
                self.grid.lemma_view_wf();
            }
        }
    }

    /// Lets the falling piece come to rest and clears the full rows.
    fn lock(&mut self)
        requires
            old(self)@.sound(),
            old(self)@.piece is Some,
            old(self)@.score <= i32::MAX - MAX_GAIN,
            old(self)@.lines_cleared <= i32::MAX - GRID_HEIGHT,
        ensures
            final(self)@ == old(self)@.locked(),
            final(self)@.sound(),
    {
        if let Some(piece) = self.current_piece {
            self.grid.place_piece(&piece, false);
            self.score += LOCK_POINTS;
            proof {
                self.grid.lemma_view_wf();
                lemma_collapse_leaves_no_full_row(self.grid@);
            }
            let cleared = self.grid.clear_full_rows();
            self.score += GRID_WIDTH * cleared;
            self.lines_cleared += cleared;
            proof {
                self.grid.lemma_view_wf();
            }
        }
    }

    /// Lets the next piece enter, with `fresh` joining the queue; the game is
    /// over if the piece does not fit.
    fn spawn(&mut self, fresh: Tetromino)
        requires
            old(self).wf(),
            old(self)@.queue.len() > 0,
        ensures
            final(self).wf(),
            final(self)@ == old(self)@.spawned(fresh),
    {
        self.pick_current_piece_with(fresh);
        if let Some(piece) = self.current_piece {
            if !self.grid.fits(&piece) {
                self.running = State::GameOver;
            }
        }
    }

    /// Plays tick `step` up to the entry of the next piece, and says whether
    /// the falling piece came to rest.
    fn advance(&mut self, step: usize) -> (blocked: bool)
        requires
            old(self).wf(),
            old(self)@.has_room_at(step as int),
        ensures
            final(self).wf(),
            blocked == old(self)@.blocked_at(step as int),
            final(self)@ == old(self)@.advanced(step as int),
            blocked ==> final(self)@.queue.len() > 0,
    {
        if self.running == State::GameOver {
            return false;
        }
        let mut blocked = false;
        if self.current_piece.is_some() {
            self.grid.clear_shadows();
            proof {
                self.grid.lemma_view_wf();
            }
            let mut draw_current = true;
            let step_delay: i32 = if self.drop_current_piece {
                1
            } else {
                MAX_LEVEL + 1 - self.level
            };
            // not at tick 0, so that a piece does not go down as soon as it is there
            if step % (step_delay as usize) == 0 && step != 0 {
                draw_current = self.move_current_piece(Vec2::xy(0, 1));
            }
            if draw_current {
                self.redraw();
            } else {
                self.lock();
                blocked = true;
            }
        }
        self.level = level_for_score(self.score);
        blocked
    }

    /// Plays tick `step`, with `fresh` as the kind that joins the queue if the
    /// falling piece comes to rest. Only a tick at which the piece comes to
    /// rest adds to the counters, and only then must they have room.
    pub fn update_with(&mut self, step: usize, fresh: Tetromino)
        requires
            old(self).wf(),
            old(self)@.has_room_at(step as int),
        ensures
            final(self).wf(),
            final(self)@ == old(self)@.ticked(step as int, fresh),
    {
        if self.advance(step) {
            self.spawn(fresh);
        }
    }

    /// Plays tick `step`. If the falling piece comes to rest, a kind drawn at
    /// random joins the queue at the back, where it can be read afterwards.
    /// Only a tick at which the piece comes to rest adds to the counters, and
    /// only then must they have room.
    pub fn update(&mut self, step: usize)
        requires
            old(self).wf(),
            old(self)@.has_room_at(step as int),
        ensures
            final(self).wf(),
            final(self)@ == old(self)@.ticked(step as int, final(self)@.queue.last()),
    {
        if self.advance(step) {
            let fresh = Tetromino::random();
            self.spawn(fresh);
        }
    }

    /// Carries out command `command`. A game that is over takes no command.
    pub fn apply(&mut self, command: Command)
        requires
            old(self).wf(),
        ensures
            final(self).wf(),
            final(self)@ == old(self)@.applied(command),
    {
        if self.running == State::GameOver {
            return ;
        }
        match command {
            Command::ShiftViewLeft => self.move_gpos(Vec2::xy(-2, 0)),
            Command::ShiftViewRight => self.move_gpos(Vec2::xy(2, 0)),
            Command::ShiftViewUp => self.move_gpos(Vec2::xy(0, -1)),
            Command::ShiftViewDown => self.move_gpos(Vec2::xy(0, 1)),
            Command::RotateClockwise => {
                let _ = self.rotate_current_piece();
            },
            Command::SoftDrop => self.drop_current_piece(),
            Command::MoveLeft => {
                let _ = self.move_current_piece(Vec2::xy(-1, 0));
            },
            Command::MoveRight => {
                let _ = self.move_current_piece(Vec2::xy(1, 0));
            },
        }
    }

    /// Handles one key that is held down at tick `step`.
    pub fn handle_key_down(&mut self, key_down: Key, step: usize)
        requires
            old(self).wf(),
        ensures
            final(self).wf(),
            final(self)@ == old(self)@.key_handled(key_down),
    {
        if self.running == State::GameOver {
            return ;
        }
        let repeated = match self.prev_key {
            Some(key) => key == key_down,
            None => false,
        };
        if repeated {
            match key_down {
                // these are not repeated while they are held down
                Key::Up | Key::Space | Key::Down | Key::Enter => {},
                // the others are repeated at half the pace
                _ => self.prev_key = None,
            }
            return ;
        }
        match Command::for_key(key_down) {
            Some(command) => self.apply(command),
            None => {},
        }
        self.prev_key = Some(key_down);
    }

    /// Handles the keys that are held down at tick `step`, in their order.
    pub fn handle_keys_down(&mut self, keys_down: Vec<Key>, step: usize)
        requires
            old(self).wf(),
        ensures
            final(self).wf(),
            final(self)@ == old(self)@.keys_handled(keys_down@),
    {
        if self.running == State::GameOver {
            return ;
        }
        if keys_down.len() == 0 {
            self.prev_key = None;
        } else {
            let mut i: usize = 0;
            while i < keys_down.len()
                invariant
                    i <= keys_down.len(),
                    self.wf(),
                    self@ == old(self)@.keys_folded(keys_down@.take(i as int)),
                decreases keys_down.len() - i,
            {
                proof {
                    assert(keys_down@.take(i + 1).drop_last() =~= keys_down@.take(i as int));
                }
                self.handle_key_down(keys_down[i], step);
                i += 1;
            }
            assert(keys_down@.take(keys_down.len() as int) =~= keys_down@);
        }
    }
}

impl Command {
    /// The command that `key` stands for, if any.
    pub fn for_key(key: Key) -> (command: Option<Command>)
        ensures
            command == command_of(key),
    {
        match key {
            Key::A => Some(Command::ShiftViewLeft),
            Key::D => Some(Command::ShiftViewRight),
            Key::W => Some(Command::ShiftViewUp),
            Key::S => Some(Command::ShiftViewDown),
            Key::Up | Key::Space => Some(Command::RotateClockwise),
            Key::Down | Key::Enter => Some(Command::SoftDrop),
            Key::Left => Some(Command::MoveLeft),
            Key::Right => Some(Command::MoveRight),
            _ => None,
        }
    }
}

/// A piece that enters lies in the grid, whatever its kind.
pub proof fn lemma_spawn_in_grid(kind: Tetromino)
    ensures
        piece_in_grid(spawn_spec(kind)),
        spawn_spec(kind).top() == 0,
{
    let p = spawn_spec(kind);
    assert forall|i: int| 0 <= i < 4 implies crate::grid::in_grid(
        (#[trigger] p.square(i)).0,
        p.square(i).1,
    ) by {
        lemma_cells_distinct(kind, 0);
    }
}

/// A move or a turn that the grid does not allow leaves the falling piece
/// where and as it was.
pub proof fn lemma_refused_attempt_keeps_piece(s: GameView, candidate: Placement)
    requires
        !s.accepts(candidate),
    ensures
        s.attempt(candidate).piece == s.piece,
{
}

/// The entry of a piece writes nothing to the grid and leaves the counters
/// as they were, whether the piece fits or not.
pub proof fn lemma_entry_leaves_grid(s: GameView, fresh: Tetromino)
    ensures
        s.spawned(fresh).board == s.board,
        s.spawned(fresh).score == s.score,
        s.spawned(fresh).lines_cleared == s.lines_cleared,
        s.spawned(fresh).level == s.level,
{
}

/// A piece that cannot enter ends the game; one that can does not.
pub proof fn lemma_blocked_entry_ends_game(s: GameView, fresh: Tetromino)
    requires
        s.status == State::Running,
    ensures
        !fits(s.board, spawn_spec(s.queue[0])) <==> s.spawned(fresh).status == State::GameOver,
{
}

/// A tick at which the falling piece comes to rest: the piece is placed for
/// good, which brings `LOCK_POINTS` points, the full rows are cleared, each
/// for one line and `GRID_WIDTH` points, and nothing else is written to the
/// grid. No shadow mark is left on it.
pub proof fn lemma_tick_that_locks(s: GameView, step: int, fresh: Tetromino)
    requires
        s.valid(),
        s.blocked_at(step),
    ensures
        s.ticked(step, fresh).board == collapse(s.settled_board()),
        s.ticked(step, fresh).lines_cleared == s.lines_cleared + full_row_count(
            s.settled_board(),
        ),
        s.ticked(step, fresh).score == s.score + LOCK_POINTS + GRID_WIDTH * full_row_count(
            s.settled_board(),
        ),
        board_wf(s.settled_board()),
        forall|r: int, c: int|
            0 <= r < GRID_HEIGHT && 0 <= c < GRID_WIDTH ==> #[trigger] s.ticked(
                step,
                fresh,
            ).board[r][c] != Cell::Shadow,
{
    let settled = s.settled_board();
    let after = s.ticked(step, fresh).board;
    lemma_collapse_leaves_no_full_row(settled);
    lemma_collapse_keeps_cells(settled);
    assert forall|r: int, c: int|
        0 <= r < GRID_HEIGHT && 0 <= c < GRID_WIDTH implies #[trigger] after[r][c]
        != Cell::Shadow by {
        if after[r] != empty_row() {
            let k = choose|k: int| 0 <= k < GRID_HEIGHT && after[r] == settled[k];
            assert(settled[k][c] != Cell::Shadow);
        }
    }
}

/// A tick at which the falling piece comes to rest and fills the bottom row
/// and no other: one line is counted, `LOCK_POINTS + GRID_WIDTH` points are
/// won, every row moves down by one, so that the bottom row becomes what the
/// row above it was, and the top row is empty.
pub proof fn lemma_tick_clears_bottom_row(s: GameView, step: int, fresh: Tetromino)
    requires
        s.valid(),
        s.blocked_at(step),
        row_is_full(s.settled_board()[GRID_HEIGHT - 1]),
        forall|r: int| 0 <= r < GRID_HEIGHT - 1 ==> !row_is_full(#[trigger] s.settled_board()[r]),
    ensures
        s.ticked(step, fresh).lines_cleared == s.lines_cleared + 1,
        s.ticked(step, fresh).score == s.score + LOCK_POINTS + GRID_WIDTH,
        s.ticked(step, fresh).board[0] == empty_row(),
        forall|r: int|
            1 <= r < GRID_HEIGHT ==> #[trigger] s.ticked(step, fresh).board[r]
                == s.settled_board()[r - 1],
{
    lemma_tick_that_locks(s, step, fresh);
    lemma_collapse_bottom_row(s.settled_board());
}

/// A tick at which the falling piece does not come to rest, on a grid that
/// holds nothing but the piece and shadow marks: afterwards the grid holds
/// the piece, its shadow with its lowest squares in the bottom row, and
/// nothing else. The counters stay as they were.
pub proof fn lemma_tick_draws_piece_and_shadow(s: GameView, step: int, fresh: Tetromino)
    requires
        s.valid(),
        s.status == State::Running,
        s.piece is Some,
        !s.blocked_at(step),
        forall|r: int, c: int|
            0 <= r < GRID_HEIGHT && 0 <= c < GRID_WIDTH && !s.piece.unwrap().covers(c, r)
                ==> (#[trigger] s.board[r][c]).is_free(),
    ensures
        s.ticked(step, fresh).piece is Some,
        ({
            let after = s.ticked(step, fresh);
            let q = after.piece.unwrap();
            let shadow = landing(empty_board(), q);
            &&& piece_in_grid(q)
            &&& shadow.bottom() == GRID_HEIGHT - 1
            &&& after.board == place_spec(place_spec(empty_board(), shadow, true), q, false)
            &&& after.score == s.score
            &&& after.lines_cleared == s.lines_cleared
        }),
{
    let p = s.piece.unwrap();
    let cleared = s.cleared_of_shadows();
    let bare = remove_spec(cleared.board, p);
    assert(bare =~~= empty_board());
    let t = if s.gravity_due(step) {
        cleared.attempt(cleared.moved(0, 1))
    } else {
        cleared
    };
    let q = t.piece.unwrap();
    assert(piece_in_grid(q));
    assert(remove_spec(t.board, q) =~~= empty_board());
    lemma_shadow_reaches_floor(q);
}

/// After a tick the level is the one that the score earns, and a tick at
/// which the falling piece does not come to rest leaves the score and the
/// lines as they were.
pub proof fn lemma_tick_brings_level_up_to_date(s: GameView, step: int, fresh: Tetromino)
    requires
        s.valid(),
    ensures
        s.ticked(step, fresh).level == level_spec(s.ticked(step, fresh).score),
        MIN_LEVEL <= s.ticked(step, fresh).level <= MAX_LEVEL,
        !s.blocked_at(step) ==> s.ticked(step, fresh).score == s.score && s.ticked(
            step,
            fresh,
        ).lines_cleared == s.lines_cleared,
{
}

/// A tick keeps a game valid.
pub proof fn lemma_tick_keeps_valid(s: GameView, step: int, fresh: Tetromino)
    requires
        s.valid(),
    ensures
        s.ticked(step, fresh).valid(),
{
    let after = s.ticked(step, fresh);
    if s.status == State::Running && s.piece is Some {
        let p = s.piece.unwrap();
        let cleared = s.cleared_of_shadows();
        if s.blocked_at(step) {
            lemma_tick_that_locks(s, step, fresh);
            lemma_collapse_leaves_no_full_row(s.settled_board());
            lemma_spawn_in_grid(s.queue[0]);
        } else {
            let t = if s.gravity_due(step) {
                cleared.attempt(cleared.moved(0, 1))
            } else {
                cleared
            };
            assert(piece_in_grid(t.piece.unwrap()));
            assert(board_wf(after.board));
        }
    }
}

/// A tick at which the falling piece comes to rest and the next piece cannot
/// enter ends the game.
pub proof fn lemma_tick_ends_game_when_entry_is_blocked(s: GameView, step: int, fresh: Tetromino)
    requires
        s.blocked_at(step),
        !fits(s.advanced(step).board, spawn_spec(s.queue[0])),
    ensures
        s.ticked(step, fresh).status == State::GameOver,
{
}

/// A game that is over stays as it is, whatever tick is played and whatever
/// keys are held down.
pub proof fn lemma_game_over_is_final(s: GameView, step: int, fresh: Tetromino, keys: Seq<Key>)
    requires
        s.status == State::GameOver,
    ensures
        s.ticked(step, fresh) == s,
        s.keys_handled(keys) == s,
{
}

/// A tick never takes points or lines away, and never lowers the level.
pub proof fn lemma_tick_never_lowers_level(s: GameView, step: int, fresh: Tetromino)
    requires
        s.valid(),
    ensures
        s.ticked(step, fresh).score >= s.score,
        s.ticked(step, fresh).lines_cleared >= s.lines_cleared,
        s.ticked(step, fresh).level >= s.level,
{
    let after = s.ticked(step, fresh);
    lemma_level_is_monotonic(s.score, after.score);
}

/// `v + delta`, but not less than 0, and then not more than `limit`.
fn pan(v: i32, delta: i32, limit: i64) -> (r: i64)
    requires
        i32::MIN <= limit <= i32::MAX,
    ensures
        r == pan_axis(v as int, delta as int, limit as int),
        i32::MIN <= r <= i32::MAX,
{
    let sum: i64 = v as i64 + delta as i64;
    let low: i64 = if sum < 0 {
        0
    } else {
        sum
    };
    if limit < low {
        limit
    } else {
        low
    }
}

} // verus!
