//! The grid: twenty rows of ten squares, row 0 at the top.
//!
//! The contracts speak of a grid through its view, a `Board`: the sequence of
//! its rows, each row the sequence of its squares. Every operation on a grid
//! is stated as a function from boards to boards.

use vstd::prelude::*;
use crate::cell::Cell;
use crate::piece::{Piece, Placement};
use crate::tetromino::{lemma_cells_distinct, lemma_cells_in_box};
use crate::vec2::Vec2;

verus! {

/// The number of columns.
pub const GRID_WIDTH: i32 = 10;

/// The number of rows.
pub const GRID_HEIGHT: i32 = 20;

const COLS: usize = 10;

const ROWS: usize = 20;

/// The rows of a grid from top to bottom, each from left to right.
pub type Board = Seq<Seq<Cell>>;

/// `b` has the dimensions of a grid.
pub open spec fn board_wf(b: Board) -> bool {
    &&& b.len() == GRID_HEIGHT
    &&& forall|r: int| 0 <= r < GRID_HEIGHT ==> (#[trigger] b[r]).len() == GRID_WIDTH
}

/// Column `x` of row `y` is a square of the grid.
pub open spec fn in_grid(x: int, y: int) -> bool {
    0 <= x < GRID_WIDTH && 0 <= y < GRID_HEIGHT
}

/// A row of empty squares.
pub open spec fn empty_row() -> Seq<Cell> {
    Seq::new(GRID_WIDTH as nat, |c: int| Cell::Empty)
}

/// `n` empty rows.
pub open spec fn empty_rows(n: nat) -> Board {
    Seq::new(n, |r: int| empty_row())
}

/// The board without anything on it.
pub open spec fn empty_board() -> Board {
    empty_rows(GRID_HEIGHT as nat)
}

/// No square of `row` is `Empty`.
pub open spec fn row_is_full(row: Seq<Cell>) -> bool {
    forall|c: int| 0 <= c < row.len() ==> row[c] != Cell::Empty
}

/// `b` with `v` written to the square in column `x` of row `y`.
pub open spec fn with_cell(b: Board, x: int, y: int, v: Cell) -> Board {
    b.update(y, b[y].update(x, v))
}

/// `b` with row `row` emptied.
pub open spec fn clear_row_spec(b: Board, row: int) -> Board {
    b.update(row, empty_row())
}

/// `b` with row `row + 1` replaced by a copy of row `row`.
pub open spec fn copy_row_down_spec(b: Board, row: int) -> Board {
    b.update(row + 1, b[row])
}

/// `b` with `v` written to those of the first `n` squares of `p` that lie in
/// the grid.
pub open spec fn stamp_first(b: Board, p: Placement, n: int, v: Cell) -> Board {
    Seq::new(
        GRID_HEIGHT as nat,
        |r: int|
            Seq::new(
                GRID_WIDTH as nat,
                |c: int|
                    if p.covers_first(n, c, r) {
                        v
                    } else {
                        b[r][c]
                    },
            ),
    )
}

/// `b` with `v` written to every square of `p` that lies in the grid; the
/// squares of `p` outside the grid are passed over.
pub open spec fn stamp(b: Board, p: Placement, v: Cell) -> Board {
    stamp_first(b, p, 4, v)
}

/// What a piece of kind `p.kind` leaves in a square: its kind, or the shadow
/// mark.
pub open spec fn mark_of(p: Placement, as_shadow: bool) -> Cell {
    if as_shadow {
        Cell::Shadow
    } else {
        Cell::Tetromino(p.kind)
    }
}

/// `b` after `p` was placed on it.
pub open spec fn place_spec(b: Board, p: Placement, as_shadow: bool) -> Board {
    stamp(b, p, mark_of(p, as_shadow))
}

/// `b` after `p` was removed from it: the squares of `p` are empty.
pub open spec fn remove_spec(b: Board, p: Placement) -> Board {
    stamp(b, p, Cell::Empty)
}

/// Each of the first `n` squares of `p` lies in the grid.
pub open spec fn in_grid_first(p: Placement, n: int) -> bool {
    forall|i: int| 0 <= i < n ==> in_grid((#[trigger] p.square(i)).0, p.square(i).1)
}

/// All four squares of `p` lie in the grid.
pub open spec fn piece_in_grid(p: Placement) -> bool {
    in_grid_first(p, 4)
}

/// Each of the first `n` squares of `p` is `Empty` or `Shadow` on `b`.
pub open spec fn free_first(b: Board, p: Placement, n: int) -> bool {
    forall|i: int| 0 <= i < n ==> b[(#[trigger] p.square(i)).1][p.square(i).0].is_free()
}

/// Every square of `p` is `Empty` or `Shadow` on `b`. It has a meaning only
/// where `p` lies in the grid.
pub open spec fn piece_in_empty_pos(b: Board, p: Placement) -> bool {
    free_first(b, p, 4)
}

/// `p` may stand on `b`: all its squares lie in the grid and none of them is
/// occupied.
pub open spec fn fits(b: Board, p: Placement) -> bool {
    piece_in_grid(p) && piece_in_empty_pos(b, p)
}

/// `b` with every shadow mark taken away.
pub open spec fn without_shadows(b: Board) -> Board {
    Seq::new(
        GRID_HEIGHT as nat,
        |r: int|
            Seq::new(
                GRID_WIDTH as nat,
                |c: int|
                    if b[r][c] == Cell::Shadow {
                        Cell::Empty
                    } else {
                        b[r][c]
                    },
            ),
    )
}

/// The rows of `rows` that are not full, in their order.
pub open spec fn kept_rows(rows: Board) -> Board {
    rows.filter(|row: Seq<Cell>| !row_is_full(row))
}

/// The number of full rows among `rows`.
pub open spec fn full_row_count(rows: Board) -> nat {
    (rows.len() - kept_rows(rows).len()) as nat
}

/// `rows` after its full rows were cleared: the rows that are not full sink
/// to the bottom in their order, and as many empty rows as were cleared come
/// in at the top.
pub open spec fn collapse(rows: Board) -> Board {
    empty_rows(full_row_count(rows)) + kept_rows(rows)
}

/// `b` with its first `n` rows collapsed and the rows below them untouched.
pub open spec fn collapse_first(b: Board, n: int) -> Board {
    collapse(b.take(n)) + b.skip(n)
}

/// How many of the placements `p`, `p` one row down, `p` two rows down, ...
/// fit on `b` before the first one that does not.
pub open spec fn drop_distance(b: Board, p: Placement) -> nat
    decreases GRID_HEIGHT - p.y,
{
    if fits(b, p) {
        proof {
            lemma_piece_in_grid_is_near(p);
        }
        1 + drop_distance(b, p.shifted(0, 1))
    } else {
        0
    }
}

/// Where `p` comes to rest when it falls straight down on `b`: it moves down
/// as long as it fits, and then one row back up. A piece that does not fit
/// where it stands ends one row above its place.
pub open spec fn landing(b: Board, p: Placement) -> Placement {
    p.shifted(0, drop_distance(b, p) - 1)
}

/// A grid of `GRID_HEIGHT` rows and `GRID_WIDTH` columns.
pub struct Grid {
    cells: [[Cell; COLS]; ROWS],
}

impl View for Grid {
    type V = Board;

    closed spec fn view(&self) -> Board {
        Seq::new(ROWS as nat, |r: int| self.cells[r]@)
    }
}

impl Grid {
    /// The view of a grid always has the grid's dimensions.
    pub proof fn lemma_view_wf(&self)
        ensures
            board_wf(self@),
    {
    }

    /// The empty grid.
    pub fn new() -> (grid: Grid)
        ensures
            grid@ == empty_board(),
    {
        let grid = Grid { cells: [[Cell::Empty; COLS]; ROWS] };
        assert forall|r: int| 0 <= r < GRID_HEIGHT implies #[trigger] grid@[r] == empty_row() by {
            assert(grid@[r] =~= empty_row());
        }
        assert(grid@ =~= empty_board());
        grid
    }

    /// The content of the square at `pos`.
    pub fn get(&self, pos: Vec2) -> (cell: Cell)
        requires
            in_grid(pos.x as int, pos.y as int),
        ensures
            cell == self@[pos.y as int][pos.x as int],
    {
        self.cells[pos.y as usize][pos.x as usize]
    }

    /// Writes `cell` to the square at `pos`.
    pub fn set(&mut self, pos: Vec2, cell: Cell)
        requires
            in_grid(pos.x as int, pos.y as int),
        ensures
            final(self)@ == with_cell(old(self)@, pos.x as int, pos.y as int, cell),
    {
        self.put(pos.x as usize, pos.y as usize, cell);
    }

    /// Writes `cell` to column `x` of row `y`.
    fn put(&mut self, x: usize, y: usize, cell: Cell)
        requires
            x < GRID_WIDTH,
            y < GRID_HEIGHT,
        ensures
            final(self)@ == with_cell(old(self)@, x as int, y as int, cell),
            board_wf(final(self)@),
    {
        self.cells[y][x] = cell;
        assert(self@ =~= with_cell(old(self)@, x as int, y as int, cell));
    }

    /// Whether `pos` is a square of the grid.
    pub fn is_in_grid(&self, pos: Vec2) -> (inside: bool)
        ensures
            inside == in_grid(pos.x as int, pos.y as int),
    {
        pos.x >= 0 && pos.x < GRID_WIDTH && pos.y >= 0 && pos.y < GRID_HEIGHT
    }

    /// Whether a piece may enter the square at `pos`: it is `Empty` or
    /// `Shadow`.
    pub fn is_in_empty_pos(&self, pos: Vec2) -> (free: bool)
        requires
            in_grid(pos.x as int, pos.y as int),
        ensures
            free == self@[pos.y as int][pos.x as int].is_free(),
    {
        let cell = self.cells[pos.y as usize][pos.x as usize];
        cell == Cell::Empty || cell == Cell::Shadow
    }

    /// Copies row `row` onto the row below it.
    pub fn copy_row_down(&mut self, row: i32)
        requires
            0 <= row < GRID_HEIGHT - 1,
        ensures
            final(self)@ == copy_row_down_spec(old(self)@, row as int),
    {
        self.cells[(row + 1) as usize] = self.cells[row as usize];
        assert(self@ =~= copy_row_down_spec(old(self)@, row as int));
    }

    /// Empties row `row`.
    pub fn clear_row(&mut self, row: i32)
        requires
            0 <= row < GRID_HEIGHT,
        ensures
            final(self)@ == clear_row_spec(old(self)@, row as int),
    {
        let mut x: i32 = 0;
        while x < GRID_WIDTH
            invariant
                0 <= x <= GRID_WIDTH,
                0 <= row < GRID_HEIGHT,
                forall|r: int| 0 <= r < GRID_HEIGHT && r != row ==> self@[r] == old(self)@[r],
                forall|c: int| 0 <= c < x ==> self@[row as int][c] == Cell::Empty,
            decreases GRID_WIDTH - x,
        {
            proof {
                self.lemma_view_wf();
            }
            self.put(x as usize, row as usize, Cell::Empty);
            x += 1;
        }
        proof {
            self.lemma_view_wf();
        }
        assert(self@[row as int] =~= empty_row());
        assert(self@ =~= clear_row_spec(old(self)@, row as int));
    }

    /// Whether every square of `piece` is `Empty` or `Shadow`. The piece has
    /// to lie in the grid: test that first with `is_piece_in_grid`.
    pub fn is_piece_in_empty_pos(&self, piece: &Piece) -> (free: bool)
        requires
            piece_in_grid(piece@),
        ensures
            free == piece_in_empty_pos(self@, piece@),
    {
        let cells = piece.cells();
        proof {
            lemma_cells_distinct(piece.tetromino, piece.rot as int);
        }
        let mut i: usize = 0;
        while i < cells.len()
            invariant
                i <= 4,
                cells@ == piece@.offsets(),
                cells@.len() == 4,
                piece_in_grid(piece@),
                free_first(self@, piece@, i as int),
            decreases 4 - i,
        {
            assert(in_grid(piece@.square(i as int).0, piece@.square(i as int).1));
            let pos = Vec2::xy(piece.pos.x + cells[i].x, piece.pos.y + cells[i].y);
            if !self.is_in_empty_pos(pos) {
                return false;
            }
            i += 1;
        }
        true
    }

    /// Whether all four squares of `piece` lie in the grid.
    pub fn is_piece_in_grid(&self, piece: &Piece) -> (inside: bool)
        ensures
            inside == piece_in_grid(piece@),
    {
        let cells = piece.cells();
        proof {
            lemma_cells_distinct(piece.tetromino, piece.rot as int);
        }
        let mut i: usize = 0;
        while i < cells.len()
            invariant
                i <= 4,
                cells@ == piece@.offsets(),
                cells@.len() == 4,
                in_grid_first(piece@, i as int),
            decreases 4 - i,
        {
            let x: i64 = piece.pos.x as i64 + cells[i].x as i64;
            let y: i64 = piece.pos.y as i64 + cells[i].y as i64;
            assert(piece@.square(i as int) == (x as int, y as int));
            if !(x >= 0 && x < GRID_WIDTH as i64 && y >= 0 && y < GRID_HEIGHT as i64) {
                return false;
            }
            i += 1;
        }
        true
    }

    /// Whether `piece` may stand on the grid: it lies in the grid and none
    /// of its squares is occupied.
    pub fn fits(&self, piece: &Piece) -> (ok: bool)
        ensures
            ok == fits(self@, piece@),
    {
        self.is_piece_in_grid(piece) && self.is_piece_in_empty_pos(piece)
    }

    /// Writes `mark` to every square of `piece` that lies in the grid.
    fn stamp_piece(&mut self, piece: &Piece, mark: Cell)
        ensures
            final(self)@ == stamp(old(self)@, piece@, mark),
    {
        let cells = piece.cells();
        proof {
            lemma_cells_distinct(piece.tetromino, piece.rot as int);
            self.lemma_view_wf();
            assert(self@ =~~= stamp_first(self@, piece@, 0, mark));
        }
        let mut i: usize = 0;
        while i < cells.len()
            invariant
                i <= 4,
                cells@ == piece@.offsets(),
                cells@.len() == 4,
                self@ == stamp_first(old(self)@, piece@, i as int, mark),
            decreases 4 - i,
        {
            let x: i64 = piece.pos.x as i64 + cells[i].x as i64;
            let y: i64 = piece.pos.y as i64 + cells[i].y as i64;
            assert(piece@.square(i as int) == (x as int, y as int));
            if x >= 0 && x < GRID_WIDTH as i64 && y >= 0 && y < GRID_HEIGHT as i64 {
                self.put(x as usize, y as usize, mark);
            }
            assert(self@ =~~= stamp_first(old(self)@, piece@, i + 1, mark));
            i += 1;
        }
    }

    /// Places `piece` on the grid: each of its squares that lies in the grid
    /// gets the shadow mark if `as_shadow`, else the piece's kind. Squares of
    /// the piece outside the grid are passed over.
    pub fn place_piece(&mut self, piece: &Piece, as_shadow: bool)
        ensures
            final(self)@ == place_spec(old(self)@, piece@, as_shadow),
    {
        let mark = if as_shadow {
            Cell::Shadow
        } else {
            Cell::Tetromino(piece.tetromino)
        };
        self.stamp_piece(piece, mark);
    }

    /// Takes `piece` off the grid: each of its squares that lies in the grid
    /// becomes `Empty`.
    pub fn remove_piece(&mut self, piece: &Piece)
        ensures
            final(self)@ == remove_spec(old(self)@, piece@),
    {
        self.stamp_piece(piece, Cell::Empty);
    }

    /// Takes every shadow mark off the grid.
    pub fn clear_shadows(&mut self)
        ensures
            final(self)@ == without_shadows(old(self)@),
    {
        proof {
            self.lemma_view_wf();
        }
        let mut y: i32 = 0;
        while y < GRID_HEIGHT
            invariant
                0 <= y <= GRID_HEIGHT,
                board_wf(self@),
                board_wf(old(self)@),
                forall|r: int, c: int|
                    0 <= r < y && 0 <= c < GRID_WIDTH ==> #[trigger] self@[r][c]
                        == without_shadows(old(self)@)[r][c],
                forall|r: int| y <= r < GRID_HEIGHT ==> #[trigger] self@[r] == old(self)@[r],
            decreases GRID_HEIGHT - y,
        {
            let mut x: i32 = 0;
            while x < GRID_WIDTH
                invariant
                    0 <= x <= GRID_WIDTH,
                    0 <= y < GRID_HEIGHT,
                    board_wf(self@),
                    board_wf(old(self)@),
                    forall|r: int, c: int|
                        0 <= r < y && 0 <= c < GRID_WIDTH ==> #[trigger] self@[r][c]
                            == without_shadows(old(self)@)[r][c],
                    forall|c: int|
                        0 <= c < x ==> #[trigger] self@[y as int][c] == without_shadows(
                            old(self)@,
                        )[y as int][c],
                    forall|c: int|
                        x <= c < GRID_WIDTH ==> #[trigger] self@[y as int][c] == old(
                            self,
                        )@[y as int][c],
                    forall|r: int| y < r < GRID_HEIGHT ==> #[trigger] self@[r] == old(self)@[r],
                decreases GRID_WIDTH - x,
            {
                if self.cells[y as usize][x as usize] == Cell::Shadow {
                    self.put(x as usize, y as usize, Cell::Empty);
                }
                x += 1;
            }
            y += 1;
        }
        assert(self@ =~~= without_shadows(old(self)@));
    }

    /// Clears every full row: the rows above a full row move down by one and
    /// an empty row comes in at the top. The rows are looked at from the top
    /// down, and each full row is counted once. Returns how many rows were
    /// cleared.
    pub fn clear_full_rows(&mut self) -> (cleared: i32)
        ensures
            final(self)@ == collapse(old(self)@),
            cleared == full_row_count(old(self)@),
    {
        proof {
            self.lemma_view_wf();
            lemma_collapse_first_none(self@);
        }
        let mut cleared: i32 = 0;
        let mut y: i32 = 0;
        while y < GRID_HEIGHT
            invariant
                0 <= y <= GRID_HEIGHT,
                board_wf(self@),
                board_wf(old(self)@),
                self@ == collapse_first(old(self)@, y as int),
                cleared == full_row_count(old(self)@.take(y as int)),
                0 <= cleared <= y,
            decreases GRID_HEIGHT - y,
        {
            let ghost before = self@;
            proof {
                lemma_collapse_first_step(old(self)@, y as int);
            }
            if self.is_row_full(y) {
                cleared += 1;
                let mut y2: i32 = y;
                while y2 > 0
                    invariant
                        0 <= y2 <= y < GRID_HEIGHT,
                        board_wf(self@),
                        board_wf(before),
                        forall|r: int| 0 <= r <= y2 ==> #[trigger] self@[r] == before[r],
                        forall|r: int| y2 < r <= y ==> #[trigger] self@[r] == before[r - 1],
                        forall|r: int| y < r < GRID_HEIGHT ==> #[trigger] self@[r] == before[r],
                    decreases y2,
                {
                    y2 -= 1;
                    self.copy_row_down(y2);
                }
                self.clear_row(0);
                assert(self@ =~= collapse_first(old(self)@, y + 1));
            }
            y += 1;
        }
        proof {
            lemma_collapse_first_all(old(self)@);
        }
        cleared
    }

    /// The shadow of `piece`: the piece at the place where it would come to
    /// rest if it fell straight down from where it stands.
    pub fn shadow_of(&self, piece: &Piece) -> (shadow: Piece)
        requires
            piece.pos.y > i32::MIN,
        ensures
            shadow@ == landing(self@, piece@),
    {
        let mut shadow = *piece;
        while self.fits(&shadow)
            invariant
                shadow.tetromino == piece.tetromino,
                shadow.rot == piece.rot,
                shadow.pos.x == piece.pos.x,
                shadow.pos.y >= piece.pos.y,
                drop_distance(self@, piece@) == (shadow.pos.y - piece.pos.y) + drop_distance(
                    self@,
                    shadow@,
                ),
            decreases GRID_HEIGHT - shadow.pos.y,
        {
            proof {
                lemma_piece_in_grid_is_near(shadow@);
            }
            shadow.pos.y = shadow.pos.y + 1;
        }
        shadow.pos.y = shadow.pos.y - 1;
        shadow
    }

    /// Whether no square of row `row` is `Empty`.
    pub fn is_row_full(&self, row: i32) -> (full: bool)
        requires
            0 <= row < GRID_HEIGHT,
        ensures
            full == row_is_full(self@[row as int]),
    {
        let mut x: i32 = 0;
        while x < GRID_WIDTH
            invariant
                0 <= x <= GRID_WIDTH,
                0 <= row < GRID_HEIGHT,
                forall|c: int| 0 <= c < x ==> self@[row as int][c] != Cell::Empty,
            decreases GRID_WIDTH - x,
        {
            if self.cells[row as usize][x as usize] == Cell::Empty {
                return false;
            }
            x += 1;
        }
        true
    }
}

/// Collapsing none of the rows changes nothing.
proof fn lemma_collapse_first_none(b: Board)
    ensures
        collapse_first(b, 0) == b,
{
    reveal(Seq::filter);
    assert(b.take(0) =~= Seq::<Seq<Cell>>::empty());
    assert(kept_rows(b.take(0)) =~= Seq::<Seq<Cell>>::empty());
    assert(collapse_first(b, 0) =~= b);
}

/// Collapsing all the rows is collapsing the board.
proof fn lemma_collapse_first_all(b: Board)
    ensures
        collapse_first(b, b.len() as int) == collapse(b),
        b.take(b.len() as int) == b,
{
    assert(b.take(b.len() as int) =~= b);
    assert(collapse_first(b, b.len() as int) =~= collapse(b));
}

/// How one more row enters the collapsed part: a row that is not full joins
/// it at the bottom and nothing moves; a full row is dropped, the collapsed
/// rows above it move down by one, and an empty row comes in at the top.
proof fn lemma_collapse_first_step(b: Board, n: int)
    requires
        board_wf(b),
        0 <= n < b.len(),
    ensures
        board_wf(collapse_first(b, n)),
        collapse_first(b, n)[n] == b[n],
        !row_is_full(b[n]) ==> collapse_first(b, n + 1) == collapse_first(b, n)
            && full_row_count(b.take(n + 1)) == full_row_count(b.take(n)),
        row_is_full(b[n]) ==> full_row_count(b.take(n + 1)) == full_row_count(b.take(n)) + 1
            && collapse_first(b, n + 1) =~= seq![empty_row()] + collapse_first(b, n).take(n)
            + b.skip(n + 1),
        0 <= full_row_count(b.take(n)) <= n,
{
    reveal(Seq::filter);
    let head = b.take(n);
    let next = b.take(n + 1);
    assert(next.drop_last() =~= head);
    assert(next.last() == b[n]);
    head.lemma_filter_len(|row: Seq<Cell>| !row_is_full(row));
    lemma_kept_rows_wide(head);
    let c = collapse_first(b, n);
    assert forall|r: int| 0 <= r < GRID_HEIGHT implies (#[trigger] c[r]).len() == GRID_WIDTH by {
        if r >= n {
            assert(c[r] == b[r]);
        } else if r < full_row_count(head) {
            assert(c[r] == empty_row());
        } else {
            assert(c[r] == kept_rows(head)[r - full_row_count(head)]);
        }
    }
    if row_is_full(b[n]) {
        assert(kept_rows(next) == kept_rows(head));
        assert(collapse_first(b, n + 1) =~= seq![empty_row()] + collapse_first(b, n).take(n)
            + b.skip(n + 1));
    } else {
        assert(kept_rows(next) == kept_rows(head).push(b[n]));
        assert(collapse_first(b, n + 1) =~= collapse_first(b, n));
    }
}

/// The rows that are kept are rows of the board they come from, so they have
/// its width.
proof fn lemma_kept_rows_wide(rows: Board)
    requires
        forall|r: int| 0 <= r < rows.len() ==> (#[trigger] rows[r]).len() == GRID_WIDTH,
    ensures
        forall|r: int|
            0 <= r < kept_rows(rows).len() ==> (#[trigger] kept_rows(rows)[r]).len() == GRID_WIDTH,
    decreases rows.len(),
{
    reveal(Seq::filter);
    if rows.len() > 0 {
        let init = rows.drop_last();
        let kept = kept_rows(rows);
        lemma_kept_rows_wide(init);
        assert forall|r: int| 0 <= r < kept.len() implies (#[trigger] kept[r]).len()
            == GRID_WIDTH by {
            if r < kept_rows(init).len() {
                assert(kept[r] == kept_rows(init)[r]);
            } else {
                assert(kept[r] == rows[rows.len() - 1]);
            }
        }
    }
}

/// The anchor of a piece that lies in the grid is at most three squares to
/// the left of it or above it, and inside its right and lower edge.
pub proof fn lemma_piece_in_grid_is_near(p: Placement)
    requires
        piece_in_grid(p),
    ensures
        -3 <= p.x < GRID_WIDTH,
        -3 <= p.y < GRID_HEIGHT,
{
    lemma_cells_in_box(p.kind, p.rot);
    let here = p.square(0);
}

/// Placing a piece and taking it off again gives back the board, provided
/// the squares of the grid that the piece covers were empty before.
pub proof fn lemma_place_then_remove(b: Board, p: Placement, as_shadow: bool)
    requires
        board_wf(b),
        forall|i: int|
            0 <= i < 4 && in_grid((#[trigger] p.square(i)).0, p.square(i).1) ==> b[p.square(
                i,
            ).1][p.square(i).0] == Cell::Empty,
    ensures
        remove_spec(place_spec(b, p, as_shadow), p) == b,
{
    let after = remove_spec(place_spec(b, p, as_shadow), p);
    assert forall|r: int, c: int| 0 <= r < GRID_HEIGHT && 0 <= c < GRID_WIDTH implies after[r][c]
        == b[r][c] by {
        if p.covers(c, r) {
            let i = if p.square(0) == (c, r) {
                0int
            } else if p.square(1) == (c, r) {
                1int
            } else if p.square(2) == (c, r) {
                2int
            } else {
                3int
            };
            assert(p.square(i) == (c, r));
        }
    }
    assert(after =~~= b);
}

/// A row that was just cleared is not full.
pub proof fn lemma_cleared_row_is_not_full(b: Board, row: int)
    requires
        board_wf(b),
        0 <= row < GRID_HEIGHT,
    ensures
        !row_is_full(clear_row_spec(b, row)[row]),
{
    assert(clear_row_spec(b, row)[row][0] == Cell::Empty);
}

/// Where none of the first `n` rows is full, all of them are kept.
proof fn lemma_kept_rows_all(b: Board, n: int)
    requires
        0 <= n <= b.len(),
        forall|r: int| 0 <= r < n ==> !row_is_full(#[trigger] b[r]),
    ensures
        kept_rows(b.take(n)) == b.take(n),
    decreases n,
{
    reveal(Seq::filter);
    if n > 0 {
        lemma_kept_rows_all(b, n - 1);
        assert(b.take(n).drop_last() =~= b.take(n - 1));
        assert(b.take(n).last() == b[n - 1]);
        assert(b.take(n - 1).push(b[n - 1]) =~= b.take(n));
    } else {
        assert(b.take(0) =~= Seq::<Seq<Cell>>::empty());
    }
}

/// Clearing the rows of a board on which the bottom row is full and no other
/// row is: one row is cleared, every row moves down by one, so that the
/// bottom row becomes what the row above it was, and the top row is empty.
pub proof fn lemma_collapse_bottom_row(b: Board)
    requires
        board_wf(b),
        row_is_full(b[GRID_HEIGHT - 1]),
        forall|r: int| 0 <= r < GRID_HEIGHT - 1 ==> !row_is_full(#[trigger] b[r]),
    ensures
        full_row_count(b) == 1,
        collapse(b)[0] == empty_row(),
        forall|r: int| 1 <= r < GRID_HEIGHT ==> #[trigger] collapse(b)[r] == b[r - 1],
{
    reveal(Seq::filter);
    let n = GRID_HEIGHT - 1;
    lemma_kept_rows_all(b, n);
    assert(b.drop_last() =~= b.take(n));
    assert(kept_rows(b) == b.take(n));
}

/// After the full rows were cleared the board has its dimensions, no row of
/// it is full, and at most `GRID_HEIGHT` rows were cleared.
pub proof fn lemma_collapse_leaves_no_full_row(b: Board)
    requires
        board_wf(b),
    ensures
        board_wf(collapse(b)),
        full_row_count(b) <= GRID_HEIGHT,
        forall|r: int| 0 <= r < GRID_HEIGHT ==> !row_is_full(#[trigger] collapse(b)[r]),
{
    let keep = |row: Seq<Cell>| !row_is_full(row);
    b.lemma_filter_len(keep);
    lemma_kept_rows_wide(b);
    let cleared = full_row_count(b);
    assert forall|r: int| 0 <= r < GRID_HEIGHT implies !row_is_full(#[trigger] collapse(b)[r])
        && collapse(b)[r].len() == GRID_WIDTH by {
        if r < cleared {
            assert(collapse(b)[r] == empty_row());
            assert(empty_row()[0] == Cell::Empty);
        } else {
            assert(collapse(b)[r] == kept_rows(b)[r - cleared]);
            b.lemma_filter_pred(keep, r - cleared);
        }
    }
}

/// Clearing the full rows makes no row that was not there: each row
/// afterwards is empty or is a row of the board before.
pub proof fn lemma_collapse_keeps_cells(b: Board)
    requires
        board_wf(b),
    ensures
        forall|r: int|
            0 <= r < GRID_HEIGHT ==> #[trigger] collapse(b)[r] == empty_row() || exists|k: int|
                0 <= k < GRID_HEIGHT && collapse(b)[r] == b[k],
{
    let keep = |row: Seq<Cell>| !row_is_full(row);
    b.lemma_filter_len(keep);
    let cleared = full_row_count(b);
    assert forall|r: int| 0 <= r < GRID_HEIGHT implies #[trigger] collapse(b)[r] == empty_row()
        || exists|k: int| 0 <= k < GRID_HEIGHT && collapse(b)[r] == b[k] by {
        if r < cleared {
            assert(collapse(b)[r] == empty_row());
        } else {
            let row = kept_rows(b)[r - cleared];
            assert(collapse(b)[r] == row);
            assert(kept_rows(b).contains(row));
            b.lemma_filter_contains_rev(keep, row);
            let k = choose|k: int| 0 <= k < b.len() && b[k] == row;
            assert(0 <= k < GRID_HEIGHT && collapse(b)[r] == b[k]);
        }
    }
}

/// A piece that fits comes to rest at or below its place, where it fits and
/// cannot move one row further down; and it fits at every row on the way.
pub proof fn lemma_landing_rests(b: Board, p: Placement)
    requires
        fits(b, p),
    ensures
        landing(b, p).y >= p.y,
        fits(b, landing(b, p)),
        !fits(b, landing(b, p).shifted(0, 1)),
        forall|k: int| 0 <= k <= landing(b, p).y - p.y ==> fits(b, #[trigger] p.shifted(0, k)),
    decreases GRID_HEIGHT - p.y,
{
    lemma_piece_in_grid_is_near(p);
    let next = p.shifted(0, 1);
    if fits(b, next) {
        lemma_landing_rests(b, next);
        assert(landing(b, p) == landing(b, next));
        assert forall|k: int| 0 <= k <= landing(b, p).y - p.y implies fits(
            b,
            #[trigger] p.shifted(0, k),
        ) by {
            if k > 0 {
                assert(p.shifted(0, k) == next.shifted(0, k - 1));
            } else {
                assert(p.shifted(0, 0) == p);
            }
        }
    } else {
        assert(landing(b, p) == p);
        assert forall|k: int| 0 <= k <= landing(b, p).y - p.y implies fits(
            b,
            #[trigger] p.shifted(0, k),
        ) by {
            assert(p.shifted(0, 0) == p);
        }
    }
}

/// On the empty board every piece that lies in the grid comes to rest with
/// its lowest square in the bottom row.
pub proof fn lemma_shadow_reaches_floor(p: Placement)
    requires
        piece_in_grid(p),
    ensures
        landing(empty_board(), p).bottom() == GRID_HEIGHT - 1,
    decreases GRID_HEIGHT - p.bottom(),
{
    let b = empty_board();
    let next = p.shifted(0, 1);
    assert(in_grid(p.square(3).0, p.square(3).1));
    assert forall|i: int| 0 <= i < 4 implies b[(#[trigger] p.square(i)).1][p.square(i).0].is_free() by {
        assert(in_grid(p.square(i).0, p.square(i).1));
    }
    assert(fits(b, p));
    if p.bottom() == GRID_HEIGHT - 1 {
        assert(!in_grid(next.square(3).0, next.square(3).1));
        assert(landing(b, p) == p);
    } else {
        assert forall|i: int| 0 <= i < 4 implies in_grid(
            (#[trigger] next.square(i)).0,
            next.square(i).1,
        ) by {
            p.lemma_rows_between_top_and_bottom(i);
            assert(in_grid(p.square(i).0, p.square(i).1));
        }
        lemma_shadow_reaches_floor(next);
        assert(landing(b, p) == landing(b, next));
    }
}

} // verus!
