use tetris::cell::Cell;
use tetris::gamestate::{level_for_score, GameState, State, MAX_GAIN};
use tetris::grid::{Grid, GRID_HEIGHT, GRID_WIDTH};
use tetris::piece::Piece;
use tetris::tetromino::Tetromino;
use tetris::vec2::Vec2;

fn window() -> Vec2 {
    Vec2::xy(80, 40)
}

fn piece_at(kind: Tetromino, rot: i32, x: i32, y: i32) -> Piece {
    let mut piece = Piece::new(kind);
    piece.rotate(rot);
    piece.pos = Vec2::xy(x, y);
    piece
}

fn game_from(grid: Grid, piece: Piece, next: Vec<Tetromino>) -> GameState {
    GameState::from_position(window(), grid, piece, next).unwrap()
}

fn fill_row(grid: &mut Grid, row: i32, from: i32, to: i32, cell: Cell) {
    for x in from..to {
        grid.set(Vec2::xy(x, row), cell);
    }
}

fn rows_of(game: &GameState) -> Vec<Vec<Cell>> {
    (0..GRID_HEIGHT)
        .map(|y| (0..GRID_WIDTH).map(|x| game.grid().get(Vec2::xy(x, y))).collect())
        .collect()
}

fn squares_with(game: &GameState, cell: Cell) -> Vec<(i32, i32)> {
    let mut out = vec![];
    for y in 0..GRID_HEIGHT {
        for x in 0..GRID_WIDTH {
            if game.grid().get(Vec2::xy(x, y)) == cell {
                out.push((x, y));
            }
        }
    }
    out
}

fn anchor(game: &GameState) -> Vec2 {
    game.current_piece().unwrap().pos
}

#[test]
fn level_of_the_named_scores() {
    assert_eq!(level_for_score(0), 1);
    assert_eq!(level_for_score(905), 10);
    assert_eq!(level_for_score(1500), 10);
}

#[test]
fn level_rises_by_one_every_hundred_points() {
    assert_eq!(level_for_score(99), 1);
    assert_eq!(level_for_score(100), 2);
    assert_eq!(level_for_score(199), 2);
    assert_eq!(level_for_score(200), 3);
    assert_eq!(level_for_score(450), 5);
    assert_eq!(level_for_score(899), 9);
    assert_eq!(level_for_score(900), 10);
    assert_eq!(level_for_score(i32::MAX), 10);
}

#[test]
fn level_is_never_below_one() {
    assert_eq!(level_for_score(-1), 1);
    assert_eq!(level_for_score(-100), 1);
    assert_eq!(level_for_score(-101), 1);
    assert_eq!(level_for_score(i32::MIN), 1);
}

#[test]
fn level_never_falls_as_the_score_grows() {
    let mut last = level_for_score(-300);
    for score in -300..2000 {
        let level = level_for_score(score);
        assert!(level >= last);
        assert!(level - last <= 1);
        assert!((1..=10).contains(&level));
        last = level;
    }
}

#[test]
fn new_game_is_empty_and_centred() {
    let game = GameState::new(window());
    assert_eq!(game.score(), 0);
    assert_eq!(game.lines_cleared(), 0);
    assert_eq!(game.level(), 1);
    assert_eq!(game.status(), State::Running);
    assert_eq!(game.current_piece(), None);
    assert!(game.next_pieces().is_empty());
    assert!(!game.is_dropping());
    assert_eq!(game.prev_key, None);
    assert_eq!(game.grid_pos(), Vec2::xy(30, 10));
    assert_eq!(game.dimension(), Vec2::xy(80, 40));
    assert_eq!(squares_with(&game, Cell::Empty).len(), 200);
}

#[test]
fn place_of_the_grid_is_rounded_towards_zero() {
    assert_eq!(GameState::new(Vec2::xy(81, 41)).grid_pos(), Vec2::xy(30, 10));
    assert_eq!(GameState::new(Vec2::xy(20, 20)).grid_pos(), Vec2::xy(0, 0));
    assert_eq!(GameState::new(Vec2::xy(10, 10)).grid_pos(), Vec2::xy(-5, -5));
    assert_eq!(GameState::new(Vec2::xy(11, 13)).grid_pos(), Vec2::xy(-4, -3));
    assert_eq!(GameState::new(Vec2::xy(0, 0)).grid_pos(), Vec2::xy(-10, -10));
}

#[test]
fn screen_position_counts_from_the_corner_of_the_grid() {
    let game = GameState::new(window());
    assert_eq!(game.tx_to_grid(0, 0), Vec2::xy(30, 10));
    assert_eq!(game.tx_to_grid(24, 2), Vec2::xy(54, 12));
    assert_eq!(game.tx_to_grid(-1, 20), Vec2::xy(29, 30));
}

#[test]
fn tick_without_a_piece_changes_nothing() {
    let mut game = GameState::new(window());
    for step in 0..30 {
        game.update(step);
    }
    assert_eq!(game.score(), 0);
    assert_eq!(game.level(), 1);
    assert_eq!(game.current_piece(), None);
    assert!(game.next_pieces().is_empty());
    assert_eq!(squares_with(&game, Cell::Empty).len(), 200);
}

#[test]
fn init_fills_the_queue_and_lets_a_piece_enter() {
    for _ in 0..50 {
        let mut game = GameState::new(window());
        game.init();
        assert_eq!(game.next_pieces().len(), 3);
        let piece = game.current_piece().unwrap();
        assert_eq!(piece.rot, 0);
        assert_eq!(piece.pos.x, 4);
        let top = piece.cells().iter().map(|c| piece.pos.y + c.y).min().unwrap();
        assert_eq!(top, 0);
        assert_eq!(game.status(), State::Running);
        assert!(!game.is_dropping());
        // the piece is drawn by the first tick, not before
        assert_eq!(squares_with(&game, Cell::Empty).len(), 200);
    }
}

#[test]
fn start_with_given_kinds() {
    let mut game = GameState::new(window());
    game.init_with([Tetromino::S, Tetromino::I, Tetromino::O, Tetromino::Z]);
    assert_eq!(game.current_piece(), Some(piece_at(Tetromino::S, 0, 4, 0)));
    assert_eq!(game.next_pieces(), &vec![Tetromino::I, Tetromino::O, Tetromino::Z]);
    assert_eq!(game.status(), State::Running);
    assert!(!game.is_dropping());
    assert_eq!(squares_with(&game, Cell::Empty).len(), 200);
    // a second start puts its kinds behind those that wait
    game.init_with([Tetromino::T, Tetromino::T, Tetromino::L, Tetromino::J]);
    assert_eq!(game.current_piece(), Some(piece_at(Tetromino::I, 0, 4, -1)));
    assert_eq!(
        game.next_pieces(),
        &vec![
            Tetromino::O,
            Tetromino::Z,
            Tetromino::T,
            Tetromino::T,
            Tetromino::L,
            Tetromino::J
        ]
    );
}

#[test]
fn queue_is_first_in_first_out() {
    let mut game = GameState::new(window());
    game.enqueue(Tetromino::T);
    game.enqueue(Tetromino::I);
    game.enqueue(Tetromino::O);
    assert_eq!(game.next_pieces(), &vec![Tetromino::T, Tetromino::I, Tetromino::O]);
    game.pick_current_piece_with(Tetromino::S);
    assert_eq!(game.current_piece(), Some(piece_at(Tetromino::T, 0, 4, 0)));
    assert_eq!(game.next_pieces(), &vec![Tetromino::I, Tetromino::O, Tetromino::S]);
    game.pick_current_piece_with(Tetromino::Z);
    assert_eq!(game.current_piece(), Some(piece_at(Tetromino::I, 0, 4, -1)));
    assert_eq!(game.next_pieces(), &vec![Tetromino::O, Tetromino::S, Tetromino::Z]);
}

#[test]
fn pick_draws_a_kind_for_the_back_of_the_queue() {
    let mut game = GameState::new(window());
    game.enqueue(Tetromino::L);
    game.enqueue(Tetromino::J);
    game.drop_current_piece();
    game.pick_current_piece();
    assert_eq!(game.current_piece(), Some(piece_at(Tetromino::L, 0, 4, 0)));
    assert_eq!(game.next_pieces().len(), 2);
    assert_eq!(game.next_pieces()[0], Tetromino::J);
    assert!(!game.is_dropping());
}

#[test]
fn every_kind_enters_with_its_top_in_row_zero() {
    let kinds = [
        (Tetromino::I, -1),
        (Tetromino::J, 0),
        (Tetromino::L, 0),
        (Tetromino::O, 0),
        (Tetromino::S, 0),
        (Tetromino::T, 0),
        (Tetromino::Z, 0),
    ];
    for (kind, y) in kinds {
        let mut game = GameState::new(window());
        game.enqueue(kind);
        game.pick_current_piece_with(Tetromino::O);
        assert_eq!(anchor(&game), Vec2::xy(4, y), "{:?}", kind);
        assert!(game.grid().is_piece_in_grid(&game.current_piece().unwrap()));
    }
}

#[test]
fn game_from_a_position() {
    let mut grid = Grid::new();
    fill_row(&mut grid, 19, 0, 7, Cell::Tetromino(Tetromino::S));
    let piece = piece_at(Tetromino::J, 2, 3, 8);
    let game = game_from(grid, piece, vec![Tetromino::Z]);
    assert_eq!(game.current_piece(), Some(piece));
    assert_eq!(game.next_pieces(), &vec![Tetromino::Z]);
    assert_eq!(game.score(), 0);
    assert_eq!(game.lines_cleared(), 0);
    assert_eq!(game.level(), 1);
    assert_eq!(game.status(), State::Running);
    assert_eq!(game.grid_pos(), Vec2::xy(30, 10));
    assert_eq!(squares_with(&game, Cell::Tetromino(Tetromino::S)).len(), 7);
}

#[test]
fn no_game_from_a_position_that_makes_no_sense() {
    let piece = piece_at(Tetromino::T, 0, 4, 0);
    let next = vec![Tetromino::I];
    assert!(GameState::from_position(window(), Grid::new(), piece, next.clone()).is_some());
    // no queue
    assert!(GameState::from_position(window(), Grid::new(), piece, vec![]).is_none());
    // a square of the piece outside the grid
    let outside = piece_at(Tetromino::T, 0, 8, 0);
    assert!(GameState::from_position(window(), Grid::new(), outside, next.clone()).is_none());
    let above = piece_at(Tetromino::T, 0, 4, -1);
    assert!(GameState::from_position(window(), Grid::new(), above, next.clone()).is_none());
    // a window for which the place of the grid cannot be computed
    let narrow = Vec2::xy(i32::MIN + 19, 40);
    assert!(GameState::from_position(narrow, Grid::new(), piece, next.clone()).is_none());
    let low = Vec2::xy(80, i32::MIN);
    assert!(GameState::from_position(low, Grid::new(), piece, next.clone()).is_none());
    let just = Vec2::xy(i32::MIN + 20, i32::MIN + 20);
    assert!(GameState::from_position(just, Grid::new(), piece, next).is_some());
}

#[test]
fn tick_draws_the_piece_and_its_shadow() {
    let mut game = game_from(Grid::new(), piece_at(Tetromino::T, 0, 4, 0), vec![Tetromino::I]);
    game.update_with(1, Tetromino::O);
    assert_eq!(
        squares_with(&game, Cell::Tetromino(Tetromino::T)),
        vec![(5, 0), (4, 1), (5, 1), (6, 1)]
    );
    assert_eq!(squares_with(&game, Cell::Shadow), vec![(5, 18), (4, 19), (5, 19), (6, 19)]);
    assert_eq!(anchor(&game), Vec2::xy(4, 0));
}

#[test]
fn piece_hides_its_shadow_where_they_meet() {
    let mut game = game_from(Grid::new(), piece_at(Tetromino::I, 1, 4, 15), vec![Tetromino::I]);
    game.update_with(1, Tetromino::O);
    let piece: Vec<(i32, i32)> = (15..19).map(|y| (6, y)).collect();
    assert_eq!(squares_with(&game, Cell::Tetromino(Tetromino::I)), piece);
    assert_eq!(squares_with(&game, Cell::Shadow), vec![(6, 19)]);
}

#[test]
fn piece_moves_down_every_tenth_tick_at_level_one() {
    let mut game = game_from(Grid::new(), piece_at(Tetromino::T, 0, 4, 0), vec![Tetromino::I]);
    for step in 0..10 {
        game.update_with(step, Tetromino::O);
        assert_eq!(anchor(&game), Vec2::xy(4, 0), "tick {}", step);
    }
    game.update_with(10, Tetromino::O);
    assert_eq!(anchor(&game), Vec2::xy(4, 1));
    for step in 11..20 {
        game.update_with(step, Tetromino::O);
        assert_eq!(anchor(&game), Vec2::xy(4, 1), "tick {}", step);
    }
    game.update_with(20, Tetromino::O);
    assert_eq!(anchor(&game), Vec2::xy(4, 2));
    assert_eq!(
        squares_with(&game, Cell::Tetromino(Tetromino::T)),
        vec![(5, 2), (4, 3), (5, 3), (6, 3)]
    );
}

#[test]
fn piece_does_not_move_down_at_tick_zero() {
    let mut game = game_from(Grid::new(), piece_at(Tetromino::T, 0, 4, 0), vec![Tetromino::I]);
    game.drop_current_piece();
    game.update_with(0, Tetromino::O);
    assert_eq!(anchor(&game), Vec2::xy(4, 0));
    game.update_with(0, Tetromino::O);
    assert_eq!(anchor(&game), Vec2::xy(4, 0));
}

#[test]
fn dropping_piece_moves_down_every_tick() {
    let mut game = game_from(Grid::new(), piece_at(Tetromino::T, 0, 4, 0), vec![Tetromino::I]);
    game.drop_current_piece();
    assert!(game.is_dropping());
    for step in 1..=18 {
        game.update_with(step, Tetromino::O);
        assert_eq!(anchor(&game), Vec2::xy(4, step as i32));
        assert_eq!(game.score(), 0);
    }
    // it stands on the floor now, and comes to rest at the next tick
    game.update_with(19, Tetromino::O);
    assert_eq!(game.score(), 4);
    assert_eq!(game.current_piece(), Some(piece_at(Tetromino::I, 0, 4, -1)));
    assert!(!game.is_dropping());
}

#[test]
fn piece_that_comes_to_rest_brings_four_points() {
    let mut game = game_from(
        Grid::new(),
        piece_at(Tetromino::O, 0, 6, 18),
        vec![Tetromino::T, Tetromino::L, Tetromino::J],
    );
    game.update_with(10, Tetromino::S);
    assert_eq!(game.score(), 4);
    assert_eq!(game.lines_cleared(), 0);
    assert_eq!(game.level(), 1);
    assert_eq!(game.status(), State::Running);
    assert_eq!(
        squares_with(&game, Cell::Tetromino(Tetromino::O)),
        vec![(7, 18), (8, 18), (7, 19), (8, 19)]
    );
    // the next piece entered and the kind given joined the queue
    assert_eq!(game.current_piece(), Some(piece_at(Tetromino::T, 0, 4, 0)));
    assert_eq!(game.next_pieces(), &vec![Tetromino::L, Tetromino::J, Tetromino::S]);
    // the entry wrote nothing to the grid: the next tick draws the piece
    assert_eq!(squares_with(&game, Cell::Shadow), vec![]);
    assert_eq!(squares_with(&game, Cell::Tetromino(Tetromino::T)), vec![]);
    assert_eq!(squares_with(&game, Cell::Empty).len(), 196);
    game.update_with(11, Tetromino::S);
    assert_eq!(
        squares_with(&game, Cell::Tetromino(Tetromino::T)),
        vec![(5, 0), (4, 1), (5, 1), (6, 1)]
    );
    assert_eq!(squares_with(&game, Cell::Shadow), vec![(5, 18), (4, 19), (5, 19), (6, 19)]);
}

#[test]
fn no_shadow_is_left_when_a_piece_comes_to_rest() {
    let mut game = game_from(
        Grid::new(),
        piece_at(Tetromino::L, 0, 2, 3),
        vec![Tetromino::T, Tetromino::L, Tetromino::J],
    );
    game.drop_current_piece();
    let mut step = 0;
    while game.score() == 0 {
        step += 1;
        game.update_with(step, Tetromino::S);
        if game.score() == 0 {
            // the shadow shows but for the squares that the piece hides
            assert_eq!(squares_with(&game, Cell::Shadow).len() + overlap(&game), 4);
        }
    }
    assert_eq!(step, 16);
    assert_eq!(squares_with(&game, Cell::Shadow), vec![]);
    assert_eq!(
        squares_with(&game, Cell::Tetromino(Tetromino::L)),
        vec![(4, 18), (2, 19), (3, 19), (4, 19)]
    );
    assert_eq!(squares_with(&game, Cell::Empty).len(), 196);
}

/// How many squares of the shadow the falling piece hides.
fn overlap(game: &GameState) -> usize {
    let piece = game.current_piece().unwrap();
    let shadow = {
        let mut bare = Grid::new();
        for y in 0..GRID_HEIGHT {
            for x in 0..GRID_WIDTH {
                let cell = game.grid().get(Vec2::xy(x, y));
                if cell != Cell::Shadow {
                    bare.set(Vec2::xy(x, y), cell);
                }
            }
        }
        bare.remove_piece(&piece);
        bare.shadow_of(&piece)
    };
    let at = |p: &Piece| -> Vec<(i32, i32)> {
        p.cells().iter().map(|c| (p.pos.x + c.x, p.pos.y + c.y)).collect()
    };
    let own = at(&piece);
    at(&shadow).iter().filter(|sq| own.contains(sq)).count()
}

#[test]
fn piece_is_not_due_so_it_does_not_come_to_rest() {
    let mut game = game_from(
        Grid::new(),
        piece_at(Tetromino::O, 0, 6, 18),
        vec![Tetromino::T, Tetromino::L, Tetromino::J],
    );
    for step in 1..10 {
        game.update_with(step, Tetromino::S);
        assert_eq!(game.score(), 0);
        assert_eq!(game.current_piece(), Some(piece_at(Tetromino::O, 0, 6, 18)));
    }
}

#[test]
fn full_bottom_row_is_cleared_when_the_piece_comes_to_rest() {
    let mut grid = Grid::new();
    fill_row(&mut grid, 19, 0, 10, Cell::Tetromino(Tetromino::T));
    fill_row(&mut grid, 18, 0, 5, Cell::Tetromino(Tetromino::I));
    // the square stands on the bars of row 18
    let piece = piece_at(Tetromino::O, 0, 0, 16);
    let mut game = game_from(grid, piece, vec![Tetromino::L, Tetromino::J, Tetromino::S]);
    let before = rows_of(&game);
    game.update_with(10, Tetromino::Z);
    let after = rows_of(&game);
    assert_eq!(game.lines_cleared(), 1);
    assert_eq!(game.score(), 10 + 4);
    assert_eq!(after[19], before[18]);
    let i = Cell::Tetromino(Tetromino::I);
    let e = Cell::Empty;
    assert_eq!(after[19], vec![i, i, i, i, i, e, e, e, e, e]);
    // the top row is empty, and every other row is the one that was above it
    // when the square had come to rest
    let mut settled = before.clone();
    for (x, y) in [(1, 16), (2, 16), (1, 17), (2, 17)] {
        settled[y][x] = Cell::Tetromino(Tetromino::O);
    }
    assert_eq!(after[0], vec![e; 10]);
    for y in 0..19 {
        assert_eq!(after[y + 1], settled[y], "row {}", y + 1);
    }
    assert_eq!(squares_with(&game, Cell::Shadow), vec![]);
    // the square moved down with the rows
    assert_eq!(
        squares_with(&game, Cell::Tetromino(Tetromino::O)),
        vec![(1, 17), (2, 17), (1, 18), (2, 18)]
    );
    assert_eq!(squares_with(&game, Cell::Tetromino(Tetromino::T)), vec![]);
    assert_eq!(game.status(), State::Running);
    assert_eq!(game.current_piece(), Some(piece_at(Tetromino::L, 0, 4, 0)));
}

#[test]
fn piece_that_fills_four_rows_clears_four_lines() {
    let mut grid = Grid::new();
    for y in 16..20 {
        fill_row(&mut grid, y, 0, 9, Cell::Tetromino(Tetromino::J));
    }
    fill_row(&mut grid, 15, 0, 2, Cell::Tetromino(Tetromino::S));
    let piece = piece_at(Tetromino::I, 1, 7, 16);
    let mut game = game_from(grid, piece, vec![Tetromino::L]);
    game.update_with(10, Tetromino::Z);
    assert_eq!(game.lines_cleared(), 4);
    assert_eq!(game.score(), 4 + 4 * 10);
    assert_eq!(squares_with(&game, Cell::Tetromino(Tetromino::J)), vec![]);
    assert_eq!(squares_with(&game, Cell::Tetromino(Tetromino::I)), vec![]);
    assert_eq!(squares_with(&game, Cell::Tetromino(Tetromino::S)), vec![(0, 19), (1, 19)]);
}

#[test]
fn shadow_follows_the_piece() {
    let mut game = game_from(Grid::new(), piece_at(Tetromino::O, 0, 4, 3), vec![Tetromino::I]);
    game.update_with(1, Tetromino::O);
    assert_eq!(squares_with(&game, Cell::Shadow), vec![(5, 18), (6, 18), (5, 19), (6, 19)]);
    assert!(game.move_current_piece(Vec2::xy(-3, 0)));
    game.update_with(2, Tetromino::O);
    assert_eq!(squares_with(&game, Cell::Shadow), vec![(2, 18), (3, 18), (2, 19), (3, 19)]);
    assert_eq!(
        squares_with(&game, Cell::Tetromino(Tetromino::O)),
        vec![(2, 3), (3, 3), (2, 4), (3, 4)]
    );
}

#[test]
fn move_is_made_where_the_piece_fits() {
    let mut game = game_from(Grid::new(), piece_at(Tetromino::T, 0, 4, 5), vec![Tetromino::I]);
    game.update_with(1, Tetromino::O);
    assert!(game.move_current_piece(Vec2::xy(1, 0)));
    assert_eq!(anchor(&game), Vec2::xy(5, 5));
    assert!(game.move_current_piece(Vec2::xy(-1, 0)));
    assert!(game.move_current_piece(Vec2::xy(-1, 0)));
    assert_eq!(anchor(&game), Vec2::xy(3, 5));
    assert!(game.move_current_piece(Vec2::xy(0, 1)));
    assert_eq!(anchor(&game), Vec2::xy(3, 6));
    assert!(game.move_current_piece(Vec2::xy(2, 7)));
    assert_eq!(anchor(&game), Vec2::xy(5, 13));
    assert!(game.move_current_piece(Vec2::xy(0, 0)));
    assert_eq!(anchor(&game), Vec2::xy(5, 13));
    // the piece is off the grid until the next tick draws it
    assert_eq!(squares_with(&game, Cell::Tetromino(Tetromino::T)), vec![]);
    game.update_with(2, Tetromino::O);
    assert_eq!(squares_with(&game, Cell::Tetromino(Tetromino::T)).len(), 4);
}

#[test]
fn move_out_of_the_grid_is_refused() {
    let start = piece_at(Tetromino::T, 0, 0, 5);
    let mut game = game_from(Grid::new(), start, vec![Tetromino::I]);
    assert!(!game.move_current_piece(Vec2::xy(-1, 0)));
    assert_eq!(game.current_piece(), Some(start));
    assert!(!game.move_current_piece(Vec2::xy(8, 0)));
    assert_eq!(game.current_piece(), Some(start));
    assert!(game.move_current_piece(Vec2::xy(7, 0)));
    assert!(!game.move_current_piece(Vec2::xy(1, 0)));
    assert_eq!(anchor(&game), Vec2::xy(7, 5));
    assert!(!game.move_current_piece(Vec2::xy(0, 14)));
    assert!(game.move_current_piece(Vec2::xy(0, 13)));
    assert!(!game.move_current_piece(Vec2::xy(0, 1)));
    assert_eq!(anchor(&game), Vec2::xy(7, 18));
    assert!(!game.move_current_piece(Vec2::xy(0, -19)));
    assert_eq!(anchor(&game), Vec2::xy(7, 18));
}

#[test]
fn move_by_a_huge_step_is_refused() {
    let start = piece_at(Tetromino::S, 1, 3, 5);
    let mut game = game_from(Grid::new(), start, vec![Tetromino::I]);
    for delta in [
        Vec2::xy(i32::MAX, 0),
        Vec2::xy(i32::MIN, 0),
        Vec2::xy(0, i32::MAX),
        Vec2::xy(0, i32::MIN),
        Vec2::xy(i32::MAX, i32::MAX),
    ] {
        assert!(!game.move_current_piece(delta));
        assert_eq!(game.current_piece(), Some(start));
    }
}

#[test]
fn move_onto_an_occupied_square_is_refused() {
    let mut grid = Grid::new();
    grid.set(Vec2::xy(7, 6), Cell::Tetromino(Tetromino::Z));
    grid.set(Vec2::xy(4, 7), Cell::Tetromino(Tetromino::Z));
    let start = piece_at(Tetromino::T, 0, 4, 5);
    let mut game = game_from(grid, start, vec![Tetromino::I]);
    game.update_with(1, Tetromino::O);
    assert!(!game.move_current_piece(Vec2::xy(1, 0)));
    assert_eq!(game.current_piece(), Some(start));
    assert!(!game.move_current_piece(Vec2::xy(0, 1)));
    assert_eq!(game.current_piece(), Some(start));
    assert!(game.move_current_piece(Vec2::xy(-1, 0)));
    assert_eq!(anchor(&game), Vec2::xy(3, 5));
    // what stood in the way is still there
    assert_eq!(squares_with(&game, Cell::Tetromino(Tetromino::Z)), vec![(7, 6), (4, 7)]);
}

#[test]
fn shadow_marks_are_no_obstacle_to_a_move() {
    let mut grid = Grid::new();
    fill_row(&mut grid, 6, 0, 10, Cell::Shadow);
    let mut game = game_from(grid, piece_at(Tetromino::T, 0, 4, 5), vec![Tetromino::I]);
    assert!(game.move_current_piece(Vec2::xy(1, 0)));
    assert!(game.move_current_piece(Vec2::xy(0, 1)));
    assert_eq!(anchor(&game), Vec2::xy(5, 6));
}

#[test]
fn turn_is_made_where_the_piece_fits() {
    let mut game = game_from(Grid::new(), piece_at(Tetromino::L, 0, 4, 5), vec![Tetromino::I]);
    for want in [1, 2, 3, 0, 1] {
        assert!(game.rotate_current_piece());
        let piece = game.current_piece().unwrap();
        assert_eq!(piece.rot, want);
        assert_eq!(piece.pos, Vec2::xy(4, 5));
        assert_eq!(piece.tetromino, Tetromino::L);
    }
}

#[test]
fn turn_out_of_the_grid_is_refused() {
    // the upright bar in the leftmost column cannot lie down
    let start = piece_at(Tetromino::I, 1, -2, 5);
    let mut game = game_from(Grid::new(), start, vec![Tetromino::I]);
    assert!(!game.rotate_current_piece());
    assert_eq!(game.current_piece(), Some(start));
    // nor can the bar that just entered stand up: its top would be above the grid
    let entered = piece_at(Tetromino::I, 0, 4, -1);
    let mut game = game_from(Grid::new(), entered, vec![Tetromino::I]);
    assert!(!game.rotate_current_piece());
    assert_eq!(game.current_piece(), Some(entered));
    // no place is tried beside the one asked for
    assert!(game.move_current_piece(Vec2::xy(0, 1)));
    assert!(game.rotate_current_piece());
    assert_eq!(game.current_piece(), Some(piece_at(Tetromino::I, 1, 4, 0)));
}

#[test]
fn turn_onto_an_occupied_square_is_refused() {
    let mut grid = Grid::new();
    // T at (4, 5) turned once would cover (5, 7)
    grid.set(Vec2::xy(5, 7), Cell::Tetromino(Tetromino::J));
    let start = piece_at(Tetromino::T, 0, 4, 5);
    let mut game = game_from(grid, start, vec![Tetromino::I]);
    assert!(!game.rotate_current_piece());
    assert_eq!(game.current_piece(), Some(start));
    assert_eq!(squares_with(&game, Cell::Tetromino(Tetromino::J)), vec![(5, 7)]);
}

#[test]
fn game_without_a_piece_refuses_moves_and_turns() {
    let mut game = GameState::new(window());
    assert!(!game.move_current_piece(Vec2::xy(1, 0)));
    assert!(!game.rotate_current_piece());
    assert_eq!(game.current_piece(), None);
}

fn topped_out() -> GameState {
    let mut grid = Grid::new();
    // T enters on (5, 0), (4, 1), (5, 1), (6, 1)
    grid.set(Vec2::xy(5, 1), Cell::Tetromino(Tetromino::Z));
    let mut game = game_from(
        grid,
        piece_at(Tetromino::O, 0, 6, 18),
        vec![Tetromino::T, Tetromino::L, Tetromino::J],
    );
    game.update_with(10, Tetromino::S);
    game
}

#[test]
fn piece_that_cannot_enter_ends_the_game() {
    let mut grid = Grid::new();
    grid.set(Vec2::xy(5, 1), Cell::Tetromino(Tetromino::Z));
    let mut game = game_from(
        grid,
        piece_at(Tetromino::O, 0, 6, 18),
        vec![Tetromino::T, Tetromino::L, Tetromino::J],
    );
    game.update_with(9, Tetromino::S);
    assert_eq!(game.status(), State::Running);
    game.update_with(10, Tetromino::S);
    assert_eq!(game.status(), State::GameOver);
    assert_eq!(game.score(), 4);
    assert_eq!(game.lines_cleared(), 0);
    // the grid holds what came to rest, and nothing of the piece that could not enter
    assert_eq!(squares_with(&game, Cell::Tetromino(Tetromino::Z)), vec![(5, 1)]);
    assert_eq!(squares_with(&game, Cell::Tetromino(Tetromino::O)).len(), 4);
    assert_eq!(squares_with(&game, Cell::Shadow), vec![]);
    assert_eq!(squares_with(&game, Cell::Tetromino(Tetromino::T)), vec![]);
    assert_eq!(game.next_pieces(), &vec![Tetromino::L, Tetromino::J, Tetromino::S]);
}

#[test]
fn shadow_mark_where_the_piece_enters_does_not_end_the_game() {
    let mut grid = Grid::new();
    grid.set(Vec2::xy(5, 1), Cell::Shadow);
    let mut game = game_from(
        grid,
        piece_at(Tetromino::O, 0, 6, 18),
        vec![Tetromino::T, Tetromino::L, Tetromino::J],
    );
    game.update_with(10, Tetromino::S);
    assert_eq!(game.status(), State::Running);
}

#[test]
fn ticks_after_the_end_change_nothing() {
    let mut game = topped_out();
    assert_eq!(game.status(), State::GameOver);
    let grid = rows_of(&game);
    let piece = game.current_piece();
    let queue = game.next_pieces().clone();
    for step in 0..50 {
        game.update_with(step, Tetromino::I);
        game.update(step);
        assert_eq!(game.status(), State::GameOver);
        assert_eq!(game.score(), 4);
        assert_eq!(game.lines_cleared(), 0);
        assert_eq!(game.level(), 1);
        assert_eq!(rows_of(&game), grid);
        assert_eq!(game.current_piece(), piece);
        assert_eq!(game.next_pieces(), &queue);
    }
}

#[test]
fn moves_and_turns_after_the_end_are_refused() {
    let mut game = topped_out();
    let grid = rows_of(&game);
    let piece = game.current_piece();
    assert!(!game.move_current_piece(Vec2::xy(1, 0)));
    assert!(!game.move_current_piece(Vec2::xy(0, 3)));
    assert!(!game.rotate_current_piece());
    assert_eq!(game.current_piece(), piece);
    assert_eq!(rows_of(&game), grid);
}

#[test]
fn tick_with_a_drawn_kind_puts_it_at_the_back_of_the_queue() {
    let mut game = game_from(
        Grid::new(),
        piece_at(Tetromino::O, 0, 6, 18),
        vec![Tetromino::T, Tetromino::L, Tetromino::J],
    );
    game.update(10);
    assert_eq!(game.score(), 4);
    assert_eq!(game.current_piece(), Some(piece_at(Tetromino::T, 0, 4, 0)));
    assert_eq!(game.next_pieces().len(), 3);
    assert_eq!(game.next_pieces()[..2], [Tetromino::L, Tetromino::J]);
}

#[test]
fn lines_raise_the_level_and_the_level_quickens_the_fall() {
    let mut grid = Grid::new();
    for y in 8..20 {
        fill_row(&mut grid, y, 0, 9, Cell::Tetromino(Tetromino::J));
    }
    let mut game = game_from(grid, piece_at(Tetromino::I, 1, 7, 0), vec![Tetromino::I; 3]);
    let wanted = [(44, 4, 1), (88, 8, 1), (132, 12, 2)];
    for (round, (score, lines, level)) in wanted.into_iter().enumerate() {
        if round > 0 {
            // bring the bar that entered to the rightmost column, upright
            game.drop_current_piece();
            game.update_with(1, Tetromino::I);
            assert!(game.rotate_current_piece());
            assert!(game.move_current_piece(Vec2::xy(3, 0)));
            assert_eq!(game.current_piece(), Some(piece_at(Tetromino::I, 1, 7, 0)));
        }
        game.drop_current_piece();
        let before = game.score();
        let mut ticks = 0;
        while game.score() == before {
            ticks += 1;
            game.update_with(ticks, Tetromino::I);
            assert!(ticks <= 17);
        }
        assert_eq!(ticks, 17);
        assert_eq!(game.score(), score);
        assert_eq!(game.lines_cleared(), lines);
        assert_eq!(game.level(), level);
        assert_eq!(game.status(), State::Running);
    }
    assert_eq!(squares_with(&game, Cell::Tetromino(Tetromino::J)), vec![]);
    // at level 2 the piece moves down every ninth tick
    let y = anchor(&game).y;
    for step in 1..9 {
        game.update_with(step, Tetromino::I);
        assert_eq!(anchor(&game).y, y);
    }
    game.update_with(9, Tetromino::I);
    assert_eq!(anchor(&game).y, y + 1);
    game.update_with(10, Tetromino::I);
    assert_eq!(anchor(&game).y, y + 1);
    game.update_with(18, Tetromino::I);
    assert_eq!(anchor(&game).y, y + 2);
}

#[test]
fn show_of_all_shapes() {
    let mut game = GameState::new(window());
    game.init_with_all_pieces();
    // the first two orientations of the first four kinds lie in the grid
    let mut want: Vec<(i32, i32)> = vec![];
    for (t_nb, kind) in [Tetromino::I, Tetromino::J, Tetromino::L, Tetromino::O].iter().enumerate()
    {
        for rot in 0..2 {
            for c in kind.cells(rot) {
                want.push((rot * 5 + c.x, t_nb as i32 * 5 + c.y));
            }
        }
    }
    want.sort_by_key(|&(x, y)| (y, x));
    assert_eq!(want.len(), 32);
    assert_eq!(squares_with(&game, Cell::Shadow), want);
    assert_eq!(squares_with(&game, Cell::Empty).len(), 200 - 32);
    assert_eq!(game.current_piece(), None);
}

#[test]
fn game_played_with_drawn_kinds_ends_when_the_stack_reaches_the_top() {
    let mut game = GameState::new(window());
    game.init();
    let mut last_score = 0;
    let mut rests = 0;
    let mut step: usize = 0;
    while game.status() == State::Running {
        step += 1;
        assert!(step < 5000, "the game did not end");
        assert!(game.score() <= i32::MAX - MAX_GAIN);
        game.drop_current_piece();
        game.update(step);
        assert!(game.score() >= last_score);
        if game.score() != last_score {
            assert_eq!(game.score(), last_score + 4);
            rests += 1;
        }
        last_score = game.score();
        assert_eq!(game.level(), level_for_score(game.score()));
        assert_eq!(game.lines_cleared(), 0);
        assert_eq!(game.next_pieces().len(), 3);
        assert!(game.grid().is_piece_in_grid(&game.current_piece().unwrap()));
    }
    // pieces that fall straight down pile up in the middle columns
    assert!((5..=20).contains(&rests), "{} pieces came to rest", rests);
    assert_eq!(game.score(), 4 * rests);
    let grid = rows_of(&game);
    game.update(step + 1);
    assert_eq!(rows_of(&game), grid);
    assert_eq!(game.score(), 4 * rests);
}
