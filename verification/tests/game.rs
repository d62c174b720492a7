use backgammon::{Board, Dice, Die, Error, Game, GameStatus, Move, Player, Point};

fn die(n: u8) -> Die {
    Die::new(n).unwrap()
}

fn dice(a: u8, b: u8) -> Dice {
    Dice(die(a), die(b))
}

fn mv(from: usize, n: u8) -> Move {
    Move::new(from, die(n))
}

fn pieces(board: &Board, player: Player) -> u32 {
    let mut total: u32 = 0;
    for point in board.points.iter() {
        if let Point::Occupied(owner, count) = point {
            if *owner == player {
                total += u32::from(*count);
            }
        }
    }
    total + u32::from(board.bar[player.index()]) + u32::from(board.off[player.index()])
}

#[test]
fn test_new_game() {
    let game = Game::new();
    assert!(matches!(game.player_turn(), Player::White));
    assert!(game.dice().is_none());
}

#[test]
fn test_roll_dice() {
    let mut game = Game::new();
    game.roll_dice();
    assert!(game.dice().is_some());
}

#[test]
fn test_valid_movements() {
    let mut game = Game::new();
    game.roll_dice();
    let movements = game.valid_movements();
    assert!(!movements.is_empty());
}

#[test]
fn test_make_movement() {
    let mut game = Game::new();
    game.roll_dice();
    let movements = game.valid_movements();
    if let Some(movement) = movements.first() {
        assert!(game.make_movement(*movement).is_ok());
    }
}

#[test]
fn test_switch_turn() {
    let mut game = Game::new();
    assert!(matches!(game.player_turn(), Player::White));
    game.switch_turn();
    assert!(matches!(game.player_turn(), Player::Black));
}

#[test]
fn new_game_has_the_starting_layout() {
    let game = Game::new();
    let board = game.board();
    for (i, point) in board.points.iter().enumerate() {
        let expected = match i {
            0 => Point::Occupied(Player::Black, 2),
            5 => Point::Occupied(Player::White, 5),
            7 => Point::Occupied(Player::White, 3),
            11 => Point::Occupied(Player::Black, 5),
            12 => Point::Occupied(Player::White, 5),
            16 => Point::Occupied(Player::Black, 3),
            18 => Point::Occupied(Player::Black, 5),
            23 => Point::Occupied(Player::White, 2),
            _ => Point::Empty,
        };
        assert_eq!(*point, expected);
    }
    assert_eq!(board.bar, [0, 0]);
    assert_eq!(board.off, [0, 0]);
    assert_eq!(pieces(board, Player::White), 15);
    assert_eq!(pieces(board, Player::Black), 15);
    assert_eq!(game.status(), GameStatus::InProgress);
    assert_eq!(Player::White.index(), 0);
    assert_eq!(Player::Black.index(), 1);
    assert_eq!(Player::White.opponent(), Player::Black);
    assert_eq!(Player::Black.opponent(), Player::White);
}

#[test]
fn default_board_and_status() {
    let board = Board::default();
    assert_eq!(board.points[5], Point::Occupied(Player::White, 5));
    assert_eq!(board.points[1], Point::Empty);
    assert_eq!(GameStatus::default(), GameStatus::InProgress);
}

#[test]
fn no_dice_no_moves() {
    let game = Game::new();
    assert!(game.valid_movements().is_empty());
    let mut game = game;
    assert_eq!(game.make_movement(mv(5, 3)), Err(Error::InvalidMove));
}

#[test]
fn white_opening_moves_with_three_and_four() {
    let mut game = Game::new();
    game.set_dice(dice(3, 4));
    assert_eq!(game.dice(), Some(dice(3, 4)));
    let movements = game.valid_movements();
    assert_eq!(movements, vec![mv(5, 3), mv(5, 4), mv(7, 3), mv(12, 3)]);
    for movement in &movements {
        let to = game.destination(movement).unwrap();
        assert!(to < 24);
        assert!(game.is_valid_movement(movement));
    }
    assert_eq!(game.destination(&mv(5, 3)), Some(8));
    assert_eq!(game.destination(&mv(5, 4)), Some(9));
    assert_eq!(game.destination(&mv(7, 4)), Some(11));
    assert!(!game.is_valid_movement(&mv(7, 4)));
    assert_eq!(game.destination(&mv(23, 3)), None);
    assert!(!game.is_valid_movement(&mv(23, 3)));
    assert_eq!(game.destination(&mv(20, 4)), None);
    assert_eq!(game.destination(&mv(19, 4)), Some(23));
    assert_eq!(game.destination(&mv(usize::MAX, 4)), None);
}

#[test]
fn black_moves_downwards() {
    let mut game = Game::new();
    game.switch_turn();
    game.set_dice(dice(1, 2));
    assert_eq!(
        game.valid_movements(),
        vec![mv(11, 1), mv(11, 2), mv(16, 1), mv(16, 2), mv(18, 1), mv(18, 2)]
    );
    assert_eq!(game.destination(&mv(0, 1)), None);
    assert_eq!(game.destination(&mv(1, 1)), Some(0));
    assert_eq!(game.destination(&mv(24, 1)), Some(23));
    assert_eq!(game.destination(&mv(25, 1)), None);
    assert_eq!(game.destination(&mv(18, 2)), Some(16));
}

#[test]
fn doubles_list_each_move_twice() {
    let mut game = Game::new();
    game.set_dice(dice(3, 3));
    assert_eq!(
        game.valid_movements(),
        vec![mv(5, 3), mv(5, 3), mv(7, 3), mv(7, 3), mv(12, 3), mv(12, 3)]
    );
    game.set_dice(dice(6, 6));
    assert_eq!(game.valid_movements(), vec![mv(7, 6), mv(7, 6)]);
}

#[test]
fn every_roll_leaves_white_an_opening_move() {
    for a in 1..=6u8 {
        for b in 1..=6u8 {
            let mut game = Game::new();
            game.set_dice(dice(a, b));
            assert!(!game.valid_movements().is_empty());
        }
    }
}

#[test]
fn make_movement_accepts_exactly_the_listed_moves() {
    for from in 0..26usize {
        for n in 1..=6u8 {
            let mut game = Game::new();
            game.set_dice(dice(3, 4));
            let listed = game.valid_movements().contains(&mv(from, n));
            let result = game.make_movement(mv(from, n));
            if listed {
                assert_eq!(result, Ok(()));
            } else {
                assert_eq!(result, Err(Error::InvalidMove));
                assert_eq!(game.board().points, Board::default().points);
                assert_eq!(game.board().bar, [0, 0]);
                assert_eq!(game.dice(), Some(dice(3, 4)));
                assert_eq!(game.player_turn(), Player::White);
            }
        }
    }
}

#[test]
fn a_move_takes_one_piece_from_source_to_destination() {
    let mut game = Game::new();
    game.set_dice(dice(3, 4));
    assert_eq!(game.make_movement(mv(5, 3)), Ok(()));
    assert_eq!(game.board().points[5], Point::Occupied(Player::White, 4));
    assert_eq!(game.board().points[8], Point::Occupied(Player::White, 1));
    assert_eq!(game.board().bar, [0, 0]);
    assert_eq!(game.status(), GameStatus::InProgress);
    assert_eq!(game.dice(), Some(dice(3, 4)));
    assert_eq!(game.player_turn(), Player::White);
    assert!(!game.check_win());
    assert_eq!(pieces(game.board(), Player::White), 15);
    assert_eq!(pieces(game.board(), Player::Black), 15);
    assert_eq!(
        game.valid_movements(),
        vec![mv(5, 3), mv(5, 4), mv(7, 3), mv(8, 4), mv(12, 3)]
    );
    assert_eq!(game.make_movement(mv(8, 4)), Ok(()));
    assert_eq!(game.board().points[8], Point::Empty);
    assert_eq!(game.board().points[12], Point::Occupied(Player::White, 6));
    let movements = game.valid_movements();
    assert!(movements.iter().all(|m| m.from != 8));
    assert_eq!(movements, vec![mv(5, 3), mv(5, 4), mv(7, 3), mv(12, 3)]);
    assert_eq!(game.make_movement(mv(8, 4)), Err(Error::InvalidMove));
}

#[test]
fn landing_on_a_single_opposing_piece_captures_it() {
    let mut game = Game::new();
    game.switch_turn();
    game.set_dice(dice(1, 2));
    assert_eq!(game.make_movement(mv(11, 1)), Ok(()));
    assert_eq!(game.board().points[11], Point::Occupied(Player::Black, 4));
    assert_eq!(game.board().points[10], Point::Occupied(Player::Black, 1));
    game.switch_turn();
    game.set_dice(dice(3, 4));
    assert!(game.valid_movements().contains(&mv(7, 3)));
    assert!(!game.valid_movements().contains(&mv(7, 4)));
    assert_eq!(game.make_movement(mv(7, 4)), Err(Error::InvalidMove));
    assert_eq!(game.make_movement(mv(7, 3)), Ok(()));
    assert_eq!(game.board().points[7], Point::Occupied(Player::White, 2));
    assert_eq!(game.board().points[10], Point::Occupied(Player::White, 1));
    assert_eq!(game.board().bar, [0, 1]);
    assert_eq!(game.board().off, [0, 0]);
    assert_eq!(game.status(), GameStatus::InProgress);
    assert_eq!(pieces(game.board(), Player::White), 15);
    assert_eq!(pieces(game.board(), Player::Black), 15);
}

#[test]
fn with_a_piece_on_the_bar_the_die_alone_picks_the_point() {
    let mut game = Game::new();
    game.switch_turn();
    game.set_dice(dice(1, 2));
    game.make_movement(mv(11, 1)).unwrap();
    game.switch_turn();
    game.set_dice(dice(3, 4));
    game.make_movement(mv(7, 3)).unwrap();
    game.switch_turn();
    game.set_dice(dice(1, 2));
    assert_eq!(game.destination(&mv(0, 1)), Some(23));
    assert_eq!(game.destination(&mv(11, 2)), Some(22));
    assert_eq!(game.destination(&mv(500, 6)), Some(18));
    assert!(!game.is_valid_movement(&mv(0, 1)));
    assert!(game.is_valid_movement(&mv(0, 2)));
    assert_eq!(
        game.valid_movements(),
        vec![mv(0, 2), mv(11, 2), mv(16, 2), mv(18, 2)]
    );
    assert_eq!(game.make_movement(mv(0, 2)), Ok(()));
    assert_eq!(game.board().points[0], Point::Occupied(Player::Black, 1));
    assert_eq!(game.board().points[22], Point::Occupied(Player::Black, 1));
    assert_eq!(game.board().bar, [0, 1]);
    assert_eq!(pieces(game.board(), Player::Black), 15);
}

#[test]
fn white_enters_from_the_bar_below_the_die() {
    let mut game = Game::new();
    game.set_dice(dice(1, 2));
    game.make_movement(mv(5, 1)).unwrap();
    game.switch_turn();
    game.set_dice(dice(5, 6));
    assert_eq!(game.make_movement(mv(11, 5)), Ok(()));
    assert_eq!(game.board().points[6], Point::Occupied(Player::Black, 1));
    assert_eq!(game.board().bar, [1, 0]);
    game.switch_turn();
    game.set_dice(dice(1, 6));
    assert_eq!(game.destination(&mv(12, 1)), Some(0));
    assert_eq!(game.destination(&mv(12, 6)), Some(5));
    assert_eq!(
        game.valid_movements(),
        vec![mv(5, 6), mv(7, 6), mv(12, 6), mv(23, 6)]
    );
    assert_eq!(game.make_movement(mv(5, 6)), Ok(()));
    assert_eq!(game.board().points[5], Point::Occupied(Player::White, 4));
    assert_eq!(pieces(game.board(), Player::White), 15);
}

#[test]
fn switch_turn_toggles_and_clears_the_dice() {
    let mut game = Game::new();
    game.roll_dice();
    assert!(game.dice().is_some());
    game.switch_turn();
    assert_eq!(game.player_turn(), Player::Black);
    assert!(game.dice().is_none());
    game.switch_turn();
    assert_eq!(game.player_turn(), Player::White);
    assert!(game.dice().is_none());
    assert_eq!(game.board().points, Board::default().points);
}

#[test]
fn check_win_is_false_while_the_player_holds_a_point() {
    let mut game = Game::new();
    assert!(!game.check_win());
    game.switch_turn();
    assert!(!game.check_win());
}

#[test]
fn rolled_game_plays_a_legal_move_end_to_end() {
    let mut game = Game::new();
    game.roll_dice();
    let rolled = game.dice().unwrap();
    let values = rolled.values();
    assert!((1..=6).contains(&values[0]));
    assert!((1..=6).contains(&values[1]));
    let movements = game.valid_movements();
    assert!(!movements.is_empty());
    for movement in &movements {
        let to = game.destination(movement).unwrap();
        assert!(to < 24);
        assert_eq!(to, movement.from + usize::from(movement.die.value()));
        assert!(movement.die.value() == values[0] || movement.die.value() == values[1]);
    }
    let first = movements[0];
    assert_eq!(game.make_movement(first), Ok(()));
    assert_eq!(pieces(game.board(), Player::White), 15);
}

#[test]
fn a_move_with_a_die_that_was_not_rolled_is_refused() {
    let mut game = Game::new();
    game.set_dice(dice(3, 4));
    assert_eq!(game.make_movement(mv(5, 2)), Err(Error::InvalidMove));
    assert_eq!(game.make_movement(mv(0, 3)), Err(Error::InvalidMove));
    assert_eq!(game.make_movement(mv(6, 3)), Err(Error::InvalidMove));
    assert_eq!(game.make_movement(mv(23, 3)), Err(Error::InvalidMove));
    assert_eq!(game.make_movement(mv(24, 3)), Err(Error::InvalidMove));
    assert_eq!(game.board().points, Board::default().points);
}

#[test]
fn rolling_again_replaces_the_dice() {
    let mut game = Game::new();
    game.set_dice(dice(1, 2));
    game.set_dice(dice(5, 6));
    assert_eq!(game.dice(), Some(dice(5, 6)));
    let mut seen_other = false;
    for _ in 0..200 {
        game.roll_dice();
        let values = game.dice().unwrap().values();
        assert!((1..=6).contains(&values[0]) && (1..=6).contains(&values[1]));
        if values != [5, 6] {
            seen_other = true;
        }
    }
    assert!(seen_other);
    assert_eq!(game.player_turn(), Player::White);
    assert_eq!(game.board().points, Board::default().points);
}
