use tictactoe::{Game, GameResult, PlaceError, Player, Point, PointError};

fn point(x: usize, y: usize) -> Point {
    Point::new(x, y).unwrap()
}

#[test]
fn point_valid() {
    let point = Point::from_str("A1");
    assert!(point.is_ok());
    assert_eq!(point.unwrap(), Point::new(0, 0).unwrap());
}

#[test]
fn point_out_of_range() {
    let point = Point::from_str("D1");
    assert!(point.is_err());
    assert_eq!(point.unwrap_err(), PointError::OutOfRange);
}

#[test]
fn point_bad_len() {
    let point = Point::from_str("A");
    assert!(point.is_err());
    assert_eq!(point.unwrap_err(), PointError::BadLen);
}

#[test]
fn point_new_rejects_out_of_range() {
    assert_eq!(Point::new(3, 0), Err(PointError::OutOfRange));
    assert_eq!(Point::new(0, 3), Err(PointError::OutOfRange));
    assert_eq!(Point::new(7, 9), Err(PointError::OutOfRange));
}

#[test]
fn parse_round_trips_every_valid_input() {
    let inputs = vec![
        "A1", "A2", "A3", "B1", "B2", "B3", "C1", "C2", "C3",
    ];
    for s in inputs {
        let p = Point::from_str(s).unwrap();
        assert_eq!(p.to_string(), s);
    }
}

#[test]
fn parse_bad_lengths() {
    assert_eq!(Point::from_str(""), Err(PointError::BadLen));
    assert_eq!(Point::from_str("A12"), Err(PointError::BadLen));
    assert_eq!(Point::from_str("B2 "), Err(PointError::BadLen));
}

#[test]
fn parse_out_of_range_characters() {
    assert_eq!(Point::from_str("a1"), Err(PointError::OutOfRange));
    assert_eq!(Point::from_str("D3"), Err(PointError::OutOfRange));
    assert_eq!(Point::from_str("A0"), Err(PointError::OutOfRange));
    assert_eq!(Point::from_str("A4"), Err(PointError::OutOfRange));
    assert_eq!(Point::from_str("11"), Err(PointError::OutOfRange));
    assert_eq!(Point::from_str("AA"), Err(PointError::OutOfRange));
    assert_eq!(Point::from_str("??"), Err(PointError::OutOfRange));
}

#[test]
fn point_renders_column_letter_then_row_digit() {
    assert_eq!(point(0, 0).to_string(), "A1");
    assert_eq!(point(1, 2).to_string(), "B3");
    assert_eq!(point(2, 2).to_string(), "C3");
}

#[test]
fn player_display_names() {
    assert_eq!(Player::O.to_string(), "Player O");
    assert_eq!(Player::X.to_string(), "Player X");
}

#[test]
fn new_game_is_empty_and_undetermined() {
    let game = Game::new();
    assert_eq!(game.get_turn(), Player::O);
    assert_eq!(game.get_result(), GameResult::Undetermined);
    assert_eq!(game.to_string(), "\n\n_  _  _\n\n_  _  _\n\n_  _  _");
}

#[test]
fn proceed_alternates_turn() {
    let mut game = Game::new();
    assert_eq!(game.get_turn(), Player::O);
    game.proceed();
    assert_eq!(game.get_turn(), Player::X);
    game.proceed();
    assert_eq!(game.get_turn(), Player::O);
}

#[test]
fn place_marks_cell_with_active_player() {
    let mut game = Game::new();
    game.proceed();
    assert_eq!(game.place(&point(1, 1)), Ok(()));
    assert_eq!(game.to_string(), "\n\n_  _  _\n\n_  X  _\n\n_  _  _");
    assert_eq!(game.get_turn(), Player::X);
}

#[test]
fn placing_twice_on_same_cell_fails_and_changes_nothing() {
    let mut game = Game::new();
    assert_eq!(game.place(&point(0, 0)), Ok(()));
    let rendered = game.to_string();
    let turn = game.get_turn();
    assert_eq!(game.place(&point(0, 0)), Err(PlaceError::Taken));
    assert_eq!(game.to_string(), rendered);
    assert_eq!(game.get_turn(), turn);
}

#[test]
fn placing_on_other_players_cell_fails_and_changes_nothing() {
    let mut game = Game::new();
    assert_eq!(game.place(&point(2, 1)), Ok(()));
    game.proceed();
    let rendered = game.to_string();
    assert_eq!(game.place(&point(2, 1)), Err(PlaceError::Taken));
    assert_eq!(game.to_string(), rendered);
    assert_eq!(game.get_turn(), Player::X);
}

#[test]
fn column_of_three_wins_for_first_player() {
    let mut game = Game::new();
    let moves = vec!["A1", "B1", "A2", "B2", "A3"];
    for (i, s) in moves.iter().enumerate() {
        assert_eq!(game.get_result(), GameResult::Undetermined);
        let p = Point::from_str(s).unwrap();
        assert_eq!(game.place(&p), Ok(()));
        if i + 1 < moves.len() {
            game.proceed();
        }
    }
    assert_eq!(game.get_result(), GameResult::Win(Player::O));
}

#[test]
fn column_of_three_wins_for_second_player() {
    let mut game = Game::new();
    let moves = vec!["A1", "C1", "A2", "C2", "B3", "C3"];
    for (i, s) in moves.iter().enumerate() {
        assert_eq!(game.get_result(), GameResult::Undetermined);
        let p = Point::from_str(s).unwrap();
        assert_eq!(game.place(&p), Ok(()));
        if i + 1 < moves.len() {
            game.proceed();
        }
    }
    assert_eq!(game.get_result(), GameResult::Win(Player::X));
}

#[test]
fn full_board_without_a_line_is_a_draw() {
    // Final layout, rows top to bottom: O X O / O X X / X O O.
    let mut game = Game::new();
    let moves = vec![
        (0, 0),
        (1, 0),
        (2, 0),
        (1, 1),
        (0, 1),
        (2, 1),
        (1, 2),
        (0, 2),
        (2, 2),
    ];
    for (i, (x, y)) in moves.iter().enumerate() {
        assert_eq!(game.get_result(), GameResult::Undetermined);
        assert_eq!(game.place(&point(*x, *y)), Ok(()));
        if i + 1 < moves.len() {
            game.proceed();
        }
    }
    assert_eq!(game.to_string(), "\n\nO  X  O\n\nO  X  X\n\nX  O  O");
    assert_eq!(game.get_result(), GameResult::Draw);
}
