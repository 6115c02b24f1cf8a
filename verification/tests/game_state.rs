use tsumego::board::{BoardPoint, Player, Stone};
use tsumego::game::{GameState, Mode};

fn empty_point() -> BoardPoint {
    BoardPoint { owner: None, number: None }
}

#[test]
fn new_board_is_empty() {
    let s = GameState::new(9);
    assert_eq!(s.size(), 9);
    assert_eq!(s.mode(), Mode::Setup);
    assert_eq!(s.current_player(), Player::Black);
    assert_eq!(s.last_move_number(), 0);
    assert!(s.show_numbers());
    assert!(!s.has_game_stones());
    for i in 0..9 {
        for j in 0..9 {
            assert_eq!(s.point_at(i, j), empty_point());
        }
    }
}

#[test]
fn setup_click_places_marker_for_current_player() {
    let mut s = GameState::new(9);
    s.clicked_on(2, 3);
    let p = s.point_at(2, 3);
    assert_eq!(p.owner, Some(Stone::Setup(Player::Black)));
    assert_eq!(p.number, None);
    assert_eq!(s.current_player(), Player::Black);
    assert_eq!(s.last_move_number(), 0);
    assert_eq!(s.mode(), Mode::Setup);
    assert_eq!(s.point_at(3, 2), empty_point());
}

#[test]
fn setup_click_places_white_marker_after_selection() {
    let mut s = GameState::new(9);
    s.set_current_player(Player::White);
    s.clicked_on(5, 5);
    assert_eq!(s.point_at(5, 5).owner, Some(Stone::Setup(Player::White)));
    assert_eq!(s.current_player(), Player::White);
}

#[test]
fn setup_double_click_returns_point_to_empty() {
    let mut s = GameState::new(9);
    s.clicked_on(4, 4);
    s.clicked_on(4, 4);
    assert_eq!(s.point_at(4, 4), empty_point());
    assert_eq!(s.current_player(), Player::Black);
    assert_eq!(s.last_move_number(), 0);
}

#[test]
fn setup_click_overwrites_other_players_marker() {
    let mut s = GameState::new(9);
    s.clicked_on(1, 1);
    assert_eq!(s.point_at(1, 1).owner, Some(Stone::Setup(Player::Black)));
    s.set_current_player(Player::White);
    s.clicked_on(1, 1);
    assert_eq!(s.point_at(1, 1).owner, Some(Stone::Setup(Player::White)));
    s.clicked_on(1, 1);
    assert_eq!(s.point_at(1, 1), empty_point());
}

#[test]
fn setup_double_click_on_own_marker_restores_it() {
    let mut s = GameState::new(9);
    s.clicked_on(0, 0);
    assert_eq!(s.point_at(0, 0).owner, Some(Stone::Setup(Player::Black)));
    s.clicked_on(0, 0);
    assert_eq!(s.point_at(0, 0), empty_point());
    s.clicked_on(0, 0);
    assert_eq!(s.point_at(0, 0).owner, Some(Stone::Setup(Player::Black)));
}

#[test]
fn play_click_places_numbered_stone_and_passes_turn() {
    let mut s = GameState::new(9);
    s.set_mode(Mode::Play);
    s.clicked_on(4, 4);
    let p = s.point_at(4, 4);
    assert_eq!(p.owner, Some(Stone::Player(Player::Black)));
    assert_eq!(p.number, Some(1));
    assert_eq!(s.current_player(), Player::White);
    assert_eq!(s.last_move_number(), 1);
    assert!(s.has_game_stones());
}

#[test]
fn play_click_on_occupied_point_is_a_noop() {
    let mut s = GameState::new(9);
    s.set_mode(Mode::Play);
    s.clicked_on(4, 4);
    let before = s.point_at(4, 4);
    s.clicked_on(4, 4);
    assert_eq!(s.point_at(4, 4), before);
    assert_eq!(s.current_player(), Player::White);
    assert_eq!(s.last_move_number(), 1);
}

#[test]
fn play_click_on_setup_stone_is_a_noop() {
    let mut s = GameState::new(9);
    s.clicked_on(3, 3);
    s.set_mode(Mode::Play);
    s.clicked_on(3, 3);
    assert_eq!(s.point_at(3, 3).owner, Some(Stone::Setup(Player::Black)));
    assert_eq!(s.point_at(3, 3).number, None);
    assert_eq!(s.current_player(), Player::Black);
    assert_eq!(s.last_move_number(), 0);
}

#[test]
fn play_numbers_are_dense_and_players_alternate() {
    let mut s = GameState::new(9);
    s.set_mode(Mode::Play);
    s.clicked_on(0, 0);
    s.clicked_on(1, 1);
    s.clicked_on(2, 2);
    assert_eq!(s.point_at(0, 0).owner, Some(Stone::Player(Player::Black)));
    assert_eq!(s.point_at(0, 0).number, Some(1));
    assert_eq!(s.point_at(1, 1).owner, Some(Stone::Player(Player::White)));
    assert_eq!(s.point_at(1, 1).number, Some(2));
    assert_eq!(s.point_at(2, 2).owner, Some(Stone::Player(Player::Black)));
    assert_eq!(s.point_at(2, 2).number, Some(3));
    assert_eq!(s.last_move_number(), 3);
    assert_eq!(s.current_player(), Player::White);
}

#[test]
fn reset_to_setup_restores_the_setup_position() {
    let mut s = GameState::new(9);
    s.clicked_on(0, 0);
    s.set_current_player(Player::White);
    s.clicked_on(8, 8);
    s.set_mode(Mode::Play);
    s.clicked_on(4, 4);
    s.clicked_on(5, 5);
    s.reset_to_setup();
    assert_eq!(s.mode(), Mode::Setup);
    assert_eq!(s.last_move_number(), 0);
    assert_eq!(s.point_at(0, 0).owner, Some(Stone::Setup(Player::Black)));
    assert_eq!(s.point_at(8, 8).owner, Some(Stone::Setup(Player::White)));
    assert_eq!(s.point_at(4, 4), empty_point());
    assert_eq!(s.point_at(5, 5), empty_point());
}

#[test]
fn reset_clears_everything() {
    let mut s = GameState::new(9);
    s.clicked_on(0, 0);
    s.set_mode(Mode::Play);
    s.clicked_on(1, 1);
    s.set_show_numbers(false);
    s.set_current_player(Player::White);
    s.reset();
    assert_eq!(s.mode(), Mode::Setup);
    assert_eq!(s.current_player(), Player::Black);
    assert_eq!(s.last_move_number(), 0);
    assert!(s.show_numbers());
    for i in 0..9 {
        for j in 0..9 {
            assert_eq!(s.point_at(i, j), empty_point());
        }
    }
}

#[test]
fn entering_play_keeps_the_setup_position() {
    let mut s = GameState::new(9);
    s.clicked_on(2, 2);
    s.set_mode(Mode::Play);
    assert_eq!(s.mode(), Mode::Play);
    assert_eq!(s.point_at(2, 2).owner, Some(Stone::Setup(Player::Black)));
    assert_eq!(s.last_move_number(), 0);
}

#[test]
fn entering_setup_clears_the_recorded_moves() {
    let mut s = GameState::new(9);
    s.clicked_on(0, 0);
    s.set_mode(Mode::Play);
    s.clicked_on(1, 1);
    s.set_mode(Mode::Setup);
    assert_eq!(s.mode(), Mode::Setup);
    assert_eq!(s.last_move_number(), 0);
    assert_eq!(s.point_at(1, 1), empty_point());
    assert_eq!(s.point_at(0, 0).owner, Some(Stone::Setup(Player::Black)));
}

#[test]
fn displayed_number_follows_the_display_switch() {
    let mut s = GameState::new(9);
    s.set_mode(Mode::Play);
    s.clicked_on(4, 4);
    assert_eq!(s.displayed_number(4, 4), Some(1));
    assert_eq!(s.displayed_number(0, 0), None);
    s.set_show_numbers(false);
    assert_eq!(s.displayed_number(4, 4), None);
    s.set_show_numbers(true);
    assert_eq!(s.displayed_number(4, 4), Some(1));
}

#[test]
fn is_valid_rejects_exactly_the_occupied_points() {
    let mut s = GameState::new(9);
    s.clicked_on(3, 3);
    s.set_mode(Mode::Play);
    assert!(!s.is_valid(3, 3));
    assert!(s.is_valid(4, 4));
    s.clicked_on(4, 4);
    assert!(!s.is_valid(4, 4));
}

#[test]
fn one_point_board_fills_after_one_move() {
    let mut s = GameState::new(1);
    s.set_mode(Mode::Play);
    s.clicked_on(0, 0);
    assert_eq!(s.point_at(0, 0).number, Some(1));
    assert_eq!(s.current_player(), Player::White);
    s.clicked_on(0, 0);
    assert_eq!(s.point_at(0, 0).owner, Some(Stone::Player(Player::Black)));
    assert_eq!(s.current_player(), Player::White);
    assert_eq!(s.last_move_number(), 1);
}

#[test]
fn stone_helpers_convert_between_player_and_setup() {
    assert_eq!(Stone::setup_from_player(Player::Black), Stone::Setup(Player::Black));
    assert_eq!(Stone::setup_from_player(Player::White), Stone::Setup(Player::White));
    assert_eq!(Stone::setup(Stone::Player(Player::Black)), Stone::Setup(Player::Black));
    assert_eq!(Stone::setup(Stone::Setup(Player::White)), Stone::Setup(Player::White));
    assert_eq!(Player::from(Stone::Player(Player::White)), Player::White);
    assert_eq!(Player::from(Stone::Setup(Player::Black)), Player::Black);
    assert_eq!(Player::from(Stone::Setup(Player::White)), Player::White);
}

#[test]
fn tsumego_scenario() {
    // A 9 by 9 board: one Black setup stone, two recorded moves, and the
    // snap back to the saved setup position.
    let mut s = GameState::new(9);
    assert_eq!(s.mode(), Mode::Setup);

    s.clicked_on(0, 0);
    assert_eq!(s.point_at(0, 0).owner, Some(Stone::Setup(Player::Black)));

    s.set_mode(Mode::Play);

    s.clicked_on(0, 0);
    assert_eq!(s.point_at(0, 0).owner, Some(Stone::Setup(Player::Black)));
    assert_eq!(s.last_move_number(), 0);

    s.clicked_on(1, 1);
    assert_eq!(s.point_at(1, 1).owner, Some(Stone::Player(Player::Black)));
    assert_eq!(s.point_at(1, 1).number, Some(1));
    assert_eq!(s.current_player(), Player::White);

    s.clicked_on(1, 1);
    assert_eq!(s.point_at(1, 1).owner, Some(Stone::Player(Player::Black)));
    assert_eq!(s.current_player(), Player::White);

    s.clicked_on(2, 2);
    assert_eq!(s.point_at(2, 2).owner, Some(Stone::Player(Player::White)));
    assert_eq!(s.point_at(2, 2).number, Some(2));
    assert_eq!(s.current_player(), Player::Black);

    s.reset_to_setup();
    assert_eq!(s.point_at(1, 1), empty_point());
    assert_eq!(s.point_at(2, 2), empty_point());
    assert_eq!(s.point_at(0, 0).owner, Some(Stone::Setup(Player::Black)));
    assert_eq!(s.point_at(0, 0).number, None);
    assert_eq!(s.mode(), Mode::Setup);
    assert_eq!(s.last_move_number(), 0);
}
