use tsumego::board::{BoardPoint, Player, Stone};
use tsumego::controls::{build_button, build_controls, build_toggle, build_toggle_side};
use tsumego::controls::{Command, Indicator};
use tsumego::game::{GameState, Mode};

#[test]
fn builders_keep_label_indicator_and_command() {
    let side = build_toggle_side(
        "Black",
        Indicator::PlayerIs(Player::Black),
        Command::SelectPlayer(Player::Black),
    );
    assert_eq!(side.label, "Black");
    assert_eq!(side.active_if, Indicator::PlayerIs(Player::Black));
    assert_eq!(side.on_click, Command::SelectPlayer(Player::Black));

    let other = build_toggle_side(
        "White",
        Indicator::PlayerIs(Player::White),
        Command::SelectPlayer(Player::White),
    );
    let toggle = build_toggle(side, other);
    assert_eq!(toggle.left.label, "Black");
    assert_eq!(toggle.right.label, "White");

    let button = build_button("Reset", Command::Reset);
    assert_eq!(button.label, "Reset");
    assert_eq!(button.on_click, Command::Reset);
}

#[test]
fn control_panel_is_fully_wired() {
    let c = build_controls();
    assert_eq!(c.player_toggle.left.label, "Black");
    assert_eq!(c.player_toggle.left.on_click, Command::SelectPlayer(Player::Black));
    assert_eq!(c.player_toggle.right.label, "White");
    assert_eq!(c.player_toggle.right.on_click, Command::SelectPlayer(Player::White));
    assert_eq!(c.mode_toggle.left.label, "Setup");
    assert_eq!(c.mode_toggle.left.on_click, Command::SetMode(Mode::Setup));
    assert_eq!(c.mode_toggle.right.label, "Play");
    assert_eq!(c.mode_toggle.right.on_click, Command::SetMode(Mode::Play));
    assert_eq!(c.numbers_toggle.left.label, "Yes");
    assert_eq!(c.numbers_toggle.left.on_click, Command::SetShowNumbers(true));
    assert_eq!(c.numbers_toggle.right.label, "No");
    assert_eq!(c.numbers_toggle.right.on_click, Command::SetShowNumbers(false));
    assert_eq!(c.reset_button.label, "Reset");
    assert_eq!(c.reset_button.on_click, Command::Reset);
}

#[test]
fn indicators_reflect_the_state() {
    let mut s = GameState::new(9);
    assert!(s.indicator_active(Indicator::PlayerIs(Player::Black)));
    assert!(!s.indicator_active(Indicator::PlayerIs(Player::White)));
    assert!(s.indicator_active(Indicator::ModeIs(Mode::Setup)));
    assert!(!s.indicator_active(Indicator::ModeIs(Mode::Play)));
    assert!(s.indicator_active(Indicator::ShowNumbersIs(true)));
    assert!(!s.indicator_active(Indicator::Never));

    s.apply_command(Command::SelectPlayer(Player::White));
    s.apply_command(Command::SetMode(Mode::Play));
    s.apply_command(Command::SetShowNumbers(false));
    assert!(s.indicator_active(Indicator::PlayerIs(Player::White)));
    assert!(s.indicator_active(Indicator::ModeIs(Mode::Play)));
    assert!(s.indicator_active(Indicator::ShowNumbersIs(false)));
}

#[test]
fn reset_command_with_moves_only_clears_the_moves() {
    let mut s = GameState::new(9);
    s.clicked_on(0, 0);
    s.set_mode(Mode::Play);
    s.clicked_on(1, 1);
    assert!(s.has_game_stones());

    s.apply_command(Command::Reset);
    assert_eq!(s.mode(), Mode::Setup);
    assert_eq!(s.last_move_number(), 0);
    assert_eq!(s.point_at(0, 0).owner, Some(Stone::Setup(Player::Black)));
    assert_eq!(s.point_at(1, 1), BoardPoint { owner: None, number: None });
}

#[test]
fn reset_command_without_moves_resets_the_whole_game() {
    let mut s = GameState::new(9);
    s.clicked_on(0, 0);
    s.set_current_player(Player::White);
    assert!(!s.has_game_stones());

    s.apply_command(Command::Reset);
    assert_eq!(s.point_at(0, 0), BoardPoint { owner: None, number: None });
    assert_eq!(s.current_player(), Player::Black);
    assert_eq!(s.mode(), Mode::Setup);
}

#[test]
fn reset_command_pressed_twice_escalates() {
    let mut s = GameState::new(9);
    s.clicked_on(0, 0);
    s.set_mode(Mode::Play);
    s.clicked_on(1, 1);

    s.apply_command(Command::Reset);
    assert_eq!(s.point_at(0, 0).owner, Some(Stone::Setup(Player::Black)));

    s.apply_command(Command::Reset);
    assert_eq!(s.point_at(0, 0), BoardPoint { owner: None, number: None });
}
