//! A declarative model of the control panel: what each control reflects of
//! the game state and which command its click sends. Drawing the controls
//! is the surrounding interface's business; the wiring — above all the
//! escalating reset policy — is modelled and verified here.

use vstd::prelude::*;

verus! {

use crate::board::Player;
use crate::game::{GameState, GameView, Mode};

/// A command that a control sends into the game state.
#[derive(Clone, Copy, Debug, PartialEq, Eq, Structural)]
pub enum Command {
    SelectPlayer(Player),
    SetMode(Mode),
    SetShowNumbers(bool),
    Reset,
}

/// A condition on the game state. A toggle side is drawn as active exactly
/// when its condition holds; a plain button never is.
#[derive(Clone, Copy, Debug, PartialEq, Eq, Structural)]
pub enum Indicator {
    PlayerIs(Player),
    ModeIs(Mode),
    ShowNumbersIs(bool),
    Never,
}

/// Whether an indicator holds of a state.
pub open spec fn indicator_holds(v: GameView, ind: Indicator) -> bool {
    match ind {
        Indicator::PlayerIs(p) => v.curr_player == p,
        Indicator::ModeIs(m) => v.mode == m,
        Indicator::ShowNumbersIs(b) => v.disp_nums == b,
        Indicator::Never => false,
    }
}

/// One side of a two-sided toggle control.
pub struct ToggleSide {
    pub label: &'static str,
    pub active_if: Indicator,
    pub on_click: Command,
}

/// A plain push button.
pub struct Button {
    pub label: &'static str,
    pub on_click: Command,
}

/// A two-sided toggle control.
pub struct Toggle {
    pub left: ToggleSide,
    pub right: ToggleSide,
}

/// One side of a toggle: a label, the condition under which the side shows
/// as active, and the command its click sends.
pub fn build_toggle_side(label: &'static str, active_if: Indicator, on_click: Command) -> (s:
    ToggleSide)
    ensures
        s.label@ == label@,
        s.active_if == active_if,
        s.on_click == on_click,
{
    ToggleSide { label, active_if, on_click }
}

/// A push button with a label and a click command; it never shows as
/// active.
pub fn build_button(label: &'static str, on_click: Command) -> (b: Button)
    ensures
        b.label@ == label@,
        b.on_click == on_click,
{
    Button { label, on_click }
}

/// A complete toggle from its two sides.
pub fn build_toggle(left: ToggleSide, right: ToggleSide) -> (t: Toggle)
    ensures
        t.left == left,
        t.right == right,
{
    Toggle { left, right }
}

/// The control panel beside the board: the player selector, the mode
/// switch, the number-display switch, and the reset button.
pub struct ControlPanel {
    pub player_toggle: Toggle,
    pub mode_toggle: Toggle,
    pub numbers_toggle: Toggle,
    pub reset_button: Button,
}

/// The control panel, fully wired: "Black"/"White" select the player whose
/// stones clicks place, "Setup"/"Play" switch the phase, "Yes"/"No" switch
/// number display, and "Reset" sends the escalating reset command.
pub fn build_controls() -> (c: ControlPanel)
    ensures
        c.player_toggle.left.label@ == "Black"@,
        c.player_toggle.left.active_if == Indicator::PlayerIs(Player::Black),
        c.player_toggle.left.on_click == Command::SelectPlayer(Player::Black),
        c.player_toggle.right.label@ == "White"@,
        c.player_toggle.right.active_if == Indicator::PlayerIs(Player::White),
        c.player_toggle.right.on_click == Command::SelectPlayer(Player::White),
        c.mode_toggle.left.label@ == "Setup"@,
        c.mode_toggle.left.active_if == Indicator::ModeIs(Mode::Setup),
        c.mode_toggle.left.on_click == Command::SetMode(Mode::Setup),
        c.mode_toggle.right.label@ == "Play"@,
        c.mode_toggle.right.active_if == Indicator::ModeIs(Mode::Play),
        c.mode_toggle.right.on_click == Command::SetMode(Mode::Play),
        c.numbers_toggle.left.label@ == "Yes"@,
        c.numbers_toggle.left.active_if == Indicator::ShowNumbersIs(true),
        c.numbers_toggle.left.on_click == Command::SetShowNumbers(true),
        c.numbers_toggle.right.label@ == "No"@,
        c.numbers_toggle.right.active_if == Indicator::ShowNumbersIs(false),
        c.numbers_toggle.right.on_click == Command::SetShowNumbers(false),
        c.reset_button.label@ == "Reset"@,
        c.reset_button.on_click == Command::Reset,
{
    let player_toggle = build_toggle(
        build_toggle_side(
            "Black",
            Indicator::PlayerIs(Player::Black),
            Command::SelectPlayer(Player::Black),
        ),
        build_toggle_side(
            "White",
            Indicator::PlayerIs(Player::White),
            Command::SelectPlayer(Player::White),
        ),
    );
    let mode_toggle = build_toggle(
        build_toggle_side("Setup", Indicator::ModeIs(Mode::Setup), Command::SetMode(Mode::Setup)),
        build_toggle_side("Play", Indicator::ModeIs(Mode::Play), Command::SetMode(Mode::Play)),
    );
    let numbers_toggle = build_toggle(
        build_toggle_side("Yes", Indicator::ShowNumbersIs(true), Command::SetShowNumbers(true)),
        build_toggle_side("No", Indicator::ShowNumbersIs(false), Command::SetShowNumbers(false)),
    );
    let reset_button = build_button("Reset", Command::Reset);
    ControlPanel { player_toggle, mode_toggle, numbers_toggle, reset_button }
}

impl GameView {
    /// What a command does to the state. The reset command escalates: with
    /// recorded moves on the board it only clears them, back to the setup
    /// position; with none it resets the whole game.
    pub open spec fn apply(self, c: Command) -> GameView {
        match c {
            Command::SelectPlayer(p) => GameView { curr_player: p, ..self },
            Command::SetMode(m) => self.with_mode(m),
            Command::SetShowNumbers(b) => GameView { disp_nums: b, ..self },
            Command::Reset => if self.curr_num != 0 {
                self.cleared_to_setup()
            } else {
                self.reset()
            },
        }
    }
}

impl GameState {
    /// Whether a control's indicator currently holds, for drawing it as
    /// active or not.
    pub fn indicator_active(&self, ind: Indicator) -> (r: bool)
        ensures
            r == indicator_holds(self@, ind),
    {
        match ind {
            Indicator::PlayerIs(p) => {
                let q = self.current_player();
                q == p
            },
            Indicator::ModeIs(m) => {
                let q = self.mode();
                q == m
            },
            Indicator::ShowNumbersIs(b) => self.show_numbers() == b,
            Indicator::Never => false,
        }
    }

    /// Applies the command a control sent: selecting a player, switching
    /// the mode, switching number display, or the reset button's
    /// escalation — one button both undoes the exploration and, pressed on
    /// a board without recorded moves, starts over.
    pub fn apply_command(&mut self, c: Command)
        requires
            old(self).wf(),
        ensures
            final(self).wf(),
            final(self)@ == old(self)@.apply(c),
    {
        match c {
            Command::SelectPlayer(p) => self.set_current_player(p),
            Command::SetMode(m) => self.set_mode(m),
            Command::SetShowNumbers(b) => self.set_show_numbers(b),
            Command::Reset => {
                if self.has_game_stones() {
                    self.reset_to_setup();
                } else {
                    self.reset();
                }
            },
        }
    }
}

} // verus!
