//! The game state: mode, turn, move counter, and the click/reset rules.

use vstd::prelude::*;

verus! {

use crate::board::{
    Board, BoardPoint, Player, Stone, count_numbered, empty_grid, lemma_count_numbered_bound,
    lemma_count_numbered_update, lemma_count_numbered_zero, other_player,
};

/// The two phases of the editor: freely constructing a position, or
/// recording an alternating, numbered move sequence on top of it.
#[derive(Clone, Copy, Debug, PartialEq, Eq, Structural)]
pub enum Mode {
    Setup,
    Play,
}

/// The largest supported board side length. It keeps the number of points on
/// a board, and with it every move number, well below `u32::MAX`.
pub const MAX_BOARD_SIZE: usize = 65535;

/// The mathematical model of a game state: the grid of points together with
/// the currently selected player, the number of the most recently placed
/// play stone, the mode, and the number-display switch.
#[verifier::ext_equal]
pub struct GameView {
    pub grid: Seq<Seq<BoardPoint>>,
    pub curr_player: Player,
    pub curr_num: nat,
    pub mode: Mode,
    pub disp_nums: bool,
}

/// What clearing the recorded moves leaves of one point: a numbered point
/// becomes empty, anything else is kept as it is.
pub open spec fn clear_played(p: BoardPoint) -> BoardPoint {
    if p.number is Some {
        BoardPoint::spec_empty()
    } else {
        p
    }
}

/// The state of a fresh game on an `n` by `n` board: all points empty,
/// Black selected, no recorded moves, setup mode, numbers shown.
pub open spec fn initial_view(n: nat) -> GameView {
    GameView {
        grid: empty_grid(n),
        curr_player: Player::Black,
        curr_num: 0,
        mode: Mode::Setup,
        disp_nums: true,
    }
}

impl GameView {
    /// The side length of the board.
    pub open spec fn size(self) -> nat {
        self.grid.len()
    }

    /// Whether `(i, j)` addresses a point of the board.
    pub open spec fn in_range(self, i: int, j: int) -> bool {
        0 <= i < self.size() && 0 <= j < self.size()
    }

    /// The point at row `i`, column `j`.
    pub open spec fn point(self, i: int, j: int) -> BoardPoint {
        self.grid[i][j]
    }

    /// The same state with the point at `(i, j)` replaced by `p`.
    pub open spec fn with_point(self, i: int, j: int, p: BoardPoint) -> GameView {
        GameView { grid: self.grid.update(i, self.grid[i].update(j, p)), ..self }
    }

    /// Whether a play-mode stone may be placed at `(i, j)`: occupancy is the
    /// only placement constraint.
    pub open spec fn is_valid(self, i: int, j: int) -> bool {
        self.point(i, j).owner is None
    }

    /// One setup-mode click: if the point holds the current player's setup
    /// marker the marker is removed, otherwise that marker is placed,
    /// overwriting any other stone. The move number of the point (always
    /// absent in setup mode) and every other field are left alone.
    pub open spec fn toggle_setup_stone(self, i: int, j: int) -> GameView {
        let p = self.point(i, j);
        if p.owner == Some(Stone::Setup(self.curr_player)) {
            self.with_point(i, j, BoardPoint { owner: None, ..p })
        } else {
            self.with_point(i, j, BoardPoint { owner: Some(Stone::Setup(self.curr_player)), ..p })
        }
    }

    /// One play-mode placement at an empty point: the current player's play
    /// stone appears there carrying the next move number, the counter moves
    /// up by one, and the turn passes to the other player.
    pub open spec fn place_stone(self, i: int, j: int) -> GameView {
        GameView {
            grid: self.grid.update(
                i,
                self.grid[i].update(
                    j,
                    BoardPoint {
                        owner: Some(Stone::Player(self.curr_player)),
                        number: Some(((self.curr_num + 1) as u32)),
                    },
                ),
            ),
            curr_player: other_player(self.curr_player),
            curr_num: self.curr_num + 1,
            ..self
        }
    }

    /// One click at `(i, j)`, dispatching on the mode: setup mode toggles
    /// the current player's marker; play mode places a numbered stone on an
    /// empty point and is a no-op on an occupied one. A click outside the
    /// board changes nothing.
    pub open spec fn click(self, i: int, j: int) -> GameView {
        if !self.in_range(i, j) {
            self
        } else if self.mode is Setup {
            self.toggle_setup_stone(i, j)
        } else if self.is_valid(i, j) {
            self.place_stone(i, j)
        } else {
            self
        }
    }

    /// A full reset: the state of a fresh game on a board of the same size.
    pub open spec fn reset(self) -> GameView {
        initial_view(self.size())
    }

    /// Clearing the recorded moves: every numbered point becomes empty,
    /// setup stones stay, the counter returns to zero, and the editor is
    /// back in setup mode. The selected player and the display switch keep
    /// their values.
    pub open spec fn cleared_to_setup(self) -> GameView {
        GameView {
            grid: Seq::new(
                self.grid.len(),
                |i: int| Seq::new(self.grid[i].len(), |j: int| clear_played(self.grid[i][j])),
            ),
            curr_num: 0,
            mode: Mode::Setup,
            ..self
        }
    }

    /// Switching modes. Entering setup clears the recorded moves, so the
    /// invariant that setup mode carries no move numbers is enforced here
    /// rather than trusted to the caller. Entering play clears nothing: the
    /// setup stones become the starting position.
    pub open spec fn with_mode(self, m: Mode) -> GameView {
        match m {
            Mode::Setup => self.cleared_to_setup(),
            Mode::Play => GameView { mode: Mode::Play, ..self },
        }
    }

    /// Whether some point of the board carries the move number `k`.
    pub open spec fn has_number(self, k: int) -> bool {
        exists|i: int, j: int|
            self.in_range(i, j) && ((#[trigger] self.grid[i][j]).number matches Some(n) && n == k)
    }

    /// Every row is as long as the grid is tall.
    pub open spec fn square(self) -> bool {
        forall|i: int| 0 <= i < self.grid.len() ==> (#[trigger] self.grid[i]).len()
            == self.grid.len()
    }

    /// The game-state invariant.
    ///
    /// The board is square and of supported size. A move number is only
    /// ever carried by a play stone; the numbers on the board are exactly
    /// `1..=curr_num`, each on its own point, so `curr_num` is also the
    /// count of numbered points. Setup mode never carries recorded moves.
    pub open spec fn wf(self) -> bool {
        &&& self.size() <= MAX_BOARD_SIZE
        &&& self.square()
        &&& forall|i: int, j: int|
            self.in_range(i, j) ==> (#[trigger] self.grid[i][j]).wf()
        &&& forall|i: int, j: int|
            self.in_range(i, j) && (#[trigger] self.grid[i][j]).number is Some ==> 1
                <= self.grid[i][j].number->0 <= self.curr_num
        &&& forall|i1: int, j1: int, i2: int, j2: int|
            self.in_range(i1, j1) && self.in_range(i2, j2) && (#[trigger] self.grid[i1][j1]).number
                is Some && (#[trigger] self.grid[i2][j2]).number is Some && self.grid[i1][j1].number
                == self.grid[i2][j2].number ==> i1 == i2 && j1 == j2
        &&& forall|k: int| 1 <= k <= self.curr_num ==> #[trigger] self.has_number(k)
        &&& self.curr_num == count_numbered(self.grid)
        &&& self.mode is Setup ==> self.curr_num == 0
    }
}

/// In a state without recorded moves, no point carries a number.
pub proof fn lemma_no_numbers(v: GameView)
    requires
        v.wf(),
        v.curr_num == 0,
    ensures
        forall|i: int, j: int|
            v.in_range(i, j) ==> (#[trigger] v.grid[i][j]).number is None,
{
}

/// The invariant does not depend on the selected player or on the display
/// switch: it carries over to any state with the same board and counter, in
/// the same mode or in play mode (which restricts nothing).
pub proof fn lemma_wf_same_board(v: GameView, w: GameView)
    requires
        v.wf(),
        w.grid == v.grid,
        w.curr_num == v.curr_num,
        w.mode == v.mode || w.mode is Play,
    ensures
        w.wf(),
{
    assert forall|k: int| 1 <= k <= w.curr_num implies #[trigger] w.has_number(k) by {
        assert(v.has_number(k));
        let (r, c) = choose|r: int, c: int|
            v.in_range(r, c) && ((#[trigger] v.grid[r][c]).number matches Some(n) && n == k);
        assert(w.grid[r][c].number matches Some(n) && n == k);
    }
}

/// The move counter is bounded by the point count of the board, which a
/// supported board keeps below `u32::MAX`.
pub proof fn lemma_curr_num_bounded(v: GameView)
    requires
        v.wf(),
    ensures
        v.curr_num < u32::MAX,
{
    lemma_count_numbered_bound(v.grid, v.grid.len());
    assert(v.grid.len() * v.grid.len() < u32::MAX) by (nonlinear_arith)
        requires
            v.grid.len() <= MAX_BOARD_SIZE,
    ;
}

/// The state of a fresh game satisfies the invariant.
pub proof fn lemma_initial_view_wf(n: nat)
    requires
        n <= MAX_BOARD_SIZE,
    ensures
        initial_view(n).wf(),
{
    let v = initial_view(n);
    assert forall|i: int, j: int|
        0 <= i < v.grid.len() && 0 <= j < v.grid[i].len() implies (#[trigger] v.grid[i][j]).number
        is None by {
        assert(v.grid[i][j] == BoardPoint::spec_empty());
    }
    lemma_count_numbered_zero(v.grid);
}

/// A setup-mode click preserves the invariant.
pub proof fn lemma_toggle_setup_stone_wf(v: GameView, i: int, j: int)
    requires
        v.wf(),
        v.in_range(i, j),
        v.curr_num == 0,
    ensures
        v.toggle_setup_stone(i, j).wf(),
{
    let w = v.toggle_setup_stone(i, j);
    lemma_no_numbers(v);
    assert(v.grid[i][j].number is None);
    assert forall|r: int, c: int|
        w.in_range(r, c) implies (#[trigger] w.grid[r][c]).number is None && w.grid[r][c].wf() by {
        if r == i && c == j {
        } else {
            assert(w.grid[r][c] == v.grid[r][c]);
        }
    }
    lemma_count_numbered_zero(w.grid);
}

/// A play-mode placement on an empty point preserves the invariant.
pub proof fn lemma_place_stone_wf(v: GameView, i: int, j: int)
    requires
        v.wf(),
        v.in_range(i, j),
        v.mode is Play,
        v.point(i, j).owner is None,
    ensures
        v.place_stone(i, j).wf(),
{
    let w = v.place_stone(i, j);
    lemma_curr_num_bounded(v);
    let p = BoardPoint {
        owner: Some(Stone::Player(v.curr_player)),
        number: Some(((v.curr_num + 1) as u32)),
    };
    assert(v.grid[i][j].number is None);

    // Unchanged points keep their properties; the new point carries the one
    // new number, curr_num + 1.
    assert forall|r: int, c: int|
        w.in_range(r, c) && (r != i || c != j) implies #[trigger] w.grid[r][c] == v.grid[r][c] by {}
    assert(w.grid[i][j] == p);

    // Count: exactly one point gained a number.
    lemma_count_numbered_update(v.grid, i, j, p);

    // Density: old witnesses survive, and the new point carries the new number.
    assert forall|k: int| 1 <= k <= w.curr_num implies #[trigger] w.has_number(k) by {
        if k <= v.curr_num {
            assert(v.has_number(k));
            let (r, c) = choose|r: int, c: int|
                v.in_range(r, c) && ((#[trigger] v.grid[r][c]).number matches Some(n) && n == k);
            assert(v.grid[r][c].number is Some);
            assert(!(r == i && c == j));
            assert(w.grid[r][c].number matches Some(n) && n == k);
        } else {
            assert(w.grid[i][j].number matches Some(n) && n == k);
        }
    }
}

/// Clearing the recorded moves yields a well-formed setup-mode state.
pub proof fn lemma_cleared_to_setup_wf(v: GameView)
    requires
        v.wf(),
    ensures
        v.cleared_to_setup().wf(),
{
    let w = v.cleared_to_setup();
    assert forall|r: int, c: int|
        w.in_range(r, c) implies (#[trigger] w.grid[r][c]).number is None && w.grid[r][c].wf() by {
        assert(w.grid[r][c] == clear_played(v.grid[r][c]));
    }
    lemma_count_numbered_zero(w.grid);
}

/// Switching modes preserves the invariant: entering setup clears the
/// recorded moves first, and entering play changes nothing else.
pub proof fn lemma_with_mode_wf(v: GameView, m: Mode)
    requires
        v.wf(),
    ensures
        v.with_mode(m).wf(),
{
    match m {
        Mode::Setup => lemma_cleared_to_setup_wf(v),
        Mode::Play => lemma_wf_same_board(v, v.with_mode(m)),
    }
}

/// Any single click preserves the invariant.
pub proof fn lemma_click_wf(v: GameView, i: int, j: int)
    requires
        v.wf(),
    ensures
        v.click(i, j).wf(),
{
    if v.in_range(i, j) {
        if v.mode is Setup {
            lemma_toggle_setup_stone_wf(v, i, j);
        } else if v.is_valid(i, j) {
            lemma_place_stone_wf(v, i, j);
        }
    }
}

/// The game state: a board together with the selected player, the move
/// counter, the mode and the display switch. All mutation of the board goes
/// through the methods here, which maintain the invariant `wf`; every state
/// this library hands out satisfies it.
pub struct GameState {
    board: Board,
    curr_player: Player,
    curr_num: u32,
    mode: Mode,
    disp_nums: bool,
}

impl View for GameState {
    type V = GameView;

    closed spec fn view(&self) -> GameView {
        GameView {
            grid: self.board@,
            curr_player: self.curr_player,
            curr_num: self.curr_num as nat,
            mode: self.mode,
            disp_nums: self.disp_nums,
        }
    }
}

impl GameState {
    /// The invariant of the model behind this state.
    pub open spec fn wf(&self) -> bool {
        self@.wf()
    }

    /// A fresh game on an `n` by `n` board.
    pub fn new(n: usize) -> (s: GameState)
        requires
            n <= MAX_BOARD_SIZE,
        ensures
            s.wf(),
            s@ == initial_view(n as nat),
    {
        let s = GameState {
            board: Board::new(n),
            curr_player: Player::Black,
            curr_num: 0,
            mode: Mode::Setup,
            disp_nums: true,
        };
        proof {
            assert(s@ =~~= initial_view(n as nat));
            lemma_initial_view_wf(n as nat);
        }
        s
    }

    /// The side length of the board.
    pub fn size(&self) -> (n: usize)
        ensures
            n == self@.size(),
    {
        self.board.size()
    }

    /// The point at row `i`, column `j`.
    pub fn point_at(&self, i: usize, j: usize) -> (p: BoardPoint)
        requires
            self.wf(),
            i < self@.size(),
            j < self@.size(),
        ensures
            p == self@.point(i as int, j as int),
    {
        *self.board.get(i, j)
    }

    /// The currently selected player: the one whose stones setup clicks
    /// place, and the one to move in play mode.
    pub fn current_player(&self) -> (p: Player)
        ensures
            p == self@.curr_player,
    {
        self.curr_player
    }

    /// The current phase of the editor.
    pub fn mode(&self) -> (m: Mode)
        ensures
            m == self@.mode,
    {
        self.mode
    }

    /// Whether move numbers should be drawn on the stones.
    pub fn show_numbers(&self) -> (b: bool)
        ensures
            b == self@.disp_nums,
    {
        self.disp_nums
    }

    /// The number of the most recently placed play stone, which is also the
    /// number of recorded moves on the board.
    pub fn last_move_number(&self) -> (n: u32)
        ensures
            n == self@.curr_num,
    {
        self.curr_num
    }

    /// Whether any recorded moves are on the board.
    pub fn has_game_stones(&self) -> (b: bool)
        ensures
            b == (self@.curr_num != 0),
    {
        self.curr_num != 0
    }

    /// Selects the player whose stones clicks place. Affects nothing else.
    pub fn set_current_player(&mut self, p: Player)
        requires
            old(self).wf(),
        ensures
            final(self).wf(),
            final(self)@ == (GameView { curr_player: p, ..old(self)@ }),
    {
        self.curr_player = p;
        proof {
            lemma_wf_same_board(old(self)@, self@);
        }
    }

    /// Switches number display on or off. Display policy only: the board
    /// and the turn state are untouched.
    pub fn set_show_numbers(&mut self, b: bool)
        requires
            old(self).wf(),
        ensures
            final(self).wf(),
            final(self)@ == (GameView { disp_nums: b, ..old(self)@ }),
    {
        self.disp_nums = b;
        proof {
            lemma_wf_same_board(old(self)@, self@);
        }
    }

    /// The number a renderer should draw at `(i, j)`: the point's move
    /// number when number display is on, nothing otherwise.
    pub fn displayed_number(&self, i: usize, j: usize) -> (r: Option<u32>)
        requires
            self.wf(),
            i < self@.size(),
            j < self@.size(),
        ensures
            r == (if self@.disp_nums {
                self@.point(i as int, j as int).number
            } else {
                Option::<u32>::None
            }),
    {
        if self.disp_nums {
            self.board.get(i, j).number
        } else {
            None
        }
    }

    /// Whether a play-mode stone may be placed at `(i, j)`.
    pub fn is_valid(&self, i: usize, j: usize) -> (r: bool)
        requires
            self.wf(),
            i < self@.size(),
            j < self@.size(),
        ensures
            r == self@.is_valid(i as int, j as int),
    {
        self.board.get(i, j).owner.is_none()
    }

    /// Passes the turn to the other player.
    fn toggle_player(&mut self)
        ensures
            final(self)@ == (GameView {
                curr_player: other_player(old(self)@.curr_player),
                ..old(self)@
            }),
    {
        self.curr_player = match self.curr_player {
            Player::Black => Player::White,
            Player::White => Player::Black,
        };
    }

    /// Removes the stone at `(i, j)`.
    fn remove_setup_stone(&mut self, i: usize, j: usize)
        requires
            old(self).wf(),
            i < old(self)@.size(),
            j < old(self)@.size(),
        ensures
            final(self)@ == old(self)@.with_point(
                i as int,
                j as int,
                (BoardPoint { owner: None, ..old(self)@.point(i as int, j as int) }),
            ),
    {
        let number = self.board.get(i, j).number;
        self.board.set_point(i, j, BoardPoint { owner: None, number });
        proof {
            assert(self@ =~~= old(self)@.with_point(
                i as int,
                j as int,
                BoardPoint { owner: None, ..old(self)@.point(i as int, j as int) },
            ));
        }
    }

    /// Places the current player's setup marker at `(i, j)`, overwriting
    /// whatever stone is there.
    fn place_setup_stone(&mut self, i: usize, j: usize)
        requires
            old(self).wf(),
            i < old(self)@.size(),
            j < old(self)@.size(),
        ensures
            final(self)@ == old(self)@.with_point(
                i as int,
                j as int,
                (BoardPoint {
                    owner: Some(Stone::Setup(old(self)@.curr_player)),
                    ..old(self)@.point(i as int, j as int)
                }),
            ),
    {
        let number = self.board.get(i, j).number;
        let marker = Stone::setup_from_player(self.curr_player);
        self.board.set_point(i, j, BoardPoint { owner: Some(marker), number });
        proof {
            assert(self@ =~~= old(self)@.with_point(
                i as int,
                j as int,
                BoardPoint {
                    owner: Some(Stone::Setup(old(self)@.curr_player)),
                    ..old(self)@.point(i as int, j as int)
                },
            ));
        }
    }

    /// Toggles the current player's setup marker at `(i, j)`, free of any
    /// placement rule.
    fn toggle_setup_stone(&mut self, i: usize, j: usize)
        requires
            old(self).wf(),
            old(self)@.mode is Setup,
            i < old(self)@.size(),
            j < old(self)@.size(),
        ensures
            final(self).wf(),
            final(self)@ == old(self)@.toggle_setup_stone(i as int, j as int),
    {
        let target = Stone::setup_from_player(self.curr_player);
        let own_marker = match self.board.get(i, j).owner {
            Some(s) => s == target,
            None => false,
        };
        if own_marker {
            self.remove_setup_stone(i, j);
        } else {
            self.place_setup_stone(i, j);
        }
        proof {
            lemma_toggle_setup_stone_wf(old(self)@, i as int, j as int);
        }
    }

    /// Handles a click on the point `(i, j)`: the single entry point for
    /// board interaction. In setup mode the click toggles the current
    /// player's marker there. In play mode it places the current player's
    /// numbered stone if the point is empty, and does nothing otherwise.
    pub fn clicked_on(&mut self, i: usize, j: usize)
        requires
            old(self).wf(),
            i < old(self)@.size(),
            j < old(self)@.size(),
        ensures
            final(self).wf(),
            final(self)@ == old(self)@.click(i as int, j as int),
    {
        match self.mode {
            Mode::Setup => {
                self.toggle_setup_stone(i, j);
            },
            Mode::Play => {
                if self.is_valid(i, j) {
                    proof {
                        lemma_curr_num_bounded(self@);
                    }
                    let num = self.curr_num + 1;
                    let player = self.curr_player;
                    self.board.set_point(
                        i,
                        j,
                        BoardPoint { owner: Some(Stone::Player(player)), number: Some(num) },
                    );
                    self.curr_num = num;
                    self.toggle_player();
                    proof {
                        assert(self@ =~~= old(self)@.place_stone(i as int, j as int));
                        lemma_place_stone_wf(old(self)@, i as int, j as int);
                    }
                }
            },
        }
    }

    /// A full reset: back to a fresh game on the same board size,
    /// destructive and unconditional.
    pub fn reset(&mut self)
        requires
            old(self).wf(),
        ensures
            final(self).wf(),
            final(self)@ == old(self)@.reset(),
    {
        let n = self.board.size();
        self.board = Board::new(n);
        self.curr_player = Player::Black;
        self.curr_num = 0;
        self.mode = Mode::Setup;
        self.disp_nums = true;
        proof {
            assert(self@ =~~= old(self)@.reset());
            lemma_initial_view_wf(old(self)@.size());
        }
    }

    /// Clears the recorded moves and returns to setup mode: every numbered
    /// point becomes empty again, setup stones are left untouched, and the
    /// counter returns to zero. This restores exactly the position that was
    /// on the board when play began.
    #[verifier::loop_isolation(false)]
    pub fn reset_to_setup(&mut self)
        requires
            old(self).wf(),
        ensures
            final(self).wf(),
            final(self)@ == old(self)@.cleared_to_setup(),
    {
        self.mode = Mode::Setup;
        self.curr_num = 0;
        let n = self.board.size();
        let mut i: usize = 0;
        while i < n
            invariant
                i <= n,
                self.board@.len() == n,
                forall|r: int| 0 <= r < n ==> (#[trigger] self.board@[r]).len() == n,
                forall|r: int, c: int|
                    0 <= r < i && 0 <= c < n ==> #[trigger] self.board@[r][c] == clear_played(
                        old(self)@.grid[r][c],
                    ),
                forall|r: int, c: int|
                    i <= r < n && 0 <= c < n ==> #[trigger] self.board@[r][c] == old(
                        self,
                    )@.grid[r][c],
                self.curr_player == old(self)@.curr_player,
                self.curr_num == 0,
                self.mode == Mode::Setup,
                self.disp_nums == old(self)@.disp_nums,
            decreases n - i,
        {
            let mut j: usize = 0;
            while j < n
                invariant
                    i < n,
                    j <= n,
                    self.board@.len() == n,
                    forall|r: int| 0 <= r < n ==> (#[trigger] self.board@[r]).len() == n,
                    forall|r: int, c: int|
                        0 <= r < i && 0 <= c < n ==> #[trigger] self.board@[r][c] == clear_played(
                            old(self)@.grid[r][c],
                        ),
                    forall|c: int|
                        0 <= c < j ==> #[trigger] self.board@[i as int][c] == clear_played(
                            old(self)@.grid[i as int][c],
                        ),
                    forall|c: int|
                        j <= c < n ==> #[trigger] self.board@[i as int][c] == old(
                            self,
                        )@.grid[i as int][c],
                    forall|r: int, c: int|
                        i < r < n && 0 <= c < n ==> #[trigger] self.board@[r][c] == old(
                            self,
                        )@.grid[r][c],
                    self.curr_player == old(self)@.curr_player,
                    self.curr_num == 0,
                    self.mode == Mode::Setup,
                    self.disp_nums == old(self)@.disp_nums,
                decreases n - j,
            {
                if self.board.get(i, j).number.is_some() {
                    self.board.set_point(i, j, BoardPoint::empty());
                }
                j = j + 1;
            }
            i = i + 1;
        }
        proof {
            assert(self@.grid =~~= old(self)@.cleared_to_setup().grid);
            assert(self@ =~~= old(self)@.cleared_to_setup());
            lemma_cleared_to_setup_wf(old(self)@);
        }
    }

    /// Switches between setup and play. Entering setup clears the recorded
    /// moves (the invariant that setup mode carries no move numbers is
    /// enforced here, not trusted to the caller); entering play keeps the
    /// setup stones as the starting position.
    pub fn set_mode(&mut self, m: Mode)
        requires
            old(self).wf(),
        ensures
            final(self).wf(),
            final(self)@ == old(self)@.with_mode(m),
    {
        match m {
            Mode::Setup => {
                self.reset_to_setup();
            },
            Mode::Play => {
                self.mode = Mode::Play;
            },
        }
    }
}

} // verus!
