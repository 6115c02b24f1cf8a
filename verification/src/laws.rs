//! The laws of the model: what clicks, mode switches and resets guarantee,
//! stated over the view and proved once for every reachable state.

use vstd::prelude::*;

verus! {

use crate::board::{BoardPoint, Player, Stone, other_player};
use crate::game::{
    GameView, Mode, clear_played, initial_view, lemma_cleared_to_setup_wf, lemma_click_wf,
    lemma_curr_num_bounded, lemma_initial_view_wf, lemma_no_numbers, lemma_with_mode_wf,
};

/// Clicking an empty point in setup mode places the current player's setup
/// marker there, unnumbered; every other point, the selected player, the
/// counter and the mode are unchanged.
pub proof fn lemma_setup_click_on_empty(v: GameView, i: int, j: int)
    requires
        v.wf(),
        v.mode is Setup,
        v.in_range(i, j),
        v.point(i, j).owner is None,
    ensures
        v.click(i, j).point(i, j).owner == Some(Stone::Setup(v.curr_player)),
        v.click(i, j).point(i, j).number is None,
        v.click(i, j).curr_player == v.curr_player,
        v.click(i, j).curr_num == v.curr_num,
        v.click(i, j).mode == v.mode,
        v.click(i, j).disp_nums == v.disp_nums,
        v.click(i, j).size() == v.size(),
        forall|r: int, c: int|
            v.in_range(r, c) && (r != i || c != j) ==> #[trigger] v.click(i, j).point(r, c)
                == v.point(r, c),
        v.click(i, j).wf(),
{
    lemma_no_numbers(v);
    assert(v.grid[i][j].number is None);
    lemma_click_wf(v, i, j);
}

/// Clicking the same point twice in setup mode, with the same selected
/// player and nothing in between, returns the point to empty and the rest
/// of the state to exactly what it was — provided the point did not already
/// hold that player's own marker (there, the first click removes the marker
/// and the second puts it back).
pub proof fn lemma_setup_double_click(v: GameView, i: int, j: int)
    requires
        v.wf(),
        v.mode is Setup,
        v.in_range(i, j),
        v.point(i, j).owner != Some(Stone::Setup(v.curr_player)),
    ensures
        v.click(i, j).click(i, j).point(i, j) == BoardPoint::spec_empty(),
        v.click(i, j).click(i, j) == v.with_point(i, j, BoardPoint::spec_empty()),
        v.click(i, j).click(i, j).wf(),
{
    lemma_no_numbers(v);
    assert(v.grid[i][j].number is None);
    let w1 = v.click(i, j);
    lemma_click_wf(v, i, j);
    lemma_click_wf(w1, i, j);
    assert(w1.point(i, j).owner == Some(Stone::Setup(w1.curr_player)));
    assert(w1.click(i, j) =~~= v.with_point(i, j, BoardPoint::spec_empty()));
}

/// In play mode, clicking an occupied point — a play stone or a leftover
/// setup stone alike — changes nothing at all: not the point, not the turn,
/// not the counter.
pub proof fn lemma_play_click_occupied_noop(v: GameView, i: int, j: int)
    requires
        v.wf(),
        v.mode is Play,
        v.in_range(i, j),
        v.point(i, j).owner is Some,
    ensures
        v.click(i, j) == v,
{
}

/// In play mode, clicking an empty point places the current player's play
/// stone there carrying the number one past the old counter, moves the
/// counter to that number, and passes the turn to the other player; every
/// other point and the mode are unchanged.
pub proof fn lemma_play_click_on_empty(v: GameView, i: int, j: int)
    requires
        v.wf(),
        v.mode is Play,
        v.in_range(i, j),
        v.point(i, j).owner is None,
    ensures
        v.click(i, j).point(i, j).owner == Some(Stone::Player(v.curr_player)),
        (v.click(i, j).point(i, j).number matches Some(n) && n == v.curr_num + 1),
        v.click(i, j).curr_num == v.curr_num + 1,
        v.click(i, j).curr_player == other_player(v.curr_player),
        v.click(i, j).mode is Play,
        v.click(i, j).disp_nums == v.disp_nums,
        v.click(i, j).size() == v.size(),
        forall|r: int, c: int|
            v.in_range(r, c) && (r != i || c != j) ==> #[trigger] v.click(i, j).point(r, c)
                == v.point(r, c),
        v.click(i, j).wf(),
{
    lemma_curr_num_bounded(v);
    lemma_click_wf(v, i, j);
}

/// Clearing the recorded moves leaves a setup-mode state with a zero
/// counter in which every previously numbered point is empty and every
/// setup-only point — owner set or not, number never assigned — is exactly
/// as it was.
pub proof fn lemma_cleared_to_setup_points(v: GameView)
    requires
        v.wf(),
    ensures
        v.cleared_to_setup().mode is Setup,
        v.cleared_to_setup().curr_num == 0,
        v.cleared_to_setup().curr_player == v.curr_player,
        v.cleared_to_setup().disp_nums == v.disp_nums,
        v.cleared_to_setup().size() == v.size(),
        forall|r: int, c: int|
            v.in_range(r, c) && v.point(r, c).number is Some ==> #[trigger] v.cleared_to_setup()
                .point(r, c) == BoardPoint::spec_empty(),
        forall|r: int, c: int|
            v.in_range(r, c) && v.point(r, c).number is None ==> #[trigger] v.cleared_to_setup()
                .point(r, c) == v.point(r, c),
        v.cleared_to_setup().wf(),
{
    lemma_cleared_to_setup_wf(v);
}

/// A full reset yields the all-empty board, Black selected, a zero counter
/// and setup mode, regardless of the prior state.
pub proof fn lemma_reset_state(v: GameView)
    requires
        v.wf(),
    ensures
        v.reset() == initial_view(v.size()),
        v.reset().curr_player == Player::Black,
        v.reset().curr_num == 0,
        v.reset().mode is Setup,
        v.reset().disp_nums,
        v.reset().size() == v.size(),
        forall|r: int, c: int|
            v.in_range(r, c) ==> #[trigger] v.reset().point(r, c) == BoardPoint::spec_empty(),
        v.reset().wf(),
{
    lemma_initial_view_wf(v.size());
}

/// The state after a sequence of clicks, applied in order.
pub open spec fn apply_clicks(v: GameView, clicks: Seq<(int, int)>) -> GameView
    decreases clicks.len(),
{
    if clicks.len() == 0 {
        v
    } else {
        apply_clicks(v, clicks.drop_last()).click(clicks.last().0, clicks.last().1)
    }
}

/// How a play-mode state relates to the setup position it grew from: every
/// point either is exactly as in the base position (when it carries no
/// recorded move), or was empty there (when it does).
pub open spec fn extends_setup(v: GameView, base: GameView) -> bool {
    &&& v.size() == base.size()
    &&& forall|r: int, c: int|
        v.in_range(r, c) ==> if (#[trigger] v.grid[r][c]).number is Some {
            base.grid[r][c] == BoardPoint::spec_empty()
        } else {
            v.grid[r][c] == base.grid[r][c]
        }
}

/// Play only ever adds numbered stones to points that the setup position
/// left empty: after switching a setup position to play mode and clicking
/// any sequence of points, the state still extends that position.
pub proof fn lemma_apply_clicks_extends(base: GameView, clicks: Seq<(int, int)>)
    requires
        base.wf(),
        base.mode is Setup,
    ensures
        apply_clicks(base.with_mode(Mode::Play), clicks).wf(),
        apply_clicks(base.with_mode(Mode::Play), clicks).mode is Play,
        apply_clicks(base.with_mode(Mode::Play), clicks).disp_nums == base.disp_nums,
        extends_setup(apply_clicks(base.with_mode(Mode::Play), clicks), base),
    decreases clicks.len(),
{
    let v0 = base.with_mode(Mode::Play);
    lemma_with_mode_wf(base, Mode::Play);
    lemma_no_numbers(base);
    if clicks.len() == 0 {
        assert forall|r: int, c: int| v0.in_range(r, c) implies !((#[trigger] v0.grid[r][c]).number
            is Some) by {
            assert(v0.grid[r][c] == base.grid[r][c]);
        }
    } else {
        lemma_apply_clicks_extends(base, clicks.drop_last());
        let v1 = apply_clicks(v0, clicks.drop_last());
        let i = clicks.last().0;
        let j = clicks.last().1;
        let w = v1.click(i, j);
        lemma_click_wf(v1, i, j);
        if v1.in_range(i, j) && v1.is_valid(i, j) {
            // A stone is placed: the target point was empty, hence unnumbered,
            // hence — by the induction hypothesis — empty in the base position.
            assert(v1.grid[i][j].number is None);
            assert(v1.grid[i][j] == base.grid[i][j]);
            assert forall|r: int, c: int|
                w.in_range(r, c) && (r != i || c != j) implies #[trigger] w.grid[r][c]
                == v1.grid[r][c] by {}
            assert(extends_setup(w, base));
        } else {
            assert(w == v1);
        }
    }
}

/// The round-trip law: build a position in setup mode, switch to play,
/// record any sequence of clicks, then clear the recorded moves — the
/// saved setup position comes back exactly, point for point, with the
/// editor in setup mode and the counter at zero.
pub proof fn lemma_round_trip(base: GameView, clicks: Seq<(int, int)>)
    requires
        base.wf(),
        base.mode is Setup,
    ensures
        apply_clicks(base.with_mode(Mode::Play), clicks).cleared_to_setup().grid == base.grid,
        apply_clicks(base.with_mode(Mode::Play), clicks).cleared_to_setup().mode is Setup,
        apply_clicks(base.with_mode(Mode::Play), clicks).cleared_to_setup().curr_num == 0,
        apply_clicks(base.with_mode(Mode::Play), clicks).cleared_to_setup().disp_nums
            == base.disp_nums,
        apply_clicks(base.with_mode(Mode::Play), clicks).cleared_to_setup().wf(),
{
    lemma_apply_clicks_extends(base, clicks);
    let end = apply_clicks(base.with_mode(Mode::Play), clicks);
    lemma_cleared_to_setup_wf(end);
    let restored = end.cleared_to_setup();
    assert forall|r: int| 0 <= r < base.grid.len() implies #[trigger] restored.grid[r]
        =~= base.grid[r] by {
        assert forall|c: int| 0 <= c < base.grid.len() implies #[trigger] restored.grid[r][c]
            == base.grid[r][c] by {
            assert(restored.grid[r][c] == clear_played(end.grid[r][c]));
            if end.grid[r][c].number is Some {
                assert(base.grid[r][c] == BoardPoint::spec_empty());
            } else {
                assert(end.grid[r][c] == base.grid[r][c]);
            }
        }
    }
    assert(restored.grid =~~= base.grid);
}

} // verus!

