//! The board: players, stones, points, and the square grid that stores them.

use vstd::prelude::*;

verus! {

use vstd::pervasive::VecAdditionalExecFns;

/// One of the two sides that place stones.
#[derive(Clone, Copy, Debug, PartialEq, Eq, Structural)]
pub enum Player {
    Black,
    White,
}

/// The side whose turn follows `p`'s.
pub open spec fn other_player(p: Player) -> Player {
    match p {
        Player::Black => Player::White,
        Player::White => Player::Black,
    }
}

/// A stone on the board: either a play stone owned by a player and placed as
/// a recorded move, or a setup marker placed while constructing a position.
#[derive(Clone, Copy, Debug, PartialEq, Eq, Structural)]
pub enum Stone {
    Player(Player),
    Setup(Player),
}

impl Stone {
    /// The bare player of a stone, discarding the setup/play distinction.
    /// This is all a renderer needs where only the stone's colour matters.
    pub open spec fn player(self) -> Player {
        match self {
            Stone::Player(p) => p,
            Stone::Setup(p) => p,
        }
    }

    /// The setup-marker stone for a player.
    pub fn setup_from_player(player: Player) -> (s: Stone)
        ensures
            s == Stone::Setup(player),
    {
        Stone::setup(Stone::Player(player))
    }

    /// The setup version of a stone, keeping its player.
    pub fn setup(stone: Stone) -> (s: Stone)
        ensures
            s == Stone::Setup(stone.player()),
    {
        match stone {
            Stone::Player(p) => Stone::Setup(p),
            other => other,
        }
    }
}

impl From<Stone> for Player {
    /// The player version of a stone, discarding setup state.
    fn from(stone: Stone) -> (p: Player) {
        match stone {
            Stone::Player(player) => player,
            Stone::Setup(player) => player,
        }
    }
}

impl vstd::std_specs::convert::FromSpecImpl<Stone> for Player {
    open spec fn obeys_from_spec() -> bool {
        true
    }

    open spec fn from_spec(stone: Stone) -> Player {
        stone.player()
    }
}

/// One grid point: an optional stone and an optional move number.
#[derive(Clone, Copy, Debug, PartialEq, Eq)]
pub struct BoardPoint {
    pub owner: Option<Stone>,
    pub number: Option<u32>,
}

impl BoardPoint {
    /// A point with no stone and no number.
    pub open spec fn spec_empty() -> BoardPoint {
        BoardPoint { owner: None, number: None }
    }

    pub fn empty() -> (p: BoardPoint)
        ensures
            p == BoardPoint::spec_empty(),
    {
        BoardPoint { owner: None, number: None }
    }

    /// A move number is only ever carried by a play stone: setup markers and
    /// empty points are unnumbered.
    pub open spec fn wf(self) -> bool {
        self.number is Some ==> self.owner matches Some(Stone::Player(_))
    }
}

/// How many numbered points a point contributes to a count: one or none.
pub open spec fn point_count(p: BoardPoint) -> nat {
    if p.number is Some {
        1
    } else {
        0
    }
}

/// The number of numbered points in one row.
pub open spec fn count_numbered_row(row: Seq<BoardPoint>) -> nat
    decreases row.len(),
{
    if row.len() == 0 {
        0
    } else {
        count_numbered_row(row.drop_last()) + point_count(row.last())
    }
}

/// The number of numbered points on a whole grid.
pub open spec fn count_numbered(grid: Seq<Seq<BoardPoint>>) -> nat
    decreases grid.len(),
{
    if grid.len() == 0 {
        0
    } else {
        count_numbered(grid.drop_last()) + count_numbered_row(grid.last())
    }
}

/// An `n` by `n` grid of empty points.
pub open spec fn empty_grid(n: nat) -> Seq<Seq<BoardPoint>> {
    Seq::new(n, |i: int| Seq::new(n, |j: int| BoardPoint::spec_empty()))
}

/// Replacing one point changes a row's count by the difference at that point.
pub proof fn lemma_count_numbered_row_update(row: Seq<BoardPoint>, j: int, p: BoardPoint)
    requires
        0 <= j < row.len(),
    ensures
        count_numbered_row(row.update(j, p)) == count_numbered_row(row) - point_count(row[j])
            + point_count(p),
    decreases row.len(),
{
    let u = row.update(j, p);
    if j == row.len() - 1 {
        assert(u.drop_last() =~= row.drop_last());
    } else {
        assert(u.drop_last() =~= row.drop_last().update(j, p));
        lemma_count_numbered_row_update(row.drop_last(), j, p);
    }
}

/// Replacing one row changes a grid's count by the difference between rows.
pub proof fn lemma_count_numbered_update_row(grid: Seq<Seq<BoardPoint>>, i: int, r: Seq<BoardPoint>)
    requires
        0 <= i < grid.len(),
    ensures
        count_numbered(grid.update(i, r)) == count_numbered(grid) - count_numbered_row(grid[i])
            + count_numbered_row(r),
    decreases grid.len(),
{
    let u = grid.update(i, r);
    if i == grid.len() - 1 {
        assert(u.drop_last() =~= grid.drop_last());
    } else {
        assert(u.drop_last() =~= grid.drop_last().update(i, r));
        lemma_count_numbered_update_row(grid.drop_last(), i, r);
    }
}

/// Replacing one point changes a grid's count by the difference at that point.
pub proof fn lemma_count_numbered_update(grid: Seq<Seq<BoardPoint>>, i: int, j: int, p: BoardPoint)
    requires
        0 <= i < grid.len(),
        0 <= j < grid[i].len(),
    ensures
        count_numbered(grid.update(i, grid[i].update(j, p))) == count_numbered(grid)
            - point_count(grid[i][j]) + point_count(p),
{
    lemma_count_numbered_row_update(grid[i], j, p);
    lemma_count_numbered_update_row(grid, i, grid[i].update(j, p));
}

/// A row holds at most as many numbered points as it has points.
pub proof fn lemma_count_numbered_row_bound(row: Seq<BoardPoint>)
    ensures
        count_numbered_row(row) <= row.len(),
    decreases row.len(),
{
    if row.len() > 0 {
        lemma_count_numbered_row_bound(row.drop_last());
    }
}

/// A grid of rows of length `rlen` holds at most `len * rlen` numbered points.
pub proof fn lemma_count_numbered_bound(grid: Seq<Seq<BoardPoint>>, rlen: nat)
    requires
        forall|i: int| 0 <= i < grid.len() ==> (#[trigger] grid[i]).len() == rlen,
    ensures
        count_numbered(grid) <= grid.len() * rlen,
    decreases grid.len(),
{
    if grid.len() > 0 {
        lemma_count_numbered_bound(grid.drop_last(), rlen);
        lemma_count_numbered_row_bound(grid.last());
        assert((grid.len() - 1) * rlen + rlen == grid.len() * rlen) by (nonlinear_arith);
    }
}

/// A row without numbered points counts zero.
pub proof fn lemma_count_numbered_row_zero(row: Seq<BoardPoint>)
    requires
        forall|j: int| 0 <= j < row.len() ==> (#[trigger] row[j]).number is None,
    ensures
        count_numbered_row(row) == 0,
    decreases row.len(),
{
    if row.len() > 0 {
        lemma_count_numbered_row_zero(row.drop_last());
    }
}

/// A grid without numbered points counts zero.
pub proof fn lemma_count_numbered_zero(grid: Seq<Seq<BoardPoint>>)
    requires
        forall|i: int, j: int|
            0 <= i < grid.len() && 0 <= j < grid[i].len() ==> (#[trigger] grid[i][j]).number
                is None,
    ensures
        count_numbered(grid) == 0,
    decreases grid.len(),
{
    if grid.len() > 0 {
        lemma_count_numbered_zero(grid.drop_last());
        lemma_count_numbered_row_zero(grid.last());
    }
}

/// A square matrix of points. A pure storage primitive: it exposes get and
/// set by coordinate, its dimensions never change after construction, and
/// all rule-bearing mutation is mediated by `GameState`.
pub struct Board {
    points: Vec<Vec<BoardPoint>>,
}

impl View for Board {
    type V = Seq<Seq<BoardPoint>>;

    closed spec fn view(&self) -> Seq<Seq<BoardPoint>> {
        Seq::new(self.points@.len(), |i: int| self.points@[i]@)
    }
}

impl Board {
    /// Every row is as long as the grid is tall.
    pub open spec fn square(&self) -> bool {
        forall|i: int| 0 <= i < self@.len() ==> (#[trigger] self@[i]).len() == self@.len()
    }

    /// An `n` by `n` board of empty points.
    pub fn new(n: usize) -> (b: Board)
        ensures
            b@ == empty_grid(n as nat),
            b.square(),
            b@.len() == n,
    {
        let mut points: Vec<Vec<BoardPoint>> = Vec::new();
        let mut i: usize = 0;
        while i < n
            invariant
                i <= n,
                points@.len() == i,
                forall|r: int| 0 <= r < i ==> (#[trigger] points@[r])@ =~= empty_grid(
                    n as nat,
                )[r],
            decreases n - i,
        {
            let mut row: Vec<BoardPoint> = Vec::new();
            let mut j: usize = 0;
            while j < n
                invariant
                    j <= n,
                    row@.len() == j,
                    forall|c: int| 0 <= c < j ==> (#[trigger] row@[c]) == BoardPoint::spec_empty(),
                decreases n - j,
            {
                row.push(BoardPoint::empty());
                j = j + 1;
            }
            points.push(row);
            i = i + 1;
        }
        let b = Board { points };
        proof {
            assert(b@ =~~= empty_grid(n as nat));
        }
        b
    }

    /// The side length of the board.
    pub fn size(&self) -> (n: usize)
        ensures
            n == self@.len(),
    {
        self.points.len()
    }

    /// The point at row `i`, column `j`.
    pub fn get(&self, i: usize, j: usize) -> (p: &BoardPoint)
        requires
            i < self@.len(),
            j < self@[i as int].len(),
        ensures
            *p == self@[i as int][j as int],
    {
        &self.points[i][j]
    }

    /// Stores `p` at row `i`, column `j`. Only `GameState` calls this, so
    /// that the turn and numbering invariants stay enforceable.
    pub(crate) fn set_point(&mut self, i: usize, j: usize, p: BoardPoint)
        requires
            i < old(self)@.len(),
            j < old(self)@[i as int].len(),
        ensures
            final(self)@ == old(self)@.update(i as int, old(self)@[i as int].update(j as int, p)),
    {
        let ghost g0 = self@;
        self.points[i].set(j, p);
        proof {
            assert(self@ =~~= g0.update(i as int, g0[i as int].update(j as int, p)));
        }
    }
}

} // verus!
