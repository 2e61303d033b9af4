//! The generation rule: neighbour sampling under an edge policy and the
//! step that replaces a grid by its next generation.

use vstd::prelude::*;
use vstd::arithmetic::div_mod::{
    lemma_mod_multiples_vanish, lemma_mod_bound, lemma_small_mod,
};
use crate::board::{in_bounds, is_rect, lemma_flat_index_bounds, unflatten, Board};
use crate::grid::Grid;
use crate::state::State;

verus! {

/// How a neighbour coordinate outside the grid is resolved.
#[derive(Debug, PartialEq, Eq, Copy, Clone, Structural)]
pub enum EdgePolicy {
    /// The grid is a torus: a coordinate past one edge comes back in at the
    /// opposite edge.
    Wrap,
    /// Nothing lies outside the grid: such a neighbour is absent and is not
    /// counted.
    Clamp,
}

/// One step along an axis.
#[derive(Debug, PartialEq, Eq, Copy, Clone, Structural)]
pub enum Move {
    Positive,
    Negative,
    Remain,
}

impl Move {
    /// The change of coordinate that the move stands for.
    pub open spec fn delta(self) -> int {
        match self {
            Move::Positive => 1,
            Move::Negative => -1,
            Move::Remain => 0,
        }
    }

    /// The move in the opposite direction.
    pub fn reverse(self) -> (r: Move)
        ensures
            r.delta() == -self.delta(),
    {
        match self {
            Move::Positive => Move::Negative,
            Move::Negative => Move::Positive,
            Move::Remain => Move::Remain,
        }
    }
}

/// Whether the coordinate `(x, y)`, resolved under `policy`, holds a live
/// cell of `board`. Under `Wrap` each component is taken modulo the board's
/// size; under `Clamp` a coordinate outside the board holds nothing.
#[verifier::opaque]
pub open spec fn alive_at(board: Board, x: int, y: int, policy: EdgePolicy) -> bool {
    match policy {
        EdgePolicy::Wrap => {
            let column = board[x % (board.len() as int)];
            column[y % (column.len() as int)].alive()
        },
        EdgePolicy::Clamp => in_bounds(board, x, y) && board[x][y].alive(),
    }
}

/// What one sampled neighbour adds to the count.
pub open spec fn tally(alive: bool) -> int {
    if alive {
        1
    } else {
        0
    }
}

/// The number of live neighbours of `(x, y)`: each of the eight compass
/// offsets is sampled exactly once.
pub open spec fn live_neighbors(board: Board, x: int, y: int, policy: EdgePolicy) -> int {
    tally(alive_at(board, x - 1, y + 1, policy)) + tally(alive_at(board, x, y + 1, policy))
        + tally(alive_at(board, x + 1, y + 1, policy)) + tally(alive_at(board, x + 1, y, policy))
        + tally(alive_at(board, x + 1, y - 1, policy)) + tally(alive_at(board, x, y - 1, policy))
        + tally(alive_at(board, x - 1, y - 1, policy)) + tally(alive_at(board, x - 1, y, policy))
}

/// The next generation of `board`: every cell's successor state, each
/// computed from the board as it stands before the step.
pub open spec fn next_generation(board: Board, policy: EdgePolicy) -> Board {
    Seq::new(
        board.len(),
        |x: int|
            Seq::new(
                board[x].len(),
                |y: int| board[x][y].successor(live_neighbors(board, x, y, policy)),
            ),
    )
}

/// Stepping one place from an in-range coordinate and reducing modulo the
/// size lands on the far edge when leaving through the near one, on the near
/// edge when leaving through the far one, and on the plain sum otherwise.
pub proof fn lemma_wrap_one_step(current: int, delta: int, size: int)
    requires
        0 <= current < size,
        -1 <= delta <= 1,
    ensures
        (current + delta) % size == if current + delta < 0 {
            size - 1
        } else if current + delta == size {
            0
        } else {
            current + delta
        },
{
    if current + delta < 0 {
        lemma_mod_multiples_vanish(-1, size - 1, size);
        lemma_small_mod((size - 1) as nat, size as nat);
        assert(size * (-1) + (size - 1) == -1) by (nonlinear_arith);
    } else if current + delta == size {
        lemma_mod_multiples_vanish(1, 0, size);
        lemma_small_mod(0, size as nat);
        assert(size * 1 + 0 == size) by (nonlinear_arith);
    } else {
        lemma_small_mod((current + delta) as nat, size as nat);
    }
}

/// Where the eight neighbours of the cell `(x, y)` lie on a torus of the
/// given size: each coordinate one place further is the plain sum, but for
/// the step off the near edge, which lands on the far one, and the step off
/// the far edge, which lands on the near one.
pub proof fn lemma_wrap_around(x: int, y: int, width: int, height: int)
    requires
        0 <= x < width,
        0 <= y < height,
    ensures
        (x - 1) % width == (if x == 0 {
            width - 1
        } else {
            x - 1
        }),
        x % width == x,
        (x + 1) % width == (if x + 1 == width {
            0
        } else {
            x + 1
        }),
        (y - 1) % height == (if y == 0 {
            height - 1
        } else {
            y - 1
        }),
        y % height == y,
        (y + 1) % height == (if y + 1 == height {
            0
        } else {
            y + 1
        }),
{
    lemma_wrap_one_step(x, -1, width);
    lemma_wrap_one_step(x, 0, width);
    lemma_wrap_one_step(x, 1, width);
    lemma_wrap_one_step(y, -1, height);
    lemma_wrap_one_step(y, 0, height);
    lemma_wrap_one_step(y, 1, height);
}

/// Moves `current` one step along an axis of length `wrap_size`, coming back
/// in at the opposite end when the step leaves the axis.
pub fn wrap(current: usize, move_amount: Move, wrap_size: usize) -> (r: usize)
    requires
        current < wrap_size,
    ensures
        r == (current + move_amount.delta()) % (wrap_size as int),
        r < wrap_size,
{
    proof {
        lemma_wrap_one_step(current as int, move_amount.delta(), wrap_size as int);
    }
    if current == 0 && move_amount == Move::Negative {
        wrap_size - 1
    } else if current == wrap_size - 1 && move_amount == Move::Positive {
        0
    } else {
        match move_amount {
            Move::Positive => current + 1,
            Move::Negative => current - 1,
            Move::Remain => current,
        }
    }
}

/// Moves `current` one step along an axis of length `size` without wrapping:
/// `None` when the step leaves the axis.
pub fn clamp(current: usize, move_amount: Move, size: usize) -> (r: Option<usize>)
    requires
        current < size,
    ensures
        r.is_some() <==> 0 <= current + move_amount.delta() < size,
        r matches Some(c) ==> c == current + move_amount.delta(),
{
    match move_amount {
        Move::Positive => if current + 1 < size {
            Some(current + 1)
        } else {
            None
        },
        Move::Negative => if current > 0 {
            Some(current - 1)
        } else {
            None
        },
        Move::Remain => Some(current),
    }
}

/// The state of the neighbour of `current_pos` on a torus: one step
/// `horizontal_move` along x and one step against `vertical_move` along y.
pub fn get_entity(
    entities: &Grid,
    current_pos: (usize, usize),
    horizontal_move: Move,
    vertical_move: Move,
) -> (state: State)
    requires
        entities.wf(),
        current_pos.0 < entities.spec_width(),
        current_pos.1 < entities.spec_height(),
    ensures
        state == entities@[(current_pos.0 + horizontal_move.delta()) % entities.spec_width()][(
        current_pos.1 - vertical_move.delta()) % entities.spec_height()],
{
    let x = wrap(current_pos.0, horizontal_move, entities.width());
    let y = wrap(current_pos.1, vertical_move.reverse(), entities.height());
    entities.get(x, y)
}

/// Whether the neighbour of `(x, y)` at the given offset, resolved under
/// `policy`, is alive.
pub fn entity_is_alive(
    grid: &Grid,
    x: usize,
    y: usize,
    horizontal_move: Move,
    vertical_move: Move,
    policy: EdgePolicy,
) -> (alive: bool)
    requires
        grid.wf(),
        x < grid.spec_width(),
        y < grid.spec_height(),
    ensures
        alive == alive_at(grid@, x + horizontal_move.delta(), y + vertical_move.delta(), policy),
{
    reveal(alive_at);
    match policy {
        EdgePolicy::Wrap => {
            let nx = wrap(x, horizontal_move, grid.width());
            let ny = wrap(y, vertical_move, grid.height());
            grid.get(nx, ny).is_alive()
        },
        EdgePolicy::Clamp => {
            match clamp(x, horizontal_move, grid.width()) {
                Some(nx) => match clamp(y, vertical_move, grid.height()) {
                    Some(ny) => grid.get(nx, ny).is_alive(),
                    None => false,
                },
                None => false,
            }
        },
    }
}

/// Counts the live neighbours of `(x, y)` under `policy`.
pub fn live_neighbor_count(grid: &Grid, x: usize, y: usize, policy: EdgePolicy) -> (count: u8)
    requires
        grid.wf(),
        x < grid.spec_width(),
        y < grid.spec_height(),
    ensures
        count == live_neighbors(grid@, x as int, y as int, policy),
        count <= 8,
{
    let mut count: u8 = 0;
    if entity_is_alive(grid, x, y, Move::Negative, Move::Positive, policy) {
        count += 1;
    }
    if entity_is_alive(grid, x, y, Move::Remain, Move::Positive, policy) {
        count += 1;
    }
    if entity_is_alive(grid, x, y, Move::Positive, Move::Positive, policy) {
        count += 1;
    }
    if entity_is_alive(grid, x, y, Move::Positive, Move::Remain, policy) {
        count += 1;
    }
    if entity_is_alive(grid, x, y, Move::Positive, Move::Negative, policy) {
        count += 1;
    }
    if entity_is_alive(grid, x, y, Move::Remain, Move::Negative, policy) {
        count += 1;
    }
    if entity_is_alive(grid, x, y, Move::Negative, Move::Negative, policy) {
        count += 1;
    }
    if entity_is_alive(grid, x, y, Move::Negative, Move::Remain, policy) {
        count += 1;
    }
    count
}

/// Replaces `grid` by its next generation under `edge_policy`.
///
/// Every successor state is computed from the grid as it stands on entry
/// and collected in a scratch buffer; only then is the grid overwritten, so
/// no cell ever sees a neighbour that has already advanced.
pub fn step(grid: &mut Grid, edge_policy: EdgePolicy)
    requires
        old(grid).wf(),
    ensures
        final(grid).wf(),
        final(grid).spec_width() == old(grid).spec_width(),
        final(grid).spec_height() == old(grid).spec_height(),
        final(grid)@ == next_generation(old(grid)@, edge_policy),
{
    let width = grid.width();
    let height = grid.height();
    let mut scratch: Vec<State> = Vec::new();
    let mut x: usize = 0;
    while x < width
        invariant
            grid.wf(),
            width == grid.spec_width(),
            height == grid.spec_height(),
            x <= width,
            scratch@.len() == x * height,
            forall|i: int, j: int|
                0 <= i < x && 0 <= j < height ==> scratch@[i * height + j] == (
                #[trigger] grid@[i][j]).successor(live_neighbors(grid@, i, j, edge_policy)),
        decreases width - x,
    {
        let mut y: usize = 0;
        while y < height
            invariant
                grid.wf(),
                width == grid.spec_width(),
                height == grid.spec_height(),
                x < width,
                y <= height,
                scratch@.len() == x * height + y,
                forall|i: int, j: int|
                    0 <= i < x && 0 <= j < height ==> scratch@[i * height + j] == (
                    #[trigger] grid@[i][j]).successor(live_neighbors(grid@, i, j, edge_policy)),
                forall|j: int|
                    0 <= j < y ==> scratch@[x * height + j] == (
                    #[trigger] grid@[x as int][j]).successor(
                        live_neighbors(grid@, x as int, j, edge_policy),
                    ),
            decreases height - y,
        {
            let count = live_neighbor_count(grid, x, y, edge_policy);
            let ghost before = scratch@;
            scratch.push(grid.get(x, y).next(count));
            proof {
                assert forall|i: int, j: int| 0 <= i < x && 0 <= j < height implies scratch@[i
                    * height + j] == (#[trigger] grid@[i][j]).successor(
                    live_neighbors(grid@, i, j, edge_policy),
                ) by {
                    lemma_flat_index_bounds(i, j, x as int, height as int);
                    assert(before[i * height + j] == grid@[i][j].successor(
                        live_neighbors(grid@, i, j, edge_policy),
                    ));
                }
            }
            y += 1;
        }
        proof {
            assert((x + 1) * height == x * height + height) by (nonlinear_arith);
        }
        x += 1;
    }
    let ghost before = grid@;
    proof {
        let after = unflatten(scratch@, width as int, height as int);
        assert forall|i: int, j: int| 0 <= i < width && 0 <= j < height implies (
        #[trigger] after[i][j]) == next_generation(before, edge_policy)[i][j] by {
            assert(scratch@[i * height + j] == before[i][j].successor(
                live_neighbors(before, i, j, edge_policy),
            ));
        }
        assert(after =~~= next_generation(before, edge_policy));
    }
    grid.overwrite(scratch);
}

/// Advances `current_entities` by one generation on a torus.
pub fn set_rules(current_entities: &mut Grid)
    requires
        old(current_entities).wf(),
    ensures
        final(current_entities).wf(),
        final(current_entities).spec_width() == old(current_entities).spec_width(),
        final(current_entities).spec_height() == old(current_entities).spec_height(),
        final(current_entities)@ == next_generation(old(current_entities)@, EdgePolicy::Wrap),
{
    step(current_entities, EdgePolicy::Wrap);
}

/// Two boards of the given size have the same live cells.
pub open spec fn same_live_cells(a: Board, b: Board, width: int, height: int) -> bool {
    &&& is_rect(a, width, height)
    &&& is_rect(b, width, height)
    &&& forall|x: int, y: int|
        0 <= x < width && 0 <= y < height ==> (#[trigger] a[x][y]).alive() == b[x][y].alive()
}

/// Only liveness enters the rule: two boards with the same live cells have
/// the same live cells one generation later, whichever of their other cells
/// are dead and which unborn.
pub proof fn lemma_only_liveness_matters(
    a: Board,
    b: Board,
    width: int,
    height: int,
    policy: EdgePolicy,
)
    requires
        width > 0,
        height > 0,
        same_live_cells(a, b, width, height),
    ensures
        same_live_cells(next_generation(a, policy), next_generation(b, policy), width, height),
{
    reveal(alive_at);
    let next_a = next_generation(a, policy);
    let next_b = next_generation(b, policy);
    assert forall|nx: int, ny: int| alive_at(a, nx, ny, policy) == alive_at(b, nx, ny, policy) by {
        match policy {
            EdgePolicy::Wrap => {
                lemma_mod_bound(nx, width);
                lemma_mod_bound(ny, height);
                let wx = nx % width;
                let wy = ny % height;
                assert(a[wx][wy].alive() == b[wx][wy].alive());
            },
            EdgePolicy::Clamp => {
                if in_bounds(a, nx, ny) {
                    assert(a[nx][ny].alive() == b[nx][ny].alive());
                }
            },
        }
    }
    assert forall|x: int, y: int| 0 <= x < width && 0 <= y < height implies (
    #[trigger] next_a[x][y]).alive() == next_b[x][y].alive() by {
        assert(a[x][y].alive() == b[x][y].alive());
    }
}

/// `board` after `count` generations under `policy`.
pub open spec fn generations(board: Board, policy: EdgePolicy, count: nat) -> Board
    decreases count,
{
    if count == 0 {
        board
    } else {
        generations(next_generation(board, policy), policy, (count - 1) as nat)
    }
}

/// The live cells of `board` are exactly the two-by-two block whose corner
/// nearest the origin is `(bx, by)`.
pub open spec fn is_lone_block(board: Board, bx: int, by: int) -> bool {
    forall|x: int, y: int|
        in_bounds(board, x, y) ==> ((#[trigger] board[x][y]).alive() <==> (bx <= x <= bx + 1 && by
            <= y <= by + 1))
}

/// A lone two-by-two block is a still life: one generation leaves the
/// board as it is, dead and unborn cells included.
///
/// Without wrapping this holds on every board that has room for the block.
/// On a torus the board must be at least three cells wide and high, so that
/// no cell meets the block from both sides.
pub proof fn lemma_block_is_still(
    board: Board,
    width: int,
    height: int,
    bx: int,
    by: int,
    policy: EdgePolicy,
)
    requires
        is_rect(board, width, height),
        0 <= bx,
        bx + 1 < width,
        0 <= by,
        by + 1 < height,
        is_lone_block(board, bx, by),
        policy == EdgePolicy::Wrap ==> width >= 3 && height >= 3,
    ensures
        next_generation(board, policy) == board,
{
    reveal(alive_at);
    let next = next_generation(board, policy);
    assert forall|x: int, y: int| 0 <= x < width && 0 <= y < height implies (
    #[trigger] next[x][y]) == board[x][y] by {
        lemma_wrap_around(x, y, width, height);
    }
    assert(next =~~= board);
}

/// A lone two-by-two block stays as it is through any number of
/// generations.
pub proof fn lemma_block_stays_still(
    board: Board,
    width: int,
    height: int,
    bx: int,
    by: int,
    policy: EdgePolicy,
    count: nat,
)
    requires
        is_rect(board, width, height),
        0 <= bx,
        bx + 1 < width,
        0 <= by,
        by + 1 < height,
        is_lone_block(board, bx, by),
        policy == EdgePolicy::Wrap ==> width >= 3 && height >= 3,
    ensures
        generations(board, policy, count) == board,
    decreases count,
{
    if count > 0 {
        lemma_block_is_still(board, width, height, bx, by, policy);
        lemma_block_stays_still(board, width, height, bx, by, policy, (count - 1) as nat);
    }
}

/// The live cells of `board` are exactly the three cells of the horizontal
/// line centred on `(cx, cy)`.
pub open spec fn is_lone_row(board: Board, cx: int, cy: int) -> bool {
    forall|x: int, y: int|
        in_bounds(board, x, y) ==> ((#[trigger] board[x][y]).alive() <==> (cx - 1 <= x <= cx + 1
            && y == cy))
}

/// The live cells of `board` are exactly the three cells of the vertical
/// line centred on `(cx, cy)`.
pub open spec fn is_lone_column(board: Board, cx: int, cy: int) -> bool {
    forall|x: int, y: int|
        in_bounds(board, x, y) ==> ((#[trigger] board[x][y]).alive() <==> (x == cx && cy - 1 <= y
            <= cy + 1))
}

/// A board of the given size has room for a blinker centred on `(cx, cy)`:
/// the centre is off every edge, and on a torus the board is at least four
/// cells wide and high, so that the line does not meet itself.
pub open spec fn has_room_for_blinker(
    width: int,
    height: int,
    cx: int,
    cy: int,
    policy: EdgePolicy,
) -> bool {
    &&& 1 <= cx
    &&& cx + 1 < width
    &&& 1 <= cy
    &&& cy + 1 < height
    &&& policy == EdgePolicy::Wrap ==> width >= 4 && height >= 4
}

/// One generation turns a lone horizontal line of three into the vertical
/// line through the same centre.
pub proof fn lemma_row_becomes_column(
    board: Board,
    width: int,
    height: int,
    cx: int,
    cy: int,
    policy: EdgePolicy,
)
    requires
        is_rect(board, width, height),
        has_room_for_blinker(width, height, cx, cy, policy),
        is_lone_row(board, cx, cy),
    ensures
        is_rect(next_generation(board, policy), width, height),
        is_lone_column(next_generation(board, policy), cx, cy),
{
    reveal(alive_at);
    let next = next_generation(board, policy);
    assert forall|x: int, y: int| in_bounds(next, x, y) implies ((#[trigger] next[x][y]).alive()
        <==> (x == cx && cy - 1 <= y <= cy + 1)) by {
        lemma_wrap_around(x, y, width, height);
    }
}

/// One generation turns a lone vertical line of three into the horizontal
/// line through the same centre.
pub proof fn lemma_column_becomes_row(
    board: Board,
    width: int,
    height: int,
    cx: int,
    cy: int,
    policy: EdgePolicy,
)
    requires
        is_rect(board, width, height),
        has_room_for_blinker(width, height, cx, cy, policy),
        is_lone_column(board, cx, cy),
    ensures
        is_rect(next_generation(board, policy), width, height),
        is_lone_row(next_generation(board, policy), cx, cy),
{
    reveal(alive_at);
    let next = next_generation(board, policy);
    assert forall|x: int, y: int| in_bounds(next, x, y) implies ((#[trigger] next[x][y]).alive()
        <==> (cx - 1 <= x <= cx + 1 && y == cy)) by {
        lemma_wrap_around(x, y, width, height);
    }
}

/// A lone horizontal line of three is a blinker of period two: after one
/// generation the live cells are the vertical line through its centre,
/// after two they are the horizontal line again.
pub proof fn lemma_blinker_has_period_two(
    board: Board,
    width: int,
    height: int,
    cx: int,
    cy: int,
    policy: EdgePolicy,
)
    requires
        is_rect(board, width, height),
        has_room_for_blinker(width, height, cx, cy, policy),
        is_lone_row(board, cx, cy),
    ensures
        is_lone_column(generations(board, policy, 1), cx, cy),
        is_lone_row(generations(board, policy, 2), cx, cy),
{
    let first = next_generation(board, policy);
    let second = next_generation(first, policy);
    lemma_row_becomes_column(board, width, height, cx, cy, policy);
    lemma_column_becomes_row(first, width, height, cx, cy, policy);
    assert(generations(first, policy, 0) == first);
    assert(generations(board, policy, 1) == first);
    assert(generations(second, policy, 0) == second);
    assert(generations(first, policy, 1) == second);
    assert(generations(board, policy, 2) == second);
}

/// Whether the cell `(x, y)`, counted from the glider's corner, is alive
/// in the given phase of the glider's cycle. Phase 0 is the canonical
/// shape; a phase outside the cycle has no live cell.
pub open spec fn glider_cell(phase: int, x: int, y: int) -> bool {
    if phase == 0 {
        (x == 1 && y == 0) || (x == 2 && y == 1) || (x == 0 && y == 2) || (x == 1 && y == 2) || (x
            == 2 && y == 2)
    } else if phase == 1 {
        (x == 0 && y == 1) || (x == 2 && y == 1) || (x == 1 && y == 2) || (x == 2 && y == 2) || (x
            == 1 && y == 3)
    } else if phase == 2 {
        (x == 2 && y == 1) || (x == 0 && y == 2) || (x == 2 && y == 2) || (x == 1 && y == 3) || (x
            == 2 && y == 3)
    } else if phase == 3 {
        (x == 1 && y == 1) || (x == 2 && y == 2) || (x == 3 && y == 2) || (x == 1 && y == 3) || (x
            == 2 && y == 3)
    } else {
        false
    }
}

/// The live cells of `board` are exactly those of a glider in the given
/// phase with its corner at `(ox, oy)`.
pub open spec fn is_lone_glider(board: Board, ox: int, oy: int, phase: int) -> bool {
    forall|x: int, y: int|
        in_bounds(board, x, y) ==> ((#[trigger] board[x][y]).alive() <==> glider_cell(
            phase,
            x - ox,
            y - oy,
        ))
}

/// A board of the given size has room for a glider with its corner at
/// `(ox, oy)` to run through one cycle: the four-by-four square that the
/// cycle sweeps lies on the board, and on a torus the board is at least
/// five cells wide and high.
pub open spec fn has_room_for_glider(
    width: int,
    height: int,
    ox: int,
    oy: int,
    policy: EdgePolicy,
) -> bool {
    &&& 0 <= ox
    &&& ox + 3 < width
    &&& 0 <= oy
    &&& oy + 3 < height
    &&& policy == EdgePolicy::Wrap ==> width >= 5 && height >= 5
}

/// One generation takes a lone glider from one phase of its cycle to the
/// next; from the last phase it arrives in the canonical shape one cell
/// further along both axes.
pub proof fn lemma_glider_advances(
    board: Board,
    width: int,
    height: int,
    ox: int,
    oy: int,
    phase: int,
    policy: EdgePolicy,
)
    requires
        is_rect(board, width, height),
        has_room_for_glider(width, height, ox, oy, policy),
        0 <= phase <= 3,
        is_lone_glider(board, ox, oy, phase),
    ensures
        is_rect(next_generation(board, policy), width, height),
        phase < 3 ==> is_lone_glider(next_generation(board, policy), ox, oy, phase + 1),
        phase == 3 ==> is_lone_glider(next_generation(board, policy), ox + 1, oy + 1, 0),
{
    reveal(alive_at);
    let next = next_generation(board, policy);
    assert forall|x: int, y: int| in_bounds(next, x, y) implies ((#[trigger] next[x][y]).alive()
        <==> if phase < 3 {
        glider_cell(phase + 1, x - ox, y - oy)
    } else {
        glider_cell(0, x - ox - 1, y - oy - 1)
    }) by {
        lemma_wrap_around(x, y, width, height);
    }
}

/// A lone glider in its canonical shape is, four generations later, the
/// same shape translated by `(1, 1)`.
pub proof fn lemma_glider_translates(
    board: Board,
    width: int,
    height: int,
    ox: int,
    oy: int,
    policy: EdgePolicy,
)
    requires
        is_rect(board, width, height),
        has_room_for_glider(width, height, ox, oy, policy),
        is_lone_glider(board, ox, oy, 0),
    ensures
        is_lone_glider(generations(board, policy, 4), ox + 1, oy + 1, 0),
{
    let first = next_generation(board, policy);
    let second = next_generation(first, policy);
    let third = next_generation(second, policy);
    let fourth = next_generation(third, policy);
    lemma_glider_advances(board, width, height, ox, oy, 0, policy);
    lemma_glider_advances(first, width, height, ox, oy, 1, policy);
    lemma_glider_advances(second, width, height, ox, oy, 2, policy);
    lemma_glider_advances(third, width, height, ox, oy, 3, policy);
    assert(generations(fourth, policy, 0) == fourth);
    assert(generations(third, policy, 1) == fourth);
    assert(generations(second, policy, 2) == fourth);
    assert(generations(first, policy, 3) == fourth);
    assert(generations(board, policy, 4) == fourth);
}

} // verus!
