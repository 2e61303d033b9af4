//! Rectangles of cell states as mathematical values, and the index
//! arithmetic of their dense storage.
//!
//! A board is a sequence of columns: `board[x][y]` is the state at column
//! `x`, row `y`. Grids and patterns both present themselves as boards.

use vstd::prelude::*;
use crate::state::State;

verus! {

/// A rectangle of states, column by column.
pub type Board = Seq<Seq<State>>;

/// `board` has `width` columns of `height` states each.
pub open spec fn is_rect(board: Board, width: int, height: int) -> bool {
    &&& board.len() == width
    &&& forall|x: int| 0 <= x < width ==> (#[trigger] board[x]).len() == height
}

/// The board of the given size whose every cell is `fill`.
pub open spec fn uniform(width: int, height: int, fill: State) -> Board {
    Seq::new(width as nat, |x: int| Seq::new(height as nat, |y: int| fill))
}

/// The board that dense column-major storage `cells` stands for: the state
/// at `(x, y)` is stored at `x * height + y`.
pub open spec fn unflatten(cells: Seq<State>, width: int, height: int) -> Board {
    Seq::new(width as nat, |x: int| Seq::new(height as nat, |y: int| cells[x * height + y]))
}

/// The board that a vector of columns stands for.
pub open spec fn board_of(columns: Seq<Vec<State>>) -> Board {
    Seq::new(columns.len(), |x: int| columns[x]@)
}

/// Whether `(x, y)` addresses a cell of `board`.
pub open spec fn in_bounds(board: Board, x: int, y: int) -> bool {
    0 <= x < board.len() && 0 <= y < board[x].len()
}

/// The storage position of an in-range coordinate lies inside the storage.
pub proof fn lemma_flat_index_bounds(x: int, y: int, width: int, height: int)
    requires
        0 <= x < width,
        0 <= y < height,
    ensures
        0 <= x * height + y < width * height,
        x * height + height <= width * height,
        0 <= x * height,
{
    assert(x * height >= 0) by (nonlinear_arith)
        requires
            x >= 0,
            height > 0,
    ;
    assert(x * height + height <= width * height) by (nonlinear_arith)
        requires
            x + 1 <= width,
            height > 0,
    ;
}

/// Two in-range coordinates that share a storage position are the same
/// coordinate.
pub proof fn lemma_flat_index_injective(x1: int, y1: int, x2: int, y2: int, height: int)
    requires
        0 <= y1 < height,
        0 <= y2 < height,
        x1 * height + y1 == x2 * height + y2,
    ensures
        x1 == x2,
        y1 == y2,
{
    if x1 < x2 {
        assert(x1 * height + height <= x2 * height) by (nonlinear_arith)
            requires
                x1 + 1 <= x2,
                height > 0,
        ;
    } else if x2 < x1 {
        assert(x2 * height + height <= x1 * height) by (nonlinear_arith)
            requires
                x2 + 1 <= x1,
                height > 0,
        ;
    }
}

/// Overwriting one storage position changes exactly the matching cell of
/// the board.
pub proof fn lemma_unflatten_update(
    cells: Seq<State>,
    width: int,
    height: int,
    x: int,
    y: int,
    state: State,
)
    requires
        0 <= x < width,
        0 <= y < height,
        cells.len() == width * height,
    ensures
        unflatten(cells.update(x * height + y, state), width, height) == unflatten(
            cells,
            width,
            height,
        ).update(x, unflatten(cells, width, height)[x].update(y, state)),
{
    let before = unflatten(cells, width, height);
    let after = unflatten(cells.update(x * height + y, state), width, height);
    let expected = before.update(x, before[x].update(y, state));
    lemma_flat_index_bounds(x, y, width, height);
    assert forall|i: int, j: int| 0 <= i < width && 0 <= j < height implies #[trigger] after[i][j]
        == expected[i][j] by {
        lemma_flat_index_bounds(i, j, width, height);
        if i * height + j == x * height + y {
            lemma_flat_index_injective(i, j, x, y, height);
        }
    }
    assert(after =~~= expected);
}

} // verus!
