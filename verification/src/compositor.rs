//! The pattern compositor: stamping a pattern onto a grid at an offset, and
//! resizing the world around its centred content.

use vstd::prelude::*;
use crate::board::{in_bounds, is_rect, uniform, Board};
use crate::grid::{is_grid_size, Grid, Pattern};
use crate::state::State;

verus! {

/// The board that results from stamping `pattern` onto `board` with the
/// pattern's origin at `(dx, dy)`.
///
/// A cell of the board that a pattern cell lands on takes the merge of its
/// state with the pattern's; pattern cells that land outside the board are
/// dropped, and cells that no pattern cell reaches keep their state.
pub open spec fn pasted(board: Board, pattern: Board, dx: int, dy: int) -> Board {
    Seq::new(
        board.len(),
        |x: int|
            Seq::new(
                board[x].len(),
                |y: int|
                    if in_bounds(pattern, x - dx, y - dy) {
                        board[x][y].merged(pattern[x - dx][y - dy])
                    } else {
                        board[x][y]
                    },
            ),
    )
}

/// The board of size `width` by `height` that a resize of `board` yields.
///
/// The old content is centred: it is stamped onto an all-unborn board at
/// half the growth along each axis, rounded down. Where the new board is
/// smaller than the old one along either axis, the old content is discarded
/// altogether rather than cropped.
pub open spec fn resized(board: Board, width: int, height: int) -> Board {
    let blank = uniform(width, height, State::Unborn);
    if width < board.len() || height < board[0].len() {
        blank
    } else {
        pasted(blank, board, (width - board.len()) / 2, (height - board[0].len()) / 2)
    }
}

/// Stamping a board onto itself at the origin changes nothing.
///
/// So pasting a grid's own snapshot back at `(0, 0)` leaves the grid as it
/// was: the merge rule only ever keeps an unborn destination from a dead
/// source, and here source and destination agree in every cell. This holds
/// of every board, with or without unborn cells.
pub proof fn lemma_paste_snapshot_unchanged(board: Board)
    ensures
        pasted(board, board, 0, 0) == board,
{
    assert(pasted(board, board, 0, 0) =~~= board);
}

/// A resize that shrinks neither axis keeps the old content, centred.
///
/// With `dx` and `dy` half the growth along each axis, rounded down, the
/// new board holds at `(x + dx, y + dy)` what the old one held at `(x, y)`,
/// passed through the merge rule onto an unborn cell: a live cell arrives
/// alive, a dead or unborn one arrives unborn. Every cell outside that
/// rectangle is unborn.
pub proof fn lemma_resize_keeps_centred_content(
    board: Board,
    old_width: int,
    old_height: int,
    width: int,
    height: int,
)
    requires
        is_rect(board, old_width, old_height),
        0 < old_width <= width,
        0 < old_height <= height,
    ensures
        is_rect(resized(board, width, height), width, height),
        forall|x: int, y: int|
            0 <= x < old_width && 0 <= y < old_height ==> #[trigger] resized(
                board,
                width,
                height,
            )[x + (width - old_width) / 2][y + (height - old_height) / 2]
                == State::Unborn.merged(board[x][y]),
        forall|x: int, y: int|
            0 <= x < width && 0 <= y < height && !in_bounds(
                board,
                x - (width - old_width) / 2,
                y - (height - old_height) / 2,
            ) ==> (#[trigger] resized(board, width, height)[x][y]) == State::Unborn,
{
    let dx = (width - old_width) / 2;
    let dy = (height - old_height) / 2;
    let grown = resized(board, width, height);
    assert(board[0].len() == old_height);
    assert forall|x: int, y: int| 0 <= x < old_width && 0 <= y < old_height implies #[trigger] grown[x
        + dx][y + dy] == State::Unborn.merged(board[x][y]) by {
        assert(in_bounds(board, (x + dx) - dx, (y + dy) - dy));
    }
}

/// A resize that shrinks either axis discards the old content: every cell
/// of the new board is unborn.
pub proof fn lemma_resize_discards_on_shrink(board: Board, width: int, height: int)
    requires
        board.len() > 0,
        0 <= width,
        0 <= height,
        width < board.len() || height < board[0].len(),
    ensures
        resized(board, width, height) == uniform(width, height, State::Unborn),
{
}

/// Whether the pattern cell `(qx, qy)` comes before `(px, py)` in the order
/// in which a paste walks the pattern.
pub open spec fn stamped_before(qx: int, qy: int, px: int, py: int) -> bool {
    qx < px || (qx == px && qy < py)
}

/// Stamps `pattern` onto `grid` with its origin at `(dx, dy)`.
fn stamp(grid: &mut Grid, pattern: &Pattern, dx: i128, dy: i128)
    requires
        old(grid).wf(),
        pattern.wf(),
        i64::MIN <= dx <= u64::MAX,
        i64::MIN <= dy <= u64::MAX,
    ensures
        final(grid).wf(),
        final(grid).spec_width() == old(grid).spec_width(),
        final(grid).spec_height() == old(grid).spec_height(),
        final(grid)@ == pasted(old(grid)@, pattern@, dx as int, dy as int),
{
    let ghost before = grid@;
    let width = grid.width();
    let height = grid.height();
    let pattern_width = pattern.width();
    let pattern_height = pattern.height();
    let mut px: usize = 0;
    while px < pattern_width
        invariant
            grid.wf(),
            pattern.wf(),
            is_rect(before, width as int, height as int),
            width == grid.spec_width(),
            height == grid.spec_height(),
            pattern_width == pattern.spec_width(),
            pattern_height == pattern.spec_height(),
            i64::MIN <= dx <= u64::MAX,
            i64::MIN <= dy <= u64::MAX,
            px <= pattern_width,
            forall|x: int, y: int|
                0 <= x < width && 0 <= y < height ==> #[trigger] grid@[x][y] == (if in_bounds(
                    pattern@,
                    x - dx,
                    y - dy,
                ) && x - dx < px {
                    before[x][y].merged(pattern@[x - dx][y - dy])
                } else {
                    before[x][y]
                }),
        decreases pattern_width - px,
    {
        let tx: i128 = dx + px as i128;
        if 0 <= tx && tx < width as i128 {
            let mut py: usize = 0;
            while py < pattern_height
                invariant
                    grid.wf(),
                    pattern.wf(),
                    is_rect(before, width as int, height as int),
                    width == grid.spec_width(),
                    height == grid.spec_height(),
                    pattern_width == pattern.spec_width(),
                    pattern_height == pattern.spec_height(),
                    i64::MIN <= dx <= u64::MAX,
                    i64::MIN <= dy <= u64::MAX,
                    px < pattern_width,
                    py <= pattern_height,
                    tx == dx + px,
                    0 <= tx < width,
                    forall|x: int, y: int|
                        0 <= x < width && 0 <= y < height ==> #[trigger] grid@[x][y] == (
                        if in_bounds(pattern@, x - dx, y - dy) && stamped_before(
                            x - dx,
                            y - dy,
                            px as int,
                            py as int,
                        ) {
                            before[x][y].merged(pattern@[x - dx][y - dy])
                        } else {
                            before[x][y]
                        }),
                decreases pattern_height - py,
            {
                let ty: i128 = dy + py as i128;
                if 0 <= ty && ty < height as i128 {
                    let x = tx as usize;
                    let y = ty as usize;
                    let merged = grid.get(x, y).merge(pattern.get(px, py));
                    grid.set(x, y, merged);
                }
                py += 1;
            }
        }
        px += 1;
    }
    assert(grid@ =~~= pasted(before, pattern@, dx as int, dy as int));
}

/// Stamps `pattern` onto `grid` with the pattern's origin at `offset`.
///
/// Pattern cells that land outside the grid are skipped. A dead pattern
/// cell leaves an unborn destination unborn; in every other combination the
/// destination takes the pattern's state.
pub fn paste(grid: &mut Grid, pattern: &Pattern, offset: (i64, i64))
    requires
        old(grid).wf(),
        pattern.wf(),
    ensures
        final(grid).wf(),
        final(grid).spec_width() == old(grid).spec_width(),
        final(grid).spec_height() == old(grid).spec_height(),
        final(grid)@ == pasted(old(grid)@, pattern@, offset.0 as int, offset.1 as int),
{
    stamp(grid, pattern, offset.0 as i128, offset.1 as i128);
}

/// Stamps `prefab` onto `entities` with the pattern's origin at the cell
/// `click_pos`.
pub fn paste_cells(click_pos: (usize, usize), prefab: &Pattern, entities: &mut Grid)
    requires
        old(entities).wf(),
        prefab.wf(),
    ensures
        final(entities).wf(),
        final(entities).spec_width() == old(entities).spec_width(),
        final(entities).spec_height() == old(entities).spec_height(),
        final(entities)@ == pasted(
            old(entities)@,
            prefab@,
            click_pos.0 as int,
            click_pos.1 as int,
        ),
{
    stamp(entities, prefab, click_pos.0 as i128, click_pos.1 as i128);
}

/// Builds a grid of the new size around the content of `old_grid`.
///
/// The new grid starts all unborn. If it is at least as large as the old
/// one along both axes, the old content is stamped at the centring offset,
/// half the growth along each axis rounded down, under the paste merge
/// rule, so cells that were dead arrive unborn. If it is smaller along
/// either axis the old content is discarded, not cropped.
pub fn resize(old_grid: &Grid, new_width: usize, new_height: usize) -> (grid: Grid)
    requires
        old_grid.wf(),
        is_grid_size(new_width as int, new_height as int),
    ensures
        grid.wf(),
        grid.spec_width() == new_width,
        grid.spec_height() == new_height,
        grid@ == resized(old_grid@, new_width as int, new_height as int),
{
    let mut grid = Grid::create(new_width, new_height);
    if new_width >= old_grid.width() && new_height >= old_grid.height() {
        let dx = (new_width - old_grid.width()) / 2;
        let dy = (new_height - old_grid.height()) / 2;
        let snapshot = old_grid.to_pattern();
        stamp(&mut grid, &snapshot, dx as i128, dy as i128);
    }
    grid
}

} // verus!
