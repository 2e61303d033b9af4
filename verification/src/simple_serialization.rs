//! The stored layout of a pattern: a table of states written line by line,
//! the transpose of the column-by-column layout that the world uses.

use vstd::prelude::*;
use crate::board::{board_of, is_rect, Board};
use crate::state::State;

verus! {

/// Whether a table is well formed and so can be flipped: it has a first
/// line, and every line is as long as the first.
pub open spec fn flippable(table: Board) -> bool {
    &&& table.len() > 0
    &&& forall|x: int| 0 <= x < table.len() ==> (#[trigger] table[x]).len() == table[0].len()
}

/// The transpose of `table`: one line for every place of its first line,
/// each as long as `table` has lines, and holding at line `y`, place `x`
/// what `table` holds at line `x`, place `y`.
pub open spec fn flipped(table: Board) -> Board {
    Seq::new(table[0].len(), |y: int| Seq::new(table.len(), |x: int| table[x][y]))
}

/// Flipping a table twice gives the table back, so what is flipped for
/// storage and flipped again on loading arrives unchanged.
pub proof fn lemma_flip_twice(table: Board, lines: int, places: int)
    requires
        is_rect(table, lines, places),
        lines > 0,
        places > 0,
    ensures
        flippable(table),
        is_rect(flipped(table), places, lines),
        flippable(flipped(table)),
        flipped(flipped(table)) == table,
{
    let once = flipped(table);
    assert(table[0].len() == places);
    assert(once[0].len() == lines);
    assert(flipped(once) =~~= table);
}

/// Tells whether `table` is well formed: it has a first line, and every
/// line is as long as the first. A table with a line shorter or longer
/// than the first is malformed.
pub fn can_flip(table: &Vec<Vec<State>>) -> (ok: bool)
    ensures
        ok == flippable(board_of(table@)),
{
    if table.len() == 0 {
        return false;
    }
    let first = table[0].len();
    let mut x: usize = 0;
    while x < table.len()
        invariant
            table@.len() > 0,
            first == table@[0]@.len(),
            x <= table@.len(),
            forall|i: int| 0 <= i < x ==> (#[trigger] board_of(table@)[i]).len() == first,
        decreases table@.len() - x,
    {
        if table[x].len() != first {
            assert(board_of(table@)[x as int].len() != board_of(table@)[0].len());
            return false;
        }
        x += 1;
    }
    true
}

/// Transposes a well-formed table of states, so that a table stored line by
/// line comes out column by column and the other way round.
pub fn flip_vector(table: &Vec<Vec<State>>) -> (result: Vec<Vec<State>>)
    requires
        flippable(board_of(table@)),
    ensures
        board_of(result@) == flipped(board_of(table@)),
{
    let ghost board = board_of(table@);
    let height = table[0].len();
    let width = table.len();
    let mut result: Vec<Vec<State>> = Vec::new();
    let mut y: usize = 0;
    while y < height
        invariant
            board == board_of(table@),
            flippable(board),
            height == board[0].len(),
            width == board.len(),
            y <= height,
            result@.len() == y,
            forall|j: int| 0 <= j < y ==> (#[trigger] result@[j])@.len() == width,
            forall|j: int, i: int|
                0 <= j < y && 0 <= i < width ==> (#[trigger] result@[j]@[i]) == board[i][j],
        decreases height - y,
    {
        let mut line: Vec<State> = Vec::new();
        let mut x: usize = 0;
        while x < width
            invariant
                board == board_of(table@),
                width == board.len(),
                x <= width,
                line@.len() == x,
                flippable(board),
                height == board[0].len(),
                y < height,
                forall|i: int| 0 <= i < x ==> line@[i] == board[i][y as int],
            decreases width - x,
        {
            let source = &table[x];
            assert(source@ == board[x as int]);
            assert(source@.len() == height);
            line.push(source[y]);
            x += 1;
        }
        result.push(line);
        y += 1;
    }
    assert(board_of(result@) =~~= flipped(board));
    result
}

} // verus!
