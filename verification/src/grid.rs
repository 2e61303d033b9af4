//! The grid of cells and the detached pattern snapshot.
//!
//! Both keep their states in dense column-major storage and present them as
//! a [`Board`]: `grid@[x][y]` is the state at column `x`, row `y`.

use vstd::prelude::*;
use crate::board::{
    board_of, is_rect, lemma_flat_index_bounds, lemma_unflatten_update, unflatten, uniform, Board,
};
use crate::state::State;

verus! {

/// An immutable rectangle of states with no position attached: a prefab
/// template or a snapshot of a grid. It may be empty in either direction.
#[derive(Debug)]
pub struct Pattern {
    width: usize,
    height: usize,
    cells: Vec<State>,
}

/// The live world: a fully populated rectangle of cells with at least one
/// column and one row.
#[derive(Debug)]
pub struct Grid {
    width: usize,
    height: usize,
    cells: Vec<State>,
}

/// Whether a grid of the given size can be built: it has at least one
/// column and one row, and its cells can be addressed.
pub open spec fn is_grid_size(width: int, height: int) -> bool {
    width > 0 && height > 0 && width * height <= usize::MAX
}

/// Builds `count` copies of `fill`.
fn filled(count: usize, fill: State) -> (cells: Vec<State>)
    ensures
        cells@.len() == count,
        forall|i: int| 0 <= i < count ==> cells@[i] == fill,
{
    let mut cells: Vec<State> = Vec::new();
    let mut i: usize = 0;
    while i < count
        invariant
            i <= count,
            cells@.len() == i,
            forall|k: int| 0 <= k < i ==> cells@[k] == fill,
        decreases count - i,
    {
        cells.push(fill);
        i += 1;
    }
    cells
}

/// Copies `source` state by state.
fn copied(source: &Vec<State>) -> (cells: Vec<State>)
    ensures
        cells@ == source@,
{
    let mut cells: Vec<State> = Vec::new();
    let mut i: usize = 0;
    while i < source.len()
        invariant
            i <= source@.len(),
            cells@.len() == i,
            forall|k: int| 0 <= k < i ==> cells@[k] == source@[k],
        decreases source@.len() - i,
    {
        cells.push(source[i]);
        i += 1;
    }
    assert(cells@ =~= source@);
    cells
}

/// A copy holds the same states at the same coordinates.
impl Clone for Pattern {
    fn clone(&self) -> (copy: Self)
        ensures
            copy@ == self@,
            copy.spec_width() == self.spec_width(),
            copy.spec_height() == self.spec_height(),
            self.wf() ==> copy.wf(),
    {
        Pattern { width: self.width, height: self.height, cells: copied(&self.cells) }
    }
}

/// A copy holds the same states at the same coordinates.
impl Clone for Grid {
    fn clone(&self) -> (copy: Self)
        ensures
            copy@ == self@,
            copy.spec_width() == self.spec_width(),
            copy.spec_height() == self.spec_height(),
            self.wf() ==> copy.wf(),
    {
        Grid { width: self.width, height: self.height, cells: copied(&self.cells) }
    }
}

impl Pattern {
    /// The number of columns.
    pub closed spec fn spec_width(&self) -> int {
        self.width as int
    }

    /// The number of rows.
    pub closed spec fn spec_height(&self) -> int {
        self.height as int
    }

    /// The states, column by column.
    pub closed spec fn view(&self) -> Board {
        unflatten(self.cells@, self.width as int, self.height as int)
    }

    /// The storage holds exactly one state per coordinate.
    pub closed spec fn dense(&self) -> bool {
        self.cells@.len() == self.width * self.height
    }

    /// The pattern is dense and its board has the declared shape.
    pub open spec fn wf(&self) -> bool {
        &&& self.dense()
        &&& 0 <= self.spec_width() <= usize::MAX
        &&& 0 <= self.spec_height() <= usize::MAX
        &&& is_rect(self@, self.spec_width(), self.spec_height())
    }

    /// Builds a pattern of the declared size over `cells`, which lists the
    /// states column by column: the state at `(x, y)` stands at position
    /// `x * height + y`. The length of `cells` must agree with the declared
    /// size.
    pub fn new(width: usize, height: usize, cells: Vec<State>) -> (pattern: Pattern)
        requires
            cells@.len() == width * height,
        ensures
            pattern.wf(),
            pattern.spec_width() == width,
            pattern.spec_height() == height,
            pattern@ == unflatten(cells@, width as int, height as int),
    {
        Pattern { width, height, cells }
    }

    /// Builds a pattern from its columns. Returns `None` unless every column
    /// has the length of the first; no columns at all give the empty pattern.
    pub fn from_columns(columns: &Vec<Vec<State>>) -> (pattern: Option<Pattern>)
        ensures
            pattern.is_some() <==> forall|x: int|
                0 <= x < columns@.len() ==> (#[trigger] columns@[x])@.len() == columns@[0]@.len(),
            pattern matches Some(p) ==> {
                &&& p.wf()
                &&& p.spec_width() == columns@.len()
                &&& p.spec_height() == (if columns@.len() == 0 {
                    0
                } else {
                    columns@[0]@.len() as int
                })
                &&& p@ == board_of(columns@)
            },
    {
        let width = columns.len();
        if width == 0 {
            let pattern = Pattern { width: 0, height: 0, cells: Vec::new() };
            assert(pattern@ =~~= board_of(columns@));
            return Some(pattern);
        }
        let height = columns[0].len();
        let mut cells: Vec<State> = Vec::new();
        let mut x: usize = 0;
        while x < width
            invariant
                width == columns@.len(),
                height == columns@[0]@.len(),
                width > 0,
                x <= width,
                cells@.len() == x * height,
                forall|i: int| 0 <= i < x ==> (#[trigger] columns@[i])@.len() == height,
                forall|i: int, j: int|
                    0 <= i < x && 0 <= j < height ==> cells@[i * height + j]
                        == #[trigger] columns@[i]@[j],
            decreases width - x,
        {
            let column = &columns[x];
            if column.len() != height {
                return None;
            }
            let mut y: usize = 0;
            while y < height
                invariant
                    width == columns@.len(),
                    height == columns@[0]@.len(),
                    x < width,
                    y <= height,
                    column == columns@[x as int],
                    column@.len() == height,
                    cells@.len() == x * height + y,
                    forall|i: int, j: int|
                        0 <= i < x && 0 <= j < height ==> cells@[i * height + j]
                            == #[trigger] columns@[i]@[j],
                    forall|j: int| 0 <= j < y ==> cells@[x * height + j] == #[trigger] column@[j],
                decreases height - y,
            {
                let ghost before = cells@;
                cells.push(column[y]);
                proof {
                    assert forall|i: int, j: int| 0 <= i < x && 0 <= j < height implies cells@[i
                        * height + j] == #[trigger] columns@[i]@[j] by {
                        lemma_flat_index_bounds(i, j, x as int, height as int);
                        assert(before[i * height + j] == columns@[i]@[j]);
                    }
                }
                y += 1;
            }
            proof {
                assert((x + 1) * height == x * height + height) by (nonlinear_arith);
            }
            x += 1;
        }
        let pattern = Pattern { width, height, cells };
        proof {
            assert forall|i: int, j: int| 0 <= i < width && 0 <= j < height implies (
            #[trigger] pattern@[i][j]) == board_of(columns@)[i][j] by {
                assert(columns@[i]@[j] == cells@[i * height + j]);
            }
            assert forall|i: int| 0 <= i < width implies (#[trigger] pattern@[i]).len()
                == board_of(columns@)[i].len() by {
                assert(columns@[i]@.len() == height);
            }
            assert(pattern@ =~~= board_of(columns@));
        }
        Some(pattern)
    }

    /// The number of columns.
    pub fn width(&self) -> (w: usize)
        ensures
            w == self.spec_width(),
    {
        self.width
    }

    /// The number of rows.
    pub fn height(&self) -> (h: usize)
        ensures
            h == self.spec_height(),
    {
        self.height
    }

    /// The state at `(x, y)`.
    pub fn get(&self, x: usize, y: usize) -> (state: State)
        requires
            self.wf(),
            x < self.spec_width(),
            y < self.spec_height(),
        ensures
            state == self@[x as int][y as int],
    {
        let count = self.cells.len();
        proof {
            lemma_flat_index_bounds(x as int, y as int, self.width as int, self.height as int);
            assert(count == self.width * self.height);
        }
        self.cells[x * self.height + y]
    }

    /// Copies the states out, one vector per column.
    pub fn to_columns(&self) -> (columns: Vec<Vec<State>>)
        requires
            self.wf(),
        ensures
            board_of(columns@) == self@,
    {
        let mut columns: Vec<Vec<State>> = Vec::new();
        let mut x: usize = 0;
        while x < self.width
            invariant
                self.wf(),
                x <= self.width,
                columns@.len() == x,
                forall|i: int| 0 <= i < x ==> (#[trigger] columns@[i])@ == self@[i],
            decreases self.width - x,
        {
            let mut column: Vec<State> = Vec::new();
            let mut y: usize = 0;
            while y < self.height
                invariant
                    self.wf(),
                    x < self.width,
                    y <= self.height,
                    column@.len() == y,
                    forall|j: int| 0 <= j < y ==> column@[j] == self@[x as int][j],
                decreases self.height - y,
            {
                column.push(self.get(x, y));
                y += 1;
            }
            assert(column@ =~= self@[x as int]);
            columns.push(column);
            x += 1;
        }
        assert(board_of(columns@) =~~= self@);
        columns
    }
}

impl Grid {
    /// The number of columns.
    pub closed spec fn spec_width(&self) -> int {
        self.width as int
    }

    /// The number of rows.
    pub closed spec fn spec_height(&self) -> int {
        self.height as int
    }

    /// The states, column by column.
    pub closed spec fn view(&self) -> Board {
        unflatten(self.cells@, self.width as int, self.height as int)
    }

    /// The storage holds exactly one state per coordinate.
    pub closed spec fn dense(&self) -> bool {
        self.cells@.len() == self.width * self.height
    }

    /// The grid is dense, has at least one column and one row, and its board
    /// has the declared shape.
    pub open spec fn wf(&self) -> bool {
        &&& self.dense()
        &&& 0 < self.spec_width() <= usize::MAX
        &&& 0 < self.spec_height() <= usize::MAX
        &&& self.spec_width() * self.spec_height() <= usize::MAX
        &&& is_rect(self@, self.spec_width(), self.spec_height())
    }

    /// Tells whether a grid of the given size can be built, which is what
    /// `create` asks of its caller.
    pub fn can_create(width: usize, height: usize) -> (ok: bool)
        ensures
            ok == is_grid_size(width as int, height as int),
    {
        width > 0 && height > 0 && width.checked_mul(height).is_some()
    }

    /// Allocates a grid of the given size with every cell `Unborn`. Both
    /// dimensions must be positive and the cell count must be addressable.
    pub fn create(width: usize, height: usize) -> (grid: Grid)
        requires
            is_grid_size(width as int, height as int),
        ensures
            grid.wf(),
            grid.spec_width() == width,
            grid.spec_height() == height,
            grid@ == uniform(width as int, height as int, State::Unborn),
    {
        let cells = filled(width * height, State::Unborn);
        let grid = Grid { width, height, cells };
        proof {
            assert forall|x: int, y: int| 0 <= x < width && 0 <= y < height implies (
            #[trigger] grid@[x][y]) == State::Unborn by {
                lemma_flat_index_bounds(x, y, width as int, height as int);
            }
            assert(grid@ =~~= uniform(width as int, height as int, State::Unborn));
        }
        grid
    }

    /// The number of columns.
    pub fn width(&self) -> (w: usize)
        ensures
            w == self.spec_width(),
    {
        self.width
    }

    /// The number of rows.
    pub fn height(&self) -> (h: usize)
        ensures
            h == self.spec_height(),
    {
        self.height
    }

    /// The state at `(x, y)`.
    pub fn get(&self, x: usize, y: usize) -> (state: State)
        requires
            self.wf(),
            x < self.spec_width(),
            y < self.spec_height(),
        ensures
            state == self@[x as int][y as int],
    {
        proof {
            lemma_flat_index_bounds(x as int, y as int, self.width as int, self.height as int);
        }
        self.cells[x * self.height + y]
    }

    /// Overwrites the state at `(x, y)` and leaves every other cell alone.
    pub fn set(&mut self, x: usize, y: usize, state: State)
        requires
            old(self).wf(),
            x < old(self).spec_width(),
            y < old(self).spec_height(),
        ensures
            final(self).wf(),
            final(self).spec_width() == old(self).spec_width(),
            final(self).spec_height() == old(self).spec_height(),
            final(self)@ == old(self)@.update(
                x as int,
                old(self)@[x as int].update(y as int, state),
            ),
    {
        proof {
            lemma_flat_index_bounds(x as int, y as int, self.width as int, self.height as int);
            lemma_unflatten_update(
                self.cells@,
                self.width as int,
                self.height as int,
                x as int,
                y as int,
                state,
            );
        }
        let index = x * self.height + y;
        self.cells.set(index, state);
    }

    /// Replaces the whole storage by `cells`, which lists the new states
    /// column by column.
    pub(crate) fn overwrite(&mut self, cells: Vec<State>)
        requires
            old(self).wf(),
            cells@.len() == old(self).spec_width() * old(self).spec_height(),
        ensures
            final(self).wf(),
            final(self).spec_width() == old(self).spec_width(),
            final(self).spec_height() == old(self).spec_height(),
            final(self)@ == unflatten(cells@, old(self).spec_width(), old(self).spec_height()),
    {
        self.cells = cells;
    }

    /// Snapshots the whole grid into a pattern of the same size, keeping
    /// every state at its coordinate.
    pub fn to_pattern(&self) -> (pattern: Pattern)
        requires
            self.wf(),
        ensures
            pattern.wf(),
            pattern.spec_width() == self.spec_width(),
            pattern.spec_height() == self.spec_height(),
            pattern@ == self@,
    {
        let cells = copied(&self.cells);
        Pattern { width: self.width, height: self.height, cells }
    }
}

} // verus!
