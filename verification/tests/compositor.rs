use game_of_life::compositor::{paste, paste_cells, resize};
use game_of_life::grid::{Grid, Pattern};
use game_of_life::state::State;

fn filled_grid(columns: &[Vec<State>]) -> Grid {
    let mut grid = Grid::create(columns.len(), columns[0].len());
    for x in 0..columns.len() {
        for y in 0..columns[x].len() {
            grid.set(x, y, columns[x][y]);
        }
    }
    grid
}

fn columns_of(grid: &Grid) -> Vec<Vec<State>> {
    grid.to_pattern().to_columns()
}

const U: State = State::Unborn;
const A: State = State::Alive;
const D: State = State::Dead;

#[test]
fn paste_of_own_snapshot_changes_nothing() {
    let grid_columns = vec![vec![A, D, D], vec![D, A, A], vec![A, A, D]];
    let mut grid = filled_grid(&grid_columns);
    let snapshot = grid.to_pattern();
    paste(&mut grid, &snapshot, (0, 0));
    assert_eq!(columns_of(&grid), grid_columns);
}

#[test]
fn paste_of_own_snapshot_keeps_unborn_cells_too() {
    let grid_columns = vec![vec![U, D], vec![A, U]];
    let mut grid = filled_grid(&grid_columns);
    let snapshot = grid.to_pattern();
    paste(&mut grid, &snapshot, (0, 0));
    assert_eq!(columns_of(&grid), grid_columns);
}

#[test]
fn paste_applies_the_merge_rule() {
    let mut grid = filled_grid(&[vec![U, U, U], vec![A, A, A], vec![D, D, D]]);
    let pattern = Pattern::from_columns(&vec![vec![U, A, D], vec![U, A, D], vec![U, A, D]]).unwrap();
    paste(&mut grid, &pattern, (0, 0));
    assert_eq!(
        columns_of(&grid),
        vec![vec![U, A, U], vec![U, A, D], vec![U, A, D]]
    );
}

#[test]
fn paste_at_an_offset_skips_what_overflows() {
    let mut grid = Grid::create(3, 3);
    let pattern = Pattern::from_columns(&vec![vec![A, A], vec![A, A]]).unwrap();
    paste(&mut grid, &pattern, (2, 2));
    assert_eq!(
        columns_of(&grid),
        vec![vec![U, U, U], vec![U, U, U], vec![U, U, A]]
    );
}

#[test]
fn paste_at_a_negative_offset_keeps_the_overlap() {
    let mut grid = Grid::create(3, 3);
    let pattern = Pattern::from_columns(&vec![vec![A, D], vec![D, A]]).unwrap();
    grid.set(0, 0, State::Dead);
    paste(&mut grid, &pattern, (-1, -1));
    assert_eq!(
        columns_of(&grid),
        vec![vec![A, U, U], vec![U, U, U], vec![U, U, U]]
    );
}

#[test]
fn paste_far_outside_changes_nothing() {
    let before = vec![vec![A, D], vec![U, A]];
    let pattern = Pattern::from_columns(&vec![vec![A, A], vec![A, A]]).unwrap();
    for offset in [
        (2, 0),
        (0, 2),
        (-2, 0),
        (0, -2),
        (i64::MAX, i64::MAX),
        (i64::MIN, i64::MIN),
        (i64::MAX, 0),
        (0, i64::MIN),
    ] {
        let mut grid = filled_grid(&before);
        paste(&mut grid, &pattern, offset);
        assert_eq!(columns_of(&grid), before);
    }
}

#[test]
fn paste_of_an_empty_pattern_changes_nothing() {
    let before = vec![vec![A, D], vec![U, A]];
    let mut grid = filled_grid(&before);
    let pattern = Pattern::new(0, 0, Vec::new());
    paste(&mut grid, &pattern, (0, 0));
    assert_eq!(columns_of(&grid), before);
}

#[test]
fn paste_cells_stamps_at_the_clicked_cell() {
    let mut grid = Grid::create(4, 3);
    let prefab = Pattern::from_columns(&vec![vec![A, D], vec![D, A]]).unwrap();
    grid.set(2, 2, State::Alive);
    paste_cells((1, 1), &prefab, &mut grid);
    assert_eq!(
        columns_of(&grid),
        vec![vec![U, U, U], vec![U, A, U], vec![U, U, A], vec![U, U, U]]
    );
    paste_cells((2, 1), &prefab, &mut grid);
    assert_eq!(
        columns_of(&grid),
        vec![vec![U, U, U], vec![U, A, U], vec![U, A, D], vec![U, U, A]]
    );
}

#[test]
fn resize_centres_a_four_by_four_in_a_six_by_six() {
    let old = vec![
        vec![A, U, U, A],
        vec![U, A, A, U],
        vec![U, A, U, U],
        vec![A, U, U, A],
    ];
    let grid = filled_grid(&old);
    let grown = resize(&grid, 6, 6);
    assert_eq!(grown.width(), 6);
    assert_eq!(grown.height(), 6);
    for x in 0..6 {
        for y in 0..6 {
            let inside = (1..5).contains(&x) && (1..5).contains(&y);
            let expected = if inside { old[x - 1][y - 1] } else { U };
            assert_eq!(grown.get(x, y), expected);
        }
    }
}

#[test]
fn resize_rounds_the_offset_down() {
    let grid = filled_grid(&[vec![A, A], vec![A, A]]);
    let grown = resize(&grid, 5, 3);
    assert_eq!(
        columns_of(&grown),
        vec![
            vec![U, U, U],
            vec![A, A, U],
            vec![A, A, U],
            vec![U, U, U],
            vec![U, U, U],
        ]
    );
}

#[test]
fn resize_turns_dead_cells_unborn() {
    let grid = filled_grid(&[vec![D, A], vec![A, D]]);
    let grown = resize(&grid, 2, 2);
    assert_eq!(columns_of(&grown), vec![vec![U, A], vec![A, U]]);
}

#[test]
fn resize_discards_everything_on_shrink() {
    let grid = filled_grid(&[vec![A, A, A], vec![A, A, A], vec![A, A, A]]);
    for (width, height) in [(2, 3), (3, 2), (2, 5), (7, 1), (1, 1)] {
        let shrunk = resize(&grid, width, height);
        assert_eq!(shrunk.width(), width);
        assert_eq!(shrunk.height(), height);
        for x in 0..width {
            for y in 0..height {
                assert_eq!(shrunk.get(x, y), U);
            }
        }
    }
}

#[test]
fn resize_leaves_the_old_grid_alone() {
    let old = vec![vec![A, D], vec![U, A]];
    let grid = filled_grid(&old);
    let _ = resize(&grid, 4, 4);
    assert_eq!(columns_of(&grid), old);
}
