use game_of_life::entity::Entity;
use game_of_life::grid::{Grid, Pattern};
use game_of_life::state::State;
use game_of_life::vec2_int::Vec2Int;

#[test]
fn created_grid_is_all_unborn() {
    let grid = Grid::create(3, 2);
    assert_eq!(grid.width(), 3);
    assert_eq!(grid.height(), 2);
    for x in 0..3 {
        for y in 0..2 {
            assert_eq!(grid.get(x, y), State::Unborn);
        }
    }
}

#[test]
fn set_changes_one_cell_only() {
    let mut grid = Grid::create(3, 4);
    grid.set(2, 1, State::Alive);
    grid.set(1, 3, State::Dead);
    for x in 0..3 {
        for y in 0..4 {
            let expected = if (x, y) == (2, 1) {
                State::Alive
            } else if (x, y) == (1, 3) {
                State::Dead
            } else {
                State::Unborn
            };
            assert_eq!(grid.get(x, y), expected);
        }
    }
}

#[test]
fn to_pattern_keeps_coordinate_order() {
    let mut grid = Grid::create(2, 3);
    grid.set(0, 2, State::Alive);
    grid.set(1, 0, State::Dead);
    let pattern = grid.to_pattern();
    assert_eq!(pattern.width(), 2);
    assert_eq!(pattern.height(), 3);
    assert_eq!(pattern.get(0, 2), State::Alive);
    assert_eq!(pattern.get(1, 0), State::Dead);
    assert_eq!(pattern.get(1, 2), State::Unborn);
    assert_eq!(
        pattern.to_columns(),
        vec![
            vec![State::Unborn, State::Unborn, State::Alive],
            vec![State::Dead, State::Unborn, State::Unborn],
        ]
    );
}

#[test]
fn to_pattern_is_a_deep_copy() {
    let mut grid = Grid::create(2, 2);
    let pattern = grid.to_pattern();
    grid.set(0, 0, State::Alive);
    assert_eq!(pattern.get(0, 0), State::Unborn);
}

#[test]
fn pattern_new_reads_column_major() {
    let pattern = Pattern::new(
        2,
        3,
        vec![
            State::Alive,
            State::Dead,
            State::Unborn,
            State::Dead,
            State::Alive,
            State::Alive,
        ],
    );
    assert_eq!(pattern.get(0, 0), State::Alive);
    assert_eq!(pattern.get(0, 1), State::Dead);
    assert_eq!(pattern.get(0, 2), State::Unborn);
    assert_eq!(pattern.get(1, 0), State::Dead);
    assert_eq!(pattern.get(1, 2), State::Alive);
}

#[test]
fn pattern_from_columns_rejects_ragged_input() {
    let ragged = vec![vec![State::Alive, State::Dead], vec![State::Alive]];
    assert!(Pattern::from_columns(&ragged).is_none());
    let longer = vec![vec![State::Alive], vec![State::Alive, State::Dead]];
    assert!(Pattern::from_columns(&longer).is_none());
}

#[test]
fn pattern_from_columns_round_trips() {
    let columns = vec![
        vec![State::Alive, State::Dead, State::Unborn],
        vec![State::Dead, State::Dead, State::Alive],
    ];
    let pattern = Pattern::from_columns(&columns).unwrap();
    assert_eq!(pattern.width(), 2);
    assert_eq!(pattern.height(), 3);
    assert_eq!(pattern.to_columns(), columns);
}

#[test]
fn empty_pattern_has_no_size() {
    let pattern = Pattern::from_columns(&Vec::new()).unwrap();
    assert_eq!(pattern.width(), 0);
    assert_eq!(pattern.height(), 0);
    assert_eq!(pattern.to_columns(), Vec::<Vec<State>>::new());
    let flat = Pattern::new(3, 0, Vec::new());
    assert_eq!(flat.width(), 3);
    assert_eq!(flat.height(), 0);
}

#[test]
fn flip_state_toggles_between_alive_and_dead() {
    let mut entity = Entity::new(Vec2Int::new(3, 4));
    assert_eq!(entity.state, State::Unborn);
    assert_eq!(entity.position, Vec2Int::new(3, 4));
    assert_eq!(entity.flip_state(), State::Alive);
    assert_eq!(entity.state, State::Alive);
    assert_eq!(entity.flip_state(), State::Dead);
    assert_eq!(entity.state, State::Dead);
    assert_eq!(entity.flip_state(), State::Alive);
    assert_eq!(entity.position, Vec2Int::new(3, 4));
}

#[test]
fn state_helpers_agree_with_the_rules() {
    assert!(State::Alive.is_alive());
    assert!(!State::Dead.is_alive());
    assert!(!State::Unborn.is_alive());
    assert_eq!(State::Unborn.flip(), State::Alive);
    assert_eq!(State::Dead.flip(), State::Alive);
    assert_eq!(State::Alive.flip(), State::Dead);
}

#[test]
fn merge_keeps_unborn_under_dead_only() {
    let all = [State::Unborn, State::Alive, State::Dead];
    for &destination in &all {
        for &incoming in &all {
            let expected = if destination == State::Unborn && incoming == State::Dead {
                State::Unborn
            } else {
                incoming
            };
            assert_eq!(destination.merge(incoming), expected);
        }
    }
}
