use game_of_life::gameplay::{to_pure_states, Gameplay, UpdateEvents};
use game_of_life::grid::Grid;
use game_of_life::prefabs::{pattern_from_table, Prefab, Prefabs};
use game_of_life::simple_serialization::{can_flip, flip_vector};
use game_of_life::sound_files::Sounds;
use game_of_life::state::State;
use game_of_life::vec2_int::Vec2Int;

const U: State = State::Unborn;
const A: State = State::Alive;
const D: State = State::Dead;

fn glider_table() -> Vec<Vec<State>> {
    vec![vec![D, A, D], vec![D, D, A], vec![A, A, A]]
}

fn catalog() -> Prefabs {
    let glider = glider_table();
    let small = vec![vec![A, D], vec![D, A], vec![A, A]];
    let line = vec![vec![A, A, A, A]];
    let dot = vec![vec![A]];
    let pair = vec![vec![A], vec![D]];
    let gun = vec![vec![D, D], vec![A, D]];
    Prefabs::new(&glider, &small, &line, &dot, &pair, &gun)
}

fn game() -> Gameplay {
    Gameplay::new(catalog(), Vec2Int::new(6, 6))
}

fn quiet() -> UpdateEvents {
    UpdateEvents {
        left_released: false,
        advance: false,
        toggle_playing: false,
        toggle_ui: false,
        toggle_instructions: false,
        toggle_debug: false,
        save: false,
        timer_elapsed: false,
    }
}

fn blinker_world() -> Grid {
    let mut grid = Grid::create(5, 5);
    grid.set(1, 2, A);
    grid.set(2, 2, A);
    grid.set(3, 2, A);
    grid
}

fn alive_cells(grid: &Grid) -> Vec<(usize, usize)> {
    let mut cells = Vec::new();
    for x in 0..grid.width() {
        for y in 0..grid.height() {
            if grid.get(x, y) == A {
                cells.push((x, y));
            }
        }
    }
    cells
}

#[test]
fn new_game_starts_with_the_documented_settings() {
    let game = game();
    assert!(game.show_debug);
    assert!(!game.auto_increment);
    assert!(game.show_instructions);
    assert!(game.show_play_control);
    assert!(!game.show_settings_control);
    assert!(game.playing);
    assert!(game.show_ui);
    assert!(game.saved_prefab.is_none());
    assert!(!game.wrap_grid);
    assert_eq!(game.game_size(), Vec2Int::new(6, 6));
    assert_eq!(game.next_game_size(), Vec2Int::new(6, 6));
    assert!(game.coords_pressed.is_empty());
    assert!(!game.resize);
}

#[test]
fn next_game_size_prefers_the_pending_size() {
    let mut game = game();
    game.set_next_game_size(Vec2Int::new(9, 4));
    assert_eq!(game.next_game_size(), Vec2Int::new(9, 4));
    assert_eq!(game.game_size(), Vec2Int::new(6, 6));
}

#[test]
fn select_toggles_a_cell_once_per_press() {
    let mut game = game();
    let mut grid = Grid::create(4, 4);
    assert_eq!(game.select((1, 2), &mut grid), Some(Sounds::MakeCellAlive));
    assert_eq!(grid.get(1, 2), A);
    assert_eq!(game.select((1, 2), &mut grid), None);
    assert_eq!(grid.get(1, 2), A);
    assert!(game.was_pressed((1, 2)));
    assert!(!game.was_pressed((2, 1)));
    let mut events = quiet();
    events.left_released = true;
    game.update(&events, &mut grid);
    assert!(!game.was_pressed((1, 2)));
    assert_eq!(game.select((1, 2), &mut grid), Some(Sounds::MakeCellDead));
    assert_eq!(grid.get(1, 2), D);
    game.update(&events, &mut grid);
    assert_eq!(game.select((1, 2), &mut grid), Some(Sounds::MakeCellAlive));
    assert_eq!(grid.get(1, 2), A);
}

#[test]
fn select_stamps_the_saved_prefab_and_puts_it_down() {
    let mut game = game();
    let mut grid = Grid::create(5, 5);
    game.saved_prefab = Some(Prefab::Glider);
    assert_eq!(game.select((1, 1), &mut grid), Some(Sounds::MakeCellAlive));
    assert!(game.saved_prefab.is_none());
    assert!(game.was_pressed((1, 1)));
    // The stored table is written line by line: line y, place x.
    assert_eq!(alive_cells(&grid), vec![(1, 3), (2, 1), (2, 3), (3, 2), (3, 3)]);
    // The dead cells of the prefab leave unborn cells unborn.
    assert_eq!(grid.get(1, 1), U);
    assert_eq!(game.select((1, 1), &mut grid), None);
}

#[test]
fn select_with_a_prefab_stamps_even_a_pressed_cell() {
    let mut game = game();
    let mut grid = Grid::create(3, 3);
    assert_eq!(game.select((0, 0), &mut grid), Some(Sounds::MakeCellAlive));
    game.saved_prefab = Some(Prefab::Spaceship);
    assert_eq!(game.select((0, 0), &mut grid), Some(Sounds::MakeCellAlive));
    assert_eq!(grid.get(0, 0), A);
    assert_eq!(game.coords_pressed, vec![(0, 0), (0, 0)]);
}

#[test]
fn new_size_needs_a_request_and_a_pending_size() {
    let mut game = game();
    let grid = Grid::create(6, 6);
    assert!(game.new_size(&grid).is_none());
    game.resize_this_frame();
    assert!(game.new_size(&grid).is_none());
    assert!(game.resize);
    let mut other = Gameplay::new(catalog(), Vec2Int::new(6, 6));
    other.set_next_game_size(Vec2Int::new(8, 8));
    assert!(other.new_size(&grid).is_none());
}

#[test]
fn new_size_builds_the_resized_world() {
    let mut game = Gameplay::new(catalog(), Vec2Int::new(4, 4));
    let mut grid = Grid::create(4, 4);
    grid.set(0, 0, A);
    grid.set(3, 3, A);
    grid.set(1, 2, D);
    game.set_next_game_size(Vec2Int::new(6, 7));
    game.resize_this_frame();
    let world = game.new_size(&grid).unwrap();
    assert_eq!(world.width(), 6);
    assert_eq!(world.height(), 7);
    assert_eq!(alive_cells(&world), vec![(1, 1), (4, 4)]);
    assert_eq!(world.get(2, 3), U);
    assert_eq!(game.game_size(), Vec2Int::new(6, 7));
    assert!(!game.resize);
    assert!(game.new_size(&world).is_none());
}

#[test]
fn new_size_discards_on_shrink() {
    let mut game = Gameplay::new(catalog(), Vec2Int::new(4, 4));
    let mut grid = Grid::create(4, 4);
    grid.set(1, 1, A);
    game.set_next_game_size(Vec2Int::new(3, 9));
    game.resize_this_frame();
    let world = game.new_size(&grid).unwrap();
    assert_eq!(world.width(), 3);
    assert_eq!(world.height(), 9);
    assert_eq!(alive_cells(&world), Vec::<(usize, usize)>::new());
}

#[test]
fn update_advances_on_request_and_asks_for_the_tick() {
    let mut game = game();
    let mut grid = blinker_world();
    let mut events = quiet();
    events.advance = true;
    let outcome = game.update(&events, &mut grid);
    assert!(outcome.tick);
    assert!(outcome.snapshot.is_none());
    assert_eq!(alive_cells(&grid), vec![(2, 1), (2, 2), (2, 3)]);
    let outcome = game.update(&quiet(), &mut grid);
    assert!(!outcome.tick);
    assert_eq!(alive_cells(&grid), vec![(2, 1), (2, 2), (2, 3)]);
}

#[test]
fn update_flips_the_switches() {
    let mut game = game();
    let mut grid = Grid::create(2, 2);
    let mut events = quiet();
    events.toggle_playing = true;
    events.toggle_ui = true;
    events.toggle_instructions = true;
    events.toggle_debug = true;
    game.update(&events, &mut grid);
    assert!(!game.playing);
    assert!(!game.show_ui);
    assert!(!game.show_instructions);
    assert!(!game.show_debug);
    game.update(&events, &mut grid);
    assert!(game.playing);
    assert!(game.show_ui);
    assert!(game.show_instructions);
    assert!(game.show_debug);
}

#[test]
fn update_steps_on_the_timer_only_when_playing_automatically() {
    let mut events = quiet();
    events.timer_elapsed = true;
    let mut manual = game();
    let mut grid = blinker_world();
    assert!(!manual.update(&events, &mut grid).tick);
    assert_eq!(alive_cells(&grid), vec![(1, 2), (2, 2), (3, 2)]);
    let mut automatic = game();
    automatic.auto_increment = true;
    assert!(automatic.update(&events, &mut grid).tick);
    assert_eq!(alive_cells(&grid), vec![(2, 1), (2, 2), (2, 3)]);
    automatic.playing = false;
    assert!(!automatic.update(&events, &mut grid).tick);
    assert_eq!(alive_cells(&grid), vec![(2, 1), (2, 2), (2, 3)]);
    // Pausing in the same frame stops the timer step as well.
    automatic.playing = true;
    events.toggle_playing = true;
    automatic.update(&events, &mut grid);
    assert!(!automatic.playing);
    assert_eq!(alive_cells(&grid), vec![(2, 1), (2, 2), (2, 3)]);
}

#[test]
fn update_steps_once_when_request_and_timer_coincide() {
    let mut game = game();
    game.auto_increment = true;
    let mut grid = blinker_world();
    let mut events = quiet();
    events.advance = true;
    events.timer_elapsed = true;
    let outcome = game.update(&events, &mut grid);
    assert!(outcome.tick);
    assert_eq!(alive_cells(&grid), vec![(2, 1), (2, 2), (2, 3)]);
}

#[test]
fn update_snapshot_is_taken_after_the_requested_step() {
    let mut game = game();
    game.auto_increment = true;
    let mut grid = blinker_world();
    let mut events = quiet();
    events.save = true;
    events.timer_elapsed = true;
    let before = to_pure_states(&grid);
    let outcome = game.update(&events, &mut grid);
    assert_eq!(outcome.snapshot, Some(before));
    assert_eq!(alive_cells(&grid), vec![(2, 1), (2, 2), (2, 3)]);
    events.advance = true;
    events.timer_elapsed = false;
    let outcome = game.update(&events, &mut grid);
    assert_eq!(outcome.snapshot, Some(to_pure_states(&grid)));
    assert_eq!(alive_cells(&grid), vec![(1, 2), (2, 2), (3, 2)]);
}

#[test]
fn timer_running_follows_play_and_mode() {
    let mut game = game();
    assert!(!game.timer_running(false));
    game.auto_increment = true;
    assert!(game.timer_running(false));
    assert!(!game.timer_running(true));
    game.playing = false;
    assert!(!game.timer_running(false));
    assert!(game.timer_running(true));
}

#[test]
fn set_rules_follows_the_wrap_setting() {
    let mut game = game();
    let mut clamped = Grid::create(3, 3);
    clamped.set(0, 0, A);
    clamped.set(2, 0, A);
    clamped.set(0, 2, A);
    let wrapped = clamped.to_pattern();
    game.set_rules(&mut clamped);
    assert_eq!(clamped.get(2, 2), U);
    assert_eq!(clamped.get(1, 1), A);
    game.wrap_grid = true;
    let mut torus = Grid::create(3, 3);
    game_of_life::compositor::paste(&mut torus, &wrapped, (0, 0));
    game.set_rules(&mut torus);
    assert_eq!(torus.get(2, 2), A);
}

#[test]
fn create_game_world_is_all_unborn() {
    let world = Gameplay::create_game_world(Vec2Int::new(6, 4));
    assert_eq!(world.width(), 6);
    assert_eq!(world.height(), 4);
    assert_eq!(to_pure_states(&world), vec![vec![U; 4]; 6]);
}

#[test]
fn flip_vector_transposes() {
    let table = vec![vec![A, U, D], vec![U, A, D]];
    assert!(can_flip(&table));
    assert_eq!(flip_vector(&table), vec![vec![A, U], vec![U, A], vec![D, D]]);
    let square = vec![vec![A, D], vec![U, A]];
    assert_eq!(flip_vector(&square), vec![vec![A, U], vec![D, A]]);
    assert_eq!(flip_vector(&flip_vector(&square)), square);
    assert_eq!(flip_vector(&flip_vector(&table)), table);
}

#[test]
fn can_flip_rejects_malformed_tables() {
    assert!(!can_flip(&Vec::new()));
    assert!(!can_flip(&vec![vec![A, D], vec![A]]));
    assert!(!can_flip(&vec![vec![A], vec![A, D]]));
    assert!(!can_flip(&vec![vec![A, D], vec![A, D], Vec::new()]));
    assert!(!can_flip(&vec![Vec::new(), vec![A]]));
    assert!(can_flip(&vec![vec![A, D], vec![D, A]]));
    assert!(can_flip(&vec![vec![A]]));
    assert!(can_flip(&vec![Vec::new(), Vec::new()]));
    assert_eq!(flip_vector(&vec![Vec::new(), Vec::new()]), Vec::<Vec<State>>::new());
}

#[test]
fn world_sizes_are_positive_and_addressable() {
    assert!(Gameplay::is_world_size(Vec2Int::new(6, 6)));
    assert!(Gameplay::is_world_size(Vec2Int::new(1, 1)));
    assert!(!Gameplay::is_world_size(Vec2Int::new(0, 6)));
    assert!(!Gameplay::is_world_size(Vec2Int::new(6, 0)));
    assert!(!Gameplay::is_world_size(Vec2Int::new(-3, 6)));
    assert!(!Gameplay::is_world_size(Vec2Int::new(6, i32::MIN)));
    assert!(Grid::can_create(3, 4));
    assert!(!Grid::can_create(0, 4));
    assert!(!Grid::can_create(4, 0));
    assert!(!Grid::can_create(usize::MAX, 2));
    assert!(Grid::can_create(usize::MAX, 1));
}

#[test]
fn resize_is_allowed_unless_the_pending_size_is_no_world() {
    let mut game = game();
    assert!(game.can_resize());
    game.set_next_game_size(Vec2Int::new(0, 4));
    assert!(game.can_resize());
    game.resize_this_frame();
    assert!(!game.can_resize());
    game.set_next_game_size(Vec2Int::new(4, -1));
    assert!(!game.can_resize());
    game.set_next_game_size(Vec2Int::new(4, 9));
    assert!(game.can_resize());
    let mut asked = Gameplay::new(catalog(), Vec2Int::new(6, 6));
    asked.resize_this_frame();
    assert!(asked.can_resize());
}

#[test]
fn cells_off_the_world_cannot_be_toggled() {
    let mut game = game();
    let mut grid = Grid::create(3, 2);
    assert!(game.can_select((2, 1), &grid));
    assert!(!game.can_select((3, 1), &grid));
    assert!(!game.can_select((2, 2), &grid));
    game.saved_prefab = Some(Prefab::Glider);
    assert!(game.can_select((3, 1), &grid));
    assert!(game.can_select((usize::MAX, usize::MAX), &grid));
    assert_eq!(game.select((7, 7), &mut grid), Some(Sounds::MakeCellAlive));
    // A cell already selected is left alone wherever it lies.
    assert!(game.can_select((7, 7), &grid));
    assert_eq!(game.select((7, 7), &mut grid), None);
}

#[test]
fn pattern_from_table_reads_lines_as_rows() {
    let pattern = pattern_from_table(&glider_table());
    assert_eq!(pattern.width(), 3);
    assert_eq!(pattern.height(), 3);
    assert_eq!(pattern.get(1, 0), A);
    assert_eq!(pattern.get(2, 1), A);
    assert_eq!(pattern.get(0, 2), A);
    assert_eq!(pattern.get(1, 2), A);
    assert_eq!(pattern.get(2, 2), A);
    assert_eq!(pattern.get(0, 0), D);
    let wide = pattern_from_table(&vec![vec![A, D, D, A]]);
    assert_eq!(wide.width(), 4);
    assert_eq!(wide.height(), 1);
    assert_eq!(wide.get(3, 0), A);
}

#[test]
fn catalog_holds_one_pattern_per_prefab() {
    let prefabs = catalog();
    assert_eq!(prefabs.get(&Prefab::Glider).width(), 3);
    assert_eq!(prefabs.get(&Prefab::SmallExploder).width(), 2);
    assert_eq!(prefabs.get(&Prefab::SmallExploder).height(), 3);
    assert_eq!(prefabs.get(&Prefab::Exploder).width(), 4);
    assert_eq!(prefabs.get(&Prefab::Spaceship).get(0, 0), A);
    assert_eq!(prefabs.get(&Prefab::Tumbler).get(0, 1), D);
    assert_eq!(prefabs.get(&Prefab::GliderGun).get(0, 1), A);
}

#[test]
fn prefab_names_are_the_shown_ones() {
    assert_eq!(Prefab::Glider.get_static_name(), "Glider");
    assert_eq!(Prefab::SmallExploder.get_static_name(), "Small Exploder");
    assert_eq!(Prefab::Exploder.get_static_name(), "Exploder");
    assert_eq!(Prefab::Spaceship.get_static_name(), "Spaceship");
    assert_eq!(Prefab::Tumbler.get_static_name(), "Tumbler");
    assert_eq!(Prefab::GliderGun.get_static_name(), "Glider Gun");
}
