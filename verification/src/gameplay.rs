//! The state of a running game and its reactions to the player: selecting
//! cells, stamping prefabs, resizing the world and advancing generations.

use vstd::prelude::*;
use crate::board::{board_of, in_bounds, Board};
use crate::compositor::{paste_cells, pasted, resize, resized};
use crate::grid::{is_grid_size, Grid};
use crate::prefabs::{Prefab, Prefabs};
use crate::rules::{next_generation, step, EdgePolicy};
use crate::sound_files::Sounds;
use crate::state::State;
use crate::vec2_int::Vec2Int;

verus! {

/// A cell coordinate.
pub type UsizeTuple = (usize, usize);

/// What happened since the last frame, as far as the game reacts to it.
#[derive(Debug, Clone, Copy)]
pub struct UpdateEvents {
    /// The left mouse button was released.
    pub left_released: bool,
    /// The player asked for one generation.
    pub advance: bool,
    /// The player toggled play and pause.
    pub toggle_playing: bool,
    /// The player toggled the interface.
    pub toggle_ui: bool,
    /// The player toggled the instructions.
    pub toggle_instructions: bool,
    /// The player toggled the debug display.
    pub toggle_debug: bool,
    /// The player asked for the world to be saved.
    pub save: bool,
    /// The automatic generation timer ran out.
    pub timer_elapsed: bool,
}

/// What the caller has to do after an update.
#[derive(Debug)]
pub struct UpdateOutcome {
    /// The world advanced by a generation: play the tick sound.
    pub tick: bool,
    /// Save these states, listed column by column.
    pub snapshot: Option<Vec<Vec<State>>>,
}

/// The settings and the interaction state of a game.
#[derive(Debug)]
pub struct Gameplay {
    pub show_debug: bool,
    pub auto_increment: bool,
    pub show_instructions: bool,
    pub show_play_control: bool,
    pub show_settings_control: bool,
    pub playing: bool,
    pub show_ui: bool,
    pub saved_prefab: Option<Prefab>,
    pub wrap_grid: bool,
    /// The size of the world.
    pub game_size: Vec2Int,
    /// The size asked for the next resize, if any was.
    pub next_game_size: Option<Vec2Int>,
    /// The cells selected since the left button went down.
    pub coords_pressed: Vec<UsizeTuple>,
    /// The prefab catalog.
    pub prefabs: Prefabs,
    /// Whether a resize was asked for this frame.
    pub resize: bool,
}

/// Copies the states of `entities` out, one vector per column.
pub fn to_pure_states(entities: &Grid) -> (states: Vec<Vec<State>>)
    requires
        entities.wf(),
    ensures
        board_of(states@) == entities@,
{
    entities.to_pattern().to_columns()
}

impl Gameplay {
    /// The edge policy that the wrap setting selects.
    pub open spec fn policy(&self) -> EdgePolicy {
        if self.wrap_grid {
            EdgePolicy::Wrap
        } else {
            EdgePolicy::Clamp
        }
    }

    /// The catalog is well formed.
    pub open spec fn wf(&self) -> bool {
        self.prefabs.wf()
    }

    /// Whether `other` has the same display and play switches.
    pub open spec fn same_switches(&self, other: &Gameplay) -> bool {
        &&& self.show_debug == other.show_debug
        &&& self.auto_increment == other.auto_increment
        &&& self.show_instructions == other.show_instructions
        &&& self.show_play_control == other.show_play_control
        &&& self.show_settings_control == other.show_settings_control
        &&& self.playing == other.playing
        &&& self.show_ui == other.show_ui
        &&& self.wrap_grid == other.wrap_grid
    }

    /// Whether `other` has the same sizes, resize request and catalog.
    pub open spec fn same_world(&self, other: &Gameplay) -> bool {
        &&& self.game_size == other.game_size
        &&& self.next_game_size == other.next_game_size
        &&& self.resize == other.resize
        &&& self.prefabs == other.prefabs
    }

    /// A game over a world of `game_size`, playing, with the interface,
    /// the instructions and the debug display shown, nothing selected and
    /// no resize pending.
    pub fn new(prefabs: Prefabs, game_size: Vec2Int) -> (game: Self)
        requires
            prefabs.wf(),
        ensures
            game.wf(),
            game.show_debug,
            !game.auto_increment,
            game.show_instructions,
            game.show_play_control,
            !game.show_settings_control,
            game.playing,
            game.show_ui,
            game.saved_prefab.is_none(),
            !game.wrap_grid,
            game.game_size == game_size,
            game.next_game_size.is_none(),
            game.coords_pressed@ == Seq::<UsizeTuple>::empty(),
            game.prefabs == prefabs,
            !game.resize,
    {
        Gameplay {
            auto_increment: false,
            coords_pressed: Vec::new(),
            show_debug: true,
            show_instructions: true,
            show_ui: true,
            playing: true,
            wrap_grid: false,
            show_play_control: true,
            show_settings_control: false,
            saved_prefab: None,
            prefabs,
            game_size,
            next_game_size: None,
            resize: false,
        }
    }

    /// The size of the world.
    pub fn game_size(&self) -> (size: Vec2Int)
        ensures
            size == self.game_size,
    {
        self.game_size
    }

    /// The size the world will have after the pending resize; the present
    /// size when none is pending.
    pub fn next_game_size(&self) -> (size: Vec2Int)
        ensures
            size == match self.next_game_size {
                Some(pending) => pending,
                None => self.game_size,
            },
    {
        match self.next_game_size {
            Some(gz) => gz,
            None => self.game_size,
        }
    }

    /// Records the size that the world is to have after the next resize.
    pub fn set_next_game_size(&mut self, game_size: Vec2Int)
        ensures
            final(self).next_game_size == Some(game_size),
            final(self).game_size == old(self).game_size,
            final(self).resize == old(self).resize,
            final(self).prefabs == old(self).prefabs,
            final(self).coords_pressed@ == old(self).coords_pressed@,
            final(self).saved_prefab == old(self).saved_prefab,
            final(self).same_switches(old(self)),
    {
        self.next_game_size = Some(game_size);
    }

    /// Asks for the pending resize to be carried out at the next
    /// `new_size`.
    pub fn resize_this_frame(&mut self)
        ensures
            final(self).resize,
            final(self).next_game_size == old(self).next_game_size,
            final(self).game_size == old(self).game_size,
            final(self).prefabs == old(self).prefabs,
            final(self).coords_pressed@ == old(self).coords_pressed@,
            final(self).saved_prefab == old(self).saved_prefab,
            final(self).same_switches(old(self)),
    {
        self.resize = true;
    }

    /// Tells whether `click_pos` was selected since the left button went
    /// down.
    pub fn was_pressed(&self, click_pos: UsizeTuple) -> (found: bool)
        ensures
            found == self.coords_pressed@.contains(click_pos),
    {
        let mut i: usize = 0;
        while i < self.coords_pressed.len()
            invariant
                i <= self.coords_pressed@.len(),
                forall|k: int| 0 <= k < i ==> self.coords_pressed@[k] != click_pos,
            decreases self.coords_pressed@.len() - i,
        {
            let seen = self.coords_pressed[i];
            if seen.0 == click_pos.0 && seen.1 == click_pos.1 {
                return true;
            }
            i += 1;
        }
        false
    }

    /// Whether the cell `click_pos` of `board` can be selected: a cell that
    /// would be toggled has to lie on the board.
    pub open spec fn selectable(&self, click_pos: UsizeTuple, board: Board) -> bool {
        self.saved_prefab.is_none() && !self.coords_pressed@.contains(click_pos) ==> in_bounds(
            board,
            click_pos.0 as int,
            click_pos.1 as int,
        )
    }

    /// Tells whether the cell `click_pos` can be selected, which is what
    /// `select` asks of its caller.
    pub fn can_select(&self, click_pos: UsizeTuple, entities: &Grid) -> (ok: bool)
        requires
            entities.wf(),
        ensures
            ok == self.selectable(click_pos, entities@),
    {
        if self.saved_prefab.is_none() && !self.was_pressed(click_pos) {
            click_pos.0 < entities.width() && click_pos.1 < entities.height()
        } else {
            true
        }
    }

    /// Reacts to the player selecting the cell `click_pos` and returns the
    /// sound to play, if any.
    ///
    /// With a prefab in hand, the prefab is stamped with its origin at the
    /// cell and put down, and the sound is that of a cell coming alive.
    /// Without one, a cell not yet selected during this press is toggled,
    /// with the sound of its new state; a cell already selected is left
    /// alone. Whenever something was done the cell is recorded as selected.
    pub fn select(&mut self, click_pos: UsizeTuple, entities: &mut Grid) -> (cue: Option<Sounds>)
        requires
            old(self).wf(),
            old(entities).wf(),
            old(self).selectable(click_pos, old(entities)@),
        ensures
            final(self).wf(),
            final(entities).wf(),
            final(entities).spec_width() == old(entities).spec_width(),
            final(entities).spec_height() == old(entities).spec_height(),
            final(self).same_switches(old(self)),
            final(self).same_world(old(self)),
            final(self).saved_prefab.is_none(),
            match old(self).saved_prefab {
                Some(prefab) => {
                    &&& final(entities)@ == pasted(
                        old(entities)@,
                        old(self).prefabs.pattern_of(prefab)@,
                        click_pos.0 as int,
                        click_pos.1 as int,
                    )
                    &&& final(self).coords_pressed@ == old(self).coords_pressed@.push(click_pos)
                    &&& cue == Some(Sounds::MakeCellAlive)
                },
                None => if old(self).coords_pressed@.contains(click_pos) {
                    &&& final(entities)@ == old(entities)@
                    &&& final(self).coords_pressed@ == old(self).coords_pressed@
                    &&& cue.is_none()
                } else {
                    let before = old(entities)@[click_pos.0 as int][click_pos.1 as int];
                    &&& final(entities)@ == old(entities)@.update(
                        click_pos.0 as int,
                        old(entities)@[click_pos.0 as int].update(
                            click_pos.1 as int,
                            before.flipped(),
                        ),
                    )
                    &&& final(self).coords_pressed@ == old(self).coords_pressed@.push(click_pos)
                    &&& cue == Some(
                        if before.alive() {
                            Sounds::MakeCellDead
                        } else {
                            Sounds::MakeCellAlive
                        },
                    )
                },
            },
    {
        match self.saved_prefab {
            Some(prefab) => {
                paste_cells(click_pos, self.prefabs.get(&prefab), entities);
                self.saved_prefab = None;
                self.coords_pressed.push(click_pos);
                Some(Sounds::MakeCellAlive)
            },
            None => {
                if self.was_pressed(click_pos) {
                    None
                } else {
                    let new_state = entities.get(click_pos.0, click_pos.1).flip();
                    entities.set(click_pos.0, click_pos.1, new_state);
                    self.coords_pressed.push(click_pos);
                    match new_state {
                        State::Alive => Some(Sounds::MakeCellAlive),
                        _ => Some(Sounds::MakeCellDead),
                    }
                }
            },
        }
    }

    /// Whether `new_size` can be called: if a resize was asked for and a
    /// size is pending, a world of that size can be built.
    pub open spec fn resizable(&self) -> bool {
        self.resize ==> (self.next_game_size matches Some(size) ==> is_grid_size(
            size.x as int,
            size.y as int,
        ))
    }

    /// Tells whether a world of `size` can be built, which is what
    /// `create_game_world` asks of its caller.
    pub fn is_world_size(size: Vec2Int) -> (ok: bool)
        ensures
            ok == is_grid_size(size.x as int, size.y as int),
    {
        size.x > 0 && size.y > 0 && Grid::can_create(size.x as usize, size.y as usize)
    }

    /// Tells whether `new_size` can be called.
    pub fn can_resize(&self) -> (ok: bool)
        ensures
            ok == self.resizable(),
    {
        if self.resize {
            match self.next_game_size {
                Some(size) => Self::is_world_size(size),
                None => true,
            }
        } else {
            true
        }
    }

    /// Whether the pending resize can be carried out: it was asked for, a
    /// size is pending, and that size is positive along both axes.
    pub open spec fn resize_due(&self) -> bool {
        &&& self.resize
        &&& self.next_game_size matches Some(size) && size.x > 0 && size.y > 0
    }

    /// Carries out the pending resize, if one was asked for this frame, and
    /// returns the new world built around the content of `entities`.
    pub fn new_size(&mut self, entities: &Grid) -> (world: Option<Grid>)
        requires
            old(self).wf(),
            entities.wf(),
            old(self).resizable(),
        ensures
            final(self).wf(),
            final(self).same_switches(old(self)),
            final(self).saved_prefab == old(self).saved_prefab,
            final(self).coords_pressed@ == old(self).coords_pressed@,
            final(self).prefabs == old(self).prefabs,
            final(self).next_game_size == old(self).next_game_size,
            world.is_some() <==> old(self).resize_due(),
            world matches Some(grid) ==> {
                &&& grid.wf()
                &&& grid.spec_width() == old(self).next_game_size.unwrap().x
                &&& grid.spec_height() == old(self).next_game_size.unwrap().y
                &&& grid@ == resized(
                    entities@,
                    old(self).next_game_size.unwrap().x as int,
                    old(self).next_game_size.unwrap().y as int,
                )
                &&& final(self).game_size == old(self).next_game_size.unwrap()
                &&& !final(self).resize
            },
            world.is_none() ==> {
                &&& final(self).game_size == old(self).game_size
                &&& final(self).resize == old(self).resize
            },
    {
        if self.resize {
            if let Some(next_size) = self.next_game_size {
                let new_entities = resize(entities, next_size.x as usize, next_size.y as usize);
                self.game_size = next_size;
                self.resize = false;
                Some(new_entities)
            } else {
                None
            }
        } else {
            None
        }
    }

    /// Whether the automatic generation timer runs during the frame in
    /// which the player did or did not toggle play and pause.
    pub fn timer_running(&self, toggle_playing: bool) -> (running: bool)
        ensures
            running == (self.auto_increment && (self.playing != toggle_playing)),
    {
        self.auto_increment && (self.playing != toggle_playing)
    }

    /// Reacts to the events of one frame.
    ///
    /// Releasing the left button forgets the selected cells. A request for
    /// one generation advances the world. The toggles flip their switches.
    /// A request to save yields the states as they stand after that
    /// generation. Last, when the timer ran out while automatic play is on
    /// and not paused, the world advances, unless it already advanced on
    /// request in this frame. The tick sound is asked for whenever the
    /// world advanced.
    pub fn update(&mut self, events: &UpdateEvents, entities: &mut Grid) -> (outcome: UpdateOutcome)
        requires
            old(self).wf(),
            old(entities).wf(),
        ensures
            final(self).wf(),
            final(entities).wf(),
            final(entities).spec_width() == old(entities).spec_width(),
            final(entities).spec_height() == old(entities).spec_height(),
            final(self).same_world(old(self)),
            final(self).saved_prefab == old(self).saved_prefab,
            final(self).auto_increment == old(self).auto_increment,
            final(self).show_play_control == old(self).show_play_control,
            final(self).show_settings_control == old(self).show_settings_control,
            final(self).wrap_grid == old(self).wrap_grid,
            final(self).playing == (old(self).playing != events.toggle_playing),
            final(self).show_ui == (old(self).show_ui != events.toggle_ui),
            final(self).show_instructions == (old(self).show_instructions
                != events.toggle_instructions),
            final(self).show_debug == (old(self).show_debug != events.toggle_debug),
            final(self).coords_pressed@ == (if events.left_released {
                Seq::<UsizeTuple>::empty()
            } else {
                old(self).coords_pressed@
            }),
            outcome.tick == (events.advance || (events.timer_elapsed && old(self).auto_increment
                && final(self).playing)),
            outcome.snapshot.is_some() == events.save,
            outcome.snapshot matches Some(states) ==> board_of(states@) == Self::advanced(
                old(entities)@,
                old(self).policy(),
                events.advance,
            ),
            final(entities)@ == Self::advanced(
                Self::advanced(old(entities)@, old(self).policy(), events.advance),
                old(self).policy(),
                events.timer_elapsed && old(self).auto_increment && final(self).playing
                    && !events.advance,
            ),
    {
        if events.left_released {
            self.coords_pressed.clear();
        }
        self.advance_if(events.advance, entities);
        self.toggle(events);
        let snapshot = if events.save {
            Some(to_pure_states(entities))
        } else {
            None
        };
        let timed = self.auto_increment && self.playing && events.timer_elapsed;
        self.advance_if(timed && !events.advance, entities);
        UpdateOutcome { tick: events.advance || timed, snapshot }
    }

    /// Flips the switches that the events of a frame toggle.
    fn toggle(&mut self, events: &UpdateEvents)
        ensures
            final(self).same_world(old(self)),
            final(self).saved_prefab == old(self).saved_prefab,
            final(self).coords_pressed == old(self).coords_pressed,
            final(self).auto_increment == old(self).auto_increment,
            final(self).show_play_control == old(self).show_play_control,
            final(self).show_settings_control == old(self).show_settings_control,
            final(self).wrap_grid == old(self).wrap_grid,
            final(self).playing == (old(self).playing != events.toggle_playing),
            final(self).show_ui == (old(self).show_ui != events.toggle_ui),
            final(self).show_instructions == (old(self).show_instructions
                != events.toggle_instructions),
            final(self).show_debug == (old(self).show_debug != events.toggle_debug),
    {
        if events.toggle_playing {
            self.playing = !self.playing;
        }
        if events.toggle_ui {
            self.show_ui = !self.show_ui;
        }
        if events.toggle_instructions {
            self.show_instructions = !self.show_instructions;
        }
        if events.toggle_debug {
            self.show_debug = !self.show_debug;
        }
    }

    /// Advances `entities` by one generation if `stepped`.
    fn advance_if(&self, stepped: bool, entities: &mut Grid)
        requires
            old(entities).wf(),
        ensures
            final(entities).wf(),
            final(entities).spec_width() == old(entities).spec_width(),
            final(entities).spec_height() == old(entities).spec_height(),
            final(entities)@ == Self::advanced(old(entities)@, self.policy(), stepped),
    {
        if stepped {
            self.set_rules(entities);
        }
    }

    /// `board` after one generation under `policy` if `stepped`, else as it
    /// is.
    pub open spec fn advanced(board: Board, policy: EdgePolicy, stepped: bool) -> Board {
        if stepped {
            next_generation(board, policy)
        } else {
            board
        }
    }

    /// Advances `current_entities` by one generation, on a torus when the
    /// wrap setting is on and with nothing beyond the edges when it is off.
    pub fn set_rules(&self, current_entities: &mut Grid)
        requires
            old(current_entities).wf(),
        ensures
            final(current_entities).wf(),
            final(current_entities).spec_width() == old(current_entities).spec_width(),
            final(current_entities).spec_height() == old(current_entities).spec_height(),
            final(current_entities)@ == next_generation(old(current_entities)@, self.policy()),
    {
        let policy = if self.wrap_grid {
            EdgePolicy::Wrap
        } else {
            EdgePolicy::Clamp
        };
        step(current_entities, policy);
    }

    /// Builds a world of `size` with every cell unborn. Both components
    /// must be positive.
    pub fn create_game_world(size: Vec2Int) -> (world: Grid)
        requires
            is_grid_size(size.x as int, size.y as int),
        ensures
            world.wf(),
            world.spec_width() == size.x,
            world.spec_height() == size.y,
            world@ == crate::board::uniform(size.x as int, size.y as int, State::Unborn),
    {
        Grid::create(size.x as usize, size.y as usize)
    }
}

} // verus!
