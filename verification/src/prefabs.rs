//! The named prefabs and the catalog that holds a pattern for each.

use vstd::prelude::*;
use vstd::pervasive::unreached;
use crate::board::board_of;
use crate::grid::Pattern;
use crate::simple_serialization::{flip_vector, flippable, flipped};
use crate::state::State;

verus! {

/// The prefabs that can be stamped onto the world.
#[derive(Debug, PartialEq, Eq, Hash, Clone, Copy, Structural)]
pub enum Prefab {
    Glider,
    SmallExploder,
    Exploder,
    Spaceship,
    Tumbler,
    GliderGun,
}

impl Prefab {
    /// The name under which the prefab is shown, as text.
    pub open spec fn static_name(self) -> Seq<char> {
        match self {
            Prefab::Glider => "Glider"@,
            Prefab::SmallExploder => "Small Exploder"@,
            Prefab::Exploder => "Exploder"@,
            Prefab::Spaceship => "Spaceship"@,
            Prefab::Tumbler => "Tumbler"@,
            Prefab::GliderGun => "Glider Gun"@,
        }
    }

    /// The name under which the prefab is shown.
    pub fn get_static_name(&self) -> (name: &'static str)
        ensures
            name@ == self.static_name(),
    {
        match self {
            Prefab::Glider => "Glider",
            Prefab::SmallExploder => "Small Exploder",
            Prefab::Exploder => "Exploder",
            Prefab::Spaceship => "Spaceship",
            Prefab::Tumbler => "Tumbler",
            Prefab::GliderGun => "Glider Gun",
        }
    }
}

/// Builds the pattern that a stored table stands for. The table is written
/// line by line and the pattern is read column by column, so the pattern's
/// `(x, y)` is the table's line `y`, place `x`. The table must be well
/// formed: lines of unequal length make no pattern.
pub fn pattern_from_table(table: &Vec<Vec<State>>) -> (pattern: Pattern)
    requires
        flippable(board_of(table@)),
    ensures
        pattern.wf(),
        pattern.spec_width() == table@[0]@.len(),
        pattern.spec_height() == (if table@[0]@.len() == 0 {
            0
        } else {
            table@.len() as int
        }),
        pattern@ == flipped(board_of(table@)),
{
    let columns = flip_vector(table);
    proof {
        let board = flipped(board_of(table@));
        assert forall|x: int| 0 <= x < columns@.len() implies (#[trigger] columns@[x])@.len()
            == table@.len() by {
            assert(board_of(columns@).len() == columns@.len());
            assert(board_of(columns@)[x] == columns@[x]@);
            assert(board[x].len() == board_of(table@).len());
        }
    }
    match Pattern::from_columns(&columns) {
        Some(pattern) => pattern,
        None => unreached(),
    }
}

/// One pattern for every prefab, fixed once built.
#[derive(Debug)]
pub struct Prefabs {
    glider: Pattern,
    small_exploder: Pattern,
    exploder: Pattern,
    spaceship: Pattern,
    tumbler: Pattern,
    glider_gun: Pattern,
}

impl Prefabs {
    /// The pattern that the catalog holds for `prefab`.
    pub closed spec fn pattern_of(&self, prefab: Prefab) -> Pattern {
        match prefab {
            Prefab::Glider => self.glider,
            Prefab::SmallExploder => self.small_exploder,
            Prefab::Exploder => self.exploder,
            Prefab::Spaceship => self.spaceship,
            Prefab::Tumbler => self.tumbler,
            Prefab::GliderGun => self.glider_gun,
        }
    }

    /// Every pattern of the catalog is well formed.
    pub open spec fn wf(&self) -> bool {
        forall|prefab: Prefab| (#[trigger] self.pattern_of(prefab)).wf()
    }

    /// Builds the catalog from the six stored tables, each of which must be
    /// well formed.
    pub fn new(
        glider: &Vec<Vec<State>>,
        small_exploder: &Vec<Vec<State>>,
        exploder: &Vec<Vec<State>>,
        spaceship: &Vec<Vec<State>>,
        tumbler: &Vec<Vec<State>>,
        glider_gun: &Vec<Vec<State>>,
    ) -> (prefabs: Prefabs)
        requires
            flippable(board_of(glider@)),
            flippable(board_of(small_exploder@)),
            flippable(board_of(exploder@)),
            flippable(board_of(spaceship@)),
            flippable(board_of(tumbler@)),
            flippable(board_of(glider_gun@)),
        ensures
            prefabs.wf(),
            prefabs.pattern_of(Prefab::Glider)@ == flipped(board_of(glider@)),
            prefabs.pattern_of(Prefab::SmallExploder)@ == flipped(board_of(small_exploder@)),
            prefabs.pattern_of(Prefab::Exploder)@ == flipped(board_of(exploder@)),
            prefabs.pattern_of(Prefab::Spaceship)@ == flipped(board_of(spaceship@)),
            prefabs.pattern_of(Prefab::Tumbler)@ == flipped(board_of(tumbler@)),
            prefabs.pattern_of(Prefab::GliderGun)@ == flipped(board_of(glider_gun@)),
    {
        Prefabs {
            glider: pattern_from_table(glider),
            small_exploder: pattern_from_table(small_exploder),
            exploder: pattern_from_table(exploder),
            spaceship: pattern_from_table(spaceship),
            tumbler: pattern_from_table(tumbler),
            glider_gun: pattern_from_table(glider_gun),
        }
    }

    /// The pattern of `prefab`.
    pub fn get(&self, prefab: &Prefab) -> (pattern: &Pattern)
        ensures
            *pattern == self.pattern_of(*prefab),
    {
        match prefab {
            Prefab::Glider => &self.glider,
            Prefab::SmallExploder => &self.small_exploder,
            Prefab::Exploder => &self.exploder,
            Prefab::Spaceship => &self.spaceship,
            Prefab::Tumbler => &self.tumbler,
            Prefab::GliderGun => &self.glider_gun,
        }
    }
}

} // verus!
