//! The sound effects and music tracks, and the store that holds their
//! encoded bytes.

use vstd::prelude::*;

verus! {

/// The sound effects.
#[derive(Debug, PartialEq, Eq, Hash, Clone, Copy, Structural)]
pub enum Sounds {
    MakeCellAlive,
    MakeCellDead,
    Tick,
}

/// The music tracks.
#[derive(Debug, PartialEq, Eq, Hash, Clone, Copy, Structural)]
pub enum Music {
    Intro,
    Main,
}

/// The encoded bytes of every sound effect and music track.
pub struct SoundsVFX {
    alive: &'static [u8],
    dead: &'static [u8],
    tick: &'static [u8],
    music_intro: &'static [u8],
    music_main: &'static [u8],
}

impl SoundsVFX {
    /// The bytes held for `sound`.
    pub closed spec fn sound_bytes(&self, sound: Sounds) -> Seq<u8> {
        match sound {
            Sounds::MakeCellAlive => self.alive@,
            Sounds::MakeCellDead => self.dead@,
            Sounds::Tick => self.tick@,
        }
    }

    /// The bytes held for `music`.
    pub closed spec fn music_bytes(&self, music: Music) -> Seq<u8> {
        match music {
            Music::Intro => self.music_intro@,
            Music::Main => self.music_main@,
        }
    }

    /// Builds the store from the encoded bytes of the three effects and the
    /// two tracks.
    pub fn new(
        alive: &'static [u8],
        dead: &'static [u8],
        tick: &'static [u8],
        music_intro: &'static [u8],
        music_main: &'static [u8],
    ) -> (store: Self)
        ensures
            store.sound_bytes(Sounds::MakeCellAlive) == alive@,
            store.sound_bytes(Sounds::MakeCellDead) == dead@,
            store.sound_bytes(Sounds::Tick) == tick@,
            store.music_bytes(Music::Intro) == music_intro@,
            store.music_bytes(Music::Main) == music_main@,
    {
        SoundsVFX { alive, dead, tick, music_intro, music_main }
    }

    /// The encoded bytes of `sound`.
    pub fn get_sound(&self, sound: Sounds) -> (bytes: &'static [u8])
        ensures
            bytes@ == self.sound_bytes(sound),
    {
        match sound {
            Sounds::MakeCellAlive => self.alive,
            Sounds::MakeCellDead => self.dead,
            Sounds::Tick => self.tick,
        }
    }

    /// The encoded bytes of `music`.
    pub fn get_music(&self, music: Music) -> (bytes: &'static [u8])
        ensures
            bytes@ == self.music_bytes(music),
    {
        match music {
            Music::Intro => self.music_intro,
            Music::Main => self.music_main,
        }
    }
}

} // verus!
