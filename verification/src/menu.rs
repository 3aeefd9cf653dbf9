//! What the screens around the game decide: which menu entry is
//! highlighted, how loud the sound is, which cue to play, and when the
//! game-over screen may be left. Drawing and key handling are the caller's.

use vstd::prelude::*;

verus! {

/// Loudest volume, in percent.
pub const MAX_VOLUME: u8 = 100;

/// One press of a volume key changes the volume by this many percent.
pub const VOLUME_STEP: u8 = 10;

/// Sound effects volume at the start of the program, in percent.
pub const INITIAL_SOUND_VOLUME: u8 = 50;

/// Sound cues. A tick of the game reports the ones it gave rise to;
/// playing them is up to the caller.
#[derive(Clone, Copy, Debug, PartialEq, Eq, Hash, Structural)]
pub enum Sound {
    MenuSelection,
    MenuBack,
    MenuValidate,
    WeaponShoot,
    AsteroidExplosion,
}

/// Volume for music and sound effects, in percent.
#[derive(Clone, Copy, Debug, PartialEq, Eq, Structural)]
pub struct Volume {
    pub music: u8,
    pub sound: u8,
}

/// The entry of the main menu that is highlighted.
#[derive(Clone, Copy, Debug, PartialEq, Eq, Structural)]
pub enum MenuSelection {
    /// Start playing the game.
    Play,
    /// Display the introduction story dialogue.
    Story,
    /// Display the settings screen.
    Settings,
    /// Exit the game.
    Exit,
}

/// The entry of the settings screen that is highlighted.
#[derive(Clone, Copy, Debug, PartialEq, Eq, Structural)]
pub enum SettingsSelection {
    MusicVolume,
    SoundVolume,
}

/// Whether a key has gone down and up since the game-over screen came up.
/// The screen is left on the first key press after that, so that a key
/// held down when the game ended does not dismiss it.
#[derive(Clone, Copy, Debug, PartialEq, Eq, Structural)]
pub struct Dismissal {
    pub has_pressed: bool,
    pub has_released: bool,
}

/// `level` one step louder, at most the maximum.
pub open spec fn louder(level: u8) -> u8 {
    if level + VOLUME_STEP <= MAX_VOLUME {
        (level + VOLUME_STEP) as u8
    } else {
        MAX_VOLUME
    }
}

/// `level` one step quieter, at least zero, and never above the maximum.
pub open spec fn quieter(level: u8) -> u8 {
    if level > MAX_VOLUME {
        MAX_VOLUME
    } else if level >= VOLUME_STEP {
        (level - VOLUME_STEP) as u8
    } else {
        0
    }
}

impl Volume {
    /// Both volumes at their maximum.
    pub open spec fn full() -> Volume {
        Volume { music: MAX_VOLUME, sound: MAX_VOLUME }
    }

    /// The volume with the selected entry one step up.
    pub open spec fn raised(self, selection: SettingsSelection) -> Volume {
        match selection {
            SettingsSelection::MusicVolume => Volume { music: louder(self.music), ..self },
            SettingsSelection::SoundVolume => Volume { sound: louder(self.sound), ..self },
        }
    }

    /// The volume with the selected entry one step down.
    pub open spec fn lowered(self, selection: SettingsSelection) -> Volume {
        match selection {
            SettingsSelection::MusicVolume => Volume { music: quieter(self.music), ..self },
            SettingsSelection::SoundVolume => Volume { sound: quieter(self.sound), ..self },
        }
    }

    /// Both volumes at their maximum.
    pub fn new() -> (r: Volume)
        ensures
            r == Volume::full(),
    {
        Volume { music: MAX_VOLUME, sound: MAX_VOLUME }
    }

    /// Turns the selected volume up by one step.
    pub fn raise(self, selection: SettingsSelection) -> (r: Volume)
        ensures
            r == self.raised(selection),
    {
        match selection {
            SettingsSelection::MusicVolume => Volume { music: step_up(self.music), sound: self.sound },
            SettingsSelection::SoundVolume => Volume { music: self.music, sound: step_up(self.sound) },
        }
    }

    /// Turns the selected volume down by one step.
    pub fn lower(self, selection: SettingsSelection) -> (r: Volume)
        ensures
            r == self.lowered(selection),
    {
        match selection {
            SettingsSelection::MusicVolume => Volume { music: step_down(self.music), sound: self.sound },
            SettingsSelection::SoundVolume => Volume { music: self.music, sound: step_down(self.sound) },
        }
    }
}

/// One step louder.
pub fn step_up(level: u8) -> (r: u8)
    ensures
        r == louder(level),
        r <= MAX_VOLUME,
{
    if level <= MAX_VOLUME - VOLUME_STEP {
        level + VOLUME_STEP
    } else {
        MAX_VOLUME
    }
}

/// One step quieter.
pub fn step_down(level: u8) -> (r: u8)
    ensures
        r == quieter(level),
        r <= MAX_VOLUME,
{
    if level > MAX_VOLUME {
        MAX_VOLUME
    } else if level >= VOLUME_STEP {
        level - VOLUME_STEP
    } else {
        0
    }
}

impl MenuSelection {
    /// The entry above, or the same entry at the top.
    pub open spec fn above(self) -> MenuSelection {
        match self {
            MenuSelection::Play => MenuSelection::Play,
            MenuSelection::Story => MenuSelection::Play,
            MenuSelection::Settings => MenuSelection::Story,
            MenuSelection::Exit => MenuSelection::Settings,
        }
    }

    /// The entry below, or the same entry at the bottom.
    pub open spec fn below(self) -> MenuSelection {
        match self {
            MenuSelection::Play => MenuSelection::Story,
            MenuSelection::Story => MenuSelection::Settings,
            MenuSelection::Settings => MenuSelection::Exit,
            MenuSelection::Exit => MenuSelection::Exit,
        }
    }

    /// Position of the entry in the menu, from the top.
    pub open spec fn rank(self) -> int {
        match self {
            MenuSelection::Play => 0,
            MenuSelection::Story => 1,
            MenuSelection::Settings => 2,
            MenuSelection::Exit => 3,
        }
    }

    /// Moves the highlight up.
    pub fn up(self) -> (r: MenuSelection)
        ensures
            r == self.above(),
    {
        match self {
            MenuSelection::Play => MenuSelection::Play,
            MenuSelection::Story => MenuSelection::Play,
            MenuSelection::Settings => MenuSelection::Story,
            MenuSelection::Exit => MenuSelection::Settings,
        }
    }

    /// Moves the highlight down.
    pub fn down(self) -> (r: MenuSelection)
        ensures
            r == self.below(),
    {
        match self {
            MenuSelection::Play => MenuSelection::Story,
            MenuSelection::Story => MenuSelection::Settings,
            MenuSelection::Settings => MenuSelection::Exit,
            MenuSelection::Exit => MenuSelection::Exit,
        }
    }

    /// Position of the entry in the menu, from the top.
    pub fn index(self) -> (r: usize)
        ensures
            r == self.rank(),
    {
        match self {
            MenuSelection::Play => 0,
            MenuSelection::Story => 1,
            MenuSelection::Settings => 2,
            MenuSelection::Exit => 3,
        }
    }
}

impl SettingsSelection {
    /// Moves the highlight up.
    pub fn up(self) -> (r: SettingsSelection)
        ensures
            r == SettingsSelection::MusicVolume,
    {
        SettingsSelection::MusicVolume
    }

    /// Moves the highlight down.
    pub fn down(self) -> (r: SettingsSelection)
        ensures
            r == SettingsSelection::SoundVolume,
    {
        SettingsSelection::SoundVolume
    }
}

impl Dismissal {
    /// No key seen yet.
    pub open spec fn fresh() -> Dismissal {
        Dismissal { has_pressed: false, has_released: false }
    }

    /// The state after a key went down.
    pub open spec fn pressed(self) -> Dismissal {
        if self.has_released {
            self
        } else {
            Dismissal { has_pressed: true, ..self }
        }
    }

    /// The state after a key came up.
    pub open spec fn released(self) -> Dismissal {
        if self.has_pressed {
            Dismissal { has_released: true, ..self }
        } else {
            self
        }
    }

    /// The state when the screen comes up.
    pub fn new() -> (r: Dismissal)
        ensures
            r == Dismissal::fresh(),
    {
        Dismissal { has_pressed: false, has_released: false }
    }

    /// Takes a key press. Returns whether the screen is to be left: it is
    /// once a key has been pressed and released before.
    pub fn press(&mut self) -> (leave: bool)
        ensures
            leave == old(self).has_released,
            *final(self) == old(self).pressed(),
    {
        if self.has_released {
            true
        } else {
            self.has_pressed = true;
            false
        }
    }

    /// Takes a key release.
    pub fn release(&mut self)
        ensures
            *final(self) == old(self).released(),
    {
        if self.has_pressed {
            self.has_released = true;
        }
    }
}

/// The volume never leaves `[0, MAX_VOLUME]`, whichever way it is stepped.
pub proof fn lemma_volume_in_range(level: u8)
    ensures
        louder(level) <= MAX_VOLUME,
        quieter(level) <= MAX_VOLUME,
        level <= MAX_VOLUME ==> quieter(level) <= level <= louder(level),
{
}

} // verus!
