use vstd::prelude::*;

verus! {

/// Identifies a level asset; 0 is the default (empty) handle.
pub type LevelHandle = u64;

/// Command event.
#[derive(Clone, Copy, Debug, PartialEq, Eq, Structural)]
pub enum LevelCommand {
    Load(LevelHandle),
    Unload,
    Reload,
}

/// Event (not sent on reloading).
pub enum LevelEvent {
    /// Loaded and spawned a new level.
    Loaded { title: String },
    /// Unloaded all levels (exited from game).
    Unloaded,
    Reloaded,
}

/// Which level is wanted and whether it has been spawned.
pub struct CurrentLevel {
    pub old: LevelHandle,
    pub level: LevelHandle,
    pub loaded: bool,
}

impl CurrentLevel {
    pub fn new() -> (c: Self)
        ensures
            c.old == 0,
            c.level == 0,
            !c.loaded,
    {
        CurrentLevel { old: 0, level: 0, loaded: false }
    }

    /// Applies the last level command of the frame (every gameplay object is
    /// despawned first). Loading selects a new level to spawn; unloading
    /// marks the level as done; reloading spawns the current level again.
    pub fn command(&mut self, cmd: LevelCommand) -> (event: Option<LevelEvent>)
        ensures
            match cmd {
                LevelCommand::Load(l) => *final(self) == (CurrentLevel { old: 0, level: l, loaded: false })
                    && event is None,
                LevelCommand::Unload => *final(self) == (CurrentLevel { loaded: true, ..*old(self) })
                    && (event matches Some(LevelEvent::Unloaded)),
                LevelCommand::Reload => *final(self) == (CurrentLevel { loaded: false, ..*old(self) })
                    && (event matches Some(LevelEvent::Reloaded)),
            },
    {
        match cmd {
            LevelCommand::Load(l) => {
                *self = CurrentLevel { old: 0, level: l, loaded: false };
                None
            },
            LevelCommand::Unload => {
                self.loaded = true;
                Some(LevelEvent::Unloaded)
            },
            LevelCommand::Reload => {
                self.loaded = false;
                Some(LevelEvent::Reloaded)
            },
        }
    }

    /// Spawns the wanted level once its asset is available; returns whether
    /// it is spawned (and `Loaded` sent) now. `old` remembers the last level
    /// spawned.
    pub fn spawn_if_ready(&mut self, available: bool) -> (spawn: bool)
        ensures
            spawn == (!old(self).loaded && available),
            *final(self) == if spawn {
                CurrentLevel { old: old(self).level, loaded: true, ..*old(self) }
            } else {
                *old(self)
            },
    {
        if !self.loaded && available {
            self.loaded = true;
            if self.old != self.level {
                self.old = self.level;
            }
            true
        } else {
            false
        }
    }
}

} // verus!
