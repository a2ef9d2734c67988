use vstd::prelude::*;

verus! {

/// Resource.
pub struct LevelControl {
    /// Which level is currently loaded (name).
    level_spawned: Option<String>,
}

impl LevelControl {
    pub closed spec fn spawned(&self) -> Option<Seq<char>> {
        match self.level_spawned {
            Some(s) => Some(s@),
            None => None,
        }
    }

    pub fn new() -> (c: Self)
        ensures
            c.spawned() is None,
    {
        LevelControl { level_spawned: None }
    }

    pub fn is_game_running(&self) -> (r: bool)
        ensures
            r == self.spawned() is Some,
    {
        self.level_spawned.is_some()
    }
}

/// Event.
pub enum LevelCommand {
    /// Load level by name.
    Load(String),
    Unload,
}

} // verus!
