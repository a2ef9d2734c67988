//! Game rules of a small top-down arena shooter: time keeping, teams and
//! damage gating, collision groups, contact tracking, dashing, wave spawning,
//! menus, weapons and their uses, boss behaviour, attack patterns, focus mode
//! and its beat, and the text form of stored settings.

use vstd::prelude::*;

pub mod control;
pub mod mechanics;
pub mod objects;
pub mod present;
pub mod settings;
pub mod utils;

verus! {

/// Identifies a game entity.
pub type EntityId = u64;

} // verus!
