use vstd::prelude::*;

verus! {

/// Marks an entity that makes no sparks when it is damaged or dies.
#[derive(Clone, Copy, Debug, PartialEq, Eq, Structural)]
pub struct DontSparkMe;

/// Damaged or dying entities that have health or deal damage make sparks,
/// unless they are marked otherwise.
pub fn makes_sparks(has_health: bool, has_damage: bool, dont: Option<DontSparkMe>) -> (r: bool)
    ensures
        r == ((has_health || has_damage) && dont is None),
{
    (has_health || has_damage) && dont.is_none()
}

/// How loud an explosion is.
#[derive(Clone, Copy, Debug, PartialEq, Eq, Structural)]
pub enum ExplosionPower {
    Quiet,
    Small,
    Big,
}

/// Explosion sounds.
#[derive(Clone, Copy, Debug, PartialEq, Eq, Structural)]
pub enum ExplosionSound {
    Small,
    Big,
}

impl ExplosionPower {
    /// The default explosion is quiet.
    pub fn new() -> (p: Self)
        ensures
            p == ExplosionPower::Quiet,
    {
        ExplosionPower::Quiet
    }

    /// The sound an explosion makes, if any.
    pub fn sound(self) -> (s: Option<ExplosionSound>)
        ensures
            s == match self {
                ExplosionPower::Quiet => None,
                ExplosionPower::Small => Some(ExplosionSound::Small),
                ExplosionPower::Big => Some(ExplosionSound::Big),
            },
    {
        match self {
            ExplosionPower::Quiet => None,
            ExplosionPower::Small => Some(ExplosionSound::Small),
            ExplosionPower::Big => Some(ExplosionSound::Big),
        }
    }
}

} // verus!
