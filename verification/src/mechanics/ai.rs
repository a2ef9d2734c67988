use crate::control::time::{GameTime, Nanos};
use crate::EntityId;
use vstd::prelude::*;

verus! {

/// What should be targeted.
#[derive(Clone, Copy, Debug, PartialEq, Eq, Structural)]
pub enum Target {
    Player,
}

impl Target {
    /// The entity currently targeted, given the player entity if there is one.
    pub fn resolve(&self, player: Option<EntityId>) -> (r: Option<EntityId>)
        ensures
            r == player,
    {
        match self {
            Target::Player => player,
        }
    }
}

/// One stage of an attack pattern: wait, or fire a shot of kind `W`.
#[derive(Clone, Copy, Debug, PartialEq, Eq)]
pub enum AttackStage<W> {
    Wait,
    Shoot(W),
}

/// A looping list of timed stages; entering a stage performs it.
pub struct AttackPattern<W> {
    pub stages: Vec<(Nanos, AttackStage<W>)>,
    /// Index of the current stage.
    pub stage: usize,
    /// When the current stage started, once it has.
    pub start: Option<Nanos>,
}

impl<W: Copy> AttackPattern<W> {
    /// An empty pattern.
    pub fn new() -> (p: Self)
        ensures
            p.stages@.len() == 0,
            p.stage == 0,
            p.start is None,
    {
        AttackPattern { stages: Vec::new(), stage: 0, start: None }
    }

    /// Appends `repeat` copies of a stage lasting `duration`.
    pub fn stage(self, repeat: usize, duration: Nanos, stage: AttackStage<W>) -> (p: Self)
        requires
            self.stages@.len() + repeat <= usize::MAX,
        ensures
            p.stages@ == self.stages@ + Seq::new(repeat as nat, |i: int| (duration, stage)),
            p.stage == self.stage,
            p.start == self.start,
    {
        let mut p = self;
        let mut i: usize = 0;
        while i < repeat
            invariant
                i <= repeat,
                p.stages@ == self.stages@ + Seq::new(i as nat, |k: int| (duration, stage)),
                p.stage == self.stage,
                p.start == self.start,
            decreases repeat - i,
        {
            p.stages.push((duration, stage));
            i = i + 1;
            assert(p.stages@ =~= self.stages@ + Seq::new(i as nat, |k: int| (duration, stage)));
        }
        p
    }

    /// The pattern after an update at time `now`, and the shot it fires.
    pub open spec fn updated(self, now: Nanos) -> (Self, Option<W>) {
        let start = match self.start {
            Some(s) => s as int,
            None => now as int,
        };
        let passed = if now >= start { now - start } else { 0 };
        let duration = if self.stage < self.stages@.len() {
            self.stages@[self.stage as int].0 as int
        } else {
            0
        };
        let next = if self.stage + 1 >= self.stages@.len() { 0 } else { self.stage + 1 };
        if self.stages@.len() == 0 {
            (self, None)
        } else if passed >= duration {
            (
                AttackPattern { stages: self.stages, stage: next as usize, start: None },
                match self.stages@[next].1 {
                    AttackStage::Wait => None,
                    AttackStage::Shoot(w) => Some(w),
                },
            )
        } else {
            (AttackPattern { start: Some(start as u64), ..self }, None)
        }
    }

    /// Advances the pattern at the current time. Once the current stage has
    /// lasted its duration (counted from the first update in it), the next
    /// stage, wrapping to the first, is entered; entering a shooting stage
    /// returns its shot.
    pub fn update(&mut self, time: &GameTime) -> (fired: Option<W>)
        ensures
            (*final(self), fired) == old(self).updated(time.spec_now()),
    {
        if self.stages.len() == 0 {
            return None;
        }
        let start = match self.start {
            Some(s) => s,
            None => time.now(),
        };
        self.start = Some(start);
        let passed = time.passed(start);
        let duration = if self.stage < self.stages.len() {
            self.stages[self.stage].0
        } else {
            0
        };
        if passed >= duration {
            self.stage = if self.stage >= self.stages.len() - 1 {
                0
            } else {
                self.stage + 1
            };
            self.start = None;
            match self.stages[self.stage].1 {
                AttackStage::Wait => None,
                AttackStage::Shoot(w) => Some(w),
            }
        } else {
            None
        }
    }
}

/// However a pattern stands, after an update its current stage is one of
/// its stages: the cycle wraps around and never runs past the end.
pub proof fn stage_stays_in_pattern<W: Copy>(p: AttackPattern<W>, now: Nanos)
    requires
        p.stages@.len() > 0,
    ensures
        p.updated(now).0.stage < p.stages@.len(),
        p.updated(now).0.stages == p.stages,
{
}

} // verus!
