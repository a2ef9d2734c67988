use crate::control::time::{GameTime, Nanos};
use vstd::prelude::*;

verus! {

/// Entity command for a kinematic (player-driven) body; `D` is a direction.
#[derive(Clone, Copy, Debug, PartialEq, Eq)]
pub enum KinematicCommand<D> {
    Move { dir: D },
    Dash { dir: D },
}

/// The dash part of a kinematic controller: how long a dash lasts and the
/// dash in progress, as its direction and the time it ends.
#[derive(Clone, Copy, Debug)]
pub struct DashState<D> {
    pub dash_duration: Nanos,
    pub dash: Option<(D, Nanos)>,
}

impl<D: Copy> DashState<D> {
    pub fn new(dash_duration: Nanos) -> (s: Self)
        ensures
            s.dash_duration == dash_duration,
            s.dash is None,
    {
        DashState { dash_duration, dash: None }
    }

    /// The state after a command at time `now`, and where the body should
    /// try to walk. A move during a dash only steers the dash; a dash starts
    /// (or restarts) now and lasts `dash_duration`.
    pub open spec fn commanded(self, cmd: KinematicCommand<D>, now: Nanos) -> (Self, Option<D>) {
        match cmd {
            KinematicCommand::Move { dir } => match self.dash {
                Some((_, until)) => (DashState { dash: Some((dir, until)), ..self }, None),
                None => (self, Some(dir)),
            },
            KinematicCommand::Dash { dir } => (
                DashState { dash: Some((dir, (now + self.dash_duration) as u64)), ..self },
                None,
            ),
        }
    }

    /// The state after one frame at time `now`, and where the dash moves the
    /// body: a dash whose end has come is over, one still running moves the
    /// body in its direction.
    pub open spec fn stepped(self, now: Nanos) -> (Self, Option<D>) {
        match self.dash {
            Some((d, until)) => if now >= until {
                (DashState { dash: None, ..self }, None)
            } else {
                (self, Some(d))
            },
            None => (self, None),
        }
    }

    /// Handles a command at time `now` (see `commanded`).
    pub fn command(&mut self, cmd: KinematicCommand<D>, now: Nanos) -> (walk: Option<D>)
        requires
            cmd is Dash ==> now + old(self).dash_duration <= u64::MAX,
        ensures
            (*final(self), walk) == old(self).commanded(cmd, now),
    {
        match cmd {
            KinematicCommand::Move { dir } => match self.dash {
                Some((_, until)) => {
                    self.dash = Some((dir, until));
                    None
                },
                None => Some(dir),
            },
            KinematicCommand::Dash { dir } => {
                self.dash = Some((dir, now + self.dash_duration));
                None
            },
        }
    }

    /// Advances the dash by one frame (see `stepped`).
    pub fn step(&mut self, time: &GameTime) -> (dir: Option<D>)
        ensures
            (*final(self), dir) == old(self).stepped(time.spec_now()),
    {
        match self.dash {
            Some((d, until)) => {
                if time.reached(until) {
                    self.dash = None;
                    None
                } else {
                    Some(d)
                }
            },
            None => None,
        }
    }
}

/// A dash lasts exactly its duration: started at `start`, and steered by
/// moves in between, it carries the body in the last direction asked for
/// until `start + dash_duration` and is over from then on; no move walks
/// while it lasts.
pub proof fn dash_lasts_its_duration<D: Copy>(s: DashState<D>, dir: D, turn: D, start: Nanos, t: Nanos)
    requires
        start + s.dash_duration <= u64::MAX,
    ensures
        ({
            let dashing = s.commanded(KinematicCommand::Dash { dir }, start).0;
            let steered = dashing.commanded(KinematicCommand::Move { dir: turn }, t);
            &&& steered.1 is None
            &&& steered.0.stepped(t).1 == if t < start + s.dash_duration {
                Some(turn)
            } else {
                None
            }
            &&& dashing.stepped(t).1 == if t < start + s.dash_duration {
                Some(dir)
            } else {
                None
            }
        }),
{
}

/// How a walking body moves when something may be in the way.
#[derive(Clone, Copy, Debug, PartialEq, Eq, Structural)]
pub enum Slide {
    /// In the wanted direction.
    Full,
    /// Only along its horizontal part.
    AlongX,
    /// Only along its vertical part.
    AlongY,
    /// Not at all.
    Stuck,
}

/// The first free way among the wanted direction, its horizontal part and
/// its vertical part, so that a body slides along walls.
pub fn slide(full_free: bool, x_free: bool, y_free: bool) -> (s: Slide)
    ensures
        s == if full_free {
            Slide::Full
        } else if x_free {
            Slide::AlongX
        } else if y_free {
            Slide::AlongY
        } else {
            Slide::Stuck
        },
{
    if full_free {
        Slide::Full
    } else if x_free {
        Slide::AlongX
    } else if y_free {
        Slide::AlongY
    } else {
        Slide::Stuck
    }
}

/// How long loot keeps drifting away from where it dropped.
pub open spec fn drop_spread_time() -> int {
    1_500_000_000
}

/// Loot that drifts away from where it dropped: when the drift started and
/// its direction, both fixed on the first frame.
#[derive(Clone, Copy, Debug)]
pub struct DropSpread<D>(pub Option<(Nanos, D)>);

impl<D: Copy> DropSpread<D> {
    pub fn new() -> (s: Self)
        ensures
            s.0 is None,
    {
        DropSpread(None)
    }

    /// One frame of drifting at time `now`; `fresh_dir` becomes the direction
    /// if the drift has not started yet. While the drift lasts, returns its
    /// direction and how long it has been going.
    pub fn step(&mut self, now: Nanos, fresh_dir: D) -> (r: Option<(D, Nanos)>)
        ensures
            ({
                let (start, dir) = match old(self).0 {
                    Some(s) => s,
                    None => (now, fresh_dir),
                };
                let passed = if now >= start { now - start } else { 0 };
                &&& final(self).0 == Some((start, dir))
                &&& r == if passed < drop_spread_time() {
                    Some((dir, passed as u64))
                } else {
                    None
                }
            }),
    {
        let (start, dir) = match self.0 {
            Some(s) => s,
            None => (now, fresh_dir),
        };
        self.0 = Some((start, dir));
        let passed = if now >= start {
            now - start
        } else {
            0
        };
        if passed < 1_500_000_000 {
            Some((dir, passed))
        } else {
            None
        }
    }
}

} // verus!
