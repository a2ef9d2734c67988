use crate::control::time::{millis, GameTime, Nanos};
use vstd::prelude::*;

verus! {

/// Tracks the destruction of the boss: its remaining parts and the
/// explosion sequence once they are all gone.
pub struct BossState {
    pub parts: i32,
    pub die_start: Option<Nanos>,
    pub count: i32,
}

/// What the destruction sequence does this frame.
#[derive(Clone, Copy, Debug, PartialEq, Eq, Structural)]
pub enum DestructionStep {
    Nothing,
    /// Show one more explosion.
    Explode,
    /// The sequence is over: remove the boss.
    Despawn,
}

/// Length of the destruction sequence.
pub open spec fn destruction_time() -> int {
    3_000_000_000
}

/// One explosion per this much time during the destruction sequence.
pub open spec fn explosion_interval_micros() -> int {
    80_000
}

impl BossState {
    /// Three parts: the center and two towers.
    pub fn new() -> (s: Self)
        ensures
            s.parts == 3,
            s.die_start is None,
            s.count == -1,
    {
        BossState { parts: 3, die_start: None, count: -1 }
    }

    /// One part was destroyed; when none are left the destruction sequence
    /// starts now (unless it already has).
    pub fn part_destroyed(&mut self, time: &GameTime)
        requires
            old(self).parts > i32::MIN,
        ensures
            final(self).parts == old(self).parts - 1,
            final(self).count == old(self).count,
            final(self).die_start == if final(self).parts <= 0 && old(self).die_start is None {
                Some(time.spec_now() as u64)
            } else {
                old(self).die_start
            },
    {
        self.parts = self.parts - 1;
        if self.parts <= 0 && self.die_start.is_none() {
            self.die_start = Some(time.now());
        }
    }

    /// Advances the destruction sequence: after three seconds the boss is
    /// removed; before that, an explosion goes off every 80 ms.
    pub fn destruction_step(&mut self, time: &GameTime) -> (step: DestructionStep)
        ensures
            final(self).parts == old(self).parts,
            final(self).die_start == old(self).die_start,
            match old(self).die_start {
                None => step == DestructionStep::Nothing && final(self).count == old(self).count,
                Some(start) => {
                    let passed = if time.spec_now() >= start { time.spec_now() - start } else { 0 };
                    let n = (passed / 1000) / explosion_interval_micros();
                    if passed > destruction_time() {
                        step == DestructionStep::Despawn && final(self).count == old(self).count
                    } else if n != old(self).count {
                        step == DestructionStep::Explode && final(self).count == n
                    } else {
                        step == DestructionStep::Nothing && final(self).count == old(self).count
                    }
                },
            },
    {
        match self.die_start {
            None => DestructionStep::Nothing,
            Some(start) => {
                let passed = time.passed(start);
                if passed > millis(3000) {
                    DestructionStep::Despawn
                } else {
                    let n = ((passed / 1000) / 80_000) as i32;
                    if n != self.count {
                        self.count = n;
                        DestructionStep::Explode
                    } else {
                        DestructionStep::Nothing
                    }
                }
            },
        }
    }
}

/// Stages of the boss attack cycle.
#[derive(Clone, Copy, Debug, PartialEq, Eq, Structural)]
pub enum BossStage {
    Wait,
    /// Ray sweep across the arena: 0 left to right, 1 right to left,
    /// 2 both at once, 3 following the player.
    Sweep(usize),
    /// Rockets from the parts.
    Rocket,
    /// Opens up: the boss moves down.
    Open,
}

/// The attack cycle.
pub open spec fn stage_at(i: int) -> BossStage {
    if i == 0 {
        BossStage::Wait
    } else if 1 <= i <= 4 {
        BossStage::Sweep((i - 1) as usize)
    } else if i == 5 {
        BossStage::Wait
    } else if i == 6 {
        BossStage::Rocket
    } else if i == 7 {
        BossStage::Wait
    } else {
        BossStage::Open
    }
}

fn stage_of(i: usize) -> (s: BossStage)
    requires
        i < 9,
    ensures
        s == stage_at(i as int),
{
    if i == 0 {
        BossStage::Wait
    } else if i <= 4 {
        BossStage::Sweep(i - 1)
    } else if i == 5 {
        BossStage::Wait
    } else if i == 6 {
        BossStage::Rocket
    } else if i == 7 {
        BossStage::Wait
    } else {
        BossStage::Open
    }
}

pub open spec fn charge_time() -> int {
    1_000_000_000
}

pub open spec fn rocket_interval() -> int {
    750_000_000
}

/// How long a stage lasts: waiting 1.5 s, a sweep 1 s of charging and 2 s of
/// ray, rockets 1 s of charging and ten rockets 0.75 s apart, opening 3.5 s.
pub open spec fn stage_duration(s: BossStage) -> int {
    match s {
        BossStage::Wait => 1_500_000_000,
        BossStage::Sweep(_) => 3_000_000_000,
        BossStage::Rocket => 8_500_000_000,
        BossStage::Open => 3_500_000_000,
    }
}

/// Which boss parts are still there: part 0 is the center, 1 the left tower,
/// 2 the right tower.
#[derive(Clone, Copy, Debug, PartialEq, Eq, Structural)]
pub struct BossParts {
    pub center: bool,
    pub left: bool,
    pub right: bool,
}

pub open spec fn part_alive(parts: BossParts, id: int) -> bool {
    if id == 0 {
        parts.center
    } else if id == 1 {
        parts.left
    } else {
        parts.right
    }
}

/// Steps left until the next waiting or opening stage.
pub open spec fn rest_distance(i: int) -> int {
    (if i < 5 {
        5int
    } else if i < 7 {
        7int
    } else if i < 8 {
        8int
    } else {
        9int
    }) - i
}

/// The stage the cycle moves on to from stage `i`: the next waiting or
/// opening stage, or an earlier sweep if the center can fire it, or an
/// earlier rocket stage if a tower can; stages that no part can perform are
/// skipped.
pub open spec fn next_stage(i: int, parts: BossParts) -> int
    decreases rest_distance(i),
    when 0 <= i < 9
{
    let n = (i + 1) % 9;
    match stage_at(n) {
        BossStage::Wait | BossStage::Open => n,
        BossStage::Sweep(_) => if parts.center || !(0 <= n < 9) {
            n
        } else {
            next_stage(n, parts)
        },
        BossStage::Rocket => if parts.left || parts.right || !(0 <= n < 9) {
            n
        } else {
            next_stage(n, parts)
        },
    }
}

/// Parts that start charging when stage `n` is entered: the center before a
/// sweep, the remaining towers before rockets.
pub open spec fn charging_parts(n: int, parts: BossParts) -> Seq<u8> {
    match stage_at(n) {
        BossStage::Sweep(_) => seq![0u8],
        BossStage::Rocket => (if parts.left {
            seq![1u8]
        } else {
            seq![]
        }) + (if parts.right {
            seq![2u8]
        } else {
            seq![]
        }),
        _ => seq![],
    }
}

/// Timing state of the boss attack cycle.
pub struct BossLogic {
    /// When the current stage started.
    pub start: Nanos,
    /// Index of the current stage in the cycle.
    pub stage: usize,
    /// Shots fired in the current stage.
    pub count: usize,
}

/// What the boss does this frame.
pub struct BossActions {
    /// A ray sweep of this kind starts.
    pub sweep: Option<usize>,
    /// A rocket is launched: from the right side (by the center) when true,
    /// from the left tower when false.
    pub rocket: Option<bool>,
    /// Parts that start charging (and play the charge sound), by id.
    pub charge: Vec<u8>,
}

impl BossLogic {
    pub fn new(time: &GameTime) -> (l: Self)
        ensures
            l.start == time.spec_now(),
            l.stage == 0,
            l.count == 0,
    {
        BossLogic { start: time.now(), stage: 0, count: 0 }
    }

    /// How long the current stage lasts.
    pub fn current_duration(&self) -> (d: Nanos)
        requires
            self.stage < 9,
        ensures
            d == stage_duration(stage_at(self.stage as int)),
    {
        match stage_of(self.stage) {
            BossStage::Wait => millis(1500),
            BossStage::Sweep(_) => millis(3000),
            BossStage::Rocket => millis(8500),
            BossStage::Open => millis(3500),
        }
    }

    /// The current stage.
    pub fn current(&self) -> (s: BossStage)
        requires
            self.stage < 9,
        ensures
            s == stage_at(self.stage as int),
    {
        stage_of(self.stage)
    }

    /// One frame of the attack cycle. During a sweep, the ray fires once
    /// charging is over; during the rocket stage a rocket fires every 0.75 s
    /// after charging, alternating sides, from a part that is still there.
    /// When the stage is over the cycle moves on to the next stage that can
    /// be performed and charges the parts that perform it.
    pub fn update(&mut self, time: &GameTime, parts: BossParts) -> (a: BossActions)
        requires
            old(self).stage < 9,
            old(self).start + stage_duration(stage_at(old(self).stage as int)) <= u64::MAX,
        ensures
            ({
                let old_l = *old(self);
                let now = time.spec_now() as int;
                let passed = if now >= old_l.start { now - old_l.start } else { 0 };
                let s = stage_at(old_l.stage as int);
                let fired_sweep = s is Sweep && passed >= charge_time() && old_l.count == 0;
                let rockets = ((((passed - charge_time()) / 1000) / (rocket_interval() / 1000)) + 1) as usize;
                let new_rocket = s is Rocket && passed >= charge_time() && rockets != old_l.count;
                let count = if fired_sweep {
                    1
                } else if new_rocket {
                    rockets as int
                } else {
                    old_l.count as int
                };
                let over = now >= old_l.start + stage_duration(s);
                let next = next_stage(old_l.stage as int, parts);
                &&& a.sweep == if fired_sweep {
                    Some(s->0)
                } else {
                    None::<usize>
                }
                &&& a.rocket == if new_rocket && part_alive(parts, (rockets % 2) as int) {
                    Some(rockets % 2 == 0)
                } else {
                    None::<bool>
                }
                &&& final(self).stage < 9
                &&& if over {
                    &&& final(self).stage == next
                    &&& final(self).start == now
                    &&& match stage_at(next) {
                        BossStage::Wait | BossStage::Open => true,
                        BossStage::Sweep(_) => parts.center && final(self).count == 0,
                        BossStage::Rocket => parts.left || parts.right,
                    }
                    &&& a.charge@ == charging_parts(next, parts)
                    &&& final(self).count == if stage_at(next) is Sweep {
                        0
                    } else {
                        count
                    }
                } else {
                    &&& *final(self) == (BossLogic { count: count as usize, ..old_l })
                    &&& a.charge@.len() == 0
                }
            }),
    {
        let charge = millis(1000);
        let passed = time.passed(self.start);
        let mut sweep: Option<usize> = None;
        let mut rocket: Option<bool> = None;
        let stage = stage_of(self.stage);
        let duration = self.current_duration();
        match stage {
            BossStage::Sweep(which) => {
                if passed >= charge && self.count == 0 {
                    self.count = 1;
                    sweep = Some(which);
                }
            },
            BossStage::Rocket => {
                if passed >= charge {
                    let r64: u64 = (passed - charge) / 1000 / 750_000 + 1;
                    let rockets = r64 as usize;
                    if rockets != self.count {
                        self.count = rockets;
                        let alive = if rockets % 2 == 0 {
                            parts.center
                        } else {
                            parts.left
                        };
                        if alive {
                            rocket = Some(rockets % 2 == 0);
                        }
                    }
                }
            },
            _ => {},
        }
        let mut charging: Vec<u8> = Vec::new();
        if time.reached(self.start + duration) {
            let ghost from = self.stage as int;
            let ghost count_before = self.count;
            loop
                invariant_except_break
                    self.stage < 9,
                    charging@.len() == 0,
                    next_stage(from, parts) == next_stage(self.stage as int, parts),
                    self.count == count_before,
                ensures
                    self.stage < 9,
                    self.stage == next_stage(from, parts),
                    charging@ == charging_parts(self.stage as int, parts),
                    self.count == count_before || stage_at(self.stage as int) is Sweep,
                    stage_at(self.stage as int) is Sweep ==> self.count == 0,
                decreases rest_distance(self.stage as int),
            {
                let ghost prev = self.stage as int;
                self.stage = (self.stage + 1) % 9;
                proof {
                    assert(self.stage as int == (prev + 1) % 9);
                    assert(next_stage(prev, parts) == {
                        let n = (prev + 1) % 9;
                        match stage_at(n) {
                            BossStage::Wait | BossStage::Open => n,
                            BossStage::Sweep(_) => if parts.center {
                                n
                            } else {
                                next_stage(n, parts)
                            },
                            BossStage::Rocket => if parts.left || parts.right {
                                n
                            } else {
                                next_stage(n, parts)
                            },
                        }
                    });
                }
                match stage_of(self.stage) {
                    BossStage::Wait | BossStage::Open => {
                        break;
                    },
                    BossStage::Sweep(_) => {
                        if parts.center {
                            charging.push(0);
                            self.count = 0;
                            break;
                        }
                    },
                    BossStage::Rocket => {
                        if parts.left {
                            charging.push(1);
                        }
                        if parts.right {
                            charging.push(2);
                        }
                        if parts.left || parts.right {
                            break;
                        }
                    },
                }
            }
            proof {
                next_stage_performable(from, parts);
            }
            self.start = time.now();
        }
        BossActions { sweep, rocket, charge: charging }
    }
}

/// The attack cycle never moves on to a stage that nobody can perform: the
/// next stage is a waiting or opening stage, a sweep while the center is
/// there, or rockets while a tower is there.
pub proof fn next_stage_performable(i: int, parts: BossParts)
    requires
        0 <= i < 9,
    ensures
        0 <= next_stage(i, parts) < 9,
        match stage_at(next_stage(i, parts)) {
            BossStage::Wait | BossStage::Open => true,
            BossStage::Sweep(_) => parts.center,
            BossStage::Rocket => parts.left || parts.right,
        },
    decreases rest_distance(i),
{
    let n = (i + 1) % 9;
    match stage_at(n) {
        BossStage::Wait | BossStage::Open => {},
        BossStage::Sweep(_) => {
            if !parts.center {
                next_stage_performable(n, parts);
            }
        },
        BossStage::Rocket => {
            if !(parts.left || parts.right) {
                next_stage_performable(n, parts);
            }
        },
    }
}

/// One attack cycle is nine stages: each of the four sweeps once and in
/// order (left to right, right to left, both at once, following the player)
/// as stages 1 to 4, rockets as stage 6, opening up as the last stage 8, and
/// waiting in between (stages 0, 5 and 7).
pub proof fn cycle_performs_each_attack_once(i: int, which: usize)
    requires
        0 <= i < 9,
    ensures
        stage_at(i) == BossStage::Sweep(which) <==> (which < 4 && i == which + 1),
        stage_at(i) == BossStage::Rocket <==> i == 6,
        stage_at(i) == BossStage::Open <==> i == 8,
        stage_at(i) == BossStage::Wait <==> (i == 0 || i == 5 || i == 7),
{
}

/// Stage lengths add up: a sweep is the charge and 2 s of ray, the rocket
/// stage the charge and ten rockets 0.75 s apart, and a whole cycle takes
/// 28.5 s.
pub proof fn cycle_timing()
    ensures
        stage_duration(BossStage::Sweep(0)) == charge_time() + 2_000_000_000,
        stage_duration(BossStage::Rocket) == charge_time() + 10 * rocket_interval(),
        stage_duration(stage_at(0)) + stage_duration(stage_at(1)) + stage_duration(stage_at(2))
            + stage_duration(stage_at(3)) + stage_duration(stage_at(4)) + stage_duration(stage_at(5))
            + stage_duration(stage_at(6)) + stage_duration(stage_at(7)) + stage_duration(stage_at(8))
            == 28_500_000_000,
        forall|which: usize| #[trigger] stage_duration(BossStage::Sweep(which)) == stage_duration(BossStage::Sweep(0)),
{
}

} // verus!
