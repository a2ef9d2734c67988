use crate::mechanics::ai::{AttackPattern, AttackStage};
use crate::control::time::{millis, GameTime, Nanos};
use crate::objects::stats::{Stats, STARTING_USES};
use crate::EntityId;
use crate::utils::rust::retained;
use vstd::prelude::*;
use Coord::{Units as U, World as W};

verus! {

/// Wave lifecycle events.
#[derive(Clone, Copy, Debug, PartialEq, Eq, Structural)]
pub enum WaveEvent {
    Started,
    Ended,
    /// Sent together with `Started` when the same wave is spawned again.
    Restart,
}

/// Resource: what is spawned and what was asked for.
pub struct SpawnControl {
    /// Which wave is spawned, if the game is running.
    pub wave_spawned: Option<usize>,
    pub waiting_for_next_wave: bool,
    /// Set this to `Some(true)` to (re)spawn, to `Some(false)` to despawn.
    pub despawn: Option<bool>,
    /// Current tutorial step, while the tutorial is on.
    pub tutorial: Option<usize>,
}

impl SpawnControl {
    pub fn new() -> (c: Self)
        ensures
            c.wave_spawned is None,
            !c.waiting_for_next_wave,
            c.despawn is None,
            c.tutorial is None,
    {
        SpawnControl { wave_spawned: None, waiting_for_next_wave: false, despawn: None, tutorial: None }
    }

    pub fn is_game_running(&self) -> (r: bool)
        ensures
            r == self.wave_spawned is Some,
    {
        self.wave_spawned.is_some()
    }
}

/// Kinds of enemy turrets.
#[derive(Clone, Copy, Debug, PartialEq, Eq, Structural)]
pub enum TurretType {
    Simple,
    Advanced,
    Rotating,
}

impl TurretType {
    /// Points awarded for destroying a turret.
    pub fn death_points(self) -> (p: usize)
        ensures
            p == match self {
                TurretType::Simple => 20usize,
                TurretType::Advanced => 40usize,
                TurretType::Rotating => 60usize,
            },
    {
        match self {
            TurretType::Simple => 20,
            TurretType::Advanced => 40,
            TurretType::Rotating => 60,
        }
    }

    /// Health a turret starts with.
    pub fn health(self) -> (h: u32)
        ensures
            h == match self {
                TurretType::Simple => 3u32,
                TurretType::Advanced => 6u32,
                TurretType::Rotating => 10u32,
            },
    {
        match self {
            TurretType::Simple => 3,
            TurretType::Advanced => 6,
            TurretType::Rotating => 10,
        }
    }

    /// Simple and advanced turrets turn towards their target and check that
    /// they can see it; rotating turrets just keep spinning.
    pub fn aims(self) -> (r: bool)
        ensures
            r == (self != TurretType::Rotating),
    {
        match self {
            TurretType::Rotating => false,
            _ => true,
        }
    }

    /// How a turret attacks; a shooting stage fires the volley of the turret's kind.
    pub fn attack_pattern(self) -> (p: AttackPattern<TurretType>)
        ensures
            p.stage == 0,
            p.start is None,
            p.stages@ == match self {
                TurretType::Simple => seq![
                    (1_000_000_000u64, AttackStage::Wait),
                    (300_000_000u64, AttackStage::Shoot(TurretType::Simple)),
                    (300_000_000u64, AttackStage::Shoot(TurretType::Simple)),
                    (300_000_000u64, AttackStage::Shoot(TurretType::Simple)),
                    (300_000_000u64, AttackStage::Shoot(TurretType::Simple)),
                    (300_000_000u64, AttackStage::Shoot(TurretType::Simple)),
                    (1_000_000_000u64, AttackStage::Wait),
                ],
                TurretType::Advanced => seq![
                    (500_000_000u64, AttackStage::Wait),
                    (250_000_000u64, AttackStage::Shoot(TurretType::Advanced)),
                    (250_000_000u64, AttackStage::Shoot(TurretType::Advanced)),
                    (250_000_000u64, AttackStage::Shoot(TurretType::Advanced)),
                    (250_000_000u64, AttackStage::Shoot(TurretType::Advanced)),
                ],
                TurretType::Rotating => seq![
                    (150_000_000u64, AttackStage::Shoot(TurretType::Rotating)),
                ],
            },
    {
        let p = AttackPattern::new();
        let p = match self {
            TurretType::Simple => p.stage(1, millis(1000), AttackStage::Wait).stage(
                5,
                millis(300),
                AttackStage::Shoot(TurretType::Simple),
            ).stage(1, millis(1000), AttackStage::Wait),
            TurretType::Advanced => p.stage(1, millis(500), AttackStage::Wait).stage(
                4,
                millis(250),
                AttackStage::Shoot(TurretType::Advanced),
            ),
            TurretType::Rotating => p.stage(
                1,
                millis(150),
                AttackStage::Shoot(TurretType::Rotating),
            ),
        };
        proof {
            match self {
                TurretType::Simple => {
                    assert(p.stages@ =~= seq![
                        (1_000_000_000u64, AttackStage::Wait),
                        (300_000_000u64, AttackStage::Shoot(TurretType::Simple)),
                        (300_000_000u64, AttackStage::Shoot(TurretType::Simple)),
                        (300_000_000u64, AttackStage::Shoot(TurretType::Simple)),
                        (300_000_000u64, AttackStage::Shoot(TurretType::Simple)),
                        (300_000_000u64, AttackStage::Shoot(TurretType::Simple)),
                        (1_000_000_000u64, AttackStage::Wait),
                    ]);
                },
                TurretType::Advanced => {
                    assert(p.stages@ =~= seq![
                        (500_000_000u64, AttackStage::Wait),
                        (250_000_000u64, AttackStage::Shoot(TurretType::Advanced)),
                        (250_000_000u64, AttackStage::Shoot(TurretType::Advanced)),
                        (250_000_000u64, AttackStage::Shoot(TurretType::Advanced)),
                        (250_000_000u64, AttackStage::Shoot(TurretType::Advanced)),
                    ]);
                },
                TurretType::Rotating => {
                    assert(p.stages@ =~= seq![
                        (150_000_000u64, AttackStage::Shoot(TurretType::Rotating)),
                    ]);
                },
            }
        }
        p
    }
}

/// One coordinate of a spawn spot, relative to the arena center.
#[derive(Clone, Copy, Debug, PartialEq, Eq, Structural)]
pub enum Coord {
    /// In tenths of a world unit.
    Units(i32),
    /// In hundredths of the arena size along that axis.
    World(i32),
}

/// Where something spawns, relative to the arena center.
#[derive(Clone, Copy, Debug, PartialEq, Eq, Structural)]
pub struct Spot {
    pub x: Coord,
    pub y: Coord,
}

/// A turret to spawn.
#[derive(Clone, Copy, Debug, PartialEq, Eq, Structural)]
pub struct TurretSpawn {
    pub kind: TurretType,
    pub at: Spot,
}

/// A square temporary wall to spawn; `size` is its side in tenths of a unit.
#[derive(Clone, Copy, Debug, PartialEq, Eq, Structural)]
pub struct WallSpawn {
    pub at: Spot,
    pub size: u32,
}

/// Enemies and walls of one wave.
pub struct WaveLayout {
    pub turrets: Vec<TurretSpawn>,
    pub walls: Vec<WallSpawn>,
    /// Whether the boss takes part.
    pub boss: bool,
}

fn at(x: Coord, y: Coord) -> (s: Spot)
    ensures
        s == (Spot { x, y }),
{
    Spot { x, y }
}

fn turret(kind: TurretType, x: Coord, y: Coord) -> (t: TurretSpawn)
    ensures
        t == (TurretSpawn { kind, at: Spot { x, y } }),
{
    TurretSpawn { kind, at: at(x, y) }
}

fn wall(x: Coord, y: Coord, size: u32) -> (w: WallSpawn)
    ensures
        w == (WallSpawn { at: Spot { x, y }, size }),
{
    WallSpawn { at: at(x, y), size }
}

/// A turret at a spot.
pub open spec fn ts(kind: TurretType, x: Coord, y: Coord) -> TurretSpawn {
    TurretSpawn { kind, at: Spot { x, y } }
}

/// A wall of side `size` at a spot.
pub open spec fn ws(x: Coord, y: Coord, size: u32) -> WallSpawn {
    WallSpawn { at: Spot { x, y }, size }
}

/// The turrets of a regular wave, in spawn order.
pub open spec fn wave_turrets(wave: usize) -> Seq<TurretSpawn> {
    let k = wave % 6;
    if k == 0 {
        seq![
            ts(TurretType::Simple, U(-150i32), U(0i32)),
            ts(TurretType::Simple, U(150i32), U(0i32)),
        ]
    } else if k == 1 {
        seq![
            ts(TurretType::Simple, U(-120i32), U(-70i32)),
            ts(TurretType::Simple, U(-120i32), U(70i32)),
            ts(TurretType::Simple, U(120i32), U(-70i32)),
            ts(TurretType::Simple, U(120i32), U(70i32)),
        ]
    } else if k == 2 {
        seq![
            ts(TurretType::Advanced, U(-120i32), U(70i32)),
            ts(TurretType::Advanced, U(120i32), U(70i32)),
            ts(TurretType::Rotating, U(0i32), U(-10i32)),
        ]
    } else if k == 3 {
        seq![
            ts(TurretType::Simple, U(-100i32), U(100i32)),
            ts(TurretType::Simple, U(-100i32), U(-100i32)),
            ts(TurretType::Advanced, U(120i32), U(80i32)),
            ts(TurretType::Rotating, U(100i32), U(-30i32)),
        ]
    } else if k == 4 {
        seq![
            ts(TurretType::Advanced, U(-150i32), U(50i32)),
            ts(TurretType::Simple, U(-150i32), U(-50i32)),
            ts(TurretType::Advanced, U(150i32), U(50i32)),
            ts(TurretType::Simple, U(150i32), U(-50i32)),
        ]
    } else {
        seq![
            ts(TurretType::Rotating, U(-100i32), U(30i32)),
            ts(TurretType::Advanced, U(100i32), U(-30i32)),
        ]
    }
}

/// The temporary walls of a regular wave, in spawn order.
pub open spec fn wave_walls(wave: usize) -> Seq<WallSpawn> {
    let k = wave % 6;
    if k == 0 {
        seq![
            ws(W(-20i32), W(-30i32), 13u32),
            ws(W(-20i32), W(30i32), 13u32),
            ws(W(20i32), W(-30i32), 13u32),
            ws(W(20i32), W(30i32), 13u32),
        ]
    } else if k == 1 {
        seq![]
    } else if k == 2 {
        seq![
            ws(U(0i32), U(80i32), 13u32),
        ]
    } else if k == 3 {
        seq![
            ws(W(-10i32), W(-20i32), 13u32),
            ws(W(-10i32), W(20i32), 13u32),
            ws(W(-10i32), W(-40i32), 13u32),
            ws(W(-10i32), W(40i32), 13u32),
            ws(W(10i32), W(-20i32), 13u32),
            ws(W(10i32), W(20i32), 13u32),
            ws(W(10i32), W(-40i32), 13u32),
            ws(W(10i32), W(40i32), 13u32),
        ]
    } else if k == 4 {
        seq![
            ws(W(-36i32), U(-10i32), 10u32),
            ws(W(-23i32), U(10i32), 10u32),
            ws(W(-10i32), U(10i32), 10u32),
            ws(W(10i32), U(-10i32), 10u32),
            ws(W(23i32), U(10i32), 10u32),
            ws(W(36i32), U(-10i32), 10u32),
        ]
    } else {
        seq![
            ws(W(-10i32), W(-40i32), 13u32),
            ws(W(-10i32), W(-20i32), 13u32),
            ws(W(-10i32), W(20i32), 13u32),
            ws(W(10i32), W(-40i32), 13u32),
            ws(W(10i32), W(-20i32), 13u32),
            ws(W(10i32), W(20i32), 13u32),
        ]
    }
}

/// The layout of a regular (non-tutorial) wave; layouts repeat every six waves
/// and the sixth one brings the boss.
pub fn wave_layout(wave: usize) -> (l: WaveLayout)
    ensures
        l.turrets@ == wave_turrets(wave),
        l.walls@ == wave_walls(wave),
        l.boss == (wave % 6 == 5),
{
    let mut turrets: Vec<TurretSpawn> = Vec::new();
    let mut walls: Vec<WallSpawn> = Vec::new();
    let mut boss = false;
    let k = wave % 6;
    if k == 0 {
        walls.push(wall(W(-20), W(-30), 13));
        walls.push(wall(W(-20), W(30), 13));
        walls.push(wall(W(20), W(-30), 13));
        walls.push(wall(W(20), W(30), 13));
        turrets.push(turret(TurretType::Simple, U(-150), U(0)));
        turrets.push(turret(TurretType::Simple, U(150), U(0)));
    } else if k == 1 {
        turrets.push(turret(TurretType::Simple, U(-120), U(-70)));
        turrets.push(turret(TurretType::Simple, U(-120), U(70)));
        turrets.push(turret(TurretType::Simple, U(120), U(-70)));
        turrets.push(turret(TurretType::Simple, U(120), U(70)));
    } else if k == 2 {
        walls.push(wall(U(0), U(80), 13));
        turrets.push(turret(TurretType::Advanced, U(-120), U(70)));
        turrets.push(turret(TurretType::Advanced, U(120), U(70)));
        turrets.push(turret(TurretType::Rotating, U(0), U(-10)));
    } else if k == 3 {
        walls.push(wall(W(-10), W(-20), 13));
        walls.push(wall(W(-10), W(20), 13));
        walls.push(wall(W(-10), W(-40), 13));
        walls.push(wall(W(-10), W(40), 13));
        walls.push(wall(W(10), W(-20), 13));
        walls.push(wall(W(10), W(20), 13));
        walls.push(wall(W(10), W(-40), 13));
        walls.push(wall(W(10), W(40), 13));
        turrets.push(turret(TurretType::Simple, U(-100), U(100)));
        turrets.push(turret(TurretType::Simple, U(-100), U(-100)));
        turrets.push(turret(TurretType::Advanced, U(120), U(80)));
        turrets.push(turret(TurretType::Rotating, U(100), U(-30)));
    } else if k == 4 {
        walls.push(wall(W(-36), U(-10), 10));
        walls.push(wall(W(-23), U(10), 10));
        walls.push(wall(W(-10), U(10), 10));
        walls.push(wall(W(10), U(-10), 10));
        walls.push(wall(W(23), U(10), 10));
        walls.push(wall(W(36), U(-10), 10));
        turrets.push(turret(TurretType::Advanced, U(-150), U(50)));
        turrets.push(turret(TurretType::Simple, U(-150), U(-50)));
        turrets.push(turret(TurretType::Advanced, U(150), U(50)));
        turrets.push(turret(TurretType::Simple, U(150), U(-50)));
    } else {
        walls.push(wall(W(-10), W(-40), 13));
        walls.push(wall(W(-10), W(-20), 13));
        walls.push(wall(W(-10), W(20), 13));
        walls.push(wall(W(10), W(-40), 13));
        walls.push(wall(W(10), W(-20), 13));
        walls.push(wall(W(10), W(20), 13));
        turrets.push(turret(TurretType::Rotating, U(-100), U(30)));
        turrets.push(turret(TurretType::Advanced, U(100), U(-30)));
        boss = true;
    }
    assert(turrets@ =~= wave_turrets(wave));
    assert(walls@ =~= wave_walls(wave));
    WaveLayout { turrets, walls, boss }
}

/// Number of tutorial steps that have a message of their own; any later
/// step shows the closing message and ends the tutorial.
pub open spec fn tutorial_steps() -> usize {
    7
}

/// The turrets of a tutorial step.
pub open spec fn tutorial_turrets(step: usize) -> Seq<TurretSpawn> {
    if step == 3 {
        seq![ts(TurretType::Simple, W(-40i32), W(10i32)), ts(TurretType::Simple, W(40i32), W(-10i32))]
    } else if step == 6 {
        seq![ts(TurretType::Simple, U(0i32), W(35i32))]
    } else {
        seq![]
    }
}

/// Message of a tutorial step; the last one closes the tutorial.
pub open spec fn tutorial_message(step: usize) -> Seq<char> {
    if step == 0 {
        "This is a tutorial message!\nPress R key to show next message"@
    } else if step == 1 {
        "Move around with W/A/S/D keys.\nPress SPACE key to dash in movement direction.\nYou can change direction mid-dash, but can't stop.\n\nDash gives temporary INVINCIBILITY, but consumes stamina.\n\nPress R key to show next message"@
    } else if step == 2 {
        "Shoot with left mouse button.\nShoot in the movement direction just after starting dash\n  to deal increased damage (ray will turn red).\n\nPress R key to start tutorial combat"@
    } else if step == 3 {
        "Destroy both turrets to finish the level!"@
    } else if step == 4 {
        "Sometimes enemies drop pieces which can be picked up:\n- green ones restore health;\n- red ones used to craft additional weapons.\nYou can only have two such weapons (in addition to main one) and they have limited uses.\nPress C to access crafting menu.\nShoot crafted weapon with right mouse button.\nSwitch current weapon with F or mouse wheel.\nTry combining different attacks, like shooting plasma ball with railgun.\n\nPress R key to show next message"@
    } else if step == 5 {
        "Over time you acquire focus charge.\nDestroy enemies and avoid damage to charge faster and stay focused longer.\nPress SHIFT at 100% charge to enter focus mode.\nShoot in sync with the beat to GREATLY increase damage.\n\nPress R key to start tutorial combat (again)"@
    } else if step == 6 {
        "Try destroying the turret using focus mode!"@
    } else {
        "That's it, end of tutorial!\nGame currently has no ending,\nLevels will be repeated after some time\n\nPress R key to PLAY\nAnd remember that you are damaged by your own explosions!"@
    }
}

/// The text shown for a tutorial message (see `SpawnPlan::tutorial_message`).
pub fn tutorial_text(step: usize) -> (t: &'static str)
    ensures
        t@ == tutorial_message(step),
{
    if step == 0 {
        "This is a tutorial message!\nPress R key to show next message"
    } else if step == 1 {
        "Move around with W/A/S/D keys.\nPress SPACE key to dash in movement direction.\nYou can change direction mid-dash, but can't stop.\n\nDash gives temporary INVINCIBILITY, but consumes stamina.\n\nPress R key to show next message"
    } else if step == 2 {
        "Shoot with left mouse button.\nShoot in the movement direction just after starting dash\n  to deal increased damage (ray will turn red).\n\nPress R key to start tutorial combat"
    } else if step == 3 {
        "Destroy both turrets to finish the level!"
    } else if step == 4 {
        "Sometimes enemies drop pieces which can be picked up:\n- green ones restore health;\n- red ones used to craft additional weapons.\nYou can only have two such weapons (in addition to main one) and they have limited uses.\nPress C to access crafting menu.\nShoot crafted weapon with right mouse button.\nSwitch current weapon with F or mouse wheel.\nTry combining different attacks, like shooting plasma ball with railgun.\n\nPress R key to show next message"
    } else if step == 5 {
        "Over time you acquire focus charge.\nDestroy enemies and avoid damage to charge faster and stay focused longer.\nPress SHIFT at 100% charge to enter focus mode.\nShoot in sync with the beat to GREATLY increase damage.\n\nPress R key to start tutorial combat (again)"
    } else if step == 6 {
        "Try destroying the turret using focus mode!"
    } else {
        "That's it, end of tutorial!\nGame currently has no ending,\nLevels will be repeated after some time\n\nPress R key to PLAY\nAnd remember that you are damaged by your own explosions!"
    }
}

/// The layout of a tutorial step: two turrets to practice on at step 3,
/// one (for focus mode) at step 6, nothing otherwise.
pub fn tutorial_layout(step: usize) -> (l: WaveLayout)
    ensures
        l.turrets@ == tutorial_turrets(step),
        l.walls@.len() == 0,
        !l.boss,
{
    let mut turrets: Vec<TurretSpawn> = Vec::new();
    if step == 3 {
        turrets.push(turret(TurretType::Simple, W(-40), W(10)));
        turrets.push(turret(TurretType::Simple, W(40), W(-10)));
    } else if step == 6 {
        turrets.push(turret(TurretType::Simple, U(0), W(35)));
    }
    assert(turrets@ =~= tutorial_turrets(step));
    WaveLayout { turrets, walls: Vec::new(), boss: false }
}

/// Marks an entity that belongs to the running game and goes away with it.
#[derive(Clone, Copy, Debug, PartialEq, Eq, Structural)]
pub struct GameplayObject;

/// Marks a wall that only lasts until the next wave is spawned.
#[derive(Clone, Copy, Debug, PartialEq, Eq, Structural)]
pub struct TemporaryWall;

/// What is removed before spawning.
#[derive(Clone, Copy, Debug, PartialEq, Eq, Structural)]
pub enum Cleanup {
    /// Every gameplay object.
    Everything,
    /// Only the temporary walls of the previous wave.
    TemporaryWalls,
}

impl Cleanup {
    /// Whether an entity, by the markers it carries, is removed.
    pub fn removes(&self, gameplay: Option<GameplayObject>, wall: Option<TemporaryWall>) -> (r: bool)
        ensures
            r == match *self {
                Cleanup::Everything => gameplay is Some,
                Cleanup::TemporaryWalls => wall is Some,
            },
    {
        match self {
            Cleanup::Everything => gameplay.is_some(),
            Cleanup::TemporaryWalls => wall.is_some(),
        }
    }
}

/// What a spawn request leads to.
pub struct SpawnPlan {
    pub cleanup: Cleanup,
    /// The same wave is spawned again: `Restart` is sent before `Started`.
    pub restarted: bool,
    /// Arena border, background grid and the player are (re)created.
    pub arena: bool,
    /// Tutorial message to show: the step number, or `tutorial_steps()` for
    /// the closing message; none outside the tutorial.
    pub tutorial_message: Option<usize>,
    pub layout: WaveLayout,
}

/// Result of handling a spawn request.
pub enum SpawnAction {
    /// Everything was despawned and the game stopped.
    Stop,
    Spawn(SpawnPlan),
}

/// Handles a pending spawn request, if any. A despawn request removes every
/// gameplay object and stops the game. A spawn request starts (or restarts)
/// the wave `stats.wave`; the very first spawn of a run resets the
/// statistics. Spawning the wave
/// that is already spawned is a restart and clears everything; spawning the
/// next wave only clears the temporary walls. In the tutorial the layout
/// follows the tutorial step, which ends after the last message.
pub fn spawn(control: &mut SpawnControl, stats: &mut Stats) -> (r: Option<SpawnAction>)
    ensures
        old(control).despawn is None ==> r is None && *final(control) == *old(control)
            && *final(stats) == *old(stats),
        old(control).despawn == Some(false) ==> (r matches Some(SpawnAction::Stop))
            && *final(control) == (SpawnControl {
            wave_spawned: None,
            despawn: None,
            ..*old(control)
        }) && *final(stats) == *old(stats),
        old(control).despawn == Some(true) ==> {
            let first = old(control).wave_spawned is None;
            let same = old(control).wave_spawned == Some(old(stats).wave);
            &&& first ==> final(stats).wave == 0 && final(stats).time == 0 && final(stats).restarts
                == 0 && final(stats).player_weapon_slot == 0 && final(stats).player.points == 0
                && final(stats).player.weapons@ == seq![
                Some((crate::objects::weapon::CraftedWeapon::Railgun, STARTING_USES)),
                Some((crate::objects::weapon::CraftedWeapon::Plasma, STARTING_USES)),
            ] && final(stats).last_wave == final(stats).player
            &&& !first ==> *final(stats) == *old(stats)
            &&& final(control).wave_spawned == Some(final(stats).wave)
            &&& !final(control).waiting_for_next_wave
            &&& final(control).despawn is None
            &&& r matches Some(SpawnAction::Spawn(plan))
            &&& {
                &&& plan.cleanup == if same {
                    Cleanup::Everything
                } else {
                    Cleanup::TemporaryWalls
                }
                &&& plan.restarted == same
                &&& plan.arena == (first || same)
                &&& match old(control).tutorial {
                    Some(step) => {
                        &&& plan.layout.turrets@ == tutorial_turrets(step)
                        &&& plan.layout.walls@.len() == 0
                        &&& !plan.layout.boss
                        &&& if step < tutorial_steps() {
                            plan.tutorial_message == Some(step) && final(control).tutorial == Some(
                                step,
                            )
                        } else {
                            plan.tutorial_message == Some(tutorial_steps())
                                && final(control).tutorial is None
                        }
                    },
                    None => {
                        &&& plan.tutorial_message is None
                        &&& final(control).tutorial is None
                        &&& plan.layout.turrets@ == wave_turrets(final(stats).wave)
                        &&& plan.layout.walls@ == wave_walls(final(stats).wave)
                        &&& plan.layout.boss == (final(stats).wave % 6 == 5)
                    },
                }
            }
        },
{
    let respawn = match control.despawn {
        Some(r) => r,
        None => {
            return None;
        },
    };
    control.despawn = None;
    if !respawn {
        control.wave_spawned = None;
        return Some(SpawnAction::Stop);
    }
    let same = match control.wave_spawned {
        Some(w) => w == stats.wave,
        None => false,
    };
    let first = !control.is_game_running();
    if first {
        *stats = Stats::new();
    }
    control.wave_spawned = Some(stats.wave);
    control.waiting_for_next_wave = false;
    let (tutorial_message, layout) = match control.tutorial {
        Some(step) => {
            if step < 7 {
                (Some(step), tutorial_layout(step))
            } else {
                control.tutorial = None;
                (Some(7), tutorial_layout(step))
            }
        },
        None => (None, wave_layout(stats.wave)),
    };
    Some(
        SpawnAction::Spawn(
            SpawnPlan {
                cleanup: if same {
                    Cleanup::Everything
                } else {
                    Cleanup::TemporaryWalls
                },
                restarted: same,
                arena: first || same,
                tutorial_message,
                layout,
            },
        ),
    )
}

/// Resource: entities that must all be gone for the wave to end.
pub struct WaveData {
    pub entities: Vec<EntityId>,
}

/// Keeps the wave entities that are still alive (`alive[i]` tells about
/// `entities[i]`). When the last of them is gone the wave ends: the game
/// waits for the next wave, the tutorial moves to its next step, and `true`
/// is returned so that `Ended` is sent. Nothing happens while no game runs.
pub fn wave_end_detect(control: &mut SpawnControl, wave: &mut WaveData, alive: &Vec<bool>) -> (ended: bool)
    requires
        alive@.len() == old(wave).entities@.len(),
        old(control).wave_spawned is Some && old(wave).entities@.len() > 0 && (forall|i: int|
            0 <= i < alive@.len() ==> !#[trigger] alive@[i]) ==> (old(control).tutorial matches Some(
            t
        ) ==> t < usize::MAX),
    ensures
        old(control).wave_spawned is None ==> !ended && *final(control) == *old(control)
            && final(wave).entities@ == old(wave).entities@,
        old(control).wave_spawned is Some ==> {
            &&& final(wave).entities@ == retained(old(wave).entities@, alive@)
            &&& ended == (old(wave).entities@.len() > 0 && final(wave).entities@.len() == 0)
            &&& ended ==> *final(control) == (SpawnControl {
                waiting_for_next_wave: true,
                tutorial: match old(control).tutorial {
                    Some(t) => Some((t + 1) as usize),
                    None => None,
                },
                ..*old(control)
            })
            &&& !ended ==> *final(control) == *old(control)
        },
{
    if !control.is_game_running() {
        return false;
    }
    let was_empty = wave.entities.len() == 0;
    let mut kept: Vec<EntityId> = Vec::new();
    let mut i: usize = 0;
    while i < wave.entities.len()
        invariant
            i <= wave.entities@.len(),
            alive@.len() == wave.entities@.len(),
            kept@ == retained(wave.entities@.subrange(0, i as int), alive@),
        decreases wave.entities@.len() - i,
    {
        if alive[i] {
            kept.push(wave.entities[i]);
        }
        proof {
            assert(wave.entities@.subrange(0, i + 1).drop_last() =~= wave.entities@.subrange(0, i as int));
        }
        i = i + 1;
    }
    proof {
        assert(wave.entities@.subrange(0, wave.entities@.len() as int) =~= wave.entities@);
    }
    wave.entities = kept;
    if wave.entities.len() == 0 && !was_empty {
        proof {
            crate::utils::rust::lemma_retained_empty(old(wave).entities@, alive@);
        }
        control.waiting_for_next_wave = true;
        control.tutorial = match control.tutorial {
            Some(t) => Some(t + 1),
            None => None,
        };
        true
    } else {
        false
    }
}

/// Levels repeat after six waves, the boss coming back every sixth wave.
pub proof fn waves_repeat(wave: usize)
    requires
        wave + 6 <= usize::MAX,
    ensures
        wave_turrets((wave + 6) as usize) == wave_turrets(wave),
        wave_walls((wave + 6) as usize) == wave_walls(wave),
        (((wave + 6) as usize) % 6 == 5) == (wave % 6 == 5),
{
    assert(((wave + 6) as usize) % 6 == wave % 6);
}

/// The kinds of a list of turrets, in order.
pub open spec fn turret_kinds(turrets: Seq<TurretSpawn>) -> Seq<TurretType> {
    turrets.map_values(|t: TurretSpawn| t.kind)
}

/// The turrets of the six waves of a round, by kind: two simple ones, then
/// four simple ones, then two advanced ones with a rotating one, then two
/// simple, an advanced and a rotating one, then advanced and simple ones in
/// turn, then a rotating and an advanced one beside the boss.
pub proof fn wave_rosters(wave: usize)
    ensures
        wave % 6 == 0 ==> turret_kinds(wave_turrets(wave)) == seq![TurretType::Simple, TurretType::Simple],
        wave % 6 == 1 ==> turret_kinds(wave_turrets(wave)) == seq![
            TurretType::Simple,
            TurretType::Simple,
            TurretType::Simple,
            TurretType::Simple,
        ],
        wave % 6 == 2 ==> turret_kinds(wave_turrets(wave)) == seq![
            TurretType::Advanced,
            TurretType::Advanced,
            TurretType::Rotating,
        ],
        wave % 6 == 3 ==> turret_kinds(wave_turrets(wave)) == seq![
            TurretType::Simple,
            TurretType::Simple,
            TurretType::Advanced,
            TurretType::Rotating,
        ],
        wave % 6 == 4 ==> turret_kinds(wave_turrets(wave)) == seq![
            TurretType::Advanced,
            TurretType::Simple,
            TurretType::Advanced,
            TurretType::Simple,
        ],
        wave % 6 == 5 ==> turret_kinds(wave_turrets(wave)) == seq![TurretType::Rotating, TurretType::Advanced],
        wave % 6 >= 2 <==> exists|i: int|
            0 <= i < wave_turrets(wave).len() && #[trigger] wave_turrets(wave)[i].kind != TurretType::Simple,
{
    let t = wave_turrets(wave);
    assert(turret_kinds(t) =~= Seq::new(t.len(), |i: int| t[i].kind));
    if wave % 6 == 0 {
        assert(turret_kinds(t) =~= seq![TurretType::Simple, TurretType::Simple]);
    } else if wave % 6 == 1 {
        assert(turret_kinds(t) =~= seq![
            TurretType::Simple,
            TurretType::Simple,
            TurretType::Simple,
            TurretType::Simple,
        ]);
    } else if wave % 6 == 2 {
        assert(turret_kinds(t) =~= seq![TurretType::Advanced, TurretType::Advanced, TurretType::Rotating]);
        assert(t[0].kind != TurretType::Simple);
    } else if wave % 6 == 3 {
        assert(turret_kinds(t) =~= seq![
            TurretType::Simple,
            TurretType::Simple,
            TurretType::Advanced,
            TurretType::Rotating,
        ]);
        assert(t[2].kind != TurretType::Simple);
    } else if wave % 6 == 4 {
        assert(turret_kinds(t) =~= seq![
            TurretType::Advanced,
            TurretType::Simple,
            TurretType::Advanced,
            TurretType::Simple,
        ]);
        assert(t[0].kind != TurretType::Simple);
    } else {
        assert(turret_kinds(t) =~= seq![TurretType::Rotating, TurretType::Advanced]);
        assert(t[0].kind != TurretType::Simple);
    }
}

/// The tutorial only ever puts simple turrets up to practice on: two at
/// step 3, one (for focus mode) at step 6, none at any other step.
pub proof fn tutorial_targets_are_simple(step: usize)
    ensures
        forall|i: int|
            0 <= i < tutorial_turrets(step).len() ==> #[trigger] tutorial_turrets(step)[i].kind == TurretType::Simple,
        tutorial_turrets(step).len() == if step == 3 {
            2int
        } else if step == 6 {
            1int
        } else {
            0int
        },
{
}

/// A coordinate mirrored across the arena's center line.
pub open spec fn mirror(c: Coord) -> Coord {
    match c {
        Coord::Units(v) => Coord::Units((-v) as i32),
        Coord::World(v) => Coord::World((-v) as i32),
    }
}

/// A turret mirrored left to right.
pub open spec fn mirrored(t: TurretSpawn) -> TurretSpawn {
    TurretSpawn { kind: t.kind, at: Spot { x: mirror(t.at.x), y: t.at.y } }
}

/// The first, second, third and fifth waves of a round are left-right
/// symmetric: each turret has a twin of its kind mirrored across the
/// vertical center line (the third wave's rotating turret stands on it).
pub proof fn symmetric_waves(wave: usize)
    requires
        wave % 6 == 0 || wave % 6 == 1 || wave % 6 == 2 || wave % 6 == 4,
    ensures
        forall|i: int|
            0 <= i < wave_turrets(wave).len() ==> wave_turrets(wave).contains(
                mirrored(#[trigger] wave_turrets(wave)[i]),
            ),
{
    let t = wave_turrets(wave);
    assert forall|i: int| 0 <= i < t.len() implies t.contains(mirrored(#[trigger] t[i])) by {
        let j: int = if wave % 6 == 0 {
            1 - i
        } else if wave % 6 == 2 {
            if i == 2 { 2 } else { 1 - i }
        } else {
            (i + 2) % 4
        };
        if wave % 6 == 0 {
            assert(t[j] == mirrored(t[i]));
        } else if wave % 6 == 1 {
            assert(t[j] == mirrored(t[i]));
        } else if wave % 6 == 2 {
            assert(t[j] == mirrored(t[i]));
        } else {
            assert(t[j] == mirrored(t[i]));
        }
    }
}

} // verus!
