use scrapbot::control::time::{millis, GameTime};
use scrapbot::mechanics::ai::{AttackPattern, AttackStage, Target};
use scrapbot::mechanics::combat::{arena_doors, CombatEvent};
use scrapbot::mechanics::damage::{
    accepts_damage, contact_outcome, dies_on_contact, pierce_cost, ray_hit_reward, BigProjectile,
    BonkToTeam, Contact, DamageOnContact, DieOnContact, EnemyType, RayHitReward, SmallProjectile,
    Team,
};
use scrapbot::mechanics::health::{DieAfter, RecentDamage};
use scrapbot::mechanics::movement::{slide, DashState, DropSpread, KinematicCommand, Slide};
use scrapbot::mechanics::physics::{CollectContacts, CollisionEvent, CollisionGroups, PhysicsType};

#[test]
fn teams() {
    let all = [Team::Player, Team::Enemy, Team::YEEEEEEE];
    for a in all {
        for b in all {
            assert_eq!(a.is_same(b), b.is_same(a));
        }
    }
    assert!(Team::Player.is_same(Team::Player));
    assert!(Team::Enemy.is_same(Team::Enemy));
    assert!(!Team::Player.is_same(Team::Enemy));
    assert!(!Team::YEEEEEEE.is_same(Team::YEEEEEEE));
    assert!(Team::Player.is_player());
    assert!(!Team::Enemy.is_player());
    assert!(accepts_damage(Team::Enemy, Team::Player, false));
    assert!(!accepts_damage(Team::Enemy, Team::Enemy, false));
    assert!(!accepts_damage(Team::Enemy, Team::Player, true));
    assert!(accepts_damage(Team::YEEEEEEE, Team::YEEEEEEE, false));
}

fn contact(entity: u64, has_health: bool, small: bool, invincible: bool) -> Contact {
    Contact {
        entity,
        has_health,
        small_projectile: if small { Some(SmallProjectile) } else { None },
        invincible,
    }
}

#[test]
fn dying_on_contact() {
    let none: Vec<Contact> = vec![];
    assert!(!dies_on_contact(None, &none));
    assert!(!dies_on_contact(Some(BigProjectile), &none));
    let small = vec![contact(1, true, true, false)];
    assert!(dies_on_contact(None, &small));
    // a big projectile goes through small ones
    assert!(!dies_on_contact(Some(BigProjectile), &small));
    // and is not stopped by something invincible
    let shield = vec![contact(2, true, false, true)];
    assert!(!dies_on_contact(Some(BigProjectile), &shield));
    // one solid and one vulnerable contact are enough, even if not the same
    let both = vec![contact(1, true, true, false), contact(2, true, false, true)];
    assert!(dies_on_contact(Some(BigProjectile), &both));
    let wall = vec![contact(3, false, false, false)];
    assert!(dies_on_contact(Some(BigProjectile), &wall));
}

#[test]
fn contact_outcomes() {
    let contacts = vec![contact(1, true, false, false), contact(2, false, false, false), contact(3, true, true, false)];
    let out = contact_outcome(Some(DamageOnContact), Some(DieOnContact), None, &contacts);
    assert_eq!(out.damaged, vec![1, 3]);
    assert!(out.dies);
    let out = contact_outcome(None, Some(DieOnContact), None, &contacts);
    assert!(out.damaged.is_empty());
    assert!(out.dies);
    let out = contact_outcome(Some(DamageOnContact), None, None, &contacts);
    assert_eq!(out.damaged, vec![1, 3]);
    assert!(!out.dies);
    let out = contact_outcome(Some(DamageOnContact), Some(DieOnContact), None, &vec![]);
    assert!(out.damaged.is_empty());
    assert!(!out.dies);
}

#[test]
fn bonking_turns_big_projectiles() {
    let bonk = BonkToTeam(Team::Player);
    assert_eq!(bonk.bonk(Team::Enemy, Some(BigProjectile)), Team::Player);
    assert_eq!(bonk.bonk(Team::Enemy, None), Team::Enemy);
}

#[test]
fn ray_rewards() {
    assert_eq!(ray_hit_reward(true, true, true, None), RayHitReward { points: 50, force_kill: true });
    assert_eq!(ray_hit_reward(true, false, true, Some(SmallProjectile)), RayHitReward { points: 1, force_kill: false });
    assert_eq!(ray_hit_reward(true, false, false, None), RayHitReward { points: 0, force_kill: false });
    assert_eq!(ray_hit_reward(false, true, true, Some(SmallProjectile)), RayHitReward { points: 0, force_kill: false });
    assert_eq!(pierce_cost(Some(EnemyType::Normal)), 1);
    assert_eq!(pierce_cost(None), 0);
}

#[test]
fn die_after_lifetime() {
    let mut d = DieAfter::new(100);
    assert!(!d.update(&GameTime::at(1000, 0)));
    assert!(!d.update(&GameTime::at(1099, 0)));
    assert!(d.update(&GameTime::at(1100, 0)));
    let mut d = DieAfter::one_frame();
    assert!(!d.update(&GameTime::at(7, 0)));
    assert!(d.update(&GameTime::at(7, 0)));
}

#[test]
fn damage_rate_limited_per_source() {
    let mut recent = RecentDamage::new();
    assert!(recent.try_register(1, &GameTime::at(0, 0)));
    assert!(!recent.try_register(1, &GameTime::at(millis(400), 0)));
    assert!(recent.try_register(2, &GameTime::at(millis(400), 0)));
    assert!(!recent.try_register(1, &GameTime::at(millis(499), 0)));
    assert!(recent.try_register(1, &GameTime::at(millis(500), 0)));
    assert!(!recent.try_register(2, &GameTime::at(millis(600), 0)));
}

#[test]
fn collision_groups() {
    assert_eq!(PhysicsType::Obstacle.rapier(), CollisionGroups { memberships: 1, filters: 2 });
    assert_eq!(PhysicsType::Player.rapier(), CollisionGroups { memberships: 2, filters: 5 });
    assert_eq!(PhysicsType::Script.rapier(), CollisionGroups { memberships: 4, filters: 2 });
    assert_eq!(PhysicsType::PlunkDown.rapier(), CollisionGroups { memberships: 255, filters: 5 });
}

#[test]
fn contacts_start_and_stop() {
    let mut c = CollectContacts::new();
    c.apply(1, CollisionEvent::Started(1, 2));
    c.apply(1, CollisionEvent::Started(3, 1));
    c.apply(1, CollisionEvent::Started(4, 5));
    assert!(c.touches(2) && c.touches(3));
    assert!(!c.touches(4) && !c.touches(5));
    c.apply(1, CollisionEvent::Stopped(2, 1));
    assert!(!c.touches(2));
    assert!(c.touches(3));
    c.apply(1, CollisionEvent::Stopped(4, 5));
    assert!(c.touches(3));
    assert_eq!(c.current.len(), 1);
}

#[test]
fn arena_doors_follow_last_event() {
    assert!(arena_doors(&vec![], true));
    assert!(!arena_doors(&vec![], false));
    assert!(arena_doors(&vec![CombatEvent::Start, CombatEvent::Died], false));
    assert!(!arena_doors(&vec![CombatEvent::Start, CombatEvent::End], true));
    assert!(arena_doors(&vec![CombatEvent::End, CombatEvent::Start], false));
    assert!(!arena_doors(&vec![CombatEvent::Died], false));
}

#[test]
fn target_resolves_to_player() {
    assert_eq!(Target::Player.resolve(Some(4)), Some(4));
    assert_eq!(Target::Player.resolve(None), None);
}

#[test]
fn attack_pattern_loops() {
    let mut p: AttackPattern<u8> = AttackPattern::new()
        .stage(1, 100, AttackStage::Wait)
        .stage(2, 50, AttackStage::Shoot(7));
    assert_eq!(p.stages.len(), 3);
    // the first update starts the first stage
    assert_eq!(p.update(&GameTime::at(1000, 0)), None);
    assert_eq!(p.stage, 0);
    assert_eq!(p.update(&GameTime::at(1099, 0)), None);
    assert_eq!(p.update(&GameTime::at(1100, 0)), Some(7));
    assert_eq!(p.stage, 1);
    assert_eq!(p.update(&GameTime::at(1100, 0)), None);
    assert_eq!(p.update(&GameTime::at(1150, 0)), Some(7));
    assert_eq!(p.stage, 2);
    assert_eq!(p.update(&GameTime::at(1150, 0)), None);
    assert_eq!(p.update(&GameTime::at(1200, 0)), None);
    assert_eq!(p.stage, 0);
    let mut empty: AttackPattern<u8> = AttackPattern::new();
    assert_eq!(empty.update(&GameTime::at(5, 0)), None);
}

#[test]
fn dash_steers_and_ends() {
    let mut d: DashState<(i32, i32)> = DashState::new(250);
    assert_eq!(d.command(KinematicCommand::Move { dir: (1, 0) }, 0), Some((1, 0)));
    assert_eq!(d.step(&GameTime::at(0, 0)), None);
    assert_eq!(d.command(KinematicCommand::Dash { dir: (0, 1) }, 1000), None);
    assert_eq!(d.dash, Some(((0, 1), 1250)));
    // moving during a dash only steers it
    assert_eq!(d.command(KinematicCommand::Move { dir: (-1, 0) }, 1100), None);
    assert_eq!(d.step(&GameTime::at(1249, 0)), Some((-1, 0)));
    assert_eq!(d.step(&GameTime::at(1250, 0)), None);
    assert!(d.dash.is_none());
    assert_eq!(d.command(KinematicCommand::Move { dir: (1, 1) }, 1300), Some((1, 1)));
}

#[test]
fn sliding_along_walls() {
    assert_eq!(slide(true, false, false), Slide::Full);
    assert_eq!(slide(false, true, true), Slide::AlongX);
    assert_eq!(slide(false, false, true), Slide::AlongY);
    assert_eq!(slide(false, false, false), Slide::Stuck);
}

#[test]
fn drop_spread_lasts_one_and_a_half_seconds() {
    let mut s: DropSpread<u8> = DropSpread::new();
    assert_eq!(s.step(1000, 3), Some((3, 0)));
    // the direction is fixed on the first frame
    assert_eq!(s.step(millis(1000), 9), Some((3, millis(1000) - 1000)));
    assert_eq!(s.step(1000 + millis(1500) - 1, 9), Some((3, millis(1500) - 1)));
    assert_eq!(s.step(1000 + millis(1500), 9), None);
}
