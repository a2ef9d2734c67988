use scrapbot::control::time::{millis, GameTime};
use scrapbot::objects::boss::{BossLogic, BossParts, BossStage, BossState, DestructionStep};
use scrapbot::objects::grid::{select_grid_pulse, GridPulse, PulseColor, PulseType};
use scrapbot::objects::level::LevelControl;
use scrapbot::objects::player::FocusChange;
use scrapbot::present::sound::Beats;
use scrapbot::objects::player::{
    axis, format_clock, health_color, next_beats_level, next_wave, respawn, stamina_color,
    wave_end_prompt, weapon_label, HudColor, Player, WavePrompt,
};
use scrapbot::objects::spawn::{
    spawn, tutorial_layout, wave_end_detect, wave_layout, Cleanup, Coord, GameplayObject,
    SpawnAction, SpawnControl, TemporaryWall, TurretType, WaveData, WaveEvent,
};
use scrapbot::objects::stats::{PersistentPlayer, Stats, STARTING_USES};
use scrapbot::objects::terrain::{stable_sort_by_key, terrain_lines, TerrainPoint};
use scrapbot::objects::weapon::{damage_tier, player_shot, CraftedWeapon, ShotKind};

#[test]
fn fresh_stats() {
    let s = Stats::new();
    assert_eq!((s.wave, s.time, s.restarts, s.player_weapon_slot), (0, 0, 0, 0));
    assert_eq!(s.player.points, 0);
    assert_eq!(STARTING_USES, 3);
    assert_eq!(
        s.player.weapons,
        [Some((CraftedWeapon::Railgun, 3)), Some((CraftedWeapon::Plasma, 3))]
    );
    let p = PersistentPlayer::new();
    assert_eq!(p.weapons, s.player.weapons);
}

#[test]
fn restart_restores_wave_start() {
    let mut s = Stats::new();
    let mut wave_now = false;
    s.add_points(10);
    s.on_wave_event(WaveEvent::Started, &mut wave_now);
    assert!(wave_now);
    s.add_points(25);
    s.pick_weapon(CraftedWeapon::Repeller);
    s.advance(wave_now, 1000);
    assert_eq!(s.time, 1000);
    s.on_wave_event(WaveEvent::Restart, &mut wave_now);
    assert_eq!(s.player.points, 10);
    assert_eq!(s.player.weapons[0], Some((CraftedWeapon::Railgun, 3)));
    assert_eq!(s.restarts, 1);
    s.on_wave_event(WaveEvent::Ended, &mut wave_now);
    assert!(!wave_now);
    s.advance(wave_now, 1000);
    assert_eq!(s.time, 1000);
}

#[test]
fn weapon_slots() {
    let mut s = Stats::new();
    assert_eq!(s.weapon(), Some((CraftedWeapon::Railgun, 3)));
    s.change_weapon();
    assert_eq!(s.player_weapon_slot, 1);
    assert_eq!(s.weapon(), Some((CraftedWeapon::Plasma, 3)));
    s.pick_weapon(CraftedWeapon::Repeller);
    assert_eq!(s.weapon(), Some((CraftedWeapon::Repeller, 15)));
    s.set_weapon(None);
    assert_eq!(s.weapon(), None);
    s.change_weapon();
    assert_eq!(s.player_weapon_slot, 0);
}

#[test]
fn weapon_descriptions() {
    assert_eq!(CraftedWeapon::variants(), vec![CraftedWeapon::Plasma, CraftedWeapon::Railgun]);
    assert_eq!(CraftedWeapon::Plasma.description(), ("Plasma", "Shoots explosive energy balls", 10));
    assert_eq!(CraftedWeapon::Repeller.description().2, 15);
    assert_eq!(CraftedWeapon::GodRay.description(), ("GODRAY", "GODRAY", 0));
    assert_eq!(damage_tier(false, false), 0);
    assert_eq!(damage_tier(true, false), 1);
    assert_eq!(damage_tier(false, true), 1);
    assert_eq!(damage_tier(true, true), 2);
}

#[test]
fn gun_shots() {
    let mut s = Stats::new();
    let shot = player_shot(&mut s, false, false, false);
    assert_eq!(shot.kind, ShotKind::Ray { retarget: false });
    assert_eq!((shot.weapon, shot.damage, shot.explodes_projectiles, shot.broken), (None, 1, false, false));
    assert_eq!(player_shot(&mut s, false, true, false).damage, 3);
    let shot = player_shot(&mut s, false, true, true);
    assert_eq!((shot.damage, shot.explodes_projectiles), (6, true));
    assert_eq!(s.weapon(), Some((CraftedWeapon::Railgun, 3)));
    // the regular gun reads no weapon slot
    s.player_weapon_slot = 7;
    assert_eq!(player_shot(&mut s, false, false, false).damage, 1);
    assert_eq!(s.player_weapon_slot, 7);
}

#[test]
fn railgun_runs_out_after_its_uses() {
    let mut s = Stats::new();
    for left in [2, 1] {
        let shot = player_shot(&mut s, true, false, false);
        assert_eq!(shot.kind, ShotKind::Ray { retarget: true });
        assert_eq!((shot.damage, shot.explodes_projectiles, shot.broken), (4, true, false));
        assert_eq!(s.weapon(), Some((CraftedWeapon::Railgun, left)));
    }
    let shot = player_shot(&mut s, true, true, true);
    assert_eq!((shot.damage, shot.broken), (12, true));
    assert_eq!(s.weapon(), None);
    let shot = player_shot(&mut s, true, true, true);
    assert_eq!(shot.kind, ShotKind::Nothing);
    assert!(!shot.broken);
    // the other slot is untouched
    assert_eq!(s.player.weapons[1], Some((CraftedWeapon::Plasma, 3)));
}

#[test]
fn plasma_speed_and_damage() {
    let mut s = Stats::new();
    s.change_weapon();
    let shot = player_shot(&mut s, true, false, false);
    assert_eq!(shot.kind, ShotKind::Plasma { speed: 8 });
    assert_eq!((shot.damage, shot.explodes_projectiles), (2, false));
    let shot = player_shot(&mut s, true, true, false);
    assert_eq!(shot.kind, ShotKind::Plasma { speed: 16 });
    assert_eq!(shot.damage, 5);
    s.pick_weapon(CraftedWeapon::Plasma);
    let shot = player_shot(&mut s, true, true, true);
    assert_eq!(shot.kind, ShotKind::Plasma { speed: 24 });
    assert_eq!((shot.damage, shot.explodes_projectiles), (10, true));
    assert_eq!(s.weapon(), Some((CraftedWeapon::Plasma, 9)));
}

#[test]
fn god_ray_and_idle_weapons() {
    let mut s = Stats::new();
    s.set_weapon(Some((CraftedWeapon::GodRay, 100000)));
    let shot = player_shot(&mut s, true, false, false);
    assert_eq!((shot.damage, shot.weapon), (1000, Some(CraftedWeapon::GodRay)));
    assert_eq!(s.weapon(), Some((CraftedWeapon::GodRay, 100000)));
    s.set_weapon(Some((CraftedWeapon::Shield, 10)));
    assert_eq!(player_shot(&mut s, true, true, true).kind, ShotKind::Nothing);
    assert_eq!(s.weapon(), Some((CraftedWeapon::Shield, 10)));
}

#[test]
fn weapon_labels() {
    assert_eq!(weapon_label(Some((CraftedWeapon::Railgun, 3))), "Railgun 30%");
    assert_eq!(weapon_label(Some((CraftedWeapon::Repeller, 10))), "Repeller 66%");
    assert_eq!(weapon_label(Some((CraftedWeapon::Plasma, 10))), "Plasma 100%");
    assert_eq!(weapon_label(Some((CraftedWeapon::GodRay, 0))), "GODRAY 0%");
    assert_eq!(weapon_label(Some((CraftedWeapon::GodRay, 1))), "GODRAY 4294967295%");
    assert_eq!(weapon_label(None), "empty");
}

#[test]
fn hud_text_and_colors() {
    assert_eq!(format_clock(0), "00:00");
    assert_eq!(format_clock(65), "01:05");
    assert_eq!(format_clock(3599), "59:59");
    assert_eq!(format_clock(6000), "100:00");
    assert_eq!(health_color(49), HudColor::Red);
    assert_eq!(health_color(50), HudColor::Yellow);
    assert_eq!(health_color(80), HudColor::Green);
    assert_eq!(stamina_color(0), HudColor::DarkGray);
    assert_eq!(stamina_color(1), HudColor::Yellow);
    assert_eq!(stamina_color(3), HudColor::Green);
}

#[test]
fn player_fire_lock() {
    let mut p = Player::new();
    assert!(p.try_shoot(0, false));
    assert!(!p.try_shoot(millis(199), false));
    assert!(p.try_shoot(millis(199), true));
    assert!(!p.try_shoot(millis(300), true));
    assert!(p.try_shoot(millis(399), true));
    assert_eq!(p.fire_lock, Some((millis(399), true)));
}

#[test]
fn player_dash_and_focus() {
    let mut p = Player::new();
    assert!(p.can_dash(true));
    assert!(!p.can_dash(false));
    p.start_dash(&GameTime::at(1000, 0));
    assert_eq!(p.dash_until, Some(1000 + millis(250)));
    assert!(!p.can_dash(true));
    assert_eq!(p.update_dash(&GameTime::at(1000 + millis(249), 0)), Some(true));
    assert_eq!(p.update_dash(&GameTime::at(1000 + millis(250), 0)), Some(false));
    assert_eq!(p.dash_until, None);
    assert_eq!(p.update_dash(&GameTime::at(1000 + millis(251), 0)), None);

    assert!(p.focus_over(0));
    p.add_beats(0);
    assert_eq!(p.beats_count, Some(4));
    p.add_beats(1);
    assert_eq!(p.beats_count, Some(12));
    p.on_hit();
    assert_eq!(p.beats_count, Some(11));
    assert!(!p.focus_over(10));
    assert!(p.focus_over(11));
    assert_eq!(next_beats_level(0), 1);
    assert_eq!(next_beats_level(1), 2);
    assert_eq!(next_beats_level(2), 2);
    assert_eq!(axis(true, false), -1);
    assert_eq!(axis(false, true), 1);
    assert_eq!(axis(true, true), 0);
    assert_eq!(axis(false, false), 0);
}

#[test]
fn wave_prompts() {
    assert_eq!(wave_end_prompt(Some(1)), WavePrompt::TutorialHint);
    assert_eq!(wave_end_prompt(Some(4)), WavePrompt::NextLevel);
    assert_eq!(wave_end_prompt(Some(7)), WavePrompt::NextLevel);
    assert_eq!(wave_end_prompt(Some(2)), WavePrompt::Nothing);
    assert_eq!(wave_end_prompt(None), WavePrompt::NextLevel);
}

#[test]
fn next_wave_and_respawn() {
    let mut spawn = SpawnControl::new();
    let mut stats = Stats::new();
    assert!(next_wave(&mut spawn, &mut stats, false));
    spawn.wave_spawned = Some(0);
    assert!(!next_wave(&mut spawn, &mut stats, false));
    assert!(next_wave(&mut spawn, &mut stats, true));
    assert_eq!(stats.wave, 1);
    assert_eq!(spawn.despawn, Some(true));
    spawn.despawn = None;
    spawn.tutorial = Some(2);
    assert!(next_wave(&mut spawn, &mut stats, true));
    assert_eq!(stats.wave, 1);

    let mut spawn = SpawnControl::new();
    assert!(!respawn(&mut spawn, false, true));
    assert_eq!(spawn.despawn, None);
    spawn.wave_spawned = Some(3);
    assert!(!respawn(&mut spawn, true, true));
    assert!(respawn(&mut spawn, false, false));
    assert_eq!(spawn.despawn, None);
    assert!(respawn(&mut spawn, false, true));
    assert_eq!(spawn.despawn, Some(true));
}

#[test]
fn wave_layouts() {
    let l = wave_layout(0);
    let kinds: Vec<TurretType> = l.turrets.iter().map(|t| t.kind).collect();
    assert_eq!(kinds, vec![TurretType::Simple, TurretType::Simple]);
    assert_eq!(l.turrets[0].at.x, Coord::Units(-150));
    assert_eq!(l.walls.len(), 4);
    assert!(l.walls.iter().all(|w| w.size == 13));
    assert!(!l.boss);
    let l = wave_layout(4);
    assert_eq!(l.walls.len(), 6);
    assert!(l.walls.iter().all(|w| w.size == 10));
    let l = wave_layout(5);
    assert!(l.boss);
    assert_eq!(l.turrets.len(), 2);
    // layouts repeat every six waves
    for w in 0..6usize {
        let a = wave_layout(w);
        let b = wave_layout(w + 6);
        assert_eq!(a.turrets, b.turrets);
        assert_eq!(a.walls, b.walls);
        assert_eq!(a.boss, b.boss);
    }
    let t = tutorial_layout(3);
    assert_eq!(t.turrets.len(), 2);
    assert!(t.walls.is_empty() && !t.boss);
    assert_eq!(tutorial_layout(6).turrets.len(), 1);
    assert!(tutorial_layout(0).turrets.is_empty());
}

#[test]
fn turret_kinds() {
    assert_eq!(TurretType::Simple.death_points(), 20);
    assert_eq!(TurretType::Advanced.death_points(), 40);
    assert_eq!(TurretType::Rotating.death_points(), 60);
    let p = TurretType::Simple.attack_pattern();
    assert_eq!(p.stages.len(), 7);
    assert_eq!(p.stages[0].0, millis(1000));
    assert_eq!(TurretType::Advanced.attack_pattern().stages.len(), 5);
    assert_eq!(TurretType::Rotating.attack_pattern().stages.len(), 1);
}

#[test]
fn cleanup_removes_by_marker() {
    assert!(Cleanup::Everything.removes(Some(GameplayObject), None));
    assert!(!Cleanup::Everything.removes(None, Some(TemporaryWall)));
    assert!(Cleanup::TemporaryWalls.removes(Some(GameplayObject), Some(TemporaryWall)));
    assert!(!Cleanup::TemporaryWalls.removes(Some(GameplayObject), None));
}

#[test]
fn spawning_waves() {
    let mut control = SpawnControl::new();
    let mut stats = Stats::new();
    stats.player.points = 99;
    assert!(spawn(&mut control, &mut stats).is_none());
    // first spawn resets the statistics
    control.despawn = Some(true);
    match spawn(&mut control, &mut stats) {
        Some(SpawnAction::Spawn(plan)) => {
            assert_eq!(plan.cleanup, Cleanup::TemporaryWalls);
            assert!(!plan.restarted);
            assert!(plan.arena);
            assert_eq!(plan.tutorial_message, None);
            assert_eq!(plan.layout.turrets.len(), 2);
        }
        _ => panic!("expected a spawn"),
    }
    assert_eq!(stats.player.points, 0);
    assert_eq!(control.wave_spawned, Some(0));
    assert_eq!(control.despawn, None);
    assert!(control.is_game_running());
    // spawning the same wave again is a restart
    stats.player.points = 5;
    control.despawn = Some(true);
    match spawn(&mut control, &mut stats) {
        Some(SpawnAction::Spawn(plan)) => {
            assert_eq!(plan.cleanup, Cleanup::Everything);
            assert!(plan.restarted);
            assert!(plan.arena);
        }
        _ => panic!("expected a spawn"),
    }
    assert_eq!(stats.player.points, 5);
    // the next wave only removes temporary walls
    stats.wave = 1;
    control.despawn = Some(true);
    match spawn(&mut control, &mut stats) {
        Some(SpawnAction::Spawn(plan)) => {
            assert_eq!(plan.cleanup, Cleanup::TemporaryWalls);
            assert!(!plan.restarted);
            assert!(!plan.arena);
            assert_eq!(plan.layout.turrets.len(), 4);
        }
        _ => panic!("expected a spawn"),
    }
    control.despawn = Some(false);
    assert!(matches!(spawn(&mut control, &mut stats), Some(SpawnAction::Stop)));
    assert!(!control.is_game_running());
}

#[test]
fn tutorial_spawns() {
    let mut control = SpawnControl::new();
    let mut stats = Stats::new();
    control.tutorial = Some(3);
    control.despawn = Some(true);
    match spawn(&mut control, &mut stats) {
        Some(SpawnAction::Spawn(plan)) => {
            assert_eq!(plan.tutorial_message, Some(3));
            assert_eq!(plan.layout.turrets.len(), 2);
        }
        _ => panic!("expected a spawn"),
    }
    assert_eq!(control.tutorial, Some(3));
    control.tutorial = Some(7);
    control.despawn = Some(true);
    match spawn(&mut control, &mut stats) {
        Some(SpawnAction::Spawn(plan)) => assert_eq!(plan.tutorial_message, Some(7)),
        _ => panic!("expected a spawn"),
    }
    assert_eq!(control.tutorial, None);
}

#[test]
fn waves_end_when_all_are_gone() {
    let mut control = SpawnControl::new();
    let mut wave = WaveData { entities: vec![1, 2, 3] };
    assert!(!wave_end_detect(&mut control, &mut wave, &vec![false, false, false]));
    assert_eq!(wave.entities, vec![1, 2, 3]);
    control.wave_spawned = Some(0);
    control.tutorial = Some(2);
    assert!(!wave_end_detect(&mut control, &mut wave, &vec![true, false, true]));
    assert_eq!(wave.entities, vec![1, 3]);
    assert!(wave_end_detect(&mut control, &mut wave, &vec![false, false]));
    assert!(wave.entities.is_empty());
    assert!(control.waiting_for_next_wave);
    assert_eq!(control.tutorial, Some(3));
    assert!(!wave_end_detect(&mut control, &mut wave, &vec![]));
}

#[test]
fn boss_destruction() {
    let mut b = BossState::new();
    let t = GameTime::at(1000, 0);
    b.part_destroyed(&t);
    b.part_destroyed(&t);
    assert_eq!(b.die_start, None);
    assert_eq!(b.destruction_step(&t), DestructionStep::Nothing);
    b.part_destroyed(&t);
    assert_eq!(b.die_start, Some(1000));
    assert_eq!(b.destruction_step(&t), DestructionStep::Explode);
    assert_eq!(b.count, 0);
    assert_eq!(b.destruction_step(&GameTime::at(1000 + millis(79), 0)), DestructionStep::Nothing);
    assert_eq!(b.destruction_step(&GameTime::at(1000 + millis(80), 0)), DestructionStep::Explode);
    assert_eq!(b.count, 1);
    assert_eq!(b.destruction_step(&GameTime::at(1000 + millis(3001), 0)), DestructionStep::Despawn);
}

#[test]
fn boss_cycle() {
    let all = BossParts { center: true, left: true, right: true };
    let t0 = GameTime::at(0, 0);
    let mut l = BossLogic::new(&t0);
    assert_eq!(l.current(), BossStage::Wait);
    let a = l.update(&GameTime::at(millis(1000), 0), all);
    assert!(a.sweep.is_none() && a.charge.is_empty());
    let a = l.update(&GameTime::at(millis(1500), 0), all);
    assert_eq!(l.current(), BossStage::Sweep(0));
    assert_eq!(a.charge, vec![0]);
    let a = l.update(&GameTime::at(millis(2500), 0), all);
    assert_eq!(a.sweep, Some(0));
    let a = l.update(&GameTime::at(millis(2600), 0), all);
    assert_eq!(a.sweep, None);
    // without the center the sweeps are skipped
    let towers = BossParts { center: false, left: true, right: true };
    let mut l = BossLogic::new(&t0);
    let a = l.update(&GameTime::at(millis(1500), 0), towers);
    assert_eq!(l.current(), BossStage::Wait);
    assert_eq!(l.stage, 5);
    assert!(a.charge.is_empty());
    let a = l.update(&GameTime::at(millis(3000), 0), towers);
    assert_eq!(l.current(), BossStage::Rocket);
    assert_eq!(a.charge, vec![1, 2]);
    let a = l.update(&GameTime::at(millis(4000), 0), towers);
    assert_eq!(a.rocket, Some(false));
}

#[test]
fn boss_stage_durations() {
    let all = BossParts { center: true, left: true, right: true };
    let mut l = BossLogic::new(&GameTime::at(0, 0));
    assert_eq!(l.current_duration(), millis(1500));
    l.update(&GameTime::at(millis(1500), 0), all);
    assert_eq!(l.current_duration(), millis(3000));
    let towers = BossParts { center: false, left: false, right: true };
    let mut l = BossLogic::new(&GameTime::at(0, 0));
    l.update(&GameTime::at(millis(1500), 0), towers);
    l.update(&GameTime::at(millis(3000), 0), towers);
    assert_eq!(l.current(), BossStage::Rocket);
    assert_eq!(l.current_duration(), millis(8500));
    // a start close to the end of time still fits the current stage
    let mut late = BossLogic::new(&GameTime::at(u64::MAX - millis(1500), 0));
    let a = late.update(&GameTime::at(u64::MAX, 0), towers);
    assert_eq!(late.start, u64::MAX);
    assert!(a.charge.is_empty());
}

#[test]
fn terrain_sorting_and_lines() {
    let sorted = stable_sort_by_key(&vec![('a', 3), ('b', 1), ('c', 3), ('d', 0)]);
    assert_eq!(sorted, vec![('d', 0), ('b', 1), ('a', 3), ('c', 3)]);
    let points = vec![
        ('x', TerrainPoint { line_id: 2, point_id: 1 }),
        ('y', TerrainPoint { line_id: 1, point_id: 0 }),
        ('z', TerrainPoint { line_id: 2, point_id: 0 }),
        ('w', TerrainPoint { line_id: 1, point_id: 5 }),
        ('v', TerrainPoint { line_id: 3, point_id: 0 }),
    ];
    let mut lines = terrain_lines(&points);
    lines.sort();
    assert_eq!(lines, vec![vec!['v'], vec!['y', 'w'], vec!['z', 'x']]);
    assert!(terrain_lines::<char>(&vec![]).is_empty());
}

#[test]
fn level_control_starts_empty() {
    assert!(!LevelControl::new().is_game_running());
}

#[test]
fn turret_health_and_aiming() {
    assert_eq!(TurretType::Simple.health(), 3);
    assert_eq!(TurretType::Advanced.health(), 6);
    assert_eq!(TurretType::Rotating.health(), 10);
    assert!(TurretType::Simple.aims());
    assert!(TurretType::Advanced.aims());
    assert!(!TurretType::Rotating.aims());
}

#[test]
fn tutorial_messages() {
    assert_eq!(
        scrapbot::objects::spawn::tutorial_text(0),
        "This is a tutorial message!\nPress R key to show next message"
    );
    assert_eq!(scrapbot::objects::spawn::tutorial_text(3), "Destroy both turrets to finish the level!");
    assert!(scrapbot::objects::spawn::tutorial_text(7).starts_with("That's it, end of tutorial!\n"));
    assert_eq!(scrapbot::objects::spawn::tutorial_text(8), scrapbot::objects::spawn::tutorial_text(7));
}

#[test]
fn focus_mode_cycle() {
    let mut p = Player::new();
    let mut beats = Beats::new();
    assert_eq!(p.start_focus(&mut beats, true, false), FocusChange::Unchanged);
    assert_eq!(p.start_focus(&mut beats, false, true), FocusChange::Unchanged);
    assert_eq!(p.start_focus(&mut beats, true, true), FocusChange::Entered);
    assert_eq!(beats.level, 1);
    assert_eq!(p.beats_count, Some(8));
    beats.count = 7;
    assert_eq!(p.focus_update(&mut beats, true), FocusChange::Unchanged);
    beats.count = 8;
    assert_eq!(p.focus_update(&mut beats, true), FocusChange::Extended);
    assert_eq!(p.beats_count, Some(16));
    beats.count = 16;
    assert_eq!(p.focus_update(&mut beats, false), FocusChange::Ended);
    assert_eq!(beats.level, 0);
    assert_eq!(p.beats_count, None);
    // with focus off, it stays off
    assert_eq!(p.focus_update(&mut beats, true), FocusChange::Ended);
}

#[test]
fn grid_pulse_selection() {
    assert_eq!(GridPulse::idle(), GridPulse { period: 3_000_000_000, color: PulseColor::Blue, ty: PulseType::Expand });
    assert_eq!(GridPulse::alert().period, 1_500_000_000);
    assert_eq!(GridPulse::waiting().ty, PulseType::Collapse);
    let mut waiting = false;
    assert_eq!(select_grid_pulse(&mut waiting, &vec![], Some(true), GridPulse::idle()), GridPulse::alert());
    assert_eq!(select_grid_pulse(&mut waiting, &vec![], Some(false), GridPulse::alert()), GridPulse::idle());
    assert_eq!(select_grid_pulse(&mut waiting, &vec![], None, GridPulse::alert()), GridPulse::alert());
    assert_eq!(select_grid_pulse(&mut waiting, &vec![WaveEvent::Ended], Some(true), GridPulse::idle()), GridPulse::waiting());
    assert!(waiting);
    assert_eq!(select_grid_pulse(&mut waiting, &vec![WaveEvent::Restart], None, GridPulse::idle()), GridPulse::waiting());
    assert_eq!(
        select_grid_pulse(&mut waiting, &vec![WaveEvent::Ended, WaveEvent::Started], Some(false), GridPulse::alert()),
        GridPulse::idle()
    );
    assert!(!waiting);
}
