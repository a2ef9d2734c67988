use scrapbot::control::level::{CurrentLevel, LevelCommand, LevelEvent};
use scrapbot::control::loading::{LoadState, Loading};
use scrapbot::control::menu::{
    mega_mode, menu_buttons, play_now_hack, press, MenuButton, MenuState, PlayNowHack, TimeMode,
};
use scrapbot::control::time::{millis, GameTime};
use scrapbot::objects::spawn::SpawnControl;
use std::cell::RefCell;

#[test]
fn millis_are_a_million_nanos() {
    assert_eq!(millis(0), 0);
    assert_eq!(millis(3), 3_000_000);
    assert_eq!(millis(1500), 1_500_000_000);
}

#[test]
fn game_time_advances() {
    let mut t = GameTime::new();
    assert_eq!(t.now(), 0);
    assert_eq!(t.delta(), 0);
    t.advance(10);
    t.advance(5);
    assert_eq!(t.now(), 15);
    assert_eq!(t.delta(), 5);
    assert!(t.reached(15));
    assert!(!t.reached(16));
    assert_eq!(t.passed(10), 5);
    assert_eq!(t.passed(20), 0);
}

#[test]
fn tick_count_reports_new_periods() {
    let second = millis(1000);
    // 2.5 s after the start, the frame began at 1.9 s: period 2 started
    let t = GameTime::at(2_500_000_000, 600_000_000);
    assert_eq!(t.tick_count(0, second), Some(2));
    assert!(t.is_tick(0, second));
    // the frame began at 2.4 s: still period 2
    let t = GameTime::at(2_500_000_000, 100_000_000);
    assert_eq!(t.tick_count(0, second), None);
    assert!(!t.is_tick(0, second));
    // before the start there are no periods at all
    let t = GameTime::at(500, 100);
    assert_eq!(t.tick_count(1000, second), None);
    // the very first frame after the start counts as period 0
    let t = GameTime::at(1_000_000_000, 100);
    assert_eq!(t.tick_count(999_999_950, second), Some(0));
}

#[test]
fn loading_tracks_pending_assets() {
    let mut loading: Loading<u32> = Loading::new();
    assert!(loading.complete());
    assert_eq!(loading.add(7), 7);
    assert_eq!(loading.add(9), 9);
    assert!(!loading.complete());
    loading.check_state(&vec![LoadState::Loaded, LoadState::Loading]);
    assert!(!loading.complete());
    loading.check_state(&vec![LoadState::Failed]);
    assert!(loading.complete());
}

#[test]
fn loading_numbered_assets() {
    let seen: RefCell<Vec<String>> = RefCell::new(Vec::new());
    let load = |p: String| -> usize {
        let mut s = seen.borrow_mut();
        s.push(p);
        s.len()
    };
    let mut loading: Loading<usize> = Loading::new();
    let handles = loading.add_n(&load, "sfx/beat", 3, "ogg");
    assert_eq!(handles, vec![1, 2, 3]);
    assert_eq!(
        *seen.borrow(),
        vec!["sfx/beat0.ogg".to_string(), "sfx/beat1.ogg".to_string(), "sfx/beat2.ogg".to_string()]
    );
    assert!(!loading.complete());
    loading.check_state(&vec![LoadState::Loaded, LoadState::NotLoaded, LoadState::Loading]);
    assert!(!loading.complete());
    loading.check_state(&vec![LoadState::Unloaded]);
    assert!(loading.complete());
}

#[test]
fn level_commands() {
    let mut level = CurrentLevel::new();
    assert!(level.command(LevelCommand::Load(5)).is_none());
    assert_eq!((level.old, level.level, level.loaded), (0, 5, false));
    assert!(!level.spawn_if_ready(false));
    assert!(level.spawn_if_ready(true));
    assert_eq!((level.old, level.level, level.loaded), (5, 5, true));
    assert!(!level.spawn_if_ready(true));
    assert!(matches!(level.command(LevelCommand::Reload), Some(LevelEvent::Reloaded)));
    assert!(!level.loaded);
    assert!(level.spawn_if_ready(true));
    assert!(matches!(level.command(LevelCommand::Unload), Some(LevelEvent::Unloaded)));
    assert!(level.loaded);
    assert!(!level.spawn_if_ready(true));
}

#[test]
fn time_stops_in_menus_and_on_death() {
    let mut mode = TimeMode::new();
    let (locks, stopped) = mega_mode(&mut mode, true);
    assert!(mode.player_alive);
    assert!(!stopped);
    assert!(locks.player && locks.craft && locks.control);

    mode.craft_menu = true;
    let (locks, stopped) = mega_mode(&mut mode, true);
    assert!(stopped);
    assert!(!locks.player && locks.craft && !locks.control);

    mode.craft_menu = false;
    mode.main_menu = true;
    let (locks, stopped) = mega_mode(&mut mode, true);
    assert!(stopped);
    assert!(!locks.player && !locks.craft && !locks.control);

    mode.main_menu = false;
    let (_, stopped) = mega_mode(&mut mode, false);
    assert!(stopped);
    assert!(mode.stopped());
}

#[test]
fn menu_toggle_twice_restores() {
    for start in [MenuState::Hidden, MenuState::Root] {
        let mut s = start;
        s.toggle(true, false, true);
        assert_ne!(s, start);
        s.toggle(true, false, true);
        assert_eq!(s, start);
    }
    // outside a game the open menu stays open
    let mut s = MenuState::new();
    assert!(s.toggle(true, false, false));
    assert_eq!(s, MenuState::Root);
    // the crafting menu blocks the key
    let mut s = MenuState::Hidden;
    assert!(!s.toggle(true, true, true));
    // nothing pressed, nothing changes
    let mut s = MenuState::Hidden;
    assert!(!s.toggle(false, false, true));
}

#[test]
fn menu_buttons_depend_on_game() {
    assert_eq!(
        menu_buttons(true),
        vec![MenuButton::Continue, MenuButton::RestartWave, MenuButton::ExitToMainMenu]
    );
    assert_eq!(menu_buttons(false), vec![MenuButton::PlayWithTutorial, MenuButton::PlaySkipTutorial]);
}

#[test]
fn menu_buttons_act() {
    let mut state = MenuState::Root;
    let mut spawn = SpawnControl::new();
    press(&mut state, &mut spawn, MenuButton::PlayWithTutorial);
    assert_eq!(state, MenuState::Hidden);
    assert_eq!(spawn.despawn, Some(true));
    assert_eq!(spawn.tutorial, Some(0));

    let mut state = MenuState::Root;
    press(&mut state, &mut spawn, MenuButton::PlaySkipTutorial);
    assert_eq!(spawn.tutorial, None);

    let mut state = MenuState::Root;
    let mut spawn = SpawnControl::new();
    press(&mut state, &mut spawn, MenuButton::ExitToMainMenu);
    assert_eq!(state, MenuState::Root);
    assert_eq!(spawn.despawn, Some(false));

    press(&mut state, &mut spawn, MenuButton::RestartWave);
    assert_eq!(state, MenuState::Hidden);
    assert_eq!(spawn.despawn, Some(true));

    let mut state = MenuState::Root;
    let mut spawn = SpawnControl::new();
    press(&mut state, &mut spawn, MenuButton::Continue);
    assert_eq!(state, MenuState::Hidden);
    assert_eq!(spawn.despawn, None);
}

#[test]
fn play_now_starts_a_game() {
    let mut state = MenuState::Root;
    let mut spawn = SpawnControl::new();
    play_now_hack(&PlayNowHack(false), &mut spawn, &mut state);
    assert_eq!(state, MenuState::Root);
    assert_eq!(spawn.despawn, None);
    play_now_hack(&PlayNowHack(true), &mut spawn, &mut state);
    assert_eq!(state, MenuState::Hidden);
    assert_eq!(spawn.despawn, Some(true));
}
