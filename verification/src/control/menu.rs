use crate::objects::spawn::SpawnControl;
use vstd::prelude::*;

verus! {

/// Start the game right away (given on the command line).
pub struct PlayNowHack(pub bool);

/// What stops gameplay time. The speed override of focus mode is kept by the
/// caller; it only matters while time is not stopped.
#[derive(Clone, Copy, Debug, PartialEq, Eq, Structural)]
pub struct TimeMode {
    pub main_menu: bool,
    pub craft_menu: bool,
    pub player_alive: bool,
}

impl TimeMode {
    pub fn new() -> (m: Self)
        ensures
            !m.main_menu && !m.craft_menu && !m.player_alive,
    {
        TimeMode { main_menu: false, craft_menu: false, player_alive: false }
    }

    /// Time stops in menus and while the player is dead.
    pub fn stopped(&self) -> (r: bool)
        ensures
            r == (self.main_menu || self.craft_menu || !self.player_alive),
    {
        self.main_menu || self.craft_menu || !self.player_alive
    }
}

/// Which input maps are enabled.
#[derive(Clone, Copy, Debug, PartialEq, Eq, Structural)]
pub struct InputLocks {
    pub player: bool,
    pub craft: bool,
    pub control: bool,
}

/// Updates whether the player is alive and decides which inputs are enabled:
/// in the main menu nothing is, in the crafting menu only crafting is,
/// otherwise everything is. Returns the enabled inputs and whether time is
/// stopped (the caller then sets the time scale to zero).
pub fn mega_mode(mode: &mut TimeMode, player_exists: bool) -> (r: (InputLocks, bool))
    ensures
        *final(mode) == (TimeMode { player_alive: player_exists, ..*old(mode) }),
        r.1 == final(mode).stopped_spec(),
        r.0.player == !(old(mode).main_menu || old(mode).craft_menu),
        r.0.craft == (!(old(mode).main_menu || old(mode).craft_menu) || old(mode).craft_menu),
        r.0.control == !(old(mode).main_menu || old(mode).craft_menu),
{
    mode.player_alive = player_exists;
    let lock_active = mode.main_menu || mode.craft_menu;
    let lock_allow_craft = mode.craft_menu;
    let stopped = mode.stopped();
    (InputLocks { player: !lock_active, craft: !lock_active || lock_allow_craft, control: !lock_active }, stopped)
}

impl TimeMode {
    pub open spec fn stopped_spec(self) -> bool {
        self.main_menu || self.craft_menu || !self.player_alive
    }
}

/// Main menu screen.
#[derive(Clone, Copy, Debug, PartialEq, Eq, Structural)]
pub enum MenuState {
    Hidden,
    Root,
}

/// Buttons of the main menu.
#[derive(Clone, Copy, Debug, PartialEq, Eq, Structural)]
pub enum MenuButton {
    Continue,
    RestartWave,
    ExitToMainMenu,
    PlayWithTutorial,
    PlaySkipTutorial,
}

impl MenuState {
    /// The menu opens at startup.
    pub fn new() -> (s: Self)
        ensures
            s == MenuState::Root,
    {
        MenuState::Root
    }

    /// The menu after a frame in which the exit-menu key was or was not
    /// pressed: it opens, or closes if a game is running, unless the
    /// crafting menu is open.
    pub open spec fn toggled(self, exit_pressed: bool, craft_menu: bool, game_running: bool) -> MenuState {
        if exit_pressed && !craft_menu {
            match self {
                MenuState::Hidden => MenuState::Root,
                MenuState::Root => if game_running {
                    MenuState::Hidden
                } else {
                    MenuState::Root
                },
            }
        } else {
            self
        }
    }

    /// Applies the exit-menu key; returns whether the main menu is shown
    /// afterwards.
    pub fn toggle(&mut self, exit_pressed: bool, craft_menu: bool, game_running: bool) -> (shown: bool)
        ensures
            *final(self) == old(self).toggled(exit_pressed, craft_menu, game_running),
            shown == (*final(self) != MenuState::Hidden),
    {
        if exit_pressed && !craft_menu {
            match *self {
                MenuState::Hidden => *self = MenuState::Root,
                MenuState::Root => {
                    if game_running {
                        *self = MenuState::Hidden
                    }
                },
            }
        }
        match *self {
            MenuState::Hidden => false,
            MenuState::Root => true,
        }
    }
}

/// Buttons the main menu offers: during a game, continue, restart the wave or
/// leave it; otherwise, start a game with or without the tutorial.
pub fn menu_buttons(ingame: bool) -> (b: Vec<MenuButton>)
    ensures
        b@ == if ingame {
            seq![MenuButton::Continue, MenuButton::RestartWave, MenuButton::ExitToMainMenu]
        } else {
            seq![MenuButton::PlayWithTutorial, MenuButton::PlaySkipTutorial]
        },
{
    let mut b = Vec::new();
    if ingame {
        b.push(MenuButton::Continue);
        b.push(MenuButton::RestartWave);
        b.push(MenuButton::ExitToMainMenu);
    } else {
        b.push(MenuButton::PlayWithTutorial);
        b.push(MenuButton::PlaySkipTutorial);
    }
    assert(b@ =~= if ingame {
        seq![MenuButton::Continue, MenuButton::RestartWave, MenuButton::ExitToMainMenu]
    } else {
        seq![MenuButton::PlayWithTutorial, MenuButton::PlaySkipTutorial]
    });
    b
}

/// Effect of a clicked menu button. Continuing closes the menu; restarting
/// closes it and respawns the wave; leaving despawns the game (the menu
/// stays); playing closes the menu and spawns a game, starting the tutorial
/// at its first step or skipping it.
pub fn press(state: &mut MenuState, spawn: &mut SpawnControl, button: MenuButton)
    ensures
        match button {
            MenuButton::Continue => *final(state) == MenuState::Hidden && *final(spawn) == *old(spawn),
            MenuButton::RestartWave => *final(state) == MenuState::Hidden && *final(spawn) == (
            SpawnControl { despawn: Some(true), ..*old(spawn) }),
            MenuButton::ExitToMainMenu => *final(state) == *old(state) && *final(spawn) == (
            SpawnControl { despawn: Some(false), ..*old(spawn) }),
            MenuButton::PlayWithTutorial => *final(state) == MenuState::Hidden && *final(spawn) == (
            SpawnControl { despawn: Some(true), tutorial: Some(0), ..*old(spawn) }),
            MenuButton::PlaySkipTutorial => *final(state) == MenuState::Hidden && *final(spawn) == (
            SpawnControl { despawn: Some(true), tutorial: None, ..*old(spawn) }),
        },
{
    match button {
        MenuButton::Continue => {
            *state = MenuState::Hidden;
        },
        MenuButton::RestartWave => {
            *state = MenuState::Hidden;
            spawn.despawn = Some(true);
        },
        MenuButton::ExitToMainMenu => {
            spawn.despawn = Some(false);
        },
        MenuButton::PlayWithTutorial => {
            *state = MenuState::Hidden;
            spawn.despawn = Some(true);
            spawn.tutorial = Some(0);
        },
        MenuButton::PlaySkipTutorial => {
            *state = MenuState::Hidden;
            spawn.despawn = Some(true);
            spawn.tutorial = None;
        },
    }
}

/// At startup, when asked to play right away: spawn a game and close the menu.
pub fn play_now_hack(hack: &PlayNowHack, spawn: &mut SpawnControl, state: &mut MenuState)
    ensures
        hack.0 ==> *final(spawn) == (SpawnControl { despawn: Some(true), ..*old(spawn) })
            && *final(state) == MenuState::Hidden,
        !hack.0 ==> *final(spawn) == *old(spawn) && *final(state) == *old(state),
{
    if hack.0 {
        spawn.despawn = Some(true);
        *state = MenuState::Hidden;
    }
}

/// During a game, pressing the exit-menu key twice (with the crafting menu
/// closed) brings the menu back to where it was; outside a game the menu
/// stays open whatever is pressed.
pub proof fn toggle_twice_restores(s: MenuState, exit_pressed: bool, craft_menu: bool)
    ensures
        s.toggled(true, false, true).toggled(true, false, true) == s,
        s == MenuState::Root ==> s.toggled(exit_pressed, craft_menu, false) == MenuState::Root,
{
}

} // verus!
