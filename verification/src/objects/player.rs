use crate::control::time::{millis, GameTime, Nanos};
use crate::objects::spawn::SpawnControl;
use crate::objects::stats::Stats;
use crate::objects::weapon::CraftedWeapon;
use crate::present::sound::Beats;
use crate::utils::text::{decimal, push_char, push_decimal, push_str};
use vstd::prelude::*;

verus! {

/// How long a dash lasts (and keeps the player invincible).
pub open spec fn dash_duration() -> int {
    250_000_000
}

/// Shots of the same kind are at least this far apart.
pub open spec fn fire_interval() -> int {
    200_000_000
}

/// Timers and counters of the player: the end of the current dash, the
/// beats left in focus mode, and the time and kind of the last shot.
pub struct Player {
    pub dash_until: Option<Nanos>,
    pub beats_count: Option<i32>,
    pub fire_lock: Option<(Nanos, bool)>,
}

impl Player {
    pub fn new() -> (p: Self)
        ensures
            p.dash_until is None,
            p.beats_count is None,
            p.fire_lock is None,
    {
        Player { dash_until: None, beats_count: None, fire_lock: None }
    }

    /// Whether a shot (crafted weapon when `mega`) may be fired at real
    /// time `now`: none was fired yet, the last one was of the other kind, or
    /// it was at least 200 ms ago.
    pub open spec fn can_fire(self, now: Nanos, mega: bool) -> bool {
        match self.fire_lock {
            Some((start, was_mega)) => now - start >= fire_interval() || mega != was_mega,
            None => true,
        }
    }

    /// The player after trying to fire: a shot fired is recorded.
    pub open spec fn after_trigger(self, now: Nanos, mega: bool) -> Player {
        if self.can_fire(now, mega) {
            Player { fire_lock: Some((now, mega)), ..self }
        } else {
            self
        }
    }

    /// Fires if `can_fire` allows it; returns whether it did.
    pub fn try_shoot(&mut self, now: Nanos, mega: bool) -> (can: bool)
        requires
            old(self).fire_lock matches Some((start, _)) ==> now >= start,
        ensures
            can == old(self).can_fire(now, mega),
            *final(self) == old(self).after_trigger(now, mega),
    {
        let can = match self.fire_lock {
            Some((start, was_mega)) => now - start >= millis(200) || mega != was_mega,
            None => true,
        };
        if can {
            self.fire_lock = Some((now, mega));
        }
        can
    }

    /// Focus mode grants beats: 4 at the first level, 8 after.
    pub fn add_beats(&mut self, current_level: usize)
        requires
            old(self).beats_count matches Some(c) ==> c <= i32::MAX - 8,
        ensures
            final(self).beats_count == Some(
                (match old(self).beats_count {
                    Some(c) => c as int,
                    None => 0,
                } + if current_level == 0 {
                    4int
                } else {
                    8int
                }) as i32,
            ),
            final(self).dash_until == old(self).dash_until,
            final(self).fire_lock == old(self).fire_lock,
    {
        let add: i32 = if current_level == 0 {
            4
        } else {
            8
        };
        let c = match self.beats_count {
            Some(c) => c,
            None => 0,
        };
        self.beats_count = Some(c + add);
    }

    /// A dash may start when asked for and none is going on (stamina is
    /// checked by the caller afterwards).
    pub fn can_dash(&self, pressed: bool) -> (r: bool)
        ensures
            r == (pressed && self.dash_until is None),
    {
        pressed && self.dash_until.is_none()
    }

    /// Starts a dash now.
    pub fn start_dash(&mut self, time: &GameTime)
        requires
            time.spec_now() + dash_duration() <= u64::MAX,
        ensures
            *final(self) == (Player { dash_until: Some((time.spec_now() + dash_duration()) as u64), ..*old(self) }),
    {
        self.dash_until = Some(time.now() + millis(250));
    }

    /// While a dash lasts the player is invincible; returns the new
    /// invincibility during or at the end of a dash, none otherwise.
    pub fn update_dash(&mut self, time: &GameTime) -> (invincible: Option<bool>)
        ensures
            match old(self).dash_until {
                Some(until) => {
                    let still = time.spec_now() < until;
                    invincible == Some(still) && *final(self) == if still {
                        *old(self)
                    } else {
                        Player { dash_until: None, ..*old(self) }
                    }
                },
                None => invincible is None && *final(self) == *old(self),
            },
    {
        match self.dash_until {
            Some(until) => {
                let still = !time.reached(until);
                if !still {
                    self.dash_until = None;
                }
                Some(still)
            },
            None => None,
        }
    }

    /// Taking damage in focus mode costs a beat.
    pub fn on_hit(&mut self)
        requires
            old(self).beats_count matches Some(c) ==> c > i32::MIN,
        ensures
            final(self).beats_count == match old(self).beats_count {
                Some(c) => Some((c - 1) as i32),
                None => None,
            },
            final(self).dash_until == old(self).dash_until,
            final(self).fire_lock == old(self).fire_lock,
    {
        if let Some(c) = self.beats_count {
            self.beats_count = Some(c - 1);
        }
    }

    /// Focus mode is over once the beat counter reached the granted beats
    /// (or when it is not on).
    pub fn focus_over(&self, beats_now: i32) -> (r: bool)
        ensures
            r == match self.beats_count {
                Some(c) => beats_now >= c,
                None => true,
            },
    {
        match self.beats_count {
            Some(c) => beats_now >= c,
            None => true,
        }
    }
}

/// Shots of one kind come at most every 200 ms: right after a shot, the same
/// weapon cannot fire again before that time has passed, while the other one
/// can.
pub proof fn fire_rate_limited(p: Player, t1: Nanos, t2: Nanos, mega: bool)
    requires
        p.can_fire(t1, mega),
        t1 <= t2,
    ensures
        p.after_trigger(t1, mega).can_fire(t2, mega) == (t2 - t1 >= fire_interval()),
        p.after_trigger(t1, mega).can_fire(t2, !mega),
{
}

/// What focus mode does this frame.
#[derive(Clone, Copy, Debug, PartialEq, Eq, Structural)]
pub enum FocusChange {
    Unchanged,
    /// Focus mode was entered or raised a level.
    Entered,
    /// More beats were granted; the focus charge is used up.
    Extended,
    /// Focus mode is over: normal speed and time scale come back.
    Ended,
}

/// Beats one grant of focus mode adds at a beat level.
pub open spec fn granted_beats(level: usize) -> int {
    if level == 0 { 4 } else { 8 }
}

impl Player {
    /// The focus key with a full focus charge enters focus mode (or raises
    /// it to its second level) and grants beats; the caller then uses up the
    /// charge, doubles the player's speed and halves the time scale.
    pub fn start_focus(&mut self, beats: &mut Beats, pressed: bool, charged: bool) -> (c: FocusChange)
        requires
            old(self).beats_count matches Some(n) ==> n <= i32::MAX - 8,
        ensures
            if pressed && charged {
                let level: usize = if old(beats).level == 0 { 1 } else { 2 };
                &&& c == FocusChange::Entered
                &&& *final(beats) == (Beats { level, ..*old(beats) })
                &&& final(self).beats_count == Some(
                    (match old(self).beats_count {
                        Some(n) => n as int,
                        None => 0,
                    } + granted_beats(level)) as i32,
                )
                &&& final(self).dash_until == old(self).dash_until
                &&& final(self).fire_lock == old(self).fire_lock
            } else {
                c == FocusChange::Unchanged && *final(beats) == *old(beats) && *final(self) == *old(self)
            },
    {
        if pressed && charged {
            beats.level = next_beats_level(beats.level);
            self.add_beats(beats.level);
            FocusChange::Entered
        } else {
            FocusChange::Unchanged
        }
    }

    /// Once the granted beats have all been counted (or focus mode is off),
    /// focus mode goes on with more beats if the focus charge is full again,
    /// and ends otherwise: the beat level drops to zero and no beats are
    /// granted any more.
    pub fn focus_update(&mut self, beats: &mut Beats, charged: bool) -> (c: FocusChange)
        requires
            old(self).beats_count matches Some(n) ==> n <= i32::MAX - 8,
        ensures
            ({
                let over = match old(self).beats_count {
                    Some(n) => old(beats).count >= n,
                    None => true,
                };
                if !over {
                    c == FocusChange::Unchanged && *final(beats) == *old(beats) && *final(self) == *old(self)
                } else if charged && old(self).beats_count is Some {
                    &&& c == FocusChange::Extended
                    &&& *final(beats) == *old(beats)
                    &&& final(self).beats_count == Some(
                        (old(self).beats_count->0 + granted_beats(old(beats).level)) as i32,
                    )
                    &&& final(self).dash_until == old(self).dash_until
                    &&& final(self).fire_lock == old(self).fire_lock
                } else {
                    &&& c == FocusChange::Ended
                    &&& *final(beats) == (Beats { level: 0, ..*old(beats) })
                    &&& *final(self) == (Player { beats_count: None, ..*old(self) })
                }
            }),
    {
        if !self.focus_over(beats.count) {
            return FocusChange::Unchanged;
        }
        if charged && self.beats_count.is_some() {
            self.add_beats(beats.level);
            FocusChange::Extended
        } else {
            beats.level = 0;
            self.beats_count = None;
            FocusChange::Ended
        }
    }
}

/// Movement along one axis from two opposite keys: -1, 0 or +1.
pub fn axis(negative: bool, positive: bool) -> (r: i32)
    ensures
        r == if negative && !positive {
            -1i32
        } else if positive && !negative {
            1i32
        } else {
            0i32
        },
{
    match (negative, positive) {
        (true, false) => -1,
        (false, true) => 1,
        _ => 0,
    }
}

/// Entering focus mode raises the beat level to 1, or to 2 if already on.
pub fn next_beats_level(level: usize) -> (r: usize)
    ensures
        r == if level == 0 {
            1usize
        } else {
            2usize
        },
{
    if level == 0 {
        1
    } else {
        2
    }
}

/// Text shown when a wave ends.
#[derive(Clone, Copy, Debug, PartialEq, Eq, Structural)]
pub enum WavePrompt {
    /// Points to the tutorial text.
    TutorialHint,
    /// Asks to press the restart key for the next level.
    NextLevel,
    Nothing,
}

/// The end-of-wave text: a hint at the first tutorial step, the next-level
/// prompt after the tutorial fights (steps 4 and 7) and outside the
/// tutorial, nothing otherwise.
pub fn wave_end_prompt(tutorial: Option<usize>) -> (p: WavePrompt)
    ensures
        p == match tutorial {
            Some(t) => if t == 1 {
                WavePrompt::TutorialHint
            } else if t == 4 || t == 7 {
                WavePrompt::NextLevel
            } else {
                WavePrompt::Nothing
            },
            None => WavePrompt::NextLevel,
        },
{
    match tutorial {
        Some(1) => WavePrompt::TutorialHint,
        Some(4) | Some(7) | None => WavePrompt::NextLevel,
        Some(_) => WavePrompt::Nothing,
    }
}

/// While the end-of-wave text is shown: the restart key advances (to the
/// next wave outside the tutorial) and respawns; leaving the game also
/// removes the text. Returns whether the text goes away.
pub fn next_wave(spawn: &mut SpawnControl, stats: &mut Stats, restart_pressed: bool) -> (dismiss: bool)
    requires
        old(spawn).wave_spawned is Some && restart_pressed && old(spawn).tutorial is None
            ==> old(stats).wave < usize::MAX,
    ensures
        dismiss == (old(spawn).wave_spawned is None || restart_pressed),
        if old(spawn).wave_spawned is Some && restart_pressed {
            *final(spawn) == (SpawnControl { despawn: Some(true), ..*old(spawn) })
                && *final(stats) == (Stats {
                wave: if old(spawn).tutorial is None {
                    (old(stats).wave + 1) as usize
                } else {
                    old(stats).wave
                },
                ..*old(stats)
            })
        } else {
            *final(spawn) == *old(spawn) && *final(stats) == *old(stats)
        },
{
    if spawn.is_game_running() {
        if restart_pressed {
            if spawn.tutorial.is_none() {
                stats.wave = stats.wave + 1;
            }
            spawn.despawn = Some(true);
            true
        } else {
            false
        }
    } else {
        true
    }
}

/// When the player died during a game, the restart key respawns the wave.
/// Returns whether the death notice is shown.
pub fn respawn(spawn: &mut SpawnControl, player_alive: bool, restart_pressed: bool) -> (shown: bool)
    ensures
        shown == (old(spawn).wave_spawned is Some && !player_alive),
        *final(spawn) == if shown && restart_pressed {
            SpawnControl { despawn: Some(true), ..*old(spawn) }
        } else {
            *old(spawn)
        },
{
    if !spawn.is_game_running() {
        return false;
    }
    if !player_alive {
        if restart_pressed {
            spawn.despawn = Some(true);
        }
        true
    } else {
        false
    }
}

/// Decimal notation padded with zeros to at least two digits.
pub open spec fn two_digits(n: nat) -> Seq<char> {
    if n < 10 {
        seq!['0'] + decimal(n)
    } else {
        decimal(n)
    }
}

fn push_two_digits(s: &mut String, n: u64)
    ensures
        final(s)@ == old(s)@ + two_digits(n as nat),
{
    if n < 10 {
        push_char(s, '0');
    }
    push_decimal(s, n);
    proof {
        if n < 10 {
            assert(s@ =~= old(s)@ + two_digits(n as nat));
        }
    }
}

/// Play time as minutes and seconds, `mm:ss`.
pub fn format_clock(secs: u64) -> (s: String)
    ensures
        s@ == two_digits((secs / 60) as nat) + seq![':'] + two_digits((secs % 60) as nat),
{
    let mut s = String::new();
    push_two_digits(&mut s, secs / 60);
    push_char(&mut s, ':');
    push_two_digits(&mut s, secs % 60);
    assert(s@ =~= two_digits((secs / 60) as nat) + seq![':'] + two_digits((secs % 60) as nat));
    s
}

/// Colors of the status panel.
#[derive(Clone, Copy, Debug, PartialEq, Eq, Structural)]
pub enum HudColor {
    Red,
    Yellow,
    Green,
    DarkGray,
}

/// Health percentage color: red below 50, yellow below 80, green otherwise.
pub fn health_color(hp: u32) -> (c: HudColor)
    ensures
        c == if hp < 50 {
            HudColor::Red
        } else if hp < 80 {
            HudColor::Yellow
        } else {
            HudColor::Green
        },
{
    if hp < 50 {
        HudColor::Red
    } else if hp < 80 {
        HudColor::Yellow
    } else {
        HudColor::Green
    }
}

/// Stamina (whole dashes left) color: gray at none, yellow at one, green above.
pub fn stamina_color(stamina: u32) -> (c: HudColor)
    ensures
        c == if stamina == 0 {
            HudColor::DarkGray
        } else if stamina == 1 {
            HudColor::Yellow
        } else {
            HudColor::Green
        },
{
    match stamina {
        0 => HudColor::DarkGray,
        1 => HudColor::Yellow,
        _ => HudColor::Green,
    }
}

/// Uses left as a whole percentage of a fresh weapon's uses, rounded down
/// and capped at `u32::MAX`; a weapon with no uses to begin with shows the
/// cap while it has any left and zero otherwise.
pub open spec fn uses_percent(uses: u32, max_uses: u32) -> nat {
    if max_uses == 0 {
        if uses == 0 { 0 } else { u32::MAX as nat }
    } else {
        let q = (uses as int * 100) / (max_uses as int);
        if q > u32::MAX { u32::MAX as nat } else { q as nat }
    }
}

fn percent(uses: u32, max_uses: u32) -> (p: u32)
    ensures
        p == uses_percent(uses, max_uses),
{
    if max_uses == 0 {
        if uses == 0 { 0 } else { u32::MAX }
    } else {
        let wide: u64 = uses as u64 * 100 / max_uses as u64;
        if wide > u32::MAX as u64 { u32::MAX } else { wide as u32 }
    }
}

/// One line of the status panel's weapon list: the weapon's name and the
/// share of uses it has left, or `empty`.
pub fn weapon_label(slot: Option<(CraftedWeapon, u32)>) -> (s: String)
    ensures
        s@ == match slot {
            Some((w, uses)) => w.name() + seq![' '] + decimal(uses_percent(uses, w.max_uses()))
                + seq!['%'],
            None => "empty"@,
        },
{
    match slot {
        Some((w, uses)) => {
            let (name, _, max_uses) = w.description();
            let mut s = String::new();
            push_str(&mut s, name);
            push_char(&mut s, ' ');
            push_decimal(&mut s, percent(uses, max_uses) as u64);
            push_char(&mut s, '%');
            assert(s@ =~= w.name() + seq![' '] + decimal(uses_percent(uses, w.max_uses()))
                + seq!['%']);
            s
        },
        None => "empty".to_owned(),
    }
}

} // verus!
