use crate::control::time::Nanos;
use crate::objects::spawn::WaveEvent;
use crate::objects::weapon::CraftedWeapon;
use vstd::prelude::*;

verus! {

/// Uses a fresh player has of each starting weapon.
pub const STARTING_USES: u32 = 3;

/// What the player keeps between respawns: points and the two crafted
/// weapon slots, each with the uses it has left.
#[derive(Clone, Copy, Debug)]
pub struct PersistentPlayer {
    pub points: usize,
    pub weapons: [Option<(CraftedWeapon, u32)>; 2],
}

impl PersistentPlayer {
    /// A fresh player: no points, a railgun and a plasma gun with
    /// `STARTING_USES` uses each.
    pub fn new() -> (p: Self)
        ensures
            p.points == 0,
            p.weapons@ == seq![
                Some((CraftedWeapon::Railgun, STARTING_USES)),
                Some((CraftedWeapon::Plasma, STARTING_USES)),
            ],
    {
        let p = PersistentPlayer {
            points: 0,
            weapons: [
                Some((CraftedWeapon::Railgun, STARTING_USES)),
                Some((CraftedWeapon::Plasma, STARTING_USES)),
            ],
        };
        assert(p.weapons@ =~= seq![
            Some((CraftedWeapon::Railgun, STARTING_USES)),
            Some((CraftedWeapon::Plasma, STARTING_USES)),
        ]);
        p
    }
}

/// Run statistics.
pub struct Stats {
    pub wave: usize,
    pub time: Nanos,
    pub restarts: usize,
    pub player: PersistentPlayer,
    /// Which crafted weapon slot is used (0 or 1).
    pub player_weapon_slot: usize,
    /// The player as it was when the current wave started.
    pub last_wave: PersistentPlayer,
}

impl Stats {
    /// Everything but the player's weapons is the same in both.
    pub open spec fn only_weapons_differ(self, other: Stats) -> bool {
        &&& self.wave == other.wave
        &&& self.time == other.time
        &&& self.restarts == other.restarts
        &&& self.player.points == other.player.points
        &&& self.player_weapon_slot == other.player_weapon_slot
        &&& self.last_wave == other.last_wave
    }

    /// Statistics of a new run.
    pub fn new() -> (s: Self)
        ensures
            s.wave == 0,
            s.time == 0,
            s.restarts == 0,
            s.player_weapon_slot == 0,
            s.player.points == 0,
            s.player.weapons@ == seq![
                Some((CraftedWeapon::Railgun, STARTING_USES)),
                Some((CraftedWeapon::Plasma, STARTING_USES)),
            ],
            s.last_wave == s.player,
    {
        let player = PersistentPlayer::new();
        Stats { wave: 0, time: 0, restarts: 0, player, player_weapon_slot: 0, last_wave: player }
    }

    /// The weapon in the currently selected slot.
    pub fn weapon(&self) -> (w: Option<(CraftedWeapon, u32)>)
        requires
            self.player_weapon_slot < 2,
        ensures
            w == self.player.weapons@[self.player_weapon_slot as int],
    {
        self.player.weapons[self.player_weapon_slot]
    }

    /// Replaces the weapon in the currently selected slot.
    pub fn set_weapon(&mut self, w: Option<(CraftedWeapon, u32)>)
        requires
            old(self).player_weapon_slot < 2,
        ensures
            final(self).player.weapons@ == old(self).player.weapons@.update(
                old(self).player_weapon_slot as int,
                w,
            ),
            final(self).only_weapons_differ(*old(self)),
    {
        let slot = self.player_weapon_slot;
        self.player.weapons[slot] = w;
    }

    /// A picked-up weapon goes, fully charged, into the selected slot.
    pub fn pick_weapon(&mut self, w: CraftedWeapon)
        requires
            old(self).player_weapon_slot < 2,
        ensures
            final(self).player.weapons@ == old(self).player.weapons@.update(
                old(self).player_weapon_slot as int,
                Some((w, w.max_uses())),
            ),
            final(self).only_weapons_differ(*old(self)),
    {
        let (_, _, uses) = w.description();
        self.set_weapon(Some((w, uses)));
    }

    /// Switches to the other crafted weapon slot.
    pub fn change_weapon(&mut self)
        ensures
            final(self).player_weapon_slot == if old(self).player_weapon_slot == 1 {
                0usize
            } else {
                1usize
            },
            final(self).player == old(self).player,
            final(self).wave == old(self).wave,
            final(self).time == old(self).time,
            final(self).restarts == old(self).restarts,
            final(self).last_wave == old(self).last_wave,
    {
        self.player_weapon_slot = if self.player_weapon_slot == 1 {
            0
        } else {
            1
        };
    }

    /// Effect of a wave event: a started wave remembers the player and turns
    /// the wave clock on, an ended one turns it off, a restart brings the
    /// player back to how it was when the wave started and counts the restart.
    pub open spec fn after_event(self, event: WaveEvent, wave_now: bool) -> (Self, bool) {
        match event {
            WaveEvent::Started => (Stats { last_wave: self.player, ..self }, true),
            WaveEvent::Ended => (self, false),
            WaveEvent::Restart => (
                Stats { player: self.last_wave, restarts: (self.restarts + 1) as usize, ..self },
                wave_now,
            ),
        }
    }

    /// Applies one wave event; `wave_now` tells whether a wave is in progress.
    pub fn on_wave_event(&mut self, event: WaveEvent, wave_now: &mut bool)
        requires
            event == WaveEvent::Restart ==> old(self).restarts < usize::MAX,
        ensures
            (*final(self), *final(wave_now)) == old(self).after_event(event, *old(wave_now)),
    {
        match event {
            WaveEvent::Started => {
                self.last_wave = self.player;
                *wave_now = true;
            },
            WaveEvent::Ended => {
                *wave_now = false;
            },
            WaveEvent::Restart => {
                self.player = self.last_wave;
                self.restarts = self.restarts + 1;
            },
        }
    }

    /// Counts wave time while a wave is in progress.
    pub fn advance(&mut self, wave_now: bool, delta: Nanos)
        requires
            wave_now ==> old(self).time + delta <= u64::MAX,
        ensures
            *final(self) == (Stats {
                time: if wave_now {
                    (old(self).time + delta) as u64
                } else {
                    old(self).time
                },
                ..*old(self)
            }),
    {
        if wave_now {
            self.time = self.time + delta;
        }
    }

    /// Awards the points of a destroyed enemy.
    pub fn add_points(&mut self, value: usize)
        requires
            old(self).player.points + value <= usize::MAX,
        ensures
            final(self).player.points == old(self).player.points + value,
            final(self).player.weapons == old(self).player.weapons,
            final(self).wave == old(self).wave,
            final(self).time == old(self).time,
            final(self).restarts == old(self).restarts,
            final(self).player_weapon_slot == old(self).player_weapon_slot,
            final(self).last_wave == old(self).last_wave,
    {
        self.player.points = self.player.points + value;
    }
}

/// A restarted wave gives the player back exactly what it had when the wave
/// started, whatever happened in between that left the snapshot alone.
pub proof fn restart_restores_wave_start(s: Stats, t: Stats, wave_now: bool)
    requires
        t.last_wave == s.after_event(WaveEvent::Started, wave_now).0.last_wave,
        t.restarts < usize::MAX,
    ensures
        t.after_event(WaveEvent::Restart, wave_now).0.player == s.player,
        t.after_event(WaveEvent::Restart, wave_now).0.restarts == t.restarts + 1,
{
}

} // verus!
