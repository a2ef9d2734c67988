use crate::control::time::{millis, spec_ticks, GameTime, Nanos};
use vstd::prelude::*;

verus! {

/// Resource: the beat of focus mode.
pub struct Beats {
    /// Settings: the beat plays.
    pub enabled: bool,
    /// When the first big beat plays.
    pub start: Option<Nanos>,
    pub period: Nanos,
    /// When the count-in started.
    pub pre_start: Nanos,
    /// Focus level (0 when focus mode is off).
    pub level: usize,
    /// Beats counted so far.
    pub count: i32,
}

/// Which beat sound plays this frame.
#[derive(Clone, Copy, Debug, PartialEq, Eq, Structural)]
pub enum BeatSound {
    Silent,
    /// A count-in beat.
    Small,
    /// A beat.
    Big,
}

/// Beat period.
pub open spec fn beat_period() -> int {
    1_000_000_000
}

/// Interval of the count-in beats.
pub open spec fn count_in_interval() -> int {
    250_000_000
}

/// The first beat comes three count-in intervals after the beat is turned on.
pub open spec fn first_beat_delay() -> int {
    750_000_000
}

impl Beats {
    pub fn new() -> (b: Self)
        ensures
            !b.enabled,
            b.start is None,
            b.period == 0,
            b.pre_start == 0,
            b.level == 0,
            b.count == 0,
    {
        Beats { enabled: false, start: None, period: 0, pre_start: 0, level: 0, count: 0 }
    }

    /// One frame of the beat (on real time): while enabled and the game is
    /// not stopped, count-in beats every 0.25 s lead to beats every second;
    /// otherwise the beat resets.
    pub fn tick(&mut self, time: &GameTime, stopped: bool) -> (sound: BeatSound)
        requires
            time.spec_now() + first_beat_delay() + time.spec_delta() <= u64::MAX,
            old(self).start matches Some(s) ==> s + time.spec_delta() <= u64::MAX,
            old(self).pre_start + time.spec_delta() <= u64::MAX,
        ensures
            final(self).level == old(self).level,
            final(self).count == old(self).count,
            final(self).enabled == old(self).enabled,
            !(old(self).enabled && !stopped) ==> final(self).start is None && sound == BeatSound::Silent
                && final(self).period == old(self).period && final(self).pre_start == old(self).pre_start,
            old(self).enabled && !stopped ==> {
                let now = time.spec_now() as int;
                let (start, pre_start) = match old(self).start {
                    Some(s) => (s as int, old(self).pre_start as int),
                    None => (now + first_beat_delay(), now),
                };
                &&& final(self).period == beat_period()
                &&& final(self).start == Some(start as u64)
                &&& final(self).pre_start == pre_start
                &&& sound == if now >= start {
                    if spec_ticks(now, start, beat_period()) != spec_ticks(
                        now,
                        start + time.spec_delta(),
                        beat_period(),
                    ) {
                        BeatSound::Big
                    } else {
                        BeatSound::Silent
                    }
                } else {
                    let current = spec_ticks(now, pre_start, count_in_interval());
                    if current != spec_ticks(now, pre_start + time.spec_delta(), count_in_interval())
                        && (match current {
                        Some(c) => c,
                        None => 0,
                    }) as u32 != 0 {
                        BeatSound::Small
                    } else {
                        BeatSound::Silent
                    }
                }
            },
    {
        if self.enabled && !stopped {
            self.period = millis(1000);
            let start = match self.start {
                Some(s) => s,
                None => {
                    let now = time.now();
                    self.pre_start = now;
                    let s = now + millis(750);
                    self.start = Some(s);
                    s
                },
            };
            if time.reached(start) {
                if time.is_tick(start, self.period) {
                    BeatSound::Big
                } else {
                    BeatSound::Silent
                }
            } else {
                match time.tick_count(self.pre_start, millis(250)) {
                    Some(c) => {
                        if c != 0 {
                            BeatSound::Small
                        } else {
                            BeatSound::Silent
                        }
                    },
                    None => BeatSound::Silent,
                }
            }
        } else {
            self.start = None;
            BeatSound::Silent
        }
    }
}

/// How early a shot may come and still count as on the beat.
pub open spec fn allow_before() -> int {
    150_000_000
}

/// How late a shot may come and still count as on the beat.
pub open spec fn allow_after() -> int {
    100_000_000
}

impl Beats {
    /// Whether `now` (real time) is on the beat: less than 0.1 s after a beat
    /// or less than 0.15 s before the next one. Never before the first beat
    /// or while the beat is off.
    pub fn in_beat(&self, now: Nanos) -> (r: bool)
        ensures
            r == match self.start {
                Some(start) => now >= start && self.period > 0 && {
                    let at = (now - start) % (self.period as int);
                    at < allow_after() || at > self.period - allow_before()
                },
                None => false,
            },
    {
        match self.start {
            Some(start) => {
                if now < start || self.period == 0 {
                    return false;
                }
                let at = (now - start) % self.period;
                at < 100_000_000 || self.period < 150_000_000 || at > self.period - 150_000_000
            },
            None => false,
        }
    }
}

/// Pause or resume the menu drone.
#[derive(Clone, Copy, Debug, PartialEq, Eq, Structural)]
pub enum DroneChange {
    Pause,
    Resume,
}

/// The menu drone plays while no game runs: when the game starts or stops
/// and the sound instance exists, it is paused or resumed.
pub fn menu_drone(running: &mut bool, game_running: bool, instance_ready: bool) -> (change: Option<DroneChange>)
    ensures
        if *old(running) != game_running && instance_ready {
            *final(running) == game_running && change == Some(
                if game_running {
                    DroneChange::Pause
                } else {
                    DroneChange::Resume
                },
            )
        } else {
            *final(running) == *old(running) && change is None
        },
{
    if *running != game_running && instance_ready {
        *running = game_running;
        if game_running {
            Some(DroneChange::Pause)
        } else {
            Some(DroneChange::Resume)
        }
    } else {
        None
    }
}

} // verus!
