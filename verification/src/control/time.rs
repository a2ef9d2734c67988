use vstd::prelude::*;

verus! {

/// An instant or a span of game time, in whole nanoseconds.
pub type Nanos = u64;

/// Whole microseconds in a span of nanoseconds (truncating).
pub open spec fn micros(n: int) -> int {
    n / 1000
}

/// Converts milliseconds to nanoseconds.
pub fn millis(ms: u64) -> (n: Nanos)
    requires
        ms * 1_000_000 <= u64::MAX,
    ensures
        n == ms * 1_000_000,
{
    ms * 1_000_000
}

/// Number of whole periods that passed between `start` and `now`,
/// counted in whole microseconds; none when `now` is before `start`.
pub open spec fn spec_ticks(now: int, start: int, period: int) -> Option<int> {
    if now >= start {
        Some(micros(now - start) / micros(period))
    } else {
        None
    }
}

/// Gameplay time: the current instant and how far it advanced last frame.
pub struct GameTime {
    now: Nanos,
    delta: Nanos,
}

impl GameTime {
    pub closed spec fn spec_now(&self) -> Nanos {
        self.now
    }

    pub closed spec fn spec_delta(&self) -> Nanos {
        self.delta
    }

    /// Time at startup: both the instant and the last advance are zero.
    pub fn new() -> (t: Self)
        ensures
            t.spec_now() == 0,
            t.spec_delta() == 0,
    {
        GameTime { now: 0, delta: 0 }
    }

    /// A snapshot of some clock at `now`, which advanced by `delta` last frame.
    pub fn at(now: Nanos, delta: Nanos) -> (t: Self)
        ensures
            t.spec_now() == now,
            t.spec_delta() == delta,
    {
        GameTime { now, delta }
    }

    /// Current time. Monotonically advances.
    pub fn now(&self) -> (n: Nanos)
        ensures
            n == self.spec_now(),
    {
        self.now
    }

    /// How much time advanced last frame.
    pub fn delta(&self) -> (d: Nanos)
        ensures
            d == self.spec_delta(),
    {
        self.delta
    }

    /// Advances the clock by `delta` (already scaled by the game speed).
    pub fn advance(&mut self, delta: Nanos)
        requires
            old(self).spec_now() + delta <= u64::MAX,
        ensures
            final(self).spec_now() == old(self).spec_now() + delta,
            final(self).spec_delta() == delta,
    {
        self.delta = delta;
        self.now = self.now + delta;
    }

    /// Have reached or passed that time.
    pub fn reached(&self, time: Nanos) -> (r: bool)
        ensures
            r == (self.spec_now() >= time),
    {
        self.now >= time
    }

    /// How much passed since that time (zero if it is still ahead).
    pub fn passed(&self, since: Nanos) -> (p: Nanos)
        ensures
            p == if self.spec_now() >= since { self.spec_now() - since } else { 0 },
    {
        if self.now >= since {
            self.now - since
        } else {
            0
        }
    }

    /// Returns the tick count if a new period started this frame: the count
    /// of whole periods since `start` differs from the count measured from
    /// `start + delta`.
    pub fn tick_count(&self, start: Nanos, period: Nanos) -> (r: Option<u32>)
        requires
            period >= 1000,
            start + self.spec_delta() <= u64::MAX,
        ensures
            ({
                let current = spec_ticks(self.spec_now() as int, start as int, period as int);
                let previous = spec_ticks(
                    self.spec_now() as int,
                    start + self.spec_delta(),
                    period as int,
                );
                r == if current != previous {
                    Some(
                        (match current {
                            Some(c) => c,
                            None => 0,
                        }) as u32,
                    )
                } else {
                    None::<u32>
                }
            }),
    {
        let p = period / 1000;
        let current: Option<u64> = if self.now >= start {
            Some(((self.now - start) / 1000) / p)
        } else {
            None
        };
        let shifted = start + self.delta;
        let previous: Option<u64> = if self.now >= shifted {
            Some(((self.now - shifted) / 1000) / p)
        } else {
            None
        };
        let differ = match (current, previous) {
            (Some(a), Some(b)) => a != b,
            (None, None) => false,
            _ => true,
        };
        if differ {
            let c: u64 = match current {
                Some(c) => c,
                None => 0,
            };
            Some(c as u32)
        } else {
            None
        }
    }

    /// Returns true if a new period started on this frame.
    pub fn is_tick(&self, start: Nanos, period: Nanos) -> (r: bool)
        requires
            period >= 1000,
            start + self.spec_delta() <= u64::MAX,
        ensures
            r == (spec_ticks(self.spec_now() as int, start as int, period as int) != spec_ticks(
                self.spec_now() as int,
                start + self.spec_delta(),
                period as int,
            )),
    {
        self.tick_count(start, period).is_some()
    }
}

} // verus!
