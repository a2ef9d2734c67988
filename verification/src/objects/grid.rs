use crate::control::time::Nanos;
use crate::objects::spawn::WaveEvent;
use vstd::prelude::*;

verus! {

/// How the background grid pulses.
#[derive(Clone, Copy, Debug, PartialEq, Eq, Structural)]
pub enum PulseType {
    /// All bars at once.
    Uniform,
    /// Waves run towards the center.
    Collapse,
    /// Waves run outwards.
    Expand,
}

/// Color of the grid; its shade and opacity are the renderer's.
#[derive(Clone, Copy, Debug, PartialEq, Eq, Structural)]
pub enum PulseColor {
    Blue,
    Red,
    Cyan,
}

/// Resource: the current look of the background grid.
#[derive(Clone, Copy, Debug, PartialEq, Eq, Structural)]
pub struct GridPulse {
    pub period: Nanos,
    pub color: PulseColor,
    pub ty: PulseType,
}

impl GridPulse {
    /// Calm: slow blue waves running outwards.
    pub fn idle() -> (p: Self)
        ensures
            p == (GridPulse { period: 3_000_000_000, color: PulseColor::Blue, ty: PulseType::Expand }),
    {
        GridPulse { period: 3_000_000_000, color: PulseColor::Blue, ty: PulseType::Expand }
    }

    /// The player is hurt: fast red waves running outwards.
    pub fn alert() -> (p: Self)
        ensures
            p == (GridPulse { period: 1_500_000_000, color: PulseColor::Red, ty: PulseType::Expand }),
    {
        GridPulse { period: 1_500_000_000, color: PulseColor::Red, ty: PulseType::Expand }
    }

    /// Between waves: fast cyan waves running inwards.
    pub fn waiting() -> (p: Self)
        ensures
            p == (GridPulse { period: 1_500_000_000, color: PulseColor::Cyan, ty: PulseType::Collapse }),
    {
        GridPulse { period: 1_500_000_000, color: PulseColor::Cyan, ty: PulseType::Collapse }
    }
}

/// Whether the game waits for the next wave after this frame's wave events:
/// a started wave ends the waiting, an ended one starts it, the last such
/// event wins.
pub open spec fn waiting_after(events: Seq<WaveEvent>, waiting: bool) -> bool
    decreases events.len(),
{
    if events.len() == 0 {
        waiting
    } else {
        match events.last() {
            WaveEvent::Started => false,
            WaveEvent::Ended => true,
            WaveEvent::Restart => waiting_after(events.drop_last(), waiting),
        }
    }
}

/// Picks the grid look for this frame. Between waves the grid waits;
/// otherwise, with a player (`low_health` tells whether it has less than
/// half of its health), it is alert or idle; without one it stays as it is.
pub fn select_grid_pulse(waiting: &mut bool, events: &Vec<WaveEvent>, low_health: Option<bool>, current: GridPulse) -> (p: GridPulse)
    ensures
        *final(waiting) == waiting_after(events@, *old(waiting)),
        p == if *final(waiting) {
            GridPulse::waiting_spec()
        } else {
            match low_health {
                Some(true) => GridPulse::alert_spec(),
                Some(false) => GridPulse::idle_spec(),
                None => current,
            }
        },
{
    let mut i: usize = 0;
    while i < events.len()
        invariant
            i <= events@.len(),
            *waiting == waiting_after(events@.subrange(0, i as int), *old(waiting)),
        decreases events@.len() - i,
    {
        proof {
            assert(events@.subrange(0, i + 1).drop_last() =~= events@.subrange(0, i as int));
        }
        match events[i] {
            WaveEvent::Started => *waiting = false,
            WaveEvent::Ended => *waiting = true,
            WaveEvent::Restart => {},
        }
        i = i + 1;
    }
    assert(events@.subrange(0, events@.len() as int) =~= events@);
    if *waiting {
        GridPulse::waiting()
    } else {
        match low_health {
            Some(true) => GridPulse::alert(),
            Some(false) => GridPulse::idle(),
            None => current,
        }
    }
}

impl GridPulse {
    pub open spec fn idle_spec() -> GridPulse {
        GridPulse { period: 3_000_000_000, color: PulseColor::Blue, ty: PulseType::Expand }
    }

    pub open spec fn alert_spec() -> GridPulse {
        GridPulse { period: 1_500_000_000, color: PulseColor::Red, ty: PulseType::Expand }
    }

    pub open spec fn waiting_spec() -> GridPulse {
        GridPulse { period: 1_500_000_000, color: PulseColor::Cyan, ty: PulseType::Collapse }
    }
}

} // verus!
