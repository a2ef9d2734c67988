use vstd::prelude::*;

verus! {

/// Arena combat events.
#[derive(Clone, Copy, Debug, PartialEq, Eq, Structural)]
pub enum CombatEvent {
    Start,
    End,
    Died,
}

/// Whether arena doors are closed (solid and visible) after the events of a
/// frame, given whether they were before: a started combat closes them, an
/// ended one opens them, a death changes nothing; the last such event wins.
pub open spec fn doors_closed_after(events: Seq<CombatEvent>, closed: bool) -> bool
    decreases events.len(),
{
    if events.len() == 0 {
        closed
    } else {
        match events.last() {
            CombatEvent::Start => true,
            CombatEvent::End => false,
            CombatEvent::Died => doors_closed_after(events.drop_last(), closed),
        }
    }
}

/// Applies the combat events of a frame to the arena doors.
pub fn arena_doors(events: &Vec<CombatEvent>, closed: bool) -> (r: bool)
    ensures
        r == doors_closed_after(events@, closed),
{
    let mut state = closed;
    let mut i: usize = 0;
    while i < events.len()
        invariant
            i <= events@.len(),
            state == doors_closed_after(events@.subrange(0, i as int), closed),
        decreases events@.len() - i,
    {
        proof {
            assert(events@.subrange(0, i + 1).drop_last() =~= events@.subrange(0, i as int));
        }
        match events[i] {
            CombatEvent::Start => state = true,
            CombatEvent::End => state = false,
            CombatEvent::Died => {},
        }
        i = i + 1;
    }
    proof {
        assert(events@.subrange(0, events@.len() as int) =~= events@);
    }
    state
}

} // verus!
