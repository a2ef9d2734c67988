use crate::control::time::Nanos;
use vstd::prelude::*;
use vstd::std_specs::cmp::PartialEqSpec;

verus! {

/// A value that moves smoothly to a new target over `length`: the target
/// and the time the move started (set on the first update after it).
pub struct InterpolatedValue<T> {
    pub length: Nanos,
    pub value: T,
    pub next_value: Option<(T, Option<Nanos>)>,
}

/// What an interpolated value is at some moment: exactly a value, or the
/// point `elapsed / length` of the way between two values.
#[derive(Clone, Copy, Debug, PartialEq, Eq)]
pub enum Interpolation<T> {
    Exact(T),
    Between { from: T, to: T, elapsed: Nanos, length: Nanos },
}

/// Whether a move that started `elapsed` ago has arrived: the whole length
/// has passed, or, with no length at all, any time has.
pub open spec fn arrived(elapsed: Nanos, length: Nanos) -> bool {
    if length == 0 {
        elapsed > 0
    } else {
        elapsed >= length
    }
}

impl<T: Copy + PartialEq> InterpolatedValue<T> {
    pub fn new(length: Nanos, value: T) -> (v: Self)
        ensures
            v.length == length,
            v.value == value,
            v.next_value is None,
    {
        InterpolatedValue { length, value, next_value: None }
    }

    /// Starts moving to `value`, unless it is the current value or already
    /// the target.
    pub fn set_next(&mut self, value: T)
        ensures
            final(self).length == old(self).length,
            final(self).value == old(self).value,
            T::obeys_eq_spec() ==> final(self).next_value == if !value.eq_spec(&old(self).value)
                && match old(self).next_value {
                Some((n, _)) => !n.eq_spec(&value),
                None => true,
            } {
                Some((value, None))
            } else {
                old(self).next_value
            },
            final(self).next_value == old(self).next_value || final(self).next_value == Some(
                (value, None::<Nanos>),
            ),
    {
        let differs = value != self.value;
        if differs {
            let fresh = match self.next_value {
                Some((n, _)) => n != value,
                None => true,
            };
            if fresh {
                self.next_value = Some((value, None));
            }
        }
    }

    /// The state after an update at time `time`, and what it returns.
    pub open spec fn updated(self, time: Nanos) -> (Self, Interpolation<T>) {
        match self.next_value {
            None => (self, Interpolation::Exact(self.value)),
            Some((next, since)) => {
                let start = match since {
                    Some(s) => s,
                    None => time,
                };
                let elapsed = if time >= start { (time - start) as u64 } else { 0u64 };
                if arrived(elapsed, self.length) {
                    (
                        InterpolatedValue { value: next, next_value: None, ..self },
                        Interpolation::Exact(next),
                    )
                } else {
                    (
                        InterpolatedValue { next_value: Some((next, Some(start))), ..self },
                        Interpolation::Between {
                            from: self.value,
                            to: next,
                            elapsed,
                            length: self.length,
                        },
                    )
                }
            },
        }
    }

    /// The value at time `time`. The first update after a new target
    /// starts the move; once the move has arrived the target becomes the
    /// value.
    pub fn update(&mut self, time: Nanos) -> (r: Interpolation<T>)
        ensures
            (*final(self), r) == old(self).updated(time),
    {
        match self.next_value {
            None => Interpolation::Exact(self.value),
            Some((next, since)) => {
                let start = match since {
                    Some(s) => s,
                    None => time,
                };
                let elapsed = if time >= start {
                    time - start
                } else {
                    0
                };
                let done = if self.length == 0 {
                    elapsed > 0
                } else {
                    elapsed >= self.length
                };
                if done {
                    self.value = next;
                    self.next_value = None;
                    Interpolation::Exact(next)
                } else {
                    self.next_value = Some((next, Some(start)));
                    Interpolation::Between { from: self.value, to: next, elapsed, length: self.length }
                }
            },
        }
    }
}

/// A move reaches its target: once `length` (not zero) has passed since the
/// update that started it, the next update gives the target exactly and
/// ends the move; any update before that gives a point on the way, from the
/// unchanged value to the target.
pub proof fn move_arrives<T: Copy + PartialEq>(
    v: InterpolatedValue<T>,
    target: T,
    start: Nanos,
    time: Nanos,
)
    requires
        v.next_value == Some((target, None::<Nanos>)),
        v.length > 0,
        start <= time,
    ensures
        ({
            let (a, r0) = v.updated(start);
            let (b, r1) = a.updated(time);
            &&& r0 == (Interpolation::Between {
                from: v.value,
                to: target,
                elapsed: 0,
                length: v.length,
            })
            &&& time - start >= v.length ==> r1 == Interpolation::Exact(target) && b.value == target
                && b.next_value is None
            &&& time - start < v.length ==> r1 == (Interpolation::Between {
                from: v.value,
                to: target,
                elapsed: (time - start) as u64,
                length: v.length,
            }) && b.value == v.value
        }),
{
}

} // verus!
