use crate::control::time::{millis, GameTime, Nanos};
use crate::EntityId;
use vstd::prelude::*;
use std::collections::HashMap;
use vstd::std_specs::hash::spec_hash_map_iter;
use vstd::std_specs::iter::IteratorSpec;

verus! {

/// Entity event: the entity died (it is despawned at the start of the next frame).
#[derive(Clone, Copy, Debug, PartialEq, Eq, Structural)]
pub struct DeathEvent;

/// Kills the entity once `time` has passed since it was first seen.
pub struct DieAfter {
    time: Nanos,
    after: Option<Nanos>,
}

impl DieAfter {
    pub closed spec fn lifetime(&self) -> Nanos {
        self.time
    }

    /// When the entity dies, once known.
    pub closed spec fn deadline(&self) -> Option<Nanos> {
        self.after
    }

    pub fn new(time: Nanos) -> (d: Self)
        ensures
            d.lifetime() == time,
            d.deadline() is None,
    {
        DieAfter { time, after: None }
    }

    /// How long the entity lives once seen.
    pub fn time_to_live(&self) -> (t: Nanos)
        ensures
            t == self.lifetime(),
    {
        self.time
    }

    /// When the entity dies, once known.
    pub fn due(&self) -> (d: Option<Nanos>)
        ensures
            d == self.deadline(),
    {
        self.after
    }

    /// Dies on the frame after it is first seen.
    pub fn one_frame() -> (d: Self)
        ensures
            d.lifetime() == 0,
            d.deadline() is None,
    {
        Self::new(0)
    }

    /// Per-frame update: the first one fixes the deadline at `now + lifetime`;
    /// later ones return true (the entity dies) once the deadline is reached.
    pub fn update(&mut self, time: &GameTime) -> (dies: bool)
        requires
            old(self).deadline() is None ==> time.spec_now() + old(self).lifetime() <= u64::MAX,
        ensures
            final(self).lifetime() == old(self).lifetime(),
            match old(self).deadline() {
                Some(after) => !dies == (time.spec_now() < after) && final(self).deadline() == Some(after),
                None => !dies && final(self).deadline() == Some((time.spec_now() + old(self).lifetime()) as u64),
            },
    {
        match self.after {
            Some(after) => time.reached(after),
            None => {
                self.after = Some(time.now() + self.time);
                false
            },
        }
    }
}

/// Damage from the same source can't be dealt more frequently than this.
pub open spec fn damage_period() -> Nanos {
    500_000_000
}

/// Still blocks further damage from its source at `now`.
pub open spec fn is_recent(now: int, at: Nanos) -> bool {
    (if now >= at { now - at } else { 0 }) < damage_period()
}

/// The sources of `m` that are still recent at `now`, with their times.
pub open spec fn recent_entries(m: Map<EntityId, Nanos>, now: int) -> Map<EntityId, Nanos> {
    Map::new(|k: EntityId| m.contains_key(k) && is_recent(now, m[k]), |k: EntityId| m[k])
}

/// Per-target memory of who dealt damage when, which limits how often a
/// single source can hurt it.
pub struct RecentDamage {
    entries: HashMap<EntityId, Nanos>,
}

impl RecentDamage {
    /// Sources with the time they last dealt damage.
    pub closed spec fn view(&self) -> Map<EntityId, Nanos> {
        self.entries@
    }

    pub fn new() -> (r: Self)
        ensures
            r.view() == Map::<EntityId, Nanos>::empty(),
    {
        RecentDamage { entries: HashMap::new() }
    }

    /// Forgets damage older than the period; then, if `source` has not dealt
    /// damage within it, records it now and returns true (damage goes
    /// through), otherwise returns false.
    pub fn try_register(&mut self, source: EntityId, time: &GameTime) -> (accepted: bool)
        ensures
            ({
                let kept = recent_entries(old(self).view(), time.spec_now() as int);
                &&& accepted == !kept.contains_key(source)
                &&& final(self).view() == if accepted {
                    kept.insert(source, time.spec_now() as u64)
                } else {
                    kept
                }
            }),
    {
        broadcast use vstd::std_specs::hash::group_hash_axioms;
        let period = millis(500);
        let ghost m = self.entries@;
        let ghost now = time.spec_now() as int;
        let mut kept: HashMap<EntityId, Nanos> = HashMap::new();
        for e in it: self.entries.iter()
            invariant
                period == damage_period(),
                now == time.spec_now() as int,
                m == self.entries@,
                it.seq() == spec_hash_map_iter(&self.entries).remaining(),
                forall|k: EntityId| #[trigger] kept@.contains_key(k) ==> m.contains_key(k) && is_recent(now, m[k]) && kept@[k] == m[k],
                forall|j: int| 0 <= j < it.index() && is_recent(now, *it.seq()[j].1) ==> #[trigger] kept@.contains_key(*it.seq()[j].0),
        {
            let (k, v) = e;
            if time.passed(*v) < period {
                kept.insert(*k, *v);
            }
        }
        proof {
            let seq = spec_hash_map_iter(&self.entries).remaining();
            assert forall|k: EntityId| #[trigger] recent_entries(m, now).contains_key(k) implies kept@.contains_key(k) by {
                assert(seq.contains((&k, &m[k])));
                let j = choose|j: int| 0 <= j < seq.len() && seq[j] == (&k, &m[k]);
                assert(*seq[j].0 == k);
            }
            assert(kept@ =~= recent_entries(m, now));
        }
        let found = kept.contains_key(&source);
        if !found {
            kept.insert(source, time.now());
        }
        self.entries = kept;
        !found
    }
}

/// Damage from the same source can't be dealt more frequently than the
/// damage period: once a hit from `source` at `now` went through, a hit from
/// it less than the period later is refused.
pub proof fn damage_rate_limited(entries: Map<EntityId, Nanos>, source: EntityId, now: Nanos, later: Nanos)
    requires
        now <= later,
        later - now < damage_period(),
    ensures
        recent_entries(recent_entries(entries, now as int).insert(source, now), later as int).contains_key(source),
{
}

} // verus!
