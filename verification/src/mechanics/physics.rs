use crate::EntityId;
use std::collections::HashSet;
use vstd::prelude::*;
use vstd::std_specs::hash::group_hash_axioms;

verus! {

broadcast use group_hash_axioms;

/// Which collision groups an object belongs to and which it interacts with.
#[derive(Clone, Copy, Debug, PartialEq, Eq, Structural)]
pub struct CollisionGroups {
    pub memberships: u32,
    pub filters: u32,
}

/// What kind of physical object something is.
#[derive(Clone, Copy, Debug, PartialEq, Eq, Structural)]
pub enum PhysicsType {
    Obstacle,
    Player,
    Script,
    PlunkDown,
}

impl PhysicsType {
    /// Collision groups: obstacles collide with the player; the player with
    /// obstacles and script areas; script areas with the player; the plunk
    /// down probe belongs to every group and hits obstacles and script areas.
    pub fn rapier(self) -> (g: CollisionGroups)
        ensures
            g == match self {
                PhysicsType::Obstacle => CollisionGroups { memberships: 1, filters: 2 },
                PhysicsType::Player => CollisionGroups { memberships: 2, filters: 5 },
                PhysicsType::Script => CollisionGroups { memberships: 4, filters: 2 },
                PhysicsType::PlunkDown => CollisionGroups { memberships: 255, filters: 5 },
            },
    {
        let obstacles: u32 = 1;
        let player: u32 = 2;
        let script: u32 = 4;
        assert(obstacles | script == 5) by (bit_vector)
            requires
                obstacles == 1,
                script == 4,
        ;
        let (memberships, filters) = match self {
            PhysicsType::Obstacle => (obstacles, player),
            PhysicsType::Player => (player, obstacles | script),
            PhysicsType::Script => (script, player),
            PhysicsType::PlunkDown => (255, obstacles | script),
        };
        CollisionGroups { memberships, filters }
    }
}

/// Start or end of a contact between two entities.
#[derive(Clone, Copy, Debug, PartialEq, Eq, Structural)]
pub enum CollisionEvent {
    Started(EntityId, EntityId),
    Stopped(EntityId, EntityId),
}

/// How a contact event changes the contacts of entity `me`: as the first
/// party it gains or loses the second, then as the second party it gains or
/// loses the first.
pub open spec fn contacts_after(current: Set<EntityId>, me: EntityId, event: CollisionEvent) -> Set<EntityId> {
    match event {
        CollisionEvent::Started(a, b) => {
            let s1 = if me == a { current.insert(b) } else { current };
            if me == b { s1.insert(a) } else { s1 }
        },
        CollisionEvent::Stopped(a, b) => {
            let s1 = if me == a { current.remove(b) } else { current };
            if me == b { s1.remove(a) } else { s1 }
        },
    }
}

/// Keeps the set of entities currently in contact with this one.
pub struct CollectContacts {
    pub current: HashSet<EntityId>,
}

impl CollectContacts {
    pub fn new() -> (c: Self)
        ensures
            c.current@ == Set::<EntityId>::empty(),
    {
        CollectContacts { current: HashSet::new() }
    }

    /// Applies one contact event to the contacts of entity `me`.
    pub fn apply(&mut self, me: EntityId, event: CollisionEvent)
        ensures
            final(self).current@ == contacts_after(old(self).current@, me, event),
    {
        match event {
            CollisionEvent::Started(a, b) => {
                if me == a {
                    self.current.insert(b);
                }
                if me == b {
                    self.current.insert(a);
                }
            },
            CollisionEvent::Stopped(a, b) => {
                if me == a {
                    self.current.remove(&b);
                }
                if me == b {
                    self.current.remove(&a);
                }
            },
        }
    }

    /// Whether `other` is currently in contact.
    pub fn touches(&self, other: EntityId) -> (r: bool)
        ensures
            r == self.current@.contains(other),
    {
        self.current.contains(&other)
    }
}

/// After a contact with `other` starts, it is among the contacts; after it
/// stops, it no longer is, whatever came before.
pub proof fn contact_start_stop(current: Set<EntityId>, me: EntityId, other: EntityId)
    ensures
        contacts_after(current, me, CollisionEvent::Started(me, other)).contains(other),
        contacts_after(current, me, CollisionEvent::Started(other, me)).contains(other),
        !contacts_after(current, me, CollisionEvent::Stopped(me, other)).contains(other),
        !contacts_after(current, me, CollisionEvent::Stopped(other, me)).contains(other),
{
}

/// Events between two other entities leave the contacts unchanged.
pub proof fn contacts_of_others_unchanged(current: Set<EntityId>, me: EntityId, event: CollisionEvent)
    requires
        match event {
            CollisionEvent::Started(a, b) => a != me && b != me,
            CollisionEvent::Stopped(a, b) => a != me && b != me,
        },
    ensures
        contacts_after(current, me, event) == current,
{
}

} // verus!
