use crate::EntityId;
use vstd::prelude::*;

verus! {

/// Which side an entity fights on.
#[derive(Clone, Copy, Debug, PartialEq, Eq, Structural)]
pub enum Team {
    Player,
    Enemy,
    /// Hurts and is hurt by everyone.
    YEEEEEEE,
}

impl Team {
    pub open spec fn same(self, rhs: Team) -> bool {
        (self == Team::Player && rhs == Team::Player) || (self == Team::Enemy && rhs == Team::Enemy)
    }

    /// Player is on the player's side and enemies on the enemies'; the third
    /// team is on nobody's side, not even its own.
    pub fn is_same(&self, rhs: Team) -> (r: bool)
        ensures
            r == self.same(rhs),
    {
        match (self, rhs) {
            (Team::Player, Team::Player) | (Team::Enemy, Team::Enemy) => true,
            (Team::YEEEEEEE, _) | (_, Team::YEEEEEEE) => false,
            _ => false,
        }
    }

    pub fn is_player(&self) -> (r: bool)
        ensures
            r == (*self == Team::Player),
    {
        match self {
            Team::Player => true,
            _ => false,
        }
    }
}

/// Kind of enemy a target is; only enemies can be retargeted by rays.
#[derive(Clone, Copy, Debug, PartialEq, Eq, Structural)]
pub enum EnemyType {
    Normal,
}

/// How much damage a piercing ray loses, beyond the target's health, when
/// it goes through a target: one for an enemy, nothing for anything else.
pub fn pierce_cost(enemy: Option<EnemyType>) -> (c: u32)
    ensures
        c == if enemy is Some { 1u32 } else { 0u32 },
{
    match enemy {
        Some(EnemyType::Normal) => 1,
        None => 0,
    }
}

/// What a ray hit on something destructible earns.
#[derive(Clone, Copy, Debug, PartialEq, Eq, Structural)]
pub struct RayHitReward {
    /// Points for the player.
    pub points: usize,
    /// The target is killed outright, whatever its health.
    pub force_kill: bool,
}

/// Only the player's rays earn anything. A powerful one detonates a target
/// that explodes on death (fifty points, and it dies at once); otherwise
/// shooting down a small projectile is worth a point.
pub fn ray_hit_reward(
    player_ray: bool,
    powerful: bool,
    explosive: bool,
    small_projectile: Option<SmallProjectile>,
) -> (r: RayHitReward)
    ensures
        r == if player_ray && explosive && powerful {
            RayHitReward { points: 50, force_kill: true }
        } else if player_ray && small_projectile is Some {
            RayHitReward { points: 1, force_kill: false }
        } else {
            RayHitReward { points: 0, force_kill: false }
        },
{
    if player_ray {
        if explosive && powerful {
            return RayHitReward { points: 50, force_kill: true };
        } else if small_projectile.is_some() {
            return RayHitReward { points: 1, force_kill: false };
        }
    }
    RayHitReward { points: 0, force_kill: false }
}

/// Teams do not hurt their own members, and invincible targets are never hurt.
pub fn accepts_damage(target: Team, attacker: Team, invincible: bool) -> (r: bool)
    ensures
        r == (!target.same(attacker) && !invincible),
{
    !target.is_same(attacker) && !invincible
}

/// Marks a projectile that any ray shoots down.
#[derive(Clone, Copy, Debug, PartialEq, Eq, Structural)]
pub struct SmallProjectile;

/// Marks a projectile that small projectiles do not stop and that can be
/// turned to another team.
#[derive(Clone, Copy, Debug, PartialEq, Eq, Structural)]
pub struct BigProjectile;

/// Marks an entity that damages what it touches (it also has a damage).
#[derive(Clone, Copy, Debug, PartialEq, Eq, Structural)]
pub struct DamageOnContact;

/// Marks an entity that dies when it touches something.
#[derive(Clone, Copy, Debug, PartialEq, Eq, Structural)]
pub struct DieOnContact;

/// What an entity needs to know about something it touches.
#[derive(Clone, Copy, Debug, PartialEq, Eq, Structural)]
pub struct Contact {
    pub entity: EntityId,
    /// The other entity has health.
    pub has_health: bool,
    pub small_projectile: Option<SmallProjectile>,
    /// The other entity has health and is invincible right now.
    pub invincible: bool,
}

/// Whether a projectile that dies on contact dies now. A big projectile only
/// dies when it touches something other than a small projectile and
/// something that is not invincible; any other dies on any contact.
pub fn dies_on_contact(big: Option<BigProjectile>, contacts: &Vec<Contact>) -> (r: bool)
    ensures
        r == dies_on_contact_spec(big, contacts@),
{
    if big.is_none() {
        return contacts.len() > 0;
    }
    let mut solid = false;
    let mut vulnerable = false;
    let mut i: usize = 0;
    while i < contacts.len()
        invariant
            i <= contacts@.len(),
            solid == exists|j: int| 0 <= j < i && (#[trigger] contacts@[j]).small_projectile is None,
            vulnerable == exists|j: int| 0 <= j < i && !(#[trigger] contacts@[j]).invincible,
        decreases contacts@.len() - i,
    {
        let c = contacts[i];
        if c.small_projectile.is_none() {
            solid = true;
        }
        if !c.invincible {
            vulnerable = true;
        }
        i = i + 1;
    }
    solid && vulnerable
}

/// The touched entities, in order, that have health.
pub open spec fn with_health(contacts: Seq<Contact>) -> Seq<EntityId>
    decreases contacts.len(),
{
    if contacts.len() == 0 {
        Seq::empty()
    } else {
        let rest = with_health(contacts.drop_last());
        if contacts.last().has_health {
            rest.push(contacts.last().entity)
        } else {
            rest
        }
    }
}

/// What touching things does to an entity this frame.
pub struct ContactOutcome {
    /// Entities that receive the entity's damage.
    pub damaged: Vec<EntityId>,
    /// The entity dies.
    pub dies: bool,
}

/// An entity that damages on contact hurts everything it touches that has
/// health; one that dies on contact dies as `dies_on_contact` says.
pub fn contact_outcome(
    damage: Option<DamageOnContact>,
    die: Option<DieOnContact>,
    big: Option<BigProjectile>,
    contacts: &Vec<Contact>,
) -> (r: ContactOutcome)
    ensures
        r.damaged@ == if damage is Some { with_health(contacts@) } else { Seq::empty() },
        r.dies == (die is Some && dies_on_contact_spec(big, contacts@)),
{
    let mut damaged: Vec<EntityId> = Vec::new();
    if damage.is_some() {
        let mut i: usize = 0;
        while i < contacts.len()
            invariant
                i <= contacts@.len(),
                damaged@ == with_health(contacts@.subrange(0, i as int)),
            decreases contacts@.len() - i,
        {
            proof {
                assert(contacts@.subrange(0, i + 1).drop_last() =~= contacts@.subrange(0, i as int));
            }
            if contacts[i].has_health {
                damaged.push(contacts[i].entity);
            }
            i = i + 1;
        }
        assert(contacts@.subrange(0, contacts@.len() as int) =~= contacts@);
    }
    let dies = if die.is_some() {
        dies_on_contact(big, contacts)
    } else {
        false
    };
    ContactOutcome { damaged, dies }
}

/// The rule `dies_on_contact` computes.
pub open spec fn dies_on_contact_spec(big: Option<BigProjectile>, contacts: Seq<Contact>) -> bool {
    if big is Some {
        (exists|i: int| 0 <= i < contacts.len() && (#[trigger] contacts[i]).small_projectile is None)
            && (exists|i: int| 0 <= i < contacts.len() && !(#[trigger] contacts[i]).invincible)
    } else {
        contacts.len() > 0
    }
}

/// Turns big projectiles that touch this entity to the given team.
#[derive(Clone, Copy, Debug, PartialEq, Eq, Structural)]
pub struct BonkToTeam(pub Team);

impl BonkToTeam {
    /// The team of a touching entity afterwards: big projectiles change
    /// sides, anything else keeps its team.
    pub fn bonk(&self, team: Team, big_projectile: Option<BigProjectile>) -> (r: Team)
        ensures
            r == if big_projectile is Some {
                self.0
            } else {
                team
            },
    {
        if big_projectile.is_some() {
            self.0
        } else {
            team
        }
    }
}

/// Teams agree on who is on the same side, and the third team is on nobody's.
pub proof fn same_team_symmetric(a: Team, b: Team)
    ensures
        a.same(b) == b.same(a),
        !a.same(Team::YEEEEEEE),
        !Team::YEEEEEEE.same(b),
        a != Team::YEEEEEEE ==> a.same(a),
{
}

} // verus!
