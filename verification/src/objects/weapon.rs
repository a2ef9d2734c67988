use crate::objects::stats::Stats;
use vstd::prelude::*;

verus! {

/// Weapons that the player crafts from loot; they have limited uses.
#[derive(Clone, Copy, Debug, PartialEq, Eq, Structural)]
pub enum CraftedWeapon {
    Plasma,
    Shield,
    Railgun,
    Repeller,
    GodRay,
}

impl CraftedWeapon {
    /// How many shots a freshly crafted weapon of this kind has.
    pub open spec fn max_uses(self) -> u32 {
        match self {
            CraftedWeapon::Plasma => 10,
            CraftedWeapon::Shield => 10,
            CraftedWeapon::Railgun => 10,
            CraftedWeapon::Repeller => 15,
            CraftedWeapon::GodRay => 0,
        }
    }

    /// The name shown to the player.
    pub open spec fn name(self) -> Seq<char> {
        match self {
            CraftedWeapon::Plasma => "Plasma"@,
            CraftedWeapon::Shield => "Shield"@,
            CraftedWeapon::Railgun => "Railgun"@,
            CraftedWeapon::Repeller => "Repeller"@,
            CraftedWeapon::GodRay => "GODRAY"@,
        }
    }

    /// Name, description and number of uses of a freshly crafted weapon.
    pub fn description(&self) -> (r: (&'static str, &'static str, u32))
        ensures
            r.2 == self.max_uses(),
            r.0@ == self.name(),
            r.1@ == match *self {
                CraftedWeapon::Plasma => "Shoots explosive energy balls"@,
                CraftedWeapon::Shield => "Generates force-field which absorbs incoming projectiles"@,
                CraftedWeapon::Railgun => "Shoots powerful piercing death ray"@,
                CraftedWeapon::Repeller => "Pushes projectiles away from you"@,
                CraftedWeapon::GodRay => "GODRAY"@,
            },
    {
        match self {
            CraftedWeapon::Plasma => ("Plasma", "Shoots explosive energy balls", 10),
            CraftedWeapon::Shield => (
                "Shield",
                "Generates force-field which absorbs incoming projectiles",
                10,
            ),
            CraftedWeapon::Railgun => ("Railgun", "Shoots powerful piercing death ray", 10),
            CraftedWeapon::Repeller => ("Repeller", "Pushes projectiles away from you", 15),
            CraftedWeapon::GodRay => ("GODRAY", "GODRAY", 0),
        }
    }

    /// Weapons that can currently be crafted or dropped as loot.
    pub fn variants() -> (v: Vec<CraftedWeapon>)
        ensures
            v@ == seq![CraftedWeapon::Plasma, CraftedWeapon::Railgun],
    {
        let mut v = Vec::new();
        v.push(CraftedWeapon::Plasma);
        v.push(CraftedWeapon::Railgun);
        assert(v@ =~= seq![CraftedWeapon::Plasma, CraftedWeapon::Railgun]);
        v
    }
}

/// Which of the three damage values of a player shot applies: the highest
/// when the shot is both powered (aimed along the dash) and on the beat, the
/// middle one when it is either, the lowest otherwise.
pub fn damage_tier(powered: bool, ultra_powered: bool) -> (tier: usize)
    ensures
        tier == if ultra_powered && powered {
            2usize
        } else if powered || ultra_powered {
            1usize
        } else {
            0usize
        },
        tier < 3,
{
    if ultra_powered && powered {
        2
    } else if powered || ultra_powered {
        1
    } else {
        0
    }
}

/// What a player shot spawns.
#[derive(Clone, Copy, Debug, PartialEq, Eq, Structural)]
pub enum ShotKind {
    /// A hitscan damage ray; with `retarget` it jumps from a wall to the
    /// nearest enemy in sight.
    Ray { retarget: bool },
    /// An explosive plasma ball flying at `speed` world units per second.
    Plasma { speed: u32 },
    /// Nothing: the selected slot holds no weapon that can shoot.
    Nothing,
}

/// Outcome of the player pulling a trigger.
#[derive(Clone, Copy, Debug, PartialEq, Eq, Structural)]
pub struct PlayerShot {
    pub kind: ShotKind,
    /// The crafted weapon that fired, `None` for the regular gun.
    pub weapon: Option<CraftedWeapon>,
    pub damage: u32,
    /// Whether the damage also destroys projectiles that can explode.
    pub explodes_projectiles: bool,
    /// The crafted weapon used its last charge and left its slot.
    pub broken: bool,
}

/// The outcome of pulling the trigger of an empty slot, or of a weapon that
/// cannot shoot.
pub open spec fn no_shot() -> PlayerShot {
    PlayerShot {
        kind: ShotKind::Nothing,
        weapon: None,
        damage: 0,
        explodes_projectiles: false,
        broken: false,
    }
}

/// Damage of the three shot tiers (see `damage_tier`) of the regular gun
/// (`None`) and of each crafted weapon that can shoot.
pub open spec fn tier_damage(weapon: Option<CraftedWeapon>, tier: int) -> u32 {
    match weapon {
        None => if tier == 0 { 1 } else if tier == 1 { 3 } else { 6 },
        Some(CraftedWeapon::Railgun) => if tier == 0 { 4 } else if tier == 1 { 6 } else { 12 },
        Some(CraftedWeapon::Plasma) => if tier == 0 { 2 } else if tier == 1 { 5 } else { 10 },
        Some(_) => 1000,
    }
}

/// The tier a shot falls in.
pub open spec fn spec_tier(powered: bool, ultra_powered: bool) -> int {
    if ultra_powered && powered { 2 } else if powered || ultra_powered { 1 } else { 0 }
}

/// The weapons that spend a use on each shot.
pub open spec fn consumes_uses(w: CraftedWeapon) -> bool {
    w == CraftedWeapon::Railgun || w == CraftedWeapon::Plasma
}

/// What a crafted weapon slot holds after one shot from it: railgun and
/// plasma gun spend a use and are gone after the last; anything else stays.
pub open spec fn after_shot(slot: Option<(CraftedWeapon, u32)>) -> Option<(CraftedWeapon, u32)> {
    match slot {
        Some((w, uses)) => if consumes_uses(w) {
            if uses <= 1 { None } else { Some((w, (uses - 1) as u32)) }
        } else {
            slot
        },
        None => None,
    }
}

/// The slot after `n` shots.
pub open spec fn after_shots(slot: Option<(CraftedWeapon, u32)>, n: nat) -> Option<(CraftedWeapon, u32)>
    decreases n,
{
    if n == 0 {
        slot
    } else {
        after_shot(after_shots(slot, (n - 1) as nat))
    }
}

fn pick_damage(table: [u32; 3], powered: bool, ultra_powered: bool) -> (d: u32)
    ensures
        d == table@[spec_tier(powered, ultra_powered)],
{
    table[damage_tier(powered, ultra_powered)]
}

/// Fires the regular gun (`crafted == false`) or the weapon in the selected
/// crafted slot. `powered` tells that the shot goes along the dash (or is
/// on the beat), `ultra_powered` that it is on the beat.
///
/// The gun fires a ray. The railgun fires a retargeting ray that always
/// destroys explosive projectiles, the plasma gun a ball that is faster when
/// powered (twice) and on the beat (half again), the god ray an unlimited
/// ray of huge damage; an empty slot or a weapon that cannot shoot fires
/// nothing. Railgun and plasma gun spend one use; the last one empties the
/// slot.
pub fn player_shot(stats: &mut Stats, crafted: bool, powered: bool, ultra_powered: bool) -> (shot:
    PlayerShot)
    requires
        crafted ==> old(stats).player_weapon_slot < 2,
    ensures
        ({
            let slot = old(stats).player_weapon_slot as int;
            let held = old(stats).player.weapons@[slot];
            let tier = spec_tier(powered, ultra_powered);
            let boosted = powered || ultra_powered;
            &&& crafted ==> final(stats).player.weapons@ == old(stats).player.weapons@.update(
                slot,
                after_shot(held),
            ) && final(stats).only_weapons_differ(*old(stats))
            &&& if !crafted {
                &&& shot == (PlayerShot {
                    kind: ShotKind::Ray { retarget: false },
                    weapon: None,
                    damage: tier_damage(None, tier),
                    explodes_projectiles: boosted,
                    broken: false,
                })
                &&& *final(stats) == *old(stats)
            } else {
                match held {
                    Some((w, uses)) => if consumes_uses(w) {
                        &&& shot.weapon == Some(w)
                        &&& shot.damage == tier_damage(Some(w), tier)
                        &&& shot.broken == (uses <= 1)
                        &&& shot.kind == if w == CraftedWeapon::Railgun {
                            ShotKind::Ray { retarget: true }
                        } else {
                            ShotKind::Plasma {
                                speed: if powered && ultra_powered {
                                    24u32
                                } else if powered {
                                    16u32
                                } else if ultra_powered {
                                    12u32
                                } else {
                                    8u32
                                },
                            }
                        }
                        &&& shot.explodes_projectiles == (w == CraftedWeapon::Railgun || boosted)
                        &&& final(stats).player.weapons@ == old(stats).player.weapons@.update(
                            slot,
                            if uses <= 1 { None } else { Some((w, (uses - 1) as u32)) },
                        )
                        &&& final(stats).only_weapons_differ(*old(stats))
                    } else if w == CraftedWeapon::GodRay {
                        &&& shot == (PlayerShot {
                            kind: ShotKind::Ray { retarget: false },
                            weapon: Some(w),
                            damage: 1000,
                            explodes_projectiles: boosted,
                            broken: false,
                        })
                        &&& *final(stats) == *old(stats)
                    } else {
                        &&& shot == no_shot()
                        &&& *final(stats) == *old(stats)
                    },
                    None => {
                        &&& shot == no_shot()
                        &&& *final(stats) == *old(stats)
                    },
                }
            }
        }),
{
    let boosted = powered || ultra_powered;
    if !crafted {
        return PlayerShot {
            kind: ShotKind::Ray { retarget: false },
            weapon: None,
            damage: pick_damage([1, 3, 6], powered, ultra_powered),
            explodes_projectiles: boosted,
            broken: false,
        };
    }
    let nothing = PlayerShot {
        kind: ShotKind::Nothing,
        weapon: None,
        damage: 0,
        explodes_projectiles: false,
        broken: false,
    };
    match stats.weapon() {
        Some((CraftedWeapon::GodRay, _)) => PlayerShot {
            kind: ShotKind::Ray { retarget: false },
            weapon: Some(CraftedWeapon::GodRay),
            damage: 1000,
            explodes_projectiles: boosted,
            broken: false,
        },
        Some((w, uses)) => {
            let (kind, table, explodes) = match w {
                CraftedWeapon::Railgun => (ShotKind::Ray { retarget: true }, [4, 6, 12], true),
                CraftedWeapon::Plasma => {
                    let mut speed: u32 = 8;
                    if powered {
                        speed = speed * 2;
                    }
                    if ultra_powered {
                        speed = speed * 3 / 2;
                    }
                    (ShotKind::Plasma { speed }, [2, 5, 10], boosted)
                },
                _ => {
                    return nothing;
                },
            };
            let broken = uses <= 1;
            if broken {
                stats.set_weapon(None);
            } else {
                stats.set_weapon(Some((w, uses - 1)));
            }
            PlayerShot {
                kind,
                weapon: Some(w),
                damage: pick_damage(table, powered, ultra_powered),
                explodes_projectiles: explodes,
                broken,
            }
        },
        None => nothing,
    }
}

/// A weapon that spends uses fires exactly as many shots as it has uses:
/// after fewer it is still in its slot with the rest, after that many the
/// slot is empty.
pub proof fn uses_run_out(w: CraftedWeapon, uses: u32, k: nat)
    requires
        consumes_uses(w),
        1 <= uses,
        k <= uses,
    ensures
        after_shots(Some((w, uses)), k) == if k == uses {
            None
        } else {
            Some((w, (uses - k) as u32))
        },
    decreases k,
{
    if k > 0 {
        uses_run_out(w, uses, (k - 1) as nat);
    }
}

/// Shot damage by tier: the regular gun deals 1, 3 and 6, the railgun 4, 6
/// and 12, the plasma gun 2, 5 and 10; for each of them a shot on the beat
/// deals twice a merely powered one, which deals more than a plain one.
pub proof fn shot_damage_tiers(weapon: Option<CraftedWeapon>, powered: bool, ultra_powered: bool)
    requires
        weapon is None || weapon == Some(CraftedWeapon::Railgun) || weapon == Some(
            CraftedWeapon::Plasma,
        ),
    ensures
        weapon is None ==> tier_damage(weapon, spec_tier(powered, ultra_powered)) == if powered
            && ultra_powered {
            6u32
        } else if powered || ultra_powered {
            3u32
        } else {
            1u32
        },
        weapon == Some(CraftedWeapon::Railgun) ==> tier_damage(weapon, spec_tier(powered, ultra_powered))
            == if powered && ultra_powered {
            12u32
        } else if powered || ultra_powered {
            6u32
        } else {
            4u32
        },
        weapon == Some(CraftedWeapon::Plasma) ==> tier_damage(weapon, spec_tier(powered, ultra_powered))
            == if powered && ultra_powered {
            10u32
        } else if powered || ultra_powered {
            5u32
        } else {
            2u32
        },
        tier_damage(weapon, 2) == 2 * tier_damage(weapon, 1),
        tier_damage(weapon, 0) < tier_damage(weapon, 1),
        spec_tier(powered, ultra_powered) == 2 <==> (powered && ultra_powered),
        spec_tier(powered, ultra_powered) == 0 <==> (!powered && !ultra_powered),
{
}

} // verus!
