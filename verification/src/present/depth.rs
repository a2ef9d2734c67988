use vstd::prelude::*;

verus! {

/// Drawing layer of an entity; fixed once the entity exists.
#[derive(Clone, Copy, Debug, PartialEq, Eq, Structural)]
pub enum Depth {
    Light,
    Player,
    Wall,
    Projectile,
    Effect,
    ImportantEffect,
}

impl Depth {
    /// Z coordinate of the layer; higher is drawn on top.
    pub open spec fn z(self) -> int {
        match self {
            Depth::Light => 110,
            Depth::Player => 300,
            Depth::Projectile => 500,
            Depth::Wall => 800,
            Depth::Effect => 900,
            Depth::ImportantEffect => 950,
        }
    }

    pub fn z_exact(self) -> (z: u32)
        ensures
            z == self.z(),
    {
        match self {
            Depth::Light => 110,
            Depth::Player => 300,
            Depth::Projectile => 500,
            Depth::Wall => 800,
            Depth::Effect => 900,
            Depth::ImportantEffect => 950,
        }
    }
}

/// Sum of the layers' z coordinates.
pub open spec fn z_sum(layers: Seq<Depth>) -> int
    decreases layers.len(),
{
    if layers.len() == 0 {
        0
    } else {
        z_sum(layers.drop_last()) + layers.last().z()
    }
}

proof fn lemma_z_sum_bounds(layers: Seq<Depth>)
    ensures
        0 <= z_sum(layers) <= 950 * layers.len(),
    decreases layers.len(),
{
    if layers.len() > 0 {
        lemma_z_sum_bounds(layers.drop_last());
    }
}

/// Z coordinate of an entity relative to its parent, before the random
/// fraction that keeps equal layers apart: its own layer's z minus the z of
/// each ancestor that has a layer (`ancestors`, nearest first, up to the
/// first one without a layer), so that its absolute z is its own layer's.
pub fn relative_z(own: Depth, ancestors: &Vec<Depth>) -> (z: i64)
    requires
        ancestors@.len() <= 9_000_000_000_000_000,
    ensures
        z == own.z() - z_sum(ancestors@),
{
    let mut z: i64 = own.z_exact() as i64;
    let mut i: usize = 0;
    while i < ancestors.len()
        invariant
            i <= ancestors@.len() <= 9_000_000_000_000_000,
            z == own.z() - z_sum(ancestors@.subrange(0, i as int)),
        decreases ancestors@.len() - i,
    {
        proof {
            lemma_z_sum_bounds(ancestors@.subrange(0, i as int));
            assert(ancestors@.subrange(0, i as int + 1).drop_last() =~= ancestors@.subrange(
                0,
                i as int,
            ));
        }
        z = z - ancestors[i].z_exact() as i64;
        i = i + 1;
    }
    assert(ancestors@.subrange(0, ancestors@.len() as int) =~= ancestors@);
    z
}

} // verus!
