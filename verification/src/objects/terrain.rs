use std::collections::HashMap;
use vstd::prelude::*;
use vstd::std_specs::hash::spec_hash_map_iter;
use vstd::std_specs::iter::IteratorSpec;

verus! {

/// Marks an entity as the `point_id`-th point of terrain line `line_id`.
#[derive(Clone, Copy, Debug, PartialEq, Eq, Structural)]
pub struct TerrainPoint {
    pub line_id: usize,
    pub point_id: usize,
}

/// Event: (re)spawn all terrain.
pub struct SpawnTerrain;

/// `out` is `inp` sorted by key (the second component), keeping the order
/// of equal keys; `perm[j]` is the position in `inp` of `out[j]`.
pub open spec fn is_stable_sort<P>(out: Seq<(P, usize)>, inp: Seq<(P, usize)>, perm: Seq<int>) -> bool {
    &&& out.len() == inp.len()
    &&& perm.len() == inp.len()
    &&& forall|j: int| 0 <= j < perm.len() ==> 0 <= #[trigger] perm[j] < inp.len()
    &&& forall|j: int, k: int| 0 <= j < k < perm.len() ==> perm[j] != perm[k]
    &&& forall|j: int| 0 <= j < out.len() ==> #[trigger] out[j] == inp[perm[j]]
    &&& forall|j: int, k: int| 0 <= j < k < out.len() ==> out[j].1 <= out[k].1
    &&& forall|j: int, k: int| 0 <= j < k < out.len() && out[j].1 == out[k].1 ==> perm[j] < perm[k]
}

/// Sorts by key, keeping the order of equal keys (insertion sort).
pub fn stable_sort_by_key<P: Copy>(inp: &Vec<(P, usize)>) -> (out: Vec<(P, usize)>)
    ensures
        exists|perm: Seq<int>| is_stable_sort(out@, inp@, perm),
{
    let mut out: Vec<(P, usize)> = Vec::new();
    let ghost mut perm: Seq<int> = Seq::empty();
    let mut i: usize = 0;
    while i < inp.len()
        invariant
            i <= inp@.len(),
            is_stable_sort(out@, inp@.subrange(0, i as int), perm),
            forall|j: int| 0 <= j < perm.len() ==> 0 <= #[trigger] perm[j] < i,
        decreases inp@.len() - i,
    {
        let x = inp[i];
        let mut p: usize = 0;
        while p < out.len() && out[p].1 <= x.1
            invariant
                p <= out@.len(),
                forall|j: int| 0 <= j < p ==> (#[trigger] out@[j]).1 <= x.1,
            decreases out@.len() - p,
        {
            p = p + 1;
        }
        let ghost old_out = out@;
        let ghost old_perm = perm;
        let ghost prefix = inp@.subrange(0, i as int);
        let ghost next = inp@.subrange(0, i + 1);
        out.insert(p, x);
        proof {
            perm = old_perm.insert(p as int, i as int);
            assert forall|j: int| 0 <= j < prefix.len() implies next[j] == prefix[j] by {}
            assert(next[i as int] == x);
            assert forall|k: int| p < k < old_out.len() implies x.1 < (#[trigger] old_out[k]).1 by {
                assert(old_out[p as int].1 <= old_out[k].1);
            }
            assert forall|j: int| 0 <= j < out@.len() implies #[trigger] out@[j] == next[perm[j]] by {
                if j < p {
                    assert(out@[j] == old_out[j]);
                    assert(perm[j] == old_perm[j]);
                } else if j > p {
                    assert(out@[j] == old_out[j - 1]);
                    assert(perm[j] == old_perm[j - 1]);
                }
            }
            assert forall|j: int, k: int| 0 <= j < k < out@.len() implies out@[j].1 <= out@[k].1 by {
                if k < p {
                    assert(out@[j] == old_out[j] && out@[k] == old_out[k]);
                } else if k == p {
                    assert(out@[j] == old_out[j]);
                } else if j < p {
                    assert(out@[j] == old_out[j] && out@[k] == old_out[k - 1]);
                    if p < old_out.len() {
                        assert(old_out[p as int].1 > x.1);
                        assert(old_out[j].1 <= x.1);
                    }
                } else if j == p {
                    assert(out@[k] == old_out[k - 1]);
                    assert(x.1 < old_out[k - 1].1 || k - 1 == p);
                    if k - 1 == p {
                        assert(old_out[p as int].1 > x.1);
                    }
                } else {
                    assert(out@[j] == old_out[j - 1] && out@[k] == old_out[k - 1]);
                }
            }
            assert forall|j: int, k: int|
                0 <= j < k < out@.len() && out@[j].1 == out@[k].1 implies perm[j] < perm[k] by {
                if k < p {
                    assert(out@[j] == old_out[j] && out@[k] == old_out[k]);
                    assert(perm[j] == old_perm[j] && perm[k] == old_perm[k]);
                } else if k == p {
                    assert(perm[j] == old_perm[j]);
                    assert(perm[k] == i);
                } else if j < p {
                    assert(out@[j] == old_out[j] && out@[k] == old_out[k - 1]);
                    assert(perm[j] == old_perm[j] && perm[k] == old_perm[k - 1]);
                    if p < old_out.len() {
                        assert(old_out[p as int].1 > x.1);
                        assert(old_out[j].1 <= x.1);
                        assert(old_out[p as int].1 <= old_out[k - 1].1);
                    }
                    assert(false);
                } else if j == p {
                    assert(out@[k] == old_out[k - 1]);
                    if k - 1 == p {
                        assert(old_out[p as int].1 > x.1);
                    } else {
                        assert(x.1 < old_out[k - 1].1);
                    }
                    assert(false);
                } else {
                    assert(out@[j] == old_out[j - 1] && out@[k] == old_out[k - 1]);
                    assert(perm[j] == old_perm[j - 1] && perm[k] == old_perm[k - 1]);
                }
            }
            assert forall|j: int, k: int| 0 <= j < k < perm.len() implies perm[j] != perm[k] by {
                if k < p {
                } else if k == p {
                    assert(old_perm[j] < i);
                } else if j < p {
                    assert(perm[k] == old_perm[k - 1]);
                } else if j == p {
                    assert(perm[k] == old_perm[k - 1] && old_perm[k - 1] < i);
                } else {
                    assert(perm[j] == old_perm[j - 1] && perm[k] == old_perm[k - 1]);
                }
            }
            assert forall|j: int| 0 <= j < perm.len() implies 0 <= #[trigger] perm[j] < i + 1 by {
                if j < p {
                    assert(perm[j] == old_perm[j]);
                } else if j > p {
                    assert(perm[j] == old_perm[j - 1]);
                }
            }
            assert(is_stable_sort(out@, next, perm));
        }
        i = i + 1;
    }
    proof {
        assert(inp@.subrange(0, inp@.len() as int) =~= inp@);
    }
    out
}

/// Points of line `id` with their point ids, in the order given.
pub open spec fn line_points<P>(pts: Seq<(P, TerrainPoint)>, id: usize) -> Seq<(P, usize)>
    decreases pts.len(),
{
    if pts.len() == 0 {
        seq![]
    } else {
        let prev = line_points(pts.drop_last(), id);
        if pts.last().1.line_id == id {
            prev.push((pts.last().0, pts.last().1.point_id))
        } else {
            prev
        }
    }
}

proof fn line_points_step<P>(pts: Seq<(P, TerrainPoint)>, i: int, id: usize)
    requires
        0 <= i < pts.len(),
    ensures
        line_points(pts.subrange(0, i + 1), id) == if pts[i].1.line_id == id {
            line_points(pts.subrange(0, i), id).push((pts[i].0, pts[i].1.point_id))
        } else {
            line_points(pts.subrange(0, i), id)
        },
{
    assert(pts.subrange(0, i + 1).drop_last() =~= pts.subrange(0, i));
}

/// A line has points exactly when some point names it.
proof fn line_points_nonempty<P>(pts: Seq<(P, TerrainPoint)>, id: usize)
    ensures
        line_points(pts, id).len() > 0 <==> line_id_seq(pts).contains(id),
    decreases pts.len(),
{
    if pts.len() > 0 {
        let prev = pts.drop_last();
        line_points_nonempty(prev, id);
        let ids = line_id_seq(pts);
        let prev_ids = line_id_seq(prev);
        assert(prev_ids =~= ids.drop_last());
        if prev_ids.contains(id) {
            let j = choose|j: int| 0 <= j < prev_ids.len() && prev_ids[j] == id;
            assert(ids[j] == id);
        }
        if ids.contains(id) && pts.last().1.line_id != id {
            let j = choose|j: int| 0 <= j < ids.len() && ids[j] == id;
            assert(j != ids.len() - 1);
            assert(prev_ids[j] == id);
        }
        if pts.last().1.line_id == id {
            assert(ids[ids.len() - 1] == id);
        }
    }
}

/// Line ids of the points, in order.
pub open spec fn line_id_seq<P>(points: Seq<(P, TerrainPoint)>) -> Seq<usize> {
    points.map_values(|e: (P, TerrainPoint)| e.1.line_id)
}

/// Groups terrain points into polylines: one line per line id (in the
/// order in which a hash map of the groups is walked), each made of the positions of its points ordered by
/// point id, equal ids keeping their order.
pub fn terrain_lines<P: Copy>(points: &Vec<(P, TerrainPoint)>) -> (lines: Vec<Vec<P>>)
    ensures
        exists|ids: Seq<usize>, sorts: Seq<Seq<(P, usize)>>, perms: Seq<Seq<int>>|
            #![trigger ids.len(), sorts.len(), perms.len()]
            {
                &&& ids.len() == lines@.len() && sorts.len() == lines@.len() && perms.len()
                    == lines@.len()
                &&& ids.no_duplicates()
                &&& forall|i: int| 0 <= i < points@.len() ==> ids.contains(#[trigger] points@[i].1.line_id)
                &&& forall|k: int| 0 <= k < ids.len() ==> line_id_seq(points@).contains(#[trigger] ids[k])
                &&& forall|k: int|
                    0 <= k < ids.len() ==> is_stable_sort(
                        #[trigger] sorts[k],
                        line_points(points@, ids[k]),
                        perms[k],
                    ) && lines@[k]@ == sorts[k].map_values(|e: (P, usize)| e.0)
            },
{
    broadcast use vstd::std_specs::hash::group_hash_axioms;
    let mut groups: HashMap<usize, Vec<(P, usize)>> = HashMap::new();
    let mut i: usize = 0;
    while i < points.len()
        invariant
            i <= points@.len(),
            forall|id: usize| #[trigger] groups@.contains_key(id) ==> groups@[id]@ == line_points(points@.subrange(0, i as int), id)
                && groups@[id]@.len() > 0,
            forall|id: usize| !#[trigger] groups@.contains_key(id) ==> line_points(points@.subrange(0, i as int), id).len() == 0,
        decreases points@.len() - i,
    {
        let (pos, tp) = points[i];
        proof {
            assert forall|id: usize| true implies #[trigger] line_points(points@.subrange(0, i + 1), id) == if points@[i as int].1.line_id == id {
                line_points(points@.subrange(0, i as int), id).push((pos, tp.point_id))
            } else {
                line_points(points@.subrange(0, i as int), id)
            } by {
                line_points_step(points@, i as int, id);
            }
        }
        let mut members = match groups.remove(&tp.line_id) {
            Some(v) => v,
            None => Vec::new(),
        };
        members.push((pos, tp.point_id));
        groups.insert(tp.line_id, members);
        i = i + 1;
    }
    proof {
        assert(points@.subrange(0, points@.len() as int) =~= points@);
    }
    let ghost m = groups@;
    let mut lines: Vec<Vec<P>> = Vec::new();
    let ghost mut sorts: Seq<Seq<(P, usize)>> = Seq::empty();
    let ghost mut perms: Seq<Seq<int>> = Seq::empty();
    let ghost seq = spec_hash_map_iter(&groups).remaining();
    for e in it: groups.iter()
        invariant
            m == groups@,
            forall|id: usize| #[trigger] m.contains_key(id) ==> m[id]@ == line_points(points@, id) && m[id]@.len() > 0,
            seq == spec_hash_map_iter(&groups).remaining(),
            it.seq() == seq,
            lines@.len() == it.index(),
            sorts.len() == it.index(),
            perms.len() == it.index(),
            forall|k: int|
                0 <= k < it.index() ==> is_stable_sort(#[trigger] sorts[k], line_points(points@, *it.seq()[k].0), perms[k])
                    && lines@[k]@ == sorts[k].map_values(|e: (P, usize)| e.0),
    {
        let (id, members) = e;
        proof {
            assert(m.contains_key(*id) && m[*id] == *members);
        }
        let sorted = stable_sort_by_key(members);
        let mut line: Vec<P> = Vec::new();
        let mut j: usize = 0;
        while j < sorted.len()
            invariant
                j <= sorted@.len(),
                line@ == sorted@.subrange(0, j as int).map_values(|e: (P, usize)| e.0),
            decreases sorted@.len() - j,
        {
            line.push(sorted[j].0);
            j = j + 1;
            assert(line@ =~= sorted@.subrange(0, j as int).map_values(|e: (P, usize)| e.0));
        }
        assert(sorted@.subrange(0, sorted@.len() as int) =~= sorted@);
        let ghost before = lines@;
        lines.push(line);
        proof {
            let perm = choose|perm: Seq<int>| is_stable_sort(sorted@, members@, perm);
            let k0 = sorts.len() as int;
            sorts = sorts.push(sorted@);
            perms = perms.push(perm);
            assert forall|k: int| 0 <= k < k0 + 1 implies is_stable_sort(
                #[trigger] sorts[k],
                line_points(points@, *it.seq()[k].0),
                perms[k],
            ) && lines@[k]@ == sorts[k].map_values(|e: (P, usize)| e.0) by {
                if k < k0 {
                    assert(lines@[k] == before[k]);
                }
            }
        }
    }
    proof {
        let ids = seq.map_values(|p: (&usize, &Vec<(P, usize)>)| *p.0);
        assert(ids.len() == lines@.len());
        assert forall|a: int, b: int| 0 <= a < ids.len() && 0 <= b < ids.len() && a != b implies ids[a] != ids[b] by {
            if ids[a] == ids[b] {
                assert(*seq[a].1 == m[*seq[a].0]);
                assert(*seq[b].1 == m[*seq[b].0]);
                assert(seq[a] == seq[b]);
            }
        }
        assert forall|j: int| 0 <= j < points@.len() implies ids.contains(#[trigger] points@[j].1.line_id) by {
            let id = points@[j].1.line_id;
            assert(line_id_seq(points@)[j] == id);
            line_points_nonempty(points@, id);
            assert(m.contains_key(id));
            assert(seq.contains((&id, &m[id])));
            let x = choose|x: int| 0 <= x < seq.len() && seq[x] == (&id, &m[id]);
            assert(ids[x] == id);
        }
        assert forall|k: int| 0 <= k < ids.len() implies line_id_seq(points@).contains(#[trigger] ids[k]) by {
            assert(m.contains_key(*seq[k].0));
            line_points_nonempty(points@, ids[k]);
        }
        assert forall|k: int| 0 <= k < ids.len() implies is_stable_sort(
            #[trigger] sorts[k],
            line_points(points@, ids[k]),
            perms[k],
        ) && lines@[k]@ == sorts[k].map_values(|e: (P, usize)| e.0) by {}
        assert(ids.len() == lines@.len() && sorts.len() == lines@.len() && perms.len() == lines@.len());
    }
    lines
}

} // verus!
