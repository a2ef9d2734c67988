use crate::utils::text::{decimal, push_decimal};
use vstd::prelude::*;
use vstd::string::StringExecFns;

verus! {

/// Loading state of one asset, as the asset server reports it.
#[derive(Clone, Copy, Debug, PartialEq, Eq, Structural)]
pub enum LoadState {
    NotLoaded,
    Loading,
    Loaded,
    Failed,
    Unloaded,
}

/// Path of the `index`-th numbered asset: `{path}{index}.{extension}`.
pub open spec fn numbered_path(path: Seq<char>, index: nat, extension: Seq<char>) -> Seq<char> {
    path + decimal(index) + seq!['.'] + extension
}

/// Resource: tracks assets that are still loading (handles of type `H`).
pub struct Loading<H> {
    assets: Vec<H>,
}

impl<H: Copy> Loading<H> {
    /// Assets still being waited for.
    pub closed spec fn pending(&self) -> Seq<H> {
        self.assets@
    }

    pub fn new() -> (l: Self)
        ensures
            l.pending().len() == 0,
    {
        Loading { assets: Vec::new() }
    }

    /// Starts tracking an asset whose loading was requested; hands it back.
    pub fn add(&mut self, handle: H) -> (r: H)
        ensures
            r == handle,
            final(self).pending() == old(self).pending().push(handle),
    {
        self.assets.push(handle);
        handle
    }

    /// Requests and tracks `count` numbered assets `{path}{index}.{extension}`,
    /// index from 0; `load` requests one asset by path.
    pub fn add_n<F: Fn(String) -> H>(&mut self, load: &F, path: &str, count: usize, extension: &str) -> (r: Vec<H>)
        requires
            forall|p: String| #[trigger] load.requires((p,)),
        ensures
            r@.len() == count,
            final(self).pending() == old(self).pending() + r@,
            exists|paths: Seq<String>|
                paths.len() == count && forall|i: int|
                    0 <= i < count ==> (#[trigger] paths[i])@ == numbered_path(
                        path@,
                        i as nat,
                        extension@,
                    ) && load.ensures((paths[i],), r@[i]),
    {
        let mut r: Vec<H> = Vec::new();
        let ghost mut paths: Seq<String> = Seq::empty();
        let mut index: usize = 0;
        while index < count
            invariant
                index <= count,
                r@.len() == index,
                paths.len() == index,
                self.pending() == old(self).pending() + r@,
                forall|p: String| #[trigger] load.requires((p,)),
                forall|i: int|
                    0 <= i < index ==> (#[trigger] paths[i])@ == numbered_path(
                        path@,
                        i as nat,
                        extension@,
                    ) && load.ensures((paths[i],), r@[i]),
            decreases count - index,
        {
            let mut p = String::from_str(path);
            push_decimal(&mut p, index as u64);
            p.append(".");
            p.append(extension);
            proof {
                reveal_strlit(".");
                assert(p@ =~= numbered_path(path@, index as nat, extension@));
            }
            let ghost pv = p;
            let h = load(p);
            let h = self.add(h);
            r.push(h);
            proof {
                paths = paths.push(pv);
                assert(paths[index as int] == pv);
            }
            index = index + 1;
        }
        r
    }

    /// Every tracked asset finished loading.
    pub fn complete(&self) -> (r: bool)
        ensures
            r == (self.pending().len() == 0),
    {
        self.assets.len() == 0
    }

    /// Stops tracking assets that are no longer loading (`states[i]` is the
    /// state of the `i`-th tracked asset): loaded, failed and assets in an
    /// unexpected state are all done with.
    pub fn check_state(&mut self, states: &Vec<LoadState>)
        requires
            states@.len() == old(self).pending().len(),
        ensures
            final(self).pending() == crate::utils::rust::retained(
                old(self).pending(),
                states@.map_values(|s: LoadState| s == LoadState::Loading),
            ),
    {
        let ghost keep = states@.map_values(|s: LoadState| s == LoadState::Loading);
        let mut kept: Vec<H> = Vec::new();
        let mut i: usize = 0;
        while i < self.assets.len()
            invariant
                i <= self.assets@.len(),
                states@.len() == self.assets@.len(),
                keep == states@.map_values(|s: LoadState| s == LoadState::Loading),
                kept@ == crate::utils::rust::retained(self.assets@.subrange(0, i as int), keep),
            decreases self.assets@.len() - i,
        {
            proof {
                assert(self.assets@.subrange(0, i + 1).drop_last() =~= self.assets@.subrange(0, i as int));
            }
            if states[i] == LoadState::Loading {
                kept.push(self.assets[i]);
            }
            i = i + 1;
        }
        proof {
            assert(self.assets@.subrange(0, self.assets@.len() as int) =~= self.assets@);
        }
        self.assets = kept;
    }
}

} // verus!
