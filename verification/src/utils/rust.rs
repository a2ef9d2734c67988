use rand::Rng;
use vstd::prelude::*;

verus! {

pub trait BoolExtended: Sized {
    /// Sets value to the opposite of current one and returns new value.
    fn flip(&mut self) -> Self;
}

impl BoolExtended for bool {
    fn flip(&mut self) -> (r: bool)
        ensures
            *final(self) == !*old(self),
            r == *final(self),
    {
        *self = !*self;
        *self
    }
}

/// A uniformly random index below `len`, drawn from the thread-local
/// generator with rand's `gen_range(0..len)` (which panics on an empty range,
/// hence `len > 0`). Only the range of the result is promised.
#[verifier::external_body]
pub(crate) fn random_index(len: usize) -> (i: usize)
    requires
        len > 0,
    ensures
        i < len,
{
    rand::thread_rng().gen_range(0..len)
}

pub trait RandomSelect<T>: Sized {
    spec fn elements(&self) -> Seq<T>;

    /// Returns a random element; there must be at least one.
    fn random(self) -> (r: T)
        requires
            self.elements().len() > 0,
        ensures
            exists|i: int| 0 <= i < self.elements().len() && r == self.elements()[i],
    ;

    /// Returns a random element, or none if there are no elements to select from.
    fn get_random(self) -> (r: Option<T>)
        ensures
            r is None <==> self.elements().len() == 0,
            r matches Some(v) ==> exists|i: int| 0 <= i < self.elements().len() && v == self.elements()[i],
    ;
}

impl<T: Copy> RandomSelect<T> for Vec<T> {
    open spec fn elements(&self) -> Seq<T> {
        self@
    }

    fn random(self) -> (r: T) {
        let i = random_index(self.len());
        self[i]
    }

    fn get_random(self) -> (r: Option<T>) {
        let len = self.len();
        if len == 0 {
            None
        } else {
            let i = random_index(len);
            let v = self[i];
            assert(v == self.elements()[i as int]);
            Some(v)
        }
    }
}

/// The elements of `s` whose flag in `keep` (at the same position) is set,
/// in order.
pub open spec fn retained<T>(s: Seq<T>, keep: Seq<bool>) -> Seq<T>
    decreases s.len(),
{
    if s.len() == 0 {
        seq![]
    } else if keep[s.len() - 1] {
        retained(s.drop_last(), keep).push(s.last())
    } else {
        retained(s.drop_last(), keep)
    }
}

/// Nothing is retained exactly when no flag is set.
pub proof fn lemma_retained_empty<T>(s: Seq<T>, keep: Seq<bool>)
    requires
        keep.len() >= s.len(),
    ensures
        (retained(s, keep).len() == 0) <==> (forall|i: int| 0 <= i < s.len() ==> !#[trigger] keep[i]),
    decreases s.len(),
{
    if s.len() > 0 {
        lemma_retained_empty(s.drop_last(), keep);
    }
}

} // verus!
