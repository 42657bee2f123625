//! The ordered list of values bound to a statement's placeholders.

use vstd::prelude::*;
use crate::value::{Dypes, DypesView};

verus! {

/// The views of a sequence of canonical values.
pub open spec fn value_views(values: Seq<Dypes>) -> Seq<DypesView> {
    Seq::new(values.len(), |i: int| values[i]@)
}

/// The values bound to a statement, in the order of its placeholders.
#[derive(Debug, PartialEq, Eq)]
pub struct Params(pub Vec<Dypes>);

impl View for Params {
    type V = Seq<DypesView>;

    open spec fn view(&self) -> Seq<DypesView> {
        value_views(self.0@)
    }
}

impl Params {
    /// A list that holds `val`.
    pub fn new(val: Vec<Dypes>) -> (r: Self)
        ensures
            r.0 == val,
            r@ == value_views(val@),
    {
        Params(val)
    }

    /// The values of the list.
    pub fn values(self) -> (r: Vec<Dypes>)
        ensures
            r == self.0,
            value_views(r@) == self@,
    {
        self.0
    }

    /// The list without values.
    pub fn empty() -> (r: Self)
        ensures
            r@ == Seq::<DypesView>::empty(),
    {
        let r = Params(Vec::new());
        assert(r@ =~= Seq::<DypesView>::empty());
        r
    }

    /// The list with the canonical form of `x` added at its end.
    pub fn with<T>(self, x: T) -> (r: Self) where Dypes: From<T>
        ensures
            call_ensures(<Dypes as From<T>>::from, (x,), r.0@.last()),
            r.0@.len() == self.0@.len() + 1,
            r@.drop_last() == self@,
    {
        let mut values = self.0;
        let v = Dypes::from(x);
        values.push(v);
        let r = Params(values);
        assert(r@.drop_last() =~= self@);
        r
    }

    /// The number of values.
    pub fn len(&self) -> (r: usize)
        ensures
            r == self@.len(),
    {
        self.0.len()
    }
}

/// Appends copies of `more` to `all`.
pub fn extend_values(all: &mut Vec<Dypes>, more: &Vec<Dypes>)
    ensures
        value_views(final(all)@) == value_views(old(all)@) + value_views(more@),
{
    let mut i: usize = 0;
    while i < more.len()
        invariant
            i <= more.len(),
            all@.len() == old(all)@.len() + i,
            forall|k: int| 0 <= k < old(all)@.len() ==> all@[k] == old(all)@[k],
            forall|k: int| 0 <= k < i ==> all@[old(all)@.len() + k]@ == more@[k]@,
        decreases more.len() - i,
    {
        all.push(more[i].clone());
        i += 1;
    }
    assert(value_views(all@) =~= value_views(old(all)@) + value_views(more@));
}

} // verus!
