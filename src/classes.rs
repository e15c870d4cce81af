//! The class names of an identity, held in a `SmallVec` as most identities have one.

use vstd::prelude::*;
use smallvec::SmallVec;

verus! {

/// A list of class names.
#[derive(Debug)]
#[verifier::external_body]
pub struct ClassList {
    items: SmallVec<[String; 1]>,
}

/// The names that a class list holds, in order.
pub uninterp spec fn class_items(v: ClassList) -> Seq<String>;

impl ClassList {
    /// Relies on `SmallVec::from_vec`: the list holds the items of `v`, in order.
    #[verifier::external_body]
    pub fn from_vec(v: Vec<String>) -> (r: ClassList)
        ensures
            class_items(r) == v@,
    {
        ClassList { items: SmallVec::from_vec(v) }
    }

    /// Relies on `SmallVec::len`: the number of items.
    #[verifier::external_body]
    pub fn len(&self) -> (r: usize)
        ensures
            r == class_items(*self).len(),
    {
        self.items.len()
    }

    /// Relies on `SmallVec::to_vec`: the items, in order.
    #[verifier::external_body]
    pub fn to_vec(&self) -> (r: Vec<String>)
        ensures
            r@ == class_items(*self),
    {
        self.items.to_vec()
    }

    /// Relies on indexing a `SmallVec`: the item at `i`.
    #[verifier::external_body]
    pub fn get(&self, i: usize) -> (r: &String)
        requires
            i < class_items(*self).len(),
        ensures
            *r == class_items(*self)[i as int],
    {
        &self.items[i]
    }
}

} // verus!
