use vstd::prelude::*;
use vstd::std_specs::iter::IteratorSpec;

verus! {

/// Values that come in several shapes, and can tell whether two of them share
/// one.
pub trait HasSameVariant {
    /// Whether `self` and `other` have the same shape.
    spec fn same_variant_spec(&self, other: &Self) -> bool;

    fn same_variant(&self, other: &Self) -> (r: bool)
        ensures
            r == self.same_variant_spec(other),
    ;
}

/// Sequences that can hand out an iterator over their elements.
pub trait HasIter<T> {
    /// The elements, in order.
    spec fn elements(&self) -> Seq<T>;

    fn iterator(&self) -> (r: std::slice::Iter<'_, T>)
        ensures
            r.remaining().unref() == self.elements(),
    ;
}

impl<'a, T> HasIter<T> for &'a [T] {
    open spec fn elements(&self) -> Seq<T> {
        (**self)@
    }

    fn iterator(&self) -> (r: std::slice::Iter<'_, T>) {
        broadcast use vstd::std_specs::slice::axiom_spec_slice_iter;

        self.iter()
    }
}

} // verus!
