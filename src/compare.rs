//! Equality and ordering of `Hide` are those of the wrapped value.
use vstd::prelude::*;
use vstd::std_specs::cmp::{PartialEqSpec, PartialOrdSpec};
use crate::Hide;
use core::cmp::Ordering;

verus! {

impl<T: PartialEq> PartialEq for Hide<T> {
    fn eq(&self, other: &Hide<T>) -> (r: bool)
        ensures
            call_ensures(T::eq, (&self.0, &other.0), r),
    {
        self.0.eq(&other.0)
    }
}

impl<T: PartialEq> vstd::std_specs::cmp::PartialEqSpecImpl for Hide<T> {
    open spec fn obeys_eq_spec() -> bool {
        T::obeys_eq_spec()
    }

    open spec fn eq_spec(&self, other: &Hide<T>) -> bool {
        self.0.eq_spec(&other.0)
    }
}

impl<T: Eq> Eq for Hide<T> {
}

impl<T: PartialOrd> PartialOrd for Hide<T> {
    fn partial_cmp(&self, other: &Hide<T>) -> (r: Option<Ordering>)
        ensures
            call_ensures(T::partial_cmp, (&self.0, &other.0), r),
    {
        self.0.partial_cmp(&other.0)
    }
}

impl<T: PartialOrd> vstd::std_specs::cmp::PartialOrdSpecImpl for Hide<T> {
    open spec fn obeys_partial_cmp_spec() -> bool {
        T::obeys_partial_cmp_spec()
    }

    open spec fn partial_cmp_spec(&self, other: &Hide<T>) -> Option<Ordering> {
        self.0.partial_cmp_spec(&other.0)
    }
}

/// Two wrappers are equal exactly when the values they wrap are equal, and
/// they are ordered as the values they wrap are.
pub proof fn lemma_compare_pass_through<T: PartialOrd>(a: Hide<T>, b: Hide<T>)
    ensures
        a.eq_spec(&b) == a.0.eq_spec(&b.0),
        Hide::<T>::obeys_eq_spec() == T::obeys_eq_spec(),
        a.partial_cmp_spec(&b) == a.0.partial_cmp_spec(&b.0),
        Hide::<T>::obeys_partial_cmp_spec() == T::obeys_partial_cmp_spec(),
{
}

} // verus!
