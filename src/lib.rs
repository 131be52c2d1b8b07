//! A wrapper that keeps a value out of debug output while leaving it fully
//! usable by the program.
//!
//! `Hide<T>` renders as the fixed marker `***` whatever `T` is, including
//! types that cannot be rendered at all, and passes comparison, ordering,
//! hashing and access straight through to the wrapped value.
use vstd::prelude::*;
use vstd::pervasive::strictly_cloned;

mod compare;
mod convert;
mod render;

pub use render::MARKER;

verus! {

/// Wraps a value and hides it from debug output.
///
/// This also works for types which do not implement `Debug`.
#[derive(Hash, Ord)]
pub struct Hide<T>(pub T);

impl<T> Hide<T> {
    /// The wrapper around `value`, as a spec value.
    pub open spec fn spec_new(value: T) -> Hide<T> {
        Hide(value)
    }

    /// The value inside the wrapper, as a spec value.
    pub open spec fn spec_take(self) -> T {
        self.0
    }

    /// Wraps `value`.
    pub fn new(value: T) -> (r: Self)
        ensures
            r == Self::spec_new(value),
    {
        Hide(value)
    }

    /// Unwraps the value, giving up the wrapper.
    pub fn take(self) -> (r: T)
        ensures
            r == self.spec_take(),
    {
        self.0
    }
}

impl<T: Clone> Clone for Hide<T> {
    /// A wrapper around a clone of the wrapped value.
    fn clone(&self) -> (r: Self)
        ensures
            strictly_cloned(self.0, r.0),
    {
        Hide(self.0.clone())
    }
}

impl<T> core::ops::Deref for Hide<T> {
    type Target = T;

    fn deref(&self) -> (r: &T)
        ensures
            *r == self.0,
    {
        &self.0
    }
}

impl<T> core::ops::DerefMut for Hide<T> {
    fn deref_mut(&mut self) -> (r: &mut T)
        ensures
            *r == old(self).0,
            *final(self) == Hide(*final(r)),
    {
        &mut self.0
    }
}

impl<T> AsRef<T> for Hide<T> {
    fn as_ref(&self) -> (r: &T)
        ensures
            *r == self.0,
    {
        &self.0
    }
}

impl<'a> AsRef<str> for Hide<&'a str> {
    fn as_ref(&self) -> (r: &str)
        ensures
            str_view(r) == self.0@,
    {
        self.0
    }
}

impl AsRef<str> for Hide<String> {
    fn as_ref(&self) -> (r: &str)
        ensures
            str_view(r) == self.0@,
    {
        self.0.as_str()
    }
}

/// The characters of a string slice.
pub open spec fn str_view(s: &str) -> Seq<char> {
    s@
}

/// Unwrapping a freshly wrapped value gives that value back.
pub proof fn lemma_take_new<T>(v: T)
    ensures
        Hide::spec_new(v).spec_take() == v,
{
}

} // verus!
