//! Building a `Hide` from plain values and from text, and back.
use vstd::prelude::*;
use crate::Hide;

verus! {

impl<T> From<T> for Hide<T> {
    fn from(value: T) -> (r: Self) {
        Hide(value)
    }
}

impl<T> vstd::std_specs::convert::FromSpecImpl<T> for Hide<T> {
    open spec fn obeys_from_spec() -> bool {
        true
    }

    open spec fn from_spec(v: T) -> Hide<T> {
        Hide(v)
    }
}

impl<'a> From<&'a str> for Hide<String> {
    fn from(value: &'a str) -> (r: Self)
        ensures
            r.0@ == value@,
    {
        Hide(value.to_owned())
    }
}

// A `String` cannot be built in spec code: the result of this conversion is
// stated by the `ensures` of `from` above rather than by `from_spec`.
impl<'a> vstd::std_specs::convert::FromSpecImpl<&'a str> for Hide<String> {
    open spec fn obeys_from_spec() -> bool {
        false
    }

    open spec fn from_spec(v: &'a str) -> Hide<String> {
        choose|h: Hide<String>| h.0@ == v@
    }
}

impl From<Hide<String>> for String {
    fn from(value: Hide<String>) -> (r: String) {
        value.0
    }
}

impl vstd::std_specs::convert::FromSpecImpl<Hide<String>> for String {
    open spec fn obeys_from_spec() -> bool {
        true
    }

    open spec fn from_spec(v: Hide<String>) -> String {
        v.0
    }
}

impl<T> Hide<T> {
    /// Wraps the outcome of parsing: a value is wrapped, an error is passed
    /// on as it is.
    pub fn from_parsed<E>(parsed: Result<T, E>) -> (r: Result<Hide<T>, E>)
        ensures
            match parsed {
                Ok(v) => r == Ok::<Hide<T>, E>(Hide(v)),
                Err(e) => r == Err::<Hide<T>, E>(e),
            },
    {
        match parsed {
            Ok(v) => Ok(Hide(v)),
            Err(e) => Err(e),
        }
    }
}

} // verus!
