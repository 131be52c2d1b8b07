//! Rendering: every textual form of a `Hide` is the fixed marker.
use vstd::prelude::*;
use crate::Hide;

verus! {

/// The marker that stands in for a hidden value.
pub const MARKER: &'static str = "***";

/// The text of the marker.
pub open spec fn marker_text() -> Seq<char> {
    seq!['*', '*', '*']
}

/// The formatter that `Debug` writes to, carried through as an opaque value.
#[verifier::external_type_specification]
#[verifier::external_body]
pub struct ExFormatter<'a>(core::fmt::Formatter<'a>);

/// The error that a formatter may report, carried through as an opaque value.
#[verifier::external_type_specification]
#[verifier::external_body]
pub struct ExFmtError(core::fmt::Error);

/// Relies on `Formatter::write_str` to write the given text to the output;
/// nothing is claimed of its outcome.
pub assume_specification<'a>[ core::fmt::Formatter::<'a>::write_str ](
    f: &mut core::fmt::Formatter<'a>,
    data: &str,
) -> core::fmt::Result;

/// Compact and pretty debug output alike hand `marker_str` to the formatter,
/// whatever the flags, with no recursion into the wrapped value, which need
/// not implement `Debug`; the formatter's own result is passed on.
impl<T> core::fmt::Debug for Hide<T> {
    fn fmt(&self, f: &mut core::fmt::Formatter<'_>) -> core::fmt::Result {
        f.write_str(self.marker_str())
    }
}

impl<T> Hide<T> {
    /// What any rendering of this wrapper shows: the marker, whatever the
    /// wrapped value is.
    pub open spec fn spec_render(&self) -> Seq<char> {
        marker_text()
    }

    /// The text that debug output writes for this wrapper: always the marker.
    pub fn marker_str(&self) -> (r: &'static str)
        ensures
            r@ == self.spec_render(),
    {
        proof {
            reveal_strlit("***");
        }
        MARKER
    }

    /// The user-facing text of the wrapper: always the marker.
    pub fn to_string(&self) -> (r: String)
        ensures
            r@ == self.spec_render(),
    {
        proof {
            reveal_strlit("***");
        }
        MARKER.to_owned()
    }
}

/// Rendering never shows the wrapped value: two wrappers render alike
/// whatever they hold, even of different types, and the text is the
/// three-character marker, never empty.
pub proof fn lemma_render_hides<T, U>(a: Hide<T>, b: Hide<U>)
    ensures
        a.spec_render() == b.spec_render(),
        a.spec_render() == marker_text(),
        a.spec_render().len() == 3,
{
}

} // verus!
