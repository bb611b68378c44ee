//! What probing one field for debug support comes to.

use core::fmt::Debug;
use vstd::prelude::*;

verus! {

/// The value `it` as a handle for debug formatting.
pub open spec fn handle_of<T: Debug>(it: &T) -> &dyn Debug {
    it
}

/// The outcome of probing one field. A formattable field carries the text its
/// value formats to.
#[derive(Clone, Debug, PartialEq, Eq)]
pub enum DetectionResult {
    Formattable(String),
    Unformattable,
}

impl DeepView for DetectionResult {
    type V = Option<Seq<char>>;

    open spec fn deep_view(&self) -> Option<Seq<char>> {
        match self {
            DetectionResult::Formattable(text) => Some(text@),
            DetectionResult::Unformattable => None,
        }
    }
}

/// Every probe found a formattable field.
pub open spec fn all_formattable(probes: Seq<Option<Seq<char>>>) -> bool {
    forall|i: int| 0 <= i < probes.len() ==> probes[i] is Some
}

/// The values that the probes found, in order; the empty text where a probe found
/// none.
pub open spec fn formatted_values(probes: Seq<Option<Seq<char>>>) -> Seq<Seq<char>> {
    Seq::new(
        probes.len(),
        |i: int|
            match probes[i] {
                Some(value) => value,
                None => Seq::empty(),
            },
    )
}

/// The text `handle` formats to with `{:?}`, through `format!`. The text is
/// whatever the value's own `Debug` implementation writes: nothing is claimed of it.
#[verifier::external_body]
fn debug_text(handle: &dyn Debug) -> (text: String) {
    format!("{:?}", handle)
}

impl DetectionResult {
    /// The outcome for a detector's answer: formattable exactly when the detector
    /// handed out a handle.
    pub fn from_handle(handle: Option<&dyn Debug>) -> (result: DetectionResult)
        ensures
            handle is Some <==> result is Formattable,
    {
        match handle {
            Some(handle) => DetectionResult::Formattable(debug_text(handle)),
            None => DetectionResult::Unformattable,
        }
    }
}

} // verus!
