//! Debug formatting for types where not all fields implement `Debug`.
//!
//! A field that cannot be formatted is either left out of the record, which then
//! closes with `..` (the non-exhaustive form), or shown as a placeholder: the
//! label of its type, or a text given with the `debug_placeholder` attribute (the
//! placeholder form). This crate holds what the two derives are made of: the
//! detectors that tell at compile time whether a type implements `Debug`, the
//! generators that turn the shape of an aggregate into its formatting function,
//! and what that function writes for a value.

use vstd::prelude::*;

pub mod error;
pub mod no_specialization;
pub mod non_exhaustive;
pub mod placeholder;
pub mod probe;
pub mod record;
pub mod shape;
pub mod specialization;
pub mod text;
pub mod type_label;

verus! {

/// Stand-in for a value of a type that does not implement `Debug`. It is written
/// as its label and nothing else.
pub struct Placeholder(pub &'static str);

/// What a placeholder with the given label is written as: a record of that name
/// without fields.
pub open spec fn placeholder_debug_text(label: Seq<char>) -> Seq<char> {
    record::debug_tuple_text(label, Seq::empty())
}

impl Placeholder {
    /// The debug text of the placeholder.
    pub fn fmt(&self) -> (out: String)
        ensures
            out@ == placeholder_debug_text(self.0@),
            out@ == self.0@,
    {
        record::debug_tuple(self.0, &Vec::new())
    }
}

} // verus!
