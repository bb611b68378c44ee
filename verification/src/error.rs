//! Why a debug implementation could not be generated.

use crate::shape::SourcePosition;
use vstd::prelude::*;

verus! {

/// Every failure ends the generation for the aggregate; nothing is emitted.
#[derive(Clone, Copy, Debug, PartialEq, Eq, Structural)]
pub enum DeriveError {
    /// The non-exhaustive form was asked for something other than a struct with
    /// named fields. The position is that of the aggregate.
    UnsupportedShape { position: SourcePosition },
    /// The aggregate is a union. The position is that of the aggregate.
    UnsupportedUnion { position: SourcePosition },
    /// A second placeholder attribute. The position is that of the second one.
    DuplicatePlaceholder { position: SourcePosition },
    /// The payload of the placeholder attribute is not of the form `= "text"`.
    /// The position is that of the attribute.
    MalformedPlaceholder { position: SourcePosition },
}

impl DeriveError {
    /// Where the failure is reported.
    pub open spec fn position_spec(self) -> SourcePosition {
        match self {
            DeriveError::UnsupportedShape { position } => position,
            DeriveError::UnsupportedUnion { position } => position,
            DeriveError::DuplicatePlaceholder { position } => position,
            DeriveError::MalformedPlaceholder { position } => position,
        }
    }

    /// The words the failure is reported with.
    pub open spec fn message_spec(self) -> Seq<char> {
        match self {
            DeriveError::UnsupportedShape { .. } => "Only structs with named fields are supported"@,
            DeriveError::UnsupportedUnion { .. } => "Unions are not supported"@,
            DeriveError::DuplicatePlaceholder { .. } => "More than one debug_placeholder attribute"@,
            DeriveError::MalformedPlaceholder { .. } => "Expected debug_placeholder = \"...\""@,
        }
    }

    /// Where the failure is reported.
    #[verifier::when_used_as_spec(position_spec)]
    pub fn position(self) -> (position: SourcePosition)
        ensures
            position == self.position_spec(),
    {
        match self {
            DeriveError::UnsupportedShape { position } => position,
            DeriveError::UnsupportedUnion { position } => position,
            DeriveError::DuplicatePlaceholder { position } => position,
            DeriveError::MalformedPlaceholder { position } => position,
        }
    }

    /// The words the failure is reported with.
    pub fn message(self) -> (text: String)
        ensures
            text@ == self.message_spec(),
    {
        match self {
            DeriveError::UnsupportedShape { .. } => {
                "Only structs with named fields are supported".to_owned()
            },
            DeriveError::UnsupportedUnion { .. } => "Unions are not supported".to_owned(),
            DeriveError::DuplicatePlaceholder { .. } => {
                "More than one debug_placeholder attribute".to_owned()
            },
            DeriveError::MalformedPlaceholder { .. } => {
                "Expected debug_placeholder = \"...\"".to_owned()
            },
        }
    }
}

} // verus!
