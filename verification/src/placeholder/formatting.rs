//! What the generated formatting writes for a value, given how each of its fields
//! probes.

use super::{
    configured_placeholder, enum_conversions, placeholder_implementation, placeholder_label,
    struct_conversions, variant_debug, Constructor, FieldConversion, FieldConversionView,
    Implementation, ImplementationView, VariantDebug, VariantDebugView,
};
use crate::placeholder_debug_text;
use crate::probe::{all_formattable, formatted_values, DetectionResult};
use crate::record::{
    debug_struct, debug_struct_text, debug_tuple, debug_tuple_text, full_derive_text, record_text,
};
use crate::shape::{FieldsView, ShapeDataView, TypeShapeView};
use vstd::prelude::*;

verus! {

impl FieldConversionView {
    /// What the step shows for a field that probes as `probe`: the value's own
    /// text, or the placeholder.
    pub open spec fn shown(self, probe: Option<Seq<char>>) -> Seq<char> {
        match probe {
            Some(value) => value,
            None => placeholder_debug_text(self.placeholder_string),
        }
    }

    /// The name the step shows the field under; the empty text where it has none.
    pub open spec fn shown_name(self) -> Seq<char> {
        match self.name_arg {
            Some(name) => name,
            None => Seq::empty(),
        }
    }
}

impl VariantDebugView {
    /// What is shown for each field, in order.
    pub open spec fn values(self, probes: Seq<Option<Seq<char>>>) -> Seq<Seq<char>> {
        Seq::new(self.field_conversions.len(), |i: int| self.field_conversions[i].shown(probes[i]))
    }

    /// The name and what is shown for each field, in order.
    pub open spec fn entries(self, probes: Seq<Option<Seq<char>>>) -> Seq<(Seq<char>, Seq<char>)> {
        Seq::new(
            self.field_conversions.len(),
            |i: int|
                (self.field_conversions[i].shown_name(), self.field_conversions[i].shown(probes[i])),
        )
    }

    /// What the formatting writes for a value whose fields probe as `probes`.
    pub open spec fn text(self, probes: Seq<Option<Seq<char>>>) -> Seq<char> {
        match self.constructor {
            Constructor::DebugStruct => debug_struct_text(
                self.variant_name,
                self.entries(probes),
                true,
            ),
            Constructor::DebugTuple => debug_tuple_text(self.variant_name, self.values(probes)),
        }
    }
}

impl ImplementationView {
    /// A value in its variant `variant` with `fields` fields fits the function: a
    /// struct counts as variant 0.
    pub open spec fn accepts(self, variant: int, fields: nat) -> bool {
        match self {
            ImplementationView::Struct(content) => variant == 0 && fields
                == content.field_conversions.len(),
            ImplementationView::Enum(arms) => 0 <= variant < arms.len() && fields
                == arms[variant].match_content.field_conversions.len(),
        }
    }

    /// What the function writes for a value in its variant `variant` whose fields
    /// probe as `probes`.
    pub open spec fn text(self, variant: int, probes: Seq<Option<Seq<char>>>) -> Seq<char> {
        match self {
            ImplementationView::Struct(content) => content.text(probes),
            ImplementationView::Enum(arms) => arms[variant].match_content.text(probes),
        }
    }
}

impl FieldConversion {
    /// The text shown for a field that probes as `probe`.
    pub fn show(&self, probe: &DetectionResult) -> (text: String)
        ensures
            text@ == self.deep_view().shown(probe.deep_view()),
    {
        match probe {
            DetectionResult::Formattable(value) => value.clone(),
            DetectionResult::Unformattable => debug_tuple(
                self.placeholder_string.as_str(),
                &Vec::new(),
            ),
        }
    }
}

impl VariantDebug {
    /// Formats a value whose fields, in declaration order, probe as `probes`.
    pub fn fmt(&self, probes: &Vec<DetectionResult>) -> (out: String)
        requires
            probes.len() == self.field_conversions.len(),
        ensures
            out@ == self.deep_view().text(probes.deep_view()),
    {
        let ghost view = self.deep_view();
        let ghost outcomes = probes.deep_view();
        match self.constructor {
            Constructor::DebugStruct => {
                let mut entries: Vec<(String, String)> = Vec::new();
                let mut idx: usize = 0;
                while idx < self.field_conversions.len()
                    invariant
                        idx <= self.field_conversions.len(),
                        probes.len() == self.field_conversions.len(),
                        view == self.deep_view(),
                        outcomes == probes.deep_view(),
                        entries.len() == idx,
                        forall|k: int|
                            0 <= k < idx ==> (entries[k].0@, entries[k].1@) == view.entries(
                                outcomes,
                            )[k],
                    decreases self.field_conversions.len() - idx,
                {
                    let conversion = &self.field_conversions[idx];
                    let name = match &conversion.name_arg {
                        Some(name) => name.clone(),
                        None => String::new(),
                    };
                    let value = conversion.show(&probes[idx]);
                    entries.push((name, value));
                    idx += 1;
                }
                proof {
                    assert(entries.deep_view() =~= view.entries(outcomes));
                }
                debug_struct(self.variant_name.as_str(), &entries, true)
            },
            Constructor::DebugTuple => {
                let mut values: Vec<String> = Vec::new();
                let mut idx: usize = 0;
                while idx < self.field_conversions.len()
                    invariant
                        idx <= self.field_conversions.len(),
                        probes.len() == self.field_conversions.len(),
                        view == self.deep_view(),
                        outcomes == probes.deep_view(),
                        values.len() == idx,
                        forall|k: int| 0 <= k < idx ==> values[k]@ == view.values(outcomes)[k],
                    decreases self.field_conversions.len() - idx,
                {
                    let conversion = &self.field_conversions[idx];
                    let value = conversion.show(&probes[idx]);
                    values.push(value);
                    idx += 1;
                }
                proof {
                    assert(values.deep_view() =~= view.values(outcomes));
                }
                debug_tuple(self.variant_name.as_str(), &values)
            },
        }
    }
}

impl Implementation {
    /// Formats a value that is in its variant `variant` (0 for a struct) and whose
    /// fields, in declaration order, probe as `probes`.
    pub fn fmt(&self, variant: usize, probes: &Vec<DetectionResult>) -> (out: String)
        requires
            self.deep_view().accepts(variant as int, probes.len() as nat),
        ensures
            out@ == self.deep_view().text(variant as int, probes.deep_view()),
    {
        match self {
            Implementation::Struct(content) => content.fmt(probes),
            Implementation::Enum(arms) => {
                let arm = &arms[variant];
                arm.match_content.fmt(probes)
            },
        }
    }

    /// Whether a value in its variant `variant` with `fields` fields fits.
    pub fn accepts(&self, variant: usize, fields: usize) -> (ok: bool)
        ensures
            ok == self.deep_view().accepts(variant as int, fields as nat),
    {
        match self {
            Implementation::Struct(content) => variant == 0 && fields
                == content.field_conversions.len(),
            Implementation::Enum(arms) => {
                if variant < arms.len() {
                    let arm = &arms[variant];
                    fields == arm.match_content.field_conversions.len()
                } else {
                    false
                }
            },
        }
    }
}

/// One entry for each declared field, in declaration order: the field's name, and
/// its value where the probe found one, else its placeholder.
pub open spec fn declared_entries(
    fields: FieldsView,
    placeholder: Option<Seq<char>>,
    probes: Seq<Option<Seq<char>>>,
) -> Seq<(Seq<char>, Seq<char>)> {
    Seq::new(
        fields.members.len(),
        |i: int|
            (
                fields.names()[i],
                match probes[i] {
                    Some(value) => value,
                    None => placeholder_label(fields.members[i], placeholder),
                },
            ),
    )
}

/// The formatting generated for one field list shows every field.
proof fn lemma_variant_shows_every_field(
    fields: FieldsView,
    name: Seq<char>,
    conversions: Seq<FieldConversionView>,
    placeholder: Option<Seq<char>>,
    probes: Seq<Option<Seq<char>>>,
)
    requires
        conversions == struct_conversions(fields, placeholder) || conversions == enum_conversions(
            fields,
            placeholder,
        ),
    ensures
        variant_debug(fields, name, conversions).text(probes) == record_text(
            fields.kind,
            name,
            declared_entries(fields, placeholder, probes),
        ),
{
    let content = variant_debug(fields, name, conversions);
    let declared = declared_entries(fields, placeholder, probes);
    assert(content.entries(probes) =~= declared);
    assert(content.values(probes) =~= Seq::new(declared.len(), |i: int| declared[i].1));
}

/// Under the placeholder form no field is skipped: what is written for a value is
/// the record of all its declared fields, as many as declared and in declaration
/// order, each with its value or, where it cannot be formatted, its placeholder.
pub proof fn lemma_every_field_is_shown(
    shape: TypeShapeView,
    variant: int,
    probes: Seq<Option<Seq<char>>>,
)
    requires
        placeholder_implementation(shape) is Ok,
        placeholder_implementation(shape).unwrap().accepts(variant, probes.len()),
    ensures
        configured_placeholder(shape.attrs) is Ok,
        probes.len() == shape.fields(variant).members.len(),
        declared_entries(
            shape.fields(variant),
            configured_placeholder(shape.attrs).unwrap(),
            probes,
        ).len() == shape.fields(variant).members.len(),
        placeholder_implementation(shape).unwrap().text(variant, probes) == record_text(
            shape.fields(variant).kind,
            shape.label(variant),
            declared_entries(
                shape.fields(variant),
                configured_placeholder(shape.attrs).unwrap(),
                probes,
            ),
        ),
{
    let placeholder = configured_placeholder(shape.attrs).unwrap();
    let fields = shape.fields(variant);
    let name = shape.label(variant);
    match shape.data {
        ShapeDataView::Struct(_) => {
            lemma_variant_shows_every_field(
                fields,
                name,
                struct_conversions(fields, placeholder),
                placeholder,
                probes,
            );
        },
        ShapeDataView::Enum(_) => {
            lemma_variant_shows_every_field(
                fields,
                name,
                enum_conversions(fields, placeholder),
                placeholder,
                probes,
            );
        },
        ShapeDataView::Union => {},
    }
}

/// Where every field of the value can be formatted, the placeholder form writes
/// exactly what a full derive writes.
pub proof fn lemma_formattable_is_full_derive(
    shape: TypeShapeView,
    variant: int,
    probes: Seq<Option<Seq<char>>>,
)
    requires
        placeholder_implementation(shape) is Ok,
        placeholder_implementation(shape).unwrap().accepts(variant, probes.len()),
        all_formattable(probes),
    ensures
        placeholder_implementation(shape).unwrap().text(variant, probes) == full_derive_text(
            shape.fields(variant).kind,
            shape.label(variant),
            shape.fields(variant).names(),
            formatted_values(probes),
        ),
{
    lemma_every_field_is_shown(shape, variant, probes);
    let fields = shape.fields(variant);
    assert(declared_entries(fields, configured_placeholder(shape.attrs).unwrap(), probes)
        =~= Seq::new(fields.names().len(), |i: int| (fields.names()[i], formatted_values(probes)[i])));
}

} // verus!
