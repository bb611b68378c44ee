//! The non-exhaustive form: fields that cannot be formatted are left out of the
//! record, and a record that left any out says so with a closing `..`.

use crate::error::DeriveError;
use crate::probe::{all_formattable, formatted_values, DetectionResult};
use crate::record::{debug_struct, debug_struct_text, full_derive_text};
use crate::shape::{
    distinct, FieldsKind, ShapeData, ShapeDataView, ShapeKind, TypeShape, TypeShapeView,
};
use vstd::prelude::*;

verus! {

/// The formatting procedure generated for a struct with named fields: it probes
/// the named fields in order and shows those that can be formatted.
#[derive(Clone, Debug, PartialEq, Eq)]
pub struct NonExhaustiveDebug {
    pub name: String,
    pub fields: Vec<String>,
}

pub struct NonExhaustiveDebugView {
    pub name: Seq<char>,
    pub fields: Seq<Seq<char>>,
}

impl DeepView for NonExhaustiveDebug {
    type V = NonExhaustiveDebugView;

    open spec fn deep_view(&self) -> NonExhaustiveDebugView {
        NonExhaustiveDebugView { name: self.name@, fields: self.fields.deep_view() }
    }
}

/// The entries shown for the first `n` fields: one for each field that can be
/// formatted, in declaration order, and none for the others.
pub open spec fn shown_entries(
    names: Seq<Seq<char>>,
    probes: Seq<Option<Seq<char>>>,
    n: int,
) -> Seq<(Seq<char>, Seq<char>)>
    decreases n,
{
    if n <= 0 {
        Seq::empty()
    } else {
        match probes[n - 1] {
            Some(value) => shown_entries(names, probes, n - 1).push((names[n - 1], value)),
            None => shown_entries(names, probes, n - 1),
        }
    }
}

impl NonExhaustiveDebugView {
    /// What the procedure writes for a value whose fields probe as `probes`.
    pub open spec fn text(self, probes: Seq<Option<Seq<char>>>) -> Seq<char> {
        debug_struct_text(
            self.name,
            shown_entries(self.fields, probes, self.fields.len() as int),
            all_formattable(probes),
        )
    }
}

/// The procedure for `shape`, or why there is none: only a struct with named
/// fields has a non-exhaustive form.
pub open spec fn non_exhaustive_procedure(shape: TypeShapeView) -> Result<
    NonExhaustiveDebugView,
    DeriveError,
> {
    match shape.data {
        ShapeDataView::Struct(fields) => if fields.kind == FieldsKind::Named {
            Ok(NonExhaustiveDebugView { name: shape.name, fields: fields.names() })
        } else {
            Err(DeriveError::UnsupportedShape { position: shape.position })
        },
        ShapeDataView::Enum(_) => Err(DeriveError::UnsupportedShape { position: shape.position }),
        ShapeDataView::Union => Err(DeriveError::UnsupportedUnion { position: shape.position }),
    }
}

/// Generates the non-exhaustive formatting procedure for `input`.
pub fn derive_non_exhaustive(input: &TypeShape) -> (result: Result<NonExhaustiveDebug, DeriveError>)
    ensures
        match result {
            Ok(procedure) => non_exhaustive_procedure(input.deep_view()) == Ok::<
                NonExhaustiveDebugView,
                DeriveError,
            >(procedure.deep_view()),
            Err(error) => non_exhaustive_procedure(input.deep_view()) == Err::<
                NonExhaustiveDebugView,
                DeriveError,
            >(error),
        },
{
    let fields = match &input.data {
        ShapeData::Struct(fields) => fields,
        ShapeData::Enum(_) => {
            return Err(DeriveError::UnsupportedShape { position: input.position });
        },
        ShapeData::Union => {
            return Err(DeriveError::UnsupportedUnion { position: input.position });
        },
    };
    match fields.kind {
        FieldsKind::Named => {},
        FieldsKind::Unnamed => {
            return Err(DeriveError::UnsupportedShape { position: input.position });
        },
        FieldsKind::Unit => {
            return Err(DeriveError::UnsupportedShape { position: input.position });
        },
    }
    let ghost view = fields.deep_view();
    let mut names: Vec<String> = Vec::new();
    let mut i: usize = 0;
    while i < fields.members.len()
        invariant
            i <= fields.members.len(),
            view == fields.deep_view(),
            names.len() == i,
            forall|k: int| 0 <= k < i ==> names[k]@ == view.names()[k],
        decreases fields.members.len() - i,
    {
        let name = match &fields.members[i].name {
            Some(name) => name.clone(),
            None => String::new(),
        };
        names.push(name);
        i += 1;
    }
    let procedure = NonExhaustiveDebug { name: input.name.clone(), fields: names };
    proof {
        assert(procedure.fields.deep_view() =~= view.names());
    }
    Ok(procedure)
}

/// With every one of the first `n` fields formattable, each of them is shown.
proof fn lemma_shown_entries_complete(
    names: Seq<Seq<char>>,
    probes: Seq<Option<Seq<char>>>,
    n: int,
)
    requires
        0 <= n <= names.len(),
        n <= probes.len(),
        forall|i: int| 0 <= i < n ==> probes[i] is Some,
    ensures
        shown_entries(names, probes, n) =~= Seq::new(
            n as nat,
            |i: int| (names[i], formatted_values(probes)[i]),
        ),
    decreases n,
{
    if n > 0 {
        lemma_shown_entries_complete(names, probes, n - 1);
    }
}

/// Every entry shown for the first `n` fields belongs to a formattable field among
/// them, and carries that field's name and value.
proof fn lemma_shown_entries_origin(
    names: Seq<Seq<char>>,
    probes: Seq<Option<Seq<char>>>,
    n: int,
    k: int,
) -> (j: int)
    requires
        0 <= n <= names.len(),
        n <= probes.len(),
        0 <= k < shown_entries(names, probes, n).len(),
    ensures
        0 <= j < n,
        probes[j] == Some(shown_entries(names, probes, n)[k].1),
        shown_entries(names, probes, n)[k].0 == names[j],
    decreases n,
{
    let shorter = shown_entries(names, probes, n - 1);
    if probes[n - 1] is Some && k == shorter.len() {
        n - 1
    } else {
        lemma_shown_entries_origin(names, probes, n - 1, k)
    }
}

/// A struct with named fields, all of which can be formatted, is written in the
/// non-exhaustive form exactly as a full derive writes it: every field, no
/// closing marker.
pub proof fn lemma_all_formattable_is_full_derive(
    shape: TypeShapeView,
    probes: Seq<Option<Seq<char>>>,
)
    requires
        shape.kind() == ShapeKind::NamedStruct,
        probes.len() == shape.fields(0).members.len(),
        all_formattable(probes),
    ensures
        non_exhaustive_procedure(shape) is Ok,
        non_exhaustive_procedure(shape).unwrap().text(probes) == full_derive_text(
            FieldsKind::Named,
            shape.name,
            shape.fields(0).names(),
            formatted_values(probes),
        ),
{
    let names = shape.fields(0).names();
    lemma_shown_entries_complete(names, probes, names.len() as int);
}

/// A well-formed struct with named fields, one of which cannot be formatted, is
/// written in the non-exhaustive form with the closing marker `.. }`, and no
/// entry of the record carries the name of a field that was left out.
pub proof fn lemma_omission_is_marked(shape: TypeShapeView, probes: Seq<Option<Seq<char>>>)
    requires
        shape.kind() == ShapeKind::NamedStruct,
        shape.well_formed(),
        probes.len() == shape.fields(0).members.len(),
        !all_formattable(probes),
    ensures
        non_exhaustive_procedure(shape) is Ok,
        ".. }"@.is_suffix_of(non_exhaustive_procedure(shape).unwrap().text(probes)),
        forall|i: int, k: int|
            #![trigger probes[i], shown_entries(shape.fields(0).names(), probes, probes.len() as int)[k]]
            0 <= i < probes.len() && probes[i] is None && 0 <= k < shown_entries(
                shape.fields(0).names(),
                probes,
                probes.len() as int,
            ).len() ==> shown_entries(shape.fields(0).names(), probes, probes.len() as int)[k].0
                != shape.fields(0).names()[i],
{
    let names = shape.fields(0).names();
    let n = probes.len() as int;
    let shown = shown_entries(names, probes, n);
    reveal_strlit(".. }");
    reveal_strlit(" { .. }");
    reveal_strlit(", .. }");
    assert forall|i: int, k: int|
        #![trigger probes[i], shown[k]]
        0 <= i < n && probes[i] is None && 0 <= k < shown.len() implies shown[k].0
        != names[i] by {
        // the entry belongs to another field, and no two fields share a name
        let j = lemma_shown_entries_origin(names, probes, n, k);
        assert(j != i && distinct(names));
    }
}

/// One more probe keeps the record complete exactly when it found a formattable
/// field.
proof fn lemma_all_formattable_step(probes: Seq<Option<Seq<char>>>, i: int)
    requires
        0 <= i < probes.len(),
    ensures
        all_formattable(probes.take(i + 1)) == (all_formattable(probes.take(i)) && probes[i] is Some),
{
    let shorter = probes.take(i);
    let longer = probes.take(i + 1);
    if all_formattable(longer) {
        assert(longer[i] is Some);
        assert forall|k: int| 0 <= k < shorter.len() implies shorter[k] is Some by {}
    }
    if all_formattable(shorter) && probes[i] is Some {
        assert forall|k: int| 0 <= k < longer.len() implies longer[k] is Some by {}
    }
}

impl NonExhaustiveDebug {
    /// Formats a value whose fields, in declaration order, probe as `probes`.
    pub fn fmt(&self, probes: &Vec<DetectionResult>) -> (out: String)
        requires
            probes.len() == self.fields.len(),
        ensures
            out@ == self.deep_view().text(probes.deep_view()),
    {
        let ghost names = self.fields.deep_view();
        let ghost outcomes = probes.deep_view();
        let mut entries: Vec<(String, String)> = Vec::new();
        let mut exhaustive = true;
        let mut i: usize = 0;
        while i < self.fields.len()
            invariant
                i <= self.fields.len(),
                probes.len() == self.fields.len(),
                names == self.fields.deep_view(),
                outcomes == probes.deep_view(),
                entries.deep_view() == shown_entries(names, outcomes, i as int),
                exhaustive == all_formattable(outcomes.take(i as int)),
            decreases self.fields.len() - i,
        {
            proof {
                lemma_all_formattable_step(outcomes, i as int);
            }
            match &probes[i] {
                DetectionResult::Unformattable => {
                    exhaustive = false;
                },
                DetectionResult::Formattable(value) => {
                    entries.push((self.fields[i].clone(), value.clone()));
                },
            }
            i += 1;
        }
        proof {
            assert(outcomes.take(self.fields.len() as int) =~= outcomes);
        }
        debug_struct(self.name.as_str(), &entries, exhaustive)
    }
}

} // verus!
