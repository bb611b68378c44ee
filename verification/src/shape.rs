//! The shape of an aggregate type, as the generators read it: its name, its fields
//! or variants in declaration order, and the attributes attached to it.

use crate::type_label::token_text;
use vstd::prelude::*;

verus! {

/// A place in the source text, kept for diagnostics.
#[derive(Clone, Copy, Debug, PartialEq, Eq, Structural)]
pub struct SourcePosition {
    pub line: usize,
    pub column: usize,
}

/// One field: its name, if it has one, and its declared type as token text.
/// The type is never evaluated, only shown.
#[derive(Clone, Debug, PartialEq, Eq)]
pub struct FieldDescriptor {
    pub name: Option<String>,
    pub ty: String,
    pub position: SourcePosition,
}

pub struct FieldDescriptorView {
    pub name: Option<Seq<char>>,
    pub ty: Seq<char>,
    pub position: SourcePosition,
}

impl DeepView for FieldDescriptor {
    type V = FieldDescriptorView;

    open spec fn deep_view(&self) -> FieldDescriptorView {
        FieldDescriptorView { name: self.name.deep_view(), ty: self.ty@, position: self.position }
    }
}

impl FieldDescriptor {
    /// Describes a field whose type was parsed as `ty`: the descriptor keeps the
    /// text of the type's tokens, as the token printer at hand writes them.
    pub fn new(name: Option<String>, ty: &syn::Type, position: SourcePosition) -> (field:
        FieldDescriptor)
        ensures
            field.deep_view().name == name.deep_view(),
            field.position == position,
    {
        FieldDescriptor { name, ty: token_text(ty), position }
    }
}

/// How a field list is written: in braces with names, in parentheses without, or
/// not at all.
#[derive(Clone, Copy, Debug, PartialEq, Eq, Structural)]
pub enum FieldsKind {
    Named,
    Unnamed,
    Unit,
}

/// The fields of a struct or of one enum variant, in declaration order.
#[derive(Clone, Debug, PartialEq, Eq)]
pub struct Fields {
    pub kind: FieldsKind,
    pub members: Vec<FieldDescriptor>,
}

pub struct FieldsView {
    pub kind: FieldsKind,
    pub members: Seq<FieldDescriptorView>,
}

impl DeepView for Fields {
    type V = FieldsView;

    open spec fn deep_view(&self) -> FieldsView {
        FieldsView { kind: self.kind, members: self.members.deep_view() }
    }
}

/// No text occurs twice.
pub open spec fn distinct(names: Seq<Seq<char>>) -> bool {
    forall|i: int, j: int| 0 <= i < j < names.len() ==> names[i] != names[j]
}

impl FieldsView {
    /// Named fields all have names, no two alike; positional fields have none; a
    /// unit has no fields.
    pub open spec fn well_formed(self) -> bool {
        match self.kind {
            FieldsKind::Named => {
                &&& forall|i: int| 0 <= i < self.members.len() ==> self.members[i].name is Some
                &&& distinct(self.names())
            },
            FieldsKind::Unnamed => forall|i: int|
                0 <= i < self.members.len() ==> self.members[i].name is None,
            FieldsKind::Unit => self.members.len() == 0,
        }
    }

    /// The fields' names in order; the empty text stands for a missing name.
    pub open spec fn names(self) -> Seq<Seq<char>> {
        Seq::new(
            self.members.len(),
            |i: int|
                match self.members[i].name {
                    Some(name) => name,
                    None => Seq::empty(),
                },
        )
    }
}

/// One variant of an enum.
#[derive(Clone, Debug, PartialEq, Eq)]
pub struct VariantDescriptor {
    pub name: String,
    pub fields: Fields,
}

pub struct VariantDescriptorView {
    pub name: Seq<char>,
    pub fields: FieldsView,
}

impl DeepView for VariantDescriptor {
    type V = VariantDescriptorView;

    open spec fn deep_view(&self) -> VariantDescriptorView {
        VariantDescriptorView { name: self.name@, fields: self.fields.deep_view() }
    }
}

/// The names of the variants, in order.
pub open spec fn variant_names(variants: Seq<VariantDescriptorView>) -> Seq<Seq<char>> {
    Seq::new(variants.len(), |i: int| variants[i].name)
}

/// Every variant's fields are well formed and no two variants share a name.
pub open spec fn variants_well_formed(variants: Seq<VariantDescriptorView>) -> bool {
    &&& forall|i: int| 0 <= i < variants.len() ==> (#[trigger] variants[i]).fields.well_formed()
    &&& distinct(variant_names(variants))
}

/// An attribute attached to the aggregate: the path it is written with, and the
/// text of its payload where that payload has the form `= "text"`.
#[derive(Clone, Debug, PartialEq, Eq)]
pub struct Attribute {
    pub path: String,
    pub payload: Option<String>,
    pub position: SourcePosition,
}

pub struct AttributeView {
    pub path: Seq<char>,
    pub payload: Option<Seq<char>>,
    pub position: SourcePosition,
}

impl DeepView for Attribute {
    type V = AttributeView;

    open spec fn deep_view(&self) -> AttributeView {
        AttributeView {
            path: self.path@,
            payload: self.payload.deep_view(),
            position: self.position,
        }
    }
}

/// What the aggregate is made of.
#[derive(Clone, Debug, PartialEq, Eq)]
pub enum ShapeData {
    Struct(Fields),
    Enum(Vec<VariantDescriptor>),
    Union,
}

pub enum ShapeDataView {
    Struct(FieldsView),
    Enum(Seq<VariantDescriptorView>),
    Union,
}

impl DeepView for ShapeData {
    type V = ShapeDataView;

    open spec fn deep_view(&self) -> ShapeDataView {
        match self {
            ShapeData::Struct(fields) => ShapeDataView::Struct(fields.deep_view()),
            ShapeData::Enum(variants) => ShapeDataView::Enum(variants.deep_view()),
            ShapeData::Union => ShapeDataView::Union,
        }
    }
}

/// The five kinds of aggregate.
#[derive(Clone, Copy, Debug, PartialEq, Eq, Structural)]
pub enum ShapeKind {
    UnitStruct,
    TupleStruct,
    NamedStruct,
    Enum,
    Union,
}

/// An aggregate type as declared.
#[derive(Clone, Debug, PartialEq, Eq)]
pub struct TypeShape {
    pub name: String,
    pub attrs: Vec<Attribute>,
    pub data: ShapeData,
    pub position: SourcePosition,
}

pub struct TypeShapeView {
    pub name: Seq<char>,
    pub attrs: Seq<AttributeView>,
    pub data: ShapeDataView,
    pub position: SourcePosition,
}

impl DeepView for TypeShape {
    type V = TypeShapeView;

    open spec fn deep_view(&self) -> TypeShapeView {
        TypeShapeView {
            name: self.name@,
            attrs: self.attrs.deep_view(),
            data: self.data.deep_view(),
            position: self.position,
        }
    }
}

impl TypeShapeView {
    pub open spec fn kind(self) -> ShapeKind {
        match self.data {
            ShapeDataView::Struct(fields) => match fields.kind {
                FieldsKind::Named => ShapeKind::NamedStruct,
                FieldsKind::Unnamed => ShapeKind::TupleStruct,
                FieldsKind::Unit => ShapeKind::UnitStruct,
            },
            ShapeDataView::Enum(_) => ShapeKind::Enum,
            ShapeDataView::Union => ShapeKind::Union,
        }
    }

    /// The fields of a value in its variant `variant`: those of the struct, or
    /// those of that variant of the enum.
    pub open spec fn fields(self, variant: int) -> FieldsView {
        match self.data {
            ShapeDataView::Struct(fields) => fields,
            ShapeDataView::Enum(variants) => variants[variant].fields,
            ShapeDataView::Union => FieldsView { kind: FieldsKind::Unit, members: Seq::empty() },
        }
    }

    /// The name a value in its variant `variant` is written under: that of the
    /// struct, or that of the variant.
    pub open spec fn label(self, variant: int) -> Seq<char> {
        match self.data {
            ShapeDataView::Struct(_) => self.name,
            ShapeDataView::Enum(variants) => variants[variant].name,
            ShapeDataView::Union => self.name,
        }
    }

    /// The field lists at every level are well formed, and the variants of an enum
    /// have distinct names.
    pub open spec fn well_formed(self) -> bool {
        match self.data {
            ShapeDataView::Struct(fields) => fields.well_formed(),
            ShapeDataView::Enum(variants) => variants_well_formed(variants),
            ShapeDataView::Union => true,
        }
    }
}

/// Whether no text of `names` occurs twice.
pub fn all_distinct(names: &Vec<String>) -> (ok: bool)
    ensures
        ok == distinct(names.deep_view()),
{
    let ghost views = names.deep_view();
    let mut j: usize = 0;
    while j < names.len()
        invariant
            j <= names.len(),
            views == names.deep_view(),
            forall|a: int, b: int| 0 <= a < b < j ==> views[a] != views[b],
        decreases names.len() - j,
    {
        let mut i: usize = 0;
        while i < j
            invariant
                i <= j < names.len(),
                views == names.deep_view(),
                forall|a: int| 0 <= a < i ==> views[a] != views[j as int],
            decreases j - i,
        {
            if names[i] == names[j] {
                assert(views[i as int] == views[j as int]);
                return false;
            }
            i += 1;
        }
        j += 1;
    }
    true
}

impl Fields {
    /// Whether the field list is well formed.
    pub fn is_well_formed(&self) -> (ok: bool)
        ensures
            ok == self.deep_view().well_formed(),
    {
        let ghost view = self.deep_view();
        match self.kind {
            FieldsKind::Named => {
                let mut names: Vec<String> = Vec::new();
                let mut i: usize = 0;
                while i < self.members.len()
                    invariant
                        i <= self.members.len(),
                        view == self.deep_view(),
                        view.kind == FieldsKind::Named,
                        names.len() == i,
                        forall|k: int| 0 <= k < i ==> view.members[k].name == Some(names[k]@),
                    decreases self.members.len() - i,
                {
                    match &self.members[i].name {
                        Some(name) => {
                            names.push(name.clone());
                        },
                        None => {
                            assert(view.members[i as int].name is None);
                            return false;
                        },
                    }
                    i += 1;
                }
                proof {
                    assert(names.deep_view() =~= view.names());
                }
                all_distinct(&names)
            },
            FieldsKind::Unnamed => {
                let mut i: usize = 0;
                while i < self.members.len()
                    invariant
                        i <= self.members.len(),
                        view == self.deep_view(),
                        view.kind == FieldsKind::Unnamed,
                        forall|k: int| 0 <= k < i ==> view.members[k].name is None,
                    decreases self.members.len() - i,
                {
                    if self.members[i].name.is_some() {
                        assert(view.members[i as int].name is Some);
                        return false;
                    }
                    i += 1;
                }
                true
            },
            FieldsKind::Unit => self.members.len() == 0,
        }
    }
}

impl TypeShape {
    /// Which of the five kinds of aggregate this is.
    pub fn kind(&self) -> (kind: ShapeKind)
        ensures
            kind == self.deep_view().kind(),
    {
        match &self.data {
            ShapeData::Struct(fields) => match fields.kind {
                FieldsKind::Named => ShapeKind::NamedStruct,
                FieldsKind::Unnamed => ShapeKind::TupleStruct,
                FieldsKind::Unit => ShapeKind::UnitStruct,
            },
            ShapeData::Enum(_) => ShapeKind::Enum,
            ShapeData::Union => ShapeKind::Union,
        }
    }

    /// Whether the shape is well formed.
    pub fn is_well_formed(&self) -> (ok: bool)
        ensures
            ok == self.deep_view().well_formed(),
    {
        match &self.data {
            ShapeData::Struct(fields) => fields.is_well_formed(),
            ShapeData::Enum(variants) => {
                let ghost views = variants.deep_view();
                let mut names: Vec<String> = Vec::new();
                let mut i: usize = 0;
                while i < variants.len()
                    invariant
                        i <= variants.len(),
                        views == variants.deep_view(),
                        self.deep_view().data == ShapeDataView::Enum(views),
                        names.len() == i,
                        forall|k: int| 0 <= k < i ==> views[k].name == names[k]@,
                        forall|k: int| 0 <= k < i ==> (#[trigger] views[k]).fields.well_formed(),
                    decreases variants.len() - i,
                {
                    if !variants[i].fields.is_well_formed() {
                        assert(!views[i as int].fields.well_formed());
                        return false;
                    }
                    names.push(variants[i].name.clone());
                    i += 1;
                }
                proof {
                    assert(names.deep_view() =~= variant_names(views));
                }
                all_distinct(&names)
            },
            ShapeData::Union => true,
        }
    }
}

} // verus!
