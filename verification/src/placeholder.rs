//! The placeholder form: every field is shown, and a field that cannot be
//! formatted shows a placeholder in the place of its value, either the text given
//! with the `debug_placeholder` attribute or the label of the field's type.

use crate::error::DeriveError;
use crate::shape::{
    AttributeView, FieldDescriptor, FieldDescriptorView, Fields, FieldsKind, FieldsView,
    ShapeData, ShapeDataView, TypeShape, TypeShapeView, VariantDescriptor, VariantDescriptorView,
};
use crate::text::{decimal, push_decimal};
use crate::type_label::{render_type_label, type_label};
use vstd::prelude::*;

pub mod formatting;

verus! {

/// Which record builder a variant is written with.
#[derive(Clone, Copy, Debug, PartialEq, Eq, Structural)]
pub enum Constructor {
    DebugStruct,
    DebugTuple,
}

/// The expression through which the generated code reaches a field.
#[derive(Clone, Debug, PartialEq, Eq)]
pub enum FieldHandle {
    /// `self.0`, `self.1`, ...: a positional field of a struct.
    SelfIndex(usize),
    /// `self.name`: a named field of a struct.
    SelfName(String),
    /// A variable bound by the pattern of a match arm.
    Binding(String),
}

pub enum FieldHandleView {
    SelfIndex(nat),
    SelfName(Seq<char>),
    Binding(Seq<char>),
}

impl DeepView for FieldHandle {
    type V = FieldHandleView;

    open spec fn deep_view(&self) -> FieldHandleView {
        match self {
            FieldHandle::SelfIndex(index) => FieldHandleView::SelfIndex(*index as nat),
            FieldHandle::SelfName(name) => FieldHandleView::SelfName(name@),
            FieldHandle::Binding(name) => FieldHandleView::Binding(name@),
        }
    }
}

/// The step generated for one field: probe the value behind `field_handle`, and
/// show what the probe hands out, or else a placeholder with the text
/// `placeholder_string`; under `name_arg` where the field has a name.
#[derive(Clone, Debug, PartialEq, Eq)]
pub struct FieldConversion {
    pub name_arg: Option<String>,
    pub field_handle: FieldHandle,
    pub placeholder_string: String,
}

pub struct FieldConversionView {
    pub name_arg: Option<Seq<char>>,
    pub field_handle: FieldHandleView,
    pub placeholder_string: Seq<char>,
}

impl DeepView for FieldConversion {
    type V = FieldConversionView;

    open spec fn deep_view(&self) -> FieldConversionView {
        FieldConversionView {
            name_arg: self.name_arg.deep_view(),
            field_handle: self.field_handle.deep_view(),
            placeholder_string: self.placeholder_string@,
        }
    }
}

/// The formatting generated for a struct, or for one variant of an enum.
#[derive(Clone, Debug, PartialEq, Eq)]
pub struct VariantDebug {
    pub constructor: Constructor,
    pub variant_name: String,
    pub field_conversions: Vec<FieldConversion>,
}

pub struct VariantDebugView {
    pub constructor: Constructor,
    pub variant_name: Seq<char>,
    pub field_conversions: Seq<FieldConversionView>,
}

impl DeepView for VariantDebug {
    type V = VariantDebugView;

    open spec fn deep_view(&self) -> VariantDebugView {
        VariantDebugView {
            constructor: self.constructor,
            variant_name: self.variant_name@,
            field_conversions: self.field_conversions.deep_view(),
        }
    }
}

/// The text of the placeholder for `field`: the configured one, or else the label
/// of the field's type.
pub open spec fn placeholder_label(
    field: FieldDescriptorView,
    placeholder: Option<Seq<char>>,
) -> Seq<char> {
    match placeholder {
        Some(text) => text,
        None => type_label(field.ty),
    }
}

/// The step for `field`, reached through `field_handle` and shown under
/// `name_arg`.
pub open spec fn field_as_debug(
    field: FieldDescriptorView,
    placeholder: Option<Seq<char>>,
    field_handle: FieldHandleView,
    name_arg: Option<Seq<char>>,
) -> FieldConversionView {
    FieldConversionView {
        name_arg,
        field_handle,
        placeholder_string: placeholder_label(field, placeholder),
    }
}

/// How the field at `index` of a struct is reached: by its name, or by its index
/// where it has none.
pub open spec fn struct_field_handle(field: FieldDescriptorView, index: int) -> FieldHandleView {
    match field.name {
        Some(name) => FieldHandleView::SelfName(name),
        None => FieldHandleView::SelfIndex(index as nat),
    }
}

/// The variable that a pattern binds the positional field at `index` to: `__0`,
/// `__1`, ...
pub open spec fn binding_name(index: nat) -> Seq<char> {
    "__"@ + decimal(index)
}

/// How the field at `index` of an enum variant is reached: by the variable of its
/// own name, or by `binding_name` where it has none.
pub open spec fn enum_field_handle(field: FieldDescriptorView, index: int) -> FieldHandleView {
    match field.name {
        Some(name) => FieldHandleView::Binding(name),
        None => FieldHandleView::Binding(binding_name(index as nat)),
    }
}

/// The steps for the fields of a struct, one for each field, in declaration order.
pub open spec fn struct_conversions(
    fields: FieldsView,
    placeholder: Option<Seq<char>>,
) -> Seq<FieldConversionView> {
    Seq::new(
        fields.members.len(),
        |i: int|
            field_as_debug(
                fields.members[i],
                placeholder,
                struct_field_handle(fields.members[i], i),
                fields.members[i].name,
            ),
    )
}

/// The steps for the fields of an enum variant, one for each field, in
/// declaration order.
pub open spec fn enum_conversions(
    fields: FieldsView,
    placeholder: Option<Seq<char>>,
) -> Seq<FieldConversionView> {
    Seq::new(
        fields.members.len(),
        |i: int|
            field_as_debug(
                fields.members[i],
                placeholder,
                enum_field_handle(fields.members[i], i),
                fields.members[i].name,
            ),
    )
}

/// Named fields are written with the struct builder, positional fields and units
/// with the tuple builder.
pub open spec fn constructor_of(kind: FieldsKind) -> Constructor {
    match kind {
        FieldsKind::Named => Constructor::DebugStruct,
        FieldsKind::Unnamed => Constructor::DebugTuple,
        FieldsKind::Unit => Constructor::DebugTuple,
    }
}

/// The formatting for one variant with the given steps.
pub open spec fn variant_debug(
    fields: FieldsView,
    variant_name: Seq<char>,
    field_conversions: Seq<FieldConversionView>,
) -> VariantDebugView {
    VariantDebugView { constructor: constructor_of(fields.kind), variant_name, field_conversions }
}

/// Generates the step for one field.
pub fn gen_field_as_debug(
    field: &FieldDescriptor,
    placeholder: &Option<String>,
    field_handle: FieldHandle,
    name_arg: Option<String>,
) -> (conversion: FieldConversion)
    ensures
        conversion.deep_view() == field_as_debug(
            field.deep_view(),
            placeholder.deep_view(),
            field_handle.deep_view(),
            name_arg.deep_view(),
        ),
{
    let type_text = render_type_label(field.ty.as_str());
    // type name or given placeholder string
    let placeholder_string = match placeholder {
        Some(text) => text.clone(),
        None => type_text,
    };
    FieldConversion { name_arg, field_handle, placeholder_string }
}

/// Generates the steps for the fields of a struct.
pub fn struct_field_conversions(fields: &Fields, placeholder: &Option<String>) -> (conversions: Vec<
    FieldConversion,
>)
    ensures
        conversions.deep_view() == struct_conversions(fields.deep_view(), placeholder.deep_view()),
{
    let ghost view = fields.deep_view();
    let ghost expected = struct_conversions(view, placeholder.deep_view());
    let mut conversions: Vec<FieldConversion> = Vec::new();
    let mut idx: usize = 0;
    while idx < fields.members.len()
        invariant
            idx <= fields.members.len(),
            view == fields.deep_view(),
            expected == struct_conversions(view, placeholder.deep_view()),
            conversions.len() == idx,
            forall|k: int| 0 <= k < idx ==> conversions[k].deep_view() == expected[k],
        decreases fields.members.len() - idx,
    {
        let field = &fields.members[idx];
        let (field_handle, name_arg) = match &field.name {
            None => (FieldHandle::SelfIndex(idx), None),
            Some(name) => (FieldHandle::SelfName(name.clone()), Some(name.clone())),
        };
        let conversion = gen_field_as_debug(field, placeholder, field_handle, name_arg);
        conversions.push(conversion);
        idx += 1;
    }
    conversions
}

/// The variable for the positional field at `index` of an enum variant.
pub fn binding_for(index: usize) -> (name: String)
    ensures
        name@ == binding_name(index as nat),
{
    let mut name = "__".to_owned();
    push_decimal(&mut name, index);
    name
}

/// Generates the steps for the fields of an enum variant.
pub fn enum_field_conversions(fields: &Fields, placeholder: &Option<String>) -> (conversions: Vec<
    FieldConversion,
>)
    ensures
        conversions.deep_view() == enum_conversions(fields.deep_view(), placeholder.deep_view()),
{
    let ghost view = fields.deep_view();
    let ghost expected = enum_conversions(view, placeholder.deep_view());
    let mut conversions: Vec<FieldConversion> = Vec::new();
    let mut idx: usize = 0;
    while idx < fields.members.len()
        invariant
            idx <= fields.members.len(),
            view == fields.deep_view(),
            expected == enum_conversions(view, placeholder.deep_view()),
            conversions.len() == idx,
            forall|k: int| 0 <= k < idx ==> conversions[k].deep_view() == expected[k],
        decreases fields.members.len() - idx,
    {
        let field = &fields.members[idx];
        let (field_handle, name_arg) = match &field.name {
            None => (FieldHandle::Binding(binding_for(idx)), None),
            Some(name) => (FieldHandle::Binding(name.clone()), Some(name.clone())),
        };
        let conversion = gen_field_as_debug(field, placeholder, field_handle, name_arg);
        conversions.push(conversion);
        idx += 1;
    }
    conversions
}

/// Generates the formatting for one variant from the steps for its fields.
pub fn gen_variant_debug(
    fields: &Fields,
    variant_name: &String,
    field_conversions: Vec<FieldConversion>,
) -> (variant: VariantDebug)
    ensures
        variant.deep_view() == variant_debug(
            fields.deep_view(),
            variant_name@,
            field_conversions.deep_view(),
        ),
{
    let constructor = match fields.kind {
        FieldsKind::Named => Constructor::DebugStruct,
        FieldsKind::Unnamed => Constructor::DebugTuple,
        FieldsKind::Unit => Constructor::DebugTuple,
    };
    VariantDebug { constructor, variant_name: variant_name.clone(), field_conversions }
}

/// What the pattern of a match arm binds.
#[derive(Clone, Debug, PartialEq, Eq)]
pub enum Destructuring {
    /// `{ a, b }`: the named fields, each bound to a variable of its own name.
    Named(Vec<String>),
    /// `(__0, __1)`: the positional fields, each bound to a numbered variable.
    Unnamed(Vec<String>),
    /// Nothing: the variant has no fields.
    Unit,
}

pub enum DestructuringView {
    Named(Seq<Seq<char>>),
    Unnamed(Seq<Seq<char>>),
    Unit,
}

impl DeepView for Destructuring {
    type V = DestructuringView;

    open spec fn deep_view(&self) -> DestructuringView {
        match self {
            Destructuring::Named(names) => DestructuringView::Named(names.deep_view()),
            Destructuring::Unnamed(names) => DestructuringView::Unnamed(names.deep_view()),
            Destructuring::Unit => DestructuringView::Unit,
        }
    }
}

/// The pattern `Enum::Variant { .. }` that picks one variant and binds its fields.
#[derive(Clone, Debug, PartialEq, Eq)]
pub struct MatchPattern {
    pub enum_name: String,
    pub variant_name: String,
    pub destructuring: Destructuring,
}

pub struct MatchPatternView {
    pub enum_name: Seq<char>,
    pub variant_name: Seq<char>,
    pub destructuring: DestructuringView,
}

impl DeepView for MatchPattern {
    type V = MatchPatternView;

    open spec fn deep_view(&self) -> MatchPatternView {
        MatchPatternView {
            enum_name: self.enum_name@,
            variant_name: self.variant_name@,
            destructuring: self.destructuring.deep_view(),
        }
    }
}

/// One arm of the match over the variants of an enum.
#[derive(Clone, Debug, PartialEq, Eq)]
pub struct MatchArm {
    pub match_pattern: MatchPattern,
    pub match_content: VariantDebug,
}

pub struct MatchArmView {
    pub match_pattern: MatchPatternView,
    pub match_content: VariantDebugView,
}

impl DeepView for MatchArm {
    type V = MatchArmView;

    open spec fn deep_view(&self) -> MatchArmView {
        MatchArmView {
            match_pattern: self.match_pattern.deep_view(),
            match_content: self.match_content.deep_view(),
        }
    }
}

/// The body of the generated formatting function.
#[derive(Clone, Debug, PartialEq, Eq)]
pub enum Implementation {
    /// For a struct: the formatting of its fields.
    Struct(VariantDebug),
    /// For an enum: a match with one arm for each variant, in declaration order.
    Enum(Vec<MatchArm>),
}

pub enum ImplementationView {
    Struct(VariantDebugView),
    Enum(Seq<MatchArmView>),
}

impl DeepView for Implementation {
    type V = ImplementationView;

    open spec fn deep_view(&self) -> ImplementationView {
        match self {
            Implementation::Struct(variant) => ImplementationView::Struct(variant.deep_view()),
            Implementation::Enum(arms) => ImplementationView::Enum(arms.deep_view()),
        }
    }
}

/// The variables for `count` positional fields: `__0`, `__1`, ...
pub open spec fn binding_names(count: nat) -> Seq<Seq<char>> {
    Seq::new(count, |i: int| binding_name(i as nat))
}

/// What the pattern for a variant with these fields binds.
pub open spec fn destructuring_of(fields: FieldsView) -> DestructuringView {
    match fields.kind {
        FieldsKind::Named => DestructuringView::Named(fields.names()),
        FieldsKind::Unnamed => DestructuringView::Unnamed(binding_names(fields.members.len())),
        FieldsKind::Unit => DestructuringView::Unit,
    }
}

/// The pattern for `variant` of the enum `enum_name`.
pub open spec fn match_pattern(
    enum_name: Seq<char>,
    variant: VariantDescriptorView,
) -> MatchPatternView {
    MatchPatternView {
        enum_name,
        variant_name: variant.name,
        destructuring: destructuring_of(variant.fields),
    }
}

/// The arm for `variant` of the enum `enum_name`.
pub open spec fn match_arm(
    enum_name: Seq<char>,
    variant: VariantDescriptorView,
    placeholder: Option<Seq<char>>,
) -> MatchArmView {
    MatchArmView {
        match_pattern: match_pattern(enum_name, variant),
        match_content: variant_debug(
            variant.fields,
            variant.name,
            enum_conversions(variant.fields, placeholder),
        ),
    }
}

/// The arms for the variants of an enum, one for each variant, in declaration
/// order.
pub open spec fn enum_debug(
    variants: Seq<VariantDescriptorView>,
    enum_name: Seq<char>,
    placeholder: Option<Seq<char>>,
) -> Seq<MatchArmView> {
    Seq::new(variants.len(), |i: int| match_arm(enum_name, variants[i], placeholder))
}

/// Generates the pattern that picks `variant` and binds its fields.
pub fn gen_match_pattern(enum_name: &String, variant: &VariantDescriptor) -> (pattern: MatchPattern)
    ensures
        pattern.deep_view() == match_pattern(enum_name@, variant.deep_view()),
{
    let fields = &variant.fields;
    let ghost view = fields.deep_view();
    let destructuring_pattern = match fields.kind {
        FieldsKind::Named => {
            let mut patterns: Vec<String> = Vec::new();
            let mut idx: usize = 0;
            while idx < fields.members.len()
                invariant
                    idx <= fields.members.len(),
                    view == fields.deep_view(),
                    patterns.len() == idx,
                    forall|k: int| 0 <= k < idx ==> patterns[k]@ == view.names()[k],
                decreases fields.members.len() - idx,
            {
                let name = match &fields.members[idx].name {
                    Some(name) => name.clone(),
                    None => String::new(),
                };
                patterns.push(name);
                idx += 1;
            }
            proof {
                assert(patterns.deep_view() =~= view.names());
            }
            Destructuring::Named(patterns)
        },
        FieldsKind::Unnamed => {
            let mut patterns: Vec<String> = Vec::new();
            let mut idx: usize = 0;
            while idx < fields.members.len()
                invariant
                    idx <= fields.members.len(),
                    view == fields.deep_view(),
                    patterns.len() == idx,
                    forall|k: int| 0 <= k < idx ==> patterns[k]@ == binding_name(k as nat),
                decreases fields.members.len() - idx,
            {
                patterns.push(binding_for(idx));
                idx += 1;
            }
            proof {
                assert(patterns.deep_view() =~= binding_names(view.members.len()));
            }
            Destructuring::Unnamed(patterns)
        },
        FieldsKind::Unit => Destructuring::Unit,
    };
    MatchPattern {
        enum_name: enum_name.clone(),
        variant_name: variant.name.clone(),
        destructuring: destructuring_pattern,
    }
}

/// Generates the match over the variants of an enum.
pub fn gen_enum_debug(
    variants: &Vec<VariantDescriptor>,
    enum_name: &String,
    placeholder: &Option<String>,
) -> (all_variants: Vec<MatchArm>)
    ensures
        all_variants.deep_view() == enum_debug(
            variants.deep_view(),
            enum_name@,
            placeholder.deep_view(),
        ),
{
    let ghost views = variants.deep_view();
    let ghost expected = enum_debug(views, enum_name@, placeholder.deep_view());
    let mut all_variants: Vec<MatchArm> = Vec::new();
    let mut idx: usize = 0;
    while idx < variants.len()
        invariant
            idx <= variants.len(),
            views == variants.deep_view(),
            expected == enum_debug(views, enum_name@, placeholder.deep_view()),
            all_variants.len() == idx,
            forall|k: int| 0 <= k < idx ==> all_variants[k].deep_view() == expected[k],
        decreases variants.len() - idx,
    {
        let variant = &variants[idx];
        let match_content = gen_variant_debug(
            &variant.fields,
            &variant.name,
            enum_field_conversions(&variant.fields, placeholder),
        );
        let match_pattern = gen_match_pattern(enum_name, variant);
        all_variants.push(MatchArm { match_pattern, match_content });
        idx += 1;
    }
    all_variants
}

/// The attribute configures the placeholder: its path is the one word
/// `debug_placeholder`.
pub open spec fn is_placeholder_attribute(attribute: AttributeView) -> bool {
    attribute.path == "debug_placeholder"@
}

/// The placeholder attributes among the first `n` attributes, in order.
pub open spec fn placeholder_attributes(attrs: Seq<AttributeView>, n: int) -> Seq<AttributeView>
    decreases n,
{
    if n <= 0 {
        Seq::empty()
    } else if is_placeholder_attribute(attrs[n - 1]) {
        placeholder_attributes(attrs, n - 1).push(attrs[n - 1])
    } else {
        placeholder_attributes(attrs, n - 1)
    }
}

/// The configured placeholder text, if any. A second placeholder attribute is a
/// failure reported at that second attribute, whatever the payloads are; a single
/// one whose payload is not of the form `= "text"` is a failure reported at it.
pub open spec fn configured_placeholder(attrs: Seq<AttributeView>) -> Result<
    Option<Seq<char>>,
    DeriveError,
> {
    let placeholders = placeholder_attributes(attrs, attrs.len() as int);
    if placeholders.len() > 1 {
        Err(DeriveError::DuplicatePlaceholder { position: placeholders[1].position })
    } else if placeholders.len() == 1 {
        match placeholders[0].payload {
            Some(text) => Ok(Some(text)),
            None => Err(DeriveError::MalformedPlaceholder { position: placeholders[0].position }),
        }
    } else {
        Ok(None)
    }
}

/// The body of the formatting function for `shape`, or why there is none. The
/// placeholder attribute is read first, so a failure in it goes before any other.
pub open spec fn placeholder_implementation(shape: TypeShapeView) -> Result<
    ImplementationView,
    DeriveError,
> {
    match configured_placeholder(shape.attrs) {
        Err(error) => Err(error),
        Ok(placeholder) => match shape.data {
            ShapeDataView::Struct(fields) => Ok(
                ImplementationView::Struct(
                    variant_debug(fields, shape.name, struct_conversions(fields, placeholder)),
                ),
            ),
            ShapeDataView::Enum(variants) => Ok(
                ImplementationView::Enum(enum_debug(variants, shape.name, placeholder)),
            ),
            ShapeDataView::Union => Err(DeriveError::UnsupportedUnion { position: shape.position }),
        },
    }
}

/// The placeholder attributes keep their order and grow with the attributes read.
proof fn lemma_placeholder_attributes_grow(attrs: Seq<AttributeView>, m: int, n: int)
    requires
        0 <= m <= n,
    ensures
        placeholder_attributes(attrs, m).len() <= placeholder_attributes(attrs, n).len(),
        forall|k: int|
            0 <= k < placeholder_attributes(attrs, m).len() ==> placeholder_attributes(attrs, n)[k]
                == placeholder_attributes(attrs, m)[k],
    decreases n - m,
{
    if m < n {
        lemma_placeholder_attributes_grow(attrs, m, n - 1);
    }
}

/// Tries to read the placeholder text, if there is one.
pub fn get_placeholder(input: &TypeShape) -> (result: Result<Option<String>, DeriveError>)
    ensures
        match result {
            Ok(placeholder) => configured_placeholder(input.deep_view().attrs) == Ok::<
                Option<Seq<char>>,
                DeriveError,
            >(placeholder.deep_view()),
            Err(error) => configured_placeholder(input.deep_view().attrs) == Err::<
                Option<Seq<char>>,
                DeriveError,
            >(error),
        },
{
    let attrs = &input.attrs;
    let ghost views = attrs.deep_view();
    let marker = "debug_placeholder".to_owned();
    let mut first: Option<usize> = None;
    let mut idx: usize = 0;
    while idx < attrs.len()
        invariant
            idx <= attrs.len(),
            views == attrs.deep_view(),
            views == input.deep_view().attrs,
            marker@ == "debug_placeholder"@,
            first is None ==> placeholder_attributes(views, idx as int).len() == 0,
            first matches Some(at) ==> at < idx && placeholder_attributes(views, idx as int)
                =~= seq![views[at as int]],
        decreases attrs.len() - idx,
    {
        let attribute = &attrs[idx];
        if attribute.path == marker {
            match first {
                Some(_) => {
                    proof {
                        // this attribute is the second of its kind, and stays so
                        assert(placeholder_attributes(views, idx + 1)
                            == placeholder_attributes(views, idx as int).push(views[idx as int]));
                        lemma_placeholder_attributes_grow(views, idx + 1, views.len() as int);
                    }
                    return Err(DeriveError::DuplicatePlaceholder { position: attribute.position });
                },
                None => {
                    first = Some(idx);
                },
            }
        }
        idx += 1;
    }
    match first {
        Some(at) => {
            let attribute = &attrs[at];
            match &attribute.payload {
                Some(text) => Ok(Some(text.clone())),
                None => Err(DeriveError::MalformedPlaceholder { position: attribute.position }),
            }
        },
        None => Ok(None),
    }
}

/// Generates the placeholder form of the formatting function for `input`.
pub fn derive_placeholder(input: &TypeShape) -> (result: Result<Implementation, DeriveError>)
    ensures
        match result {
            Ok(implementation) => placeholder_implementation(input.deep_view()) == Ok::<
                ImplementationView,
                DeriveError,
            >(implementation.deep_view()),
            Err(error) => placeholder_implementation(input.deep_view()) == Err::<
                ImplementationView,
                DeriveError,
            >(error),
        },
{
    let placeholder = match get_placeholder(input) {
        Ok(placeholder) => placeholder,
        Err(err) => {
            return Err(err);
        },
    };
    let name = &input.name;
    let implementation = match &input.data {
        ShapeData::Struct(fields) => Implementation::Struct(
            gen_variant_debug(fields, name, struct_field_conversions(fields, &placeholder)),
        ),
        ShapeData::Enum(variants) => Implementation::Enum(
            gen_enum_debug(variants, name, &placeholder),
        ),
        ShapeData::Union => {
            return Err(DeriveError::UnsupportedUnion { position: input.position });
        },
    };
    Ok(implementation)
}

} // verus!
