use partialdebug::error::DeriveError;
use partialdebug::no_specialization::{DebugDetector, NotDebug};
use partialdebug::placeholder::{
    binding_for, derive_placeholder, enum_field_conversions, gen_enum_debug, gen_field_as_debug,
    gen_match_pattern, gen_variant_debug, get_placeholder, struct_field_conversions, Constructor,
    Destructuring, FieldConversion, FieldHandle, Implementation, MatchArm, MatchPattern,
    VariantDebug,
};
use partialdebug::probe::DetectionResult;
use partialdebug::shape::{
    Attribute, FieldDescriptor, Fields, FieldsKind, ShapeData, SourcePosition, TypeShape,
    VariantDescriptor,
};
use partialdebug::Placeholder;

#[derive(Debug)]
pub struct UnitStruct;

#[derive(Debug)]
pub struct TupleStruct(pub &'static str);

#[derive(Debug)]
pub struct NormalStruct {
    pub field: &'static str,
}

#[derive(Debug)]
pub enum Mixed {
    Unit,
    Tuple(Box<u8>),
    Struct { a: u8 },
}

#[allow(dead_code)]
struct DNA;

#[allow(dead_code)]
struct Dog {
    legs: usize,
    eyes: usize,
    dna: DNA,
}

fn at(line: usize, column: usize) -> SourcePosition {
    SourcePosition { line, column }
}

fn named(name: &str, ty: &str) -> FieldDescriptor {
    FieldDescriptor { name: Some(name.to_string()), ty: ty.to_string(), position: at(0, 0) }
}

fn unnamed(ty: &str) -> FieldDescriptor {
    FieldDescriptor { name: None, ty: ty.to_string(), position: at(0, 0) }
}

fn fields(kind: FieldsKind, members: Vec<FieldDescriptor>) -> Fields {
    Fields { kind, members }
}

fn structure(name: &str, kind: FieldsKind, members: Vec<FieldDescriptor>) -> TypeShape {
    TypeShape {
        name: name.to_string(),
        attrs: vec![],
        data: ShapeData::Struct(fields(kind, members)),
        position: at(1, 1),
    }
}

fn variant(name: &str, kind: FieldsKind, members: Vec<FieldDescriptor>) -> VariantDescriptor {
    VariantDescriptor { name: name.to_string(), fields: fields(kind, members) }
}

fn mixed_shape() -> TypeShape {
    TypeShape {
        name: "Mixed".to_string(),
        attrs: vec![],
        data: ShapeData::Enum(vec![
            variant("Unit", FieldsKind::Unit, vec![]),
            variant("Tuple", FieldsKind::Unnamed, vec![unnamed("Box < u8 >")]),
            variant("Struct", FieldsKind::Named, vec![named("a", "u8")]),
        ]),
        position: at(1, 1),
    }
}

fn dog_shape(attrs: Vec<Attribute>) -> TypeShape {
    TypeShape {
        name: "Dog".to_string(),
        attrs,
        data: ShapeData::Struct(fields(
            FieldsKind::Named,
            vec![named("legs", "usize"), named("eyes", "usize"), named("dna", "DNA")],
        )),
        position: at(1, 1),
    }
}

fn placeholder_attribute(payload: Option<&str>, line: usize) -> Attribute {
    Attribute {
        path: "debug_placeholder".to_string(),
        payload: payload.map(|text| text.to_string()),
        position: at(line, 1),
    }
}

fn other_attribute(path: &str, line: usize) -> Attribute {
    Attribute { path: path.to_string(), payload: None, position: at(line, 1) }
}

fn shown(text: &str) -> DetectionResult {
    DetectionResult::Formattable(text.to_string())
}

fn dog_probes(dog: &Dog) -> Vec<DetectionResult> {
    vec![
        DetectionResult::from_handle(DebugDetector::<usize>::as_debug(&dog.legs)),
        DetectionResult::from_handle(DebugDetector::<usize>::as_debug(&dog.eyes)),
        DetectionResult::from_handle(DebugDetector::<DNA>::as_debug(&dog.dna)),
    ]
}

#[test]
fn test_unit() {
    let partial = derive_placeholder(&structure("UnitStruct", FieldsKind::Unit, vec![])).unwrap();
    assert_eq!(format!("{:?}", UnitStruct), partial.fmt(0, &vec![]));
    assert_eq!(partial.fmt(0, &vec![]), "UnitStruct");
}

#[test]
fn placeholder_test_tuple() {
    let value = TupleStruct("asdf");
    let partial = derive_placeholder(&structure(
        "TupleStruct",
        FieldsKind::Unnamed,
        vec![unnamed("& 'static str")],
    ))
    .unwrap();
    let probes =
        vec![DetectionResult::from_handle(DebugDetector::<&'static str>::as_debug(&value.0))];
    assert_eq!(format!("{:?}", value), partial.fmt(0, &probes));
    assert_eq!(partial.fmt(0, &probes), "TupleStruct(\"asdf\")");
}

#[test]
fn test_normal() {
    let value = NormalStruct { field: "asdf" };
    let partial = derive_placeholder(&structure(
        "NormalStruct",
        FieldsKind::Named,
        vec![named("field", "& 'static str")],
    ))
    .unwrap();
    let probes =
        vec![DetectionResult::from_handle(DebugDetector::<&'static str>::as_debug(&value.field))];
    assert_eq!(format!("{:?}", value), partial.fmt(0, &probes));
    assert_eq!(partial.fmt(0, &probes), "NormalStruct { field: \"asdf\" }");
}

#[test]
fn test_enum() {
    let partial = derive_placeholder(&mixed_shape()).unwrap();
    assert_eq!(format!("{:?}", Mixed::Unit), partial.fmt(0, &vec![]));
    let boxed = Box::new(42u8);
    assert_eq!(
        format!("{:?}", Mixed::Tuple(Box::new(42))),
        partial.fmt(
            1,
            &vec![DetectionResult::from_handle(DebugDetector::<Box<u8>>::as_debug(&boxed))]
        )
    );
    let a = 42u8;
    assert_eq!(
        format!("{:?}", Mixed::Struct { a: 42 }),
        partial.fmt(2, &vec![DetectionResult::from_handle(DebugDetector::<u8>::as_debug(&a))])
    );
}

#[test]
fn enum_output_is_exact() {
    let partial = derive_placeholder(&mixed_shape()).unwrap();
    assert_eq!(partial.fmt(0, &vec![]), "Unit");
    assert_eq!(partial.fmt(1, &vec![shown("42")]), "Tuple(42)");
    assert_eq!(partial.fmt(2, &vec![shown("42")]), "Struct { a: 42 }");
    assert_eq!(partial.fmt(1, &vec![DetectionResult::Unformattable]), "Tuple(Box<u8>)");
    assert_eq!(partial.fmt(2, &vec![DetectionResult::Unformattable]), "Struct { a: u8 }");
}

#[test]
fn dog_with_type_label() {
    let dog = Dog { legs: 4, eyes: 2, dna: DNA };
    let partial = derive_placeholder(&dog_shape(vec![])).unwrap();
    assert_eq!(partial.fmt(0, &dog_probes(&dog)), "Dog { legs: 4, eyes: 2, dna: DNA }");
}

#[test]
fn dog_with_custom_text() {
    let dog = Dog { legs: 4, eyes: 2, dna: DNA };
    let shape = dog_shape(vec![placeholder_attribute(Some("Unknown"), 2)]);
    let partial = derive_placeholder(&shape).unwrap();
    assert_eq!(partial.fmt(0, &dog_probes(&dog)), "Dog { legs: 4, eyes: 2, dna: Unknown }");
}

#[test]
fn every_field_is_shown_in_order() {
    let partial = derive_placeholder(&dog_shape(vec![])).unwrap();
    let out = partial.fmt(
        0,
        &vec![DetectionResult::Unformattable, shown("2"), DetectionResult::Unformattable],
    );
    assert_eq!(out, "Dog { legs: usize, eyes: 2, dna: DNA }");
    let tuple = derive_placeholder(&structure(
        "Pair",
        FieldsKind::Unnamed,
        vec![unnamed("Vec < u8 >"), unnamed("DNA")],
    ))
    .unwrap();
    assert_eq!(
        tuple.fmt(0, &vec![DetectionResult::Unformattable, DetectionResult::Unformattable]),
        "Pair(Vec<u8>, DNA)"
    );
    assert_eq!(tuple.fmt(0, &vec![shown("[1]"), DetectionResult::Unformattable]), "Pair([1], DNA)");
}

#[test]
fn struct_implementation_is_exact() {
    let partial = derive_placeholder(&structure(
        "Pair",
        FieldsKind::Unnamed,
        vec![unnamed("Option < u8 >"), unnamed("DNA")],
    ))
    .unwrap();
    assert_eq!(
        partial,
        Implementation::Struct(VariantDebug {
            constructor: Constructor::DebugTuple,
            variant_name: "Pair".to_string(),
            field_conversions: vec![
                FieldConversion {
                    name_arg: None,
                    field_handle: FieldHandle::SelfIndex(0),
                    placeholder_string: "Option<u8>".to_string(),
                },
                FieldConversion {
                    name_arg: None,
                    field_handle: FieldHandle::SelfIndex(1),
                    placeholder_string: "DNA".to_string(),
                },
            ],
        })
    );
    let named_struct = derive_placeholder(&dog_shape(vec![placeholder_attribute(Some("?"), 1)]));
    match named_struct.unwrap() {
        Implementation::Struct(content) => {
            assert_eq!(content.constructor, Constructor::DebugStruct);
            assert_eq!(content.field_conversions.len(), 3);
            assert_eq!(
                content.field_conversions[2],
                FieldConversion {
                    name_arg: Some("dna".to_string()),
                    field_handle: FieldHandle::SelfName("dna".to_string()),
                    placeholder_string: "?".to_string(),
                }
            );
        }
        Implementation::Enum(_) => panic!("a struct gives a struct implementation"),
    }
}

#[test]
fn enum_implementation_is_exact() {
    let partial = derive_placeholder(&mixed_shape()).unwrap();
    let arms = match partial {
        Implementation::Enum(arms) => arms,
        Implementation::Struct(_) => panic!("an enum gives a match"),
    };
    assert_eq!(arms.len(), 3);
    assert_eq!(
        arms[0],
        MatchArm {
            match_pattern: MatchPattern {
                enum_name: "Mixed".to_string(),
                variant_name: "Unit".to_string(),
                destructuring: Destructuring::Unit,
            },
            match_content: VariantDebug {
                constructor: Constructor::DebugTuple,
                variant_name: "Unit".to_string(),
                field_conversions: vec![],
            },
        }
    );
    assert_eq!(
        arms[1],
        MatchArm {
            match_pattern: MatchPattern {
                enum_name: "Mixed".to_string(),
                variant_name: "Tuple".to_string(),
                destructuring: Destructuring::Unnamed(vec!["__0".to_string()]),
            },
            match_content: VariantDebug {
                constructor: Constructor::DebugTuple,
                variant_name: "Tuple".to_string(),
                field_conversions: vec![FieldConversion {
                    name_arg: None,
                    field_handle: FieldHandle::Binding("__0".to_string()),
                    placeholder_string: "Box<u8>".to_string(),
                }],
            },
        }
    );
    assert_eq!(
        arms[2],
        MatchArm {
            match_pattern: MatchPattern {
                enum_name: "Mixed".to_string(),
                variant_name: "Struct".to_string(),
                destructuring: Destructuring::Named(vec!["a".to_string()]),
            },
            match_content: VariantDebug {
                constructor: Constructor::DebugStruct,
                variant_name: "Struct".to_string(),
                field_conversions: vec![FieldConversion {
                    name_arg: Some("a".to_string()),
                    field_handle: FieldHandle::Binding("a".to_string()),
                    placeholder_string: "u8".to_string(),
                }],
            },
        }
    );
}

#[test]
fn generator_steps_agree_with_the_whole() {
    let shape = mixed_shape();
    let variants = match &shape.data {
        ShapeData::Enum(variants) => variants,
        _ => panic!("an enum"),
    };
    let arms = gen_enum_debug(variants, &shape.name, &None);
    assert_eq!(derive_placeholder(&shape), Ok(Implementation::Enum(arms.clone())));
    for (variant, arm) in variants.iter().zip(arms.iter()) {
        assert_eq!(arm.match_pattern, gen_match_pattern(&shape.name, variant));
        assert_eq!(
            arm.match_content,
            gen_variant_debug(
                &variant.fields,
                &variant.name,
                enum_field_conversions(&variant.fields, &None)
            )
        );
    }
    let members = fields(FieldsKind::Named, vec![named("a", "u8")]);
    let conversions = struct_field_conversions(&members, &Some("x".to_string()));
    assert_eq!(
        conversions,
        vec![gen_field_as_debug(
            &members.members[0],
            &Some("x".to_string()),
            FieldHandle::SelfName("a".to_string()),
            Some("a".to_string())
        )]
    );
    assert_eq!(conversions[0].placeholder_string, "x");
}

#[test]
fn bindings_are_numbered_in_decimal() {
    assert_eq!(binding_for(0), "__0");
    assert_eq!(binding_for(7), "__7");
    assert_eq!(binding_for(10), "__10");
    assert_eq!(binding_for(1234567890), "__1234567890");
    let wide = variant("Wide", FieldsKind::Unnamed, (0..12).map(|_| unnamed("u8")).collect());
    let pattern = gen_match_pattern(&"E".to_string(), &wide);
    match pattern.destructuring {
        Destructuring::Unnamed(names) => {
            assert_eq!(names.len(), 12);
            assert_eq!(names[9], "__9");
            assert_eq!(names[11], "__11");
        }
        _ => panic!("positional fields are bound to numbered variables"),
    }
}

#[test]
fn no_attribute_means_no_placeholder_text() {
    assert_eq!(get_placeholder(&dog_shape(vec![])), Ok(None));
    assert_eq!(
        get_placeholder(&dog_shape(vec![other_attribute("doc", 1), other_attribute("repr", 2)])),
        Ok(None)
    );
}

#[test]
fn one_attribute_gives_its_text() {
    let shape = dog_shape(vec![
        other_attribute("doc", 1),
        placeholder_attribute(Some("Unknown"), 2),
        other_attribute("allow", 3),
    ]);
    assert_eq!(get_placeholder(&shape), Ok(Some("Unknown".to_string())));
}

#[test]
fn second_attribute_is_an_error_at_the_second() {
    let shape = dog_shape(vec![
        placeholder_attribute(Some("A"), 1),
        other_attribute("doc", 2),
        placeholder_attribute(Some("B"), 3),
        placeholder_attribute(Some("C"), 4),
    ]);
    let error = get_placeholder(&shape).unwrap_err();
    assert_eq!(error, DeriveError::DuplicatePlaceholder { position: at(3, 1) });
    assert_eq!(error.message(), "More than one debug_placeholder attribute");
    assert_eq!(derive_placeholder(&shape), Err(error));
}

#[test]
fn second_attribute_goes_before_a_malformed_first() {
    let shape =
        dog_shape(vec![placeholder_attribute(None, 1), placeholder_attribute(Some("B"), 2)]);
    assert_eq!(
        get_placeholder(&shape),
        Err(DeriveError::DuplicatePlaceholder { position: at(2, 1) })
    );
}

#[test]
fn malformed_payload_is_an_error_at_the_attribute() {
    let shape = dog_shape(vec![other_attribute("doc", 1), placeholder_attribute(None, 5)]);
    let error = derive_placeholder(&shape).unwrap_err();
    assert_eq!(error, DeriveError::MalformedPlaceholder { position: at(5, 1) });
    assert_eq!(error.position(), at(5, 1));
    assert_eq!(error.message(), "Expected debug_placeholder = \"...\"");
}

#[test]
fn union_is_unsupported_under_placeholder() {
    let shape = TypeShape {
        name: "Bits".to_string(),
        attrs: vec![],
        data: ShapeData::Union,
        position: at(4, 2),
    };
    assert_eq!(
        derive_placeholder(&shape),
        Err(DeriveError::UnsupportedUnion { position: at(4, 2) })
    );
    let with_duplicates = TypeShape {
        name: "Bits".to_string(),
        attrs: vec![placeholder_attribute(Some("A"), 1), placeholder_attribute(Some("B"), 2)],
        data: ShapeData::Union,
        position: at(4, 2),
    };
    assert_eq!(
        derive_placeholder(&with_duplicates),
        Err(DeriveError::DuplicatePlaceholder { position: at(2, 1) })
    );
}

#[test]
fn implementation_accepts_fitting_values_only() {
    let partial = derive_placeholder(&mixed_shape()).unwrap();
    assert!(partial.accepts(0, 0));
    assert!(partial.accepts(1, 1));
    assert!(partial.accepts(2, 1));
    assert!(!partial.accepts(0, 1));
    assert!(!partial.accepts(3, 0));
    let dog = derive_placeholder(&dog_shape(vec![])).unwrap();
    assert!(dog.accepts(0, 3));
    assert!(!dog.accepts(1, 3));
    assert!(!dog.accepts(0, 2));
}

#[test]
fn placeholder_is_written_as_its_label() {
    assert_eq!(Placeholder("Foo").fmt(), "Foo");
    assert_eq!(Placeholder("Option<u8>").fmt(), "Option<u8>");
}

fn probe_generic<T>(it: &T) -> DetectionResult {
    DetectionResult::from_handle(DebugDetector::<T>::as_debug(it))
}

#[test]
fn generic_field_shows_its_type_parameter() {
    let container = derive_placeholder(&structure("Container", FieldsKind::Unnamed, vec![unnamed("T")]))
        .unwrap();
    assert_eq!(container.fmt(0, &vec![probe_generic(&42)]), "Container(T)");
    assert_eq!(
        container.fmt(0, &vec![DetectionResult::from_handle(DebugDetector::<i32>::as_debug(&42))]),
        "Container(42)"
    );
}
