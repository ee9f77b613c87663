use builder::classify::{classify, generic_unary_parts, optional_inner, Optionality};
use builder::errors::BuilderError;
use builder::schema::{extract_schema, FieldDescriptor, RawTypeDef, TypeRef, Visibility};
use builder::synth::synthesize;

fn plain(name: &str) -> TypeRef {
    TypeRef::Plain { name: name.to_string() }
}

fn generic(name: &str, args: Vec<TypeRef>) -> TypeRef {
    TypeRef::Generic { name: name.to_string(), args }
}

fn field(vis: Visibility, name: &str, ty: TypeRef) -> FieldDescriptor {
    FieldDescriptor { visibility: vis, name: name.to_string(), ty }
}

#[test]
fn extraction_preserves_field_count_and_order() {
    let raw = RawTypeDef::NamedFieldRecord {
        visibility: Visibility::Public,
        name: "Command".to_string(),
        fields: vec![
            field(Visibility::Public, "executable", plain("String")),
            field(Visibility::Inherited, "args", generic("Vec", vec![plain("String")])),
            field(Visibility::Public, "current_dir", generic("Option", vec![plain("String")])),
        ],
    };
    let schema = extract_schema(raw).unwrap();
    assert_eq!(schema.name, "Command");
    assert_eq!(schema.visibility, Visibility::Public);
    assert_eq!(schema.fields.len(), 3);
    assert_eq!(schema.fields[0].name, "executable");
    assert_eq!(schema.fields[1].name, "args");
    assert_eq!(schema.fields[2].name, "current_dir");
    assert_eq!(schema.fields[1].ty, generic("Vec", vec![plain("String")]));
}

#[test]
fn extraction_rejects_tuple_records() {
    let raw = RawTypeDef::TupleRecord {
        visibility: Visibility::Public,
        name: "Pair".to_string(),
        element_types: vec![plain("i32"), plain("i32")],
    };
    assert_eq!(extract_schema(raw), Err(BuilderError::UnsupportedShape));
}

#[test]
fn extraction_rejects_unit_records() {
    let raw = RawTypeDef::UnitRecord {
        visibility: Visibility::Inherited,
        name: "Marker".to_string(),
    };
    assert_eq!(extract_schema(raw), Err(BuilderError::UnsupportedShape));
}

#[test]
fn extraction_rejects_non_records() {
    let raw = RawTypeDef::NonRecord { name: "Choice".to_string() };
    assert_eq!(extract_schema(raw), Err(BuilderError::UnsupportedShape));
}

#[test]
fn classification_recognizes_the_wrapper() {
    let ty = generic("Option", vec![plain("i32")]);
    match classify(&ty) {
        Optionality::Optional(inner) => assert_eq!(inner, plain("i32")),
        Optionality::Required(_) => panic!("Option<i32> must classify as optional"),
    }
    assert_eq!(optional_inner(&ty), Some(&plain("i32")));
}

#[test]
fn classification_rejects_other_shapes() {
    let cases = vec![
        plain("i32"),
        plain("Option"),
        generic("Option", vec![]),
        generic("Option", vec![plain("i32"), plain("u8")]),
        generic("Vec", vec![plain("i32")]),
        generic("Maybe", vec![plain("i32")]),
    ];
    for ty in cases {
        match classify(&ty) {
            Optionality::Required(original) => assert_eq!(original, ty),
            Optionality::Optional(_) => panic!("{:?} must classify as required", ty),
        }
        assert_eq!(optional_inner(&ty), None);
    }
}

#[test]
fn generic_parts_demand_arity_one() {
    let unary = generic("Vec", vec![plain("u8")]);
    let parts = generic_unary_parts(&unary).unwrap();
    assert_eq!(parts.0, "Vec");
    assert_eq!(parts.1, &plain("u8"));
    assert_eq!(generic_unary_parts(&plain("u8")), None);
    assert_eq!(generic_unary_parts(&generic("Map", vec![plain("u8"), plain("u8")])), None);
}

#[test]
fn synthesis_point_scenario() {
    let raw = RawTypeDef::NamedFieldRecord {
        visibility: Visibility::Public,
        name: "Point".to_string(),
        fields: vec![
            field(Visibility::Public, "x", plain("i32")),
            field(Visibility::Public, "y", generic("Option", vec![plain("i32")])),
        ],
    };
    let schema = extract_schema(raw).unwrap();
    let plan = synthesize(&schema);

    assert_eq!(plan.builder_name, "PointBuilder");
    assert_eq!(plan.builder_visibility, Visibility::Public);

    assert_eq!(plan.storage_fields.len(), 2);
    assert_eq!(plan.storage_fields[0].name, "x");
    assert_eq!(plan.storage_fields[0].visibility, Visibility::Public);
    assert_eq!(plan.storage_fields[0].ty, generic("Option", vec![plain("i32")]));
    assert_eq!(plan.storage_fields[1].name, "y");
    assert_eq!(plan.storage_fields[1].ty, generic("Option", vec![plain("i32")]));

    assert_eq!(plan.setters.len(), 2);
    assert_eq!(plan.setters[0].name, "x");
    assert_eq!(plan.setters[0].param_ty, plain("i32"));
    assert_eq!(plan.setters[1].name, "y");
    assert_eq!(plan.setters[1].param_ty, plain("i32"));

    assert_eq!(plan.assembly_field_plans.len(), 2);
    assert_eq!(plan.assembly_field_plans[0].name, "x");
    assert!(!plan.assembly_field_plans[0].is_optional);
    assert_eq!(plan.assembly_field_plans[1].name, "y");
    assert!(plan.assembly_field_plans[1].is_optional);
}

#[test]
fn synthesis_keeps_required_nested_generics_whole() {
    let nested = generic("Vec", vec![generic("Option", vec![plain("u8")])]);
    let raw = RawTypeDef::NamedFieldRecord {
        visibility: Visibility::Inherited,
        name: "Batch".to_string(),
        fields: vec![field(Visibility::Inherited, "items", nested.clone())],
    };
    let schema = extract_schema(raw).unwrap();
    let plan = synthesize(&schema);
    assert_eq!(plan.builder_name, "BatchBuilder");
    assert_eq!(plan.builder_visibility, Visibility::Inherited);
    assert_eq!(plan.storage_fields[0].ty, generic("Option", vec![nested.clone()]));
    assert_eq!(plan.setters[0].param_ty, nested);
    assert!(!plan.assembly_field_plans[0].is_optional);
}

#[test]
fn error_messages_name_the_field() {
    assert_eq!(
        BuilderError::UnsupportedShape.message(),
        "unsupported shape: expected a record with named fields"
    );
    assert_eq!(
        BuilderError::MissingRequiredField("x".to_string()).message(),
        "missing required field: x"
    );
}
