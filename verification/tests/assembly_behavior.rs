use builder::assembly::{AssembledField, BuilderState, FieldValue};
use builder::errors::BuilderError;
use builder::schema::{extract_schema, FieldDescriptor, RawTypeDef, TypeRef, Visibility};
use builder::synth::{synthesize, BuilderPlan};

fn point_plan() -> BuilderPlan {
    let raw = RawTypeDef::NamedFieldRecord {
        visibility: Visibility::Public,
        name: "Point".to_string(),
        fields: vec![
            FieldDescriptor {
                visibility: Visibility::Public,
                name: "x".to_string(),
                ty: TypeRef::Plain { name: "i32".to_string() },
            },
            FieldDescriptor {
                visibility: Visibility::Public,
                name: "y".to_string(),
                ty: TypeRef::Generic {
                    name: "Option".to_string(),
                    args: vec![TypeRef::Plain { name: "i32".to_string() }],
                },
            },
        ],
    };
    synthesize(&extract_schema(raw).unwrap())
}

#[test]
fn fresh_builder_with_required_fields_fails_on_the_first() {
    let plan = point_plan();
    let b: BuilderState<i32> = BuilderState::for_plan(&plan);
    assert_eq!(
        b.assemble(),
        Err(BuilderError::MissingRequiredField("x".to_string()))
    );
}

#[test]
fn assembly_with_only_optional_set_still_names_the_required_field() {
    let plan = point_plan();
    let mut b: BuilderState<i32> = BuilderState::for_plan(&plan);
    b.set_value(1, 42);
    assert_eq!(
        b.assemble(),
        Err(BuilderError::MissingRequiredField("x".to_string()))
    );
}

#[test]
fn assembly_succeeds_once_required_fields_are_set() {
    let plan = point_plan();
    let mut b: BuilderState<i32> = BuilderState::for_plan(&plan);
    b.set_value(0, 7);
    let out = b.assemble().unwrap();
    assert_eq!(
        out,
        vec![
            AssembledField { name: "x".to_string(), value: FieldValue::Plain(7) },
            AssembledField { name: "y".to_string(), value: FieldValue::Wrapped(None) },
        ]
    );
}

#[test]
fn assembly_wraps_optional_values_as_present() {
    let plan = point_plan();
    let mut b: BuilderState<i32> = BuilderState::for_plan(&plan);
    b.set_value(0, 1);
    b.set_value(1, 2);
    let out = b.assemble().unwrap();
    assert_eq!(out[0].value, FieldValue::Plain(1));
    assert_eq!(out[1].value, FieldValue::Wrapped(Some(2)));
}

#[test]
fn setters_chain_and_the_last_value_wins() {
    let plan = point_plan();
    let mut b: BuilderState<i32> = BuilderState::for_plan(&plan);
    b.set_value(0, 1).set_value(1, 2).set_value(0, 9);
    let out = b.assemble().unwrap();
    assert_eq!(out[0].value, FieldValue::Plain(9));
    assert_eq!(out[1].value, FieldValue::Wrapped(Some(2)));
}

#[test]
fn assembly_is_idempotent() {
    let plan = point_plan();
    let mut b: BuilderState<i32> = BuilderState::for_plan(&plan);
    b.set_value(0, 3);
    let first = b.assemble();
    let second = b.assemble();
    assert_eq!(first, second);
    assert!(first.is_ok());
}

#[test]
fn failed_assembly_reports_only_the_first_missing_field() {
    let raw = RawTypeDef::NamedFieldRecord {
        visibility: Visibility::Inherited,
        name: "Command".to_string(),
        fields: vec![
            FieldDescriptor {
                visibility: Visibility::Inherited,
                name: "executable".to_string(),
                ty: TypeRef::Plain { name: "String".to_string() },
            },
            FieldDescriptor {
                visibility: Visibility::Inherited,
                name: "args".to_string(),
                ty: TypeRef::Plain { name: "String".to_string() },
            },
        ],
    };
    let plan = synthesize(&extract_schema(raw).unwrap());
    let mut b: BuilderState<u64> = BuilderState::for_plan(&plan);
    assert_eq!(
        b.assemble(),
        Err(BuilderError::MissingRequiredField("executable".to_string()))
    );
    b.set_value(0, 10);
    assert_eq!(
        b.assemble(),
        Err(BuilderError::MissingRequiredField("args".to_string()))
    );
    b.set_value(1, 20);
    assert!(b.assemble().is_ok());
}

#[test]
fn empty_record_assembles_immediately() {
    let raw = RawTypeDef::NamedFieldRecord {
        visibility: Visibility::Public,
        name: "Empty".to_string(),
        fields: vec![],
    };
    let plan = synthesize(&extract_schema(raw).unwrap());
    assert_eq!(plan.builder_name, "EmptyBuilder");
    let b: BuilderState<i32> = BuilderState::for_plan(&plan);
    assert_eq!(b.assemble(), Ok(vec![]));
}

#[test]
fn builder_starts_with_every_slot_empty() {
    let plan = point_plan();
    let b: BuilderState<i32> = BuilderState::for_plan(&plan);
    assert_eq!(b.fields.len(), 2);
    assert_eq!(b.slots, vec![None, None]);
}
