use conductor::error::{ConductorError, ProducerErrorCode};
use conductor::schema::{Builder, ConductorSchema, DataTypes, Schema, SchemaHelpers, ToConductorDataType};
use conductor::producer::SchemaBuilder;

#[derive(Clone, Debug)]
#[allow(dead_code)]
struct TestDerive {
    id: u32,
    name: String,
    // The identity field carries no measurement, so the schema skips it.
    uuid: String,
}

impl ConductorSchema for TestDerive {
    fn generate_schema() -> Schema {
        Builder::new()
            .add_column(String::from("id"), u32::conductor_data_type())
            .add_column(String::from("name"), <String as ToConductorDataType>::conductor_data_type())
            .build()
    }
}

#[test]
fn producer_derive() {
    let schema = TestDerive::generate_schema();
    assert!(schema.contains_column("id"));
    assert_eq!(schema.get("id").unwrap(), DataTypes::Int);
    assert!(schema.contains_column("name"));
    assert_eq!(schema.get("name").unwrap(), DataTypes::String);

    //ignore skipped fields
    assert_eq!(schema.contains_column("_uuid"), false);
}

#[test]
fn schema_builder() {
    let schema = SchemaBuilder::new()
        .add_binary(String::from("hello"))
        .add_bool(String::from("hello world"))
        .build();
    let value = schema.get("hello").expect("expected value wasn't in the schema");
    assert!(matches!(value, DataTypes::Binary));
    assert!(schema.contains_column("hello"));
}

#[test]
fn schema_builder_basic() {
    let schema = Builder::new()
        .add_binary(String::from("hello"))
        .add_bool(String::from("hello world"))
        .build();
    let mut value = schema.get("hello").expect("expected value wasn't in the schema");
    assert!(matches!(value, DataTypes::Binary));
    value = schema.get("hello world").expect("expected value wasn't in the schema");
    assert!(matches!(value, DataTypes::Bool));
}

#[test]
fn builder_replaces_existing_column() {
    let schema = Builder::new()
        .add_int(String::from("a"))
        .add_string(String::from("b"))
        .add_double(String::from("a"))
        .build();
    assert_eq!(schema.len(), 2);
    assert!(matches!(schema.get("a").unwrap(), DataTypes::Double));
    assert!(matches!(schema.get("b").unwrap(), DataTypes::String));
}

#[test]
fn schema_helpers_contains_column() {
    let schema = Builder::new().add_time(String::from("when")).build();
    assert!(SchemaHelpers::contains_column(&schema, "when"));
    assert!(!SchemaHelpers::contains_column(&schema, "missing"));
}

#[test]
fn quest_type_labels() {
    assert_eq!(DataTypes::Int.to_quest_type_str(), "long");
    assert_eq!(DataTypes::Float.to_quest_type_str(), "float");
    assert_eq!(DataTypes::Time.to_quest_type_str(), "timestamp");
    assert_eq!(DataTypes::String.to_quest_type_str(), "string");
    assert_eq!(DataTypes::Binary.to_quest_type_str(), "binary");
    assert_eq!(DataTypes::Bool.to_quest_type_str(), "boolean");
    assert_eq!(DataTypes::Double.to_quest_type_str(), "double");
}

#[test]
fn error_codes_are_stable() {
    assert_eq!(ConductorError::NoError.code(), 0);
    assert_eq!(ConductorError::TimestampDefined(String::new()).code(), 1);
    assert_eq!(ConductorError::NoMembers(String::new()).code(), 2);
    assert_eq!(ConductorError::InvalidColumnNames(String::new()).code(), 3);
    assert_eq!(ConductorError::TooManyColumns(String::new()).code(), 4);
    assert_eq!(ConductorError::InternalError(String::new()).code(), 5);
    assert_eq!(ConductorError::InvalidUuid(String::new()).code(), 6);
    assert_eq!(ConductorError::NameInvalid(String::new()).code(), 7);
    assert_eq!(ConductorError::Unregistered(String::new()).code(), 8);
    assert_eq!(ConductorError::InvalidData(String::new()).code(), 9);
    assert_eq!(ConductorError::InvalidSchema(String::new()).code(), 10);
}

#[test]
fn producer_error_codes_are_stable() {
    assert_eq!(ProducerErrorCode::NoError.code(), 0);
    assert_eq!(ProducerErrorCode::TimestampDefined.code(), 1);
    assert_eq!(ProducerErrorCode::NoMembers.code(), 2);
    assert_eq!(ProducerErrorCode::InvalidColumnNames.code(), 3);
    assert_eq!(ProducerErrorCode::TooManyColumns.code(), 4);
    assert_eq!(ProducerErrorCode::InternalError.code(), 5);
    assert_eq!(ProducerErrorCode::InvalidUuid.code(), 6);
    assert_eq!(ProducerErrorCode::NameInvalid.code(), 7);
    assert_eq!(ProducerErrorCode::Unregistered.code(), 8);
    assert_eq!(ProducerErrorCode::InvalidData.code(), 9);
}

#[test]
fn errors_describe_themselves() {
    assert_eq!(ConductorError::NoError.describe(), "NoError");
    assert_eq!(
        ConductorError::NoMembers(String::from("empty")).describe(),
        "NoMembers: empty"
    );
    assert_eq!(
        ConductorError::Unregistered(String::from("who?")).describe(),
        "Unregistered: who?"
    );
}
