use conductor::catalog::{Producer, ProducerCatalog};
use conductor::error::ConductorError;
use conductor::producer::{
    check_registered, emit, generate_table_sql, get_insert_sql, get_or_create_uuid_for_registration,
    prepare_emit, register, validate_emit_schema, validate_registration, Emit, Registration,
};
use conductor::schema::Builder;
use conductor::value::{DynValue, SqlParam};

fn int_schema(col: &str) -> conductor::schema::Schema {
    Builder::new().add_int(String::from(col)).build()
}

#[test]
fn empty_name_is_rejected_first() {
    // The name check runs before any column check: the schema here also has
    // an illegal column name, yet the empty name decides.
    let schema = Builder::new().add_int(String::from("bad.name")).build();
    let reg = Registration::new(String::new(), schema, None);
    let e = validate_registration(&reg);
    assert!(matches!(e, ConductorError::NameInvalid(_)));
    let mut catalog = ProducerCatalog::new();
    let r = register(&mut catalog, &reg);
    assert!(matches!(r.error, ConductorError::NameInvalid(_)));
    assert!(r.uuid.is_none());
}

#[test]
fn bad_custom_id_is_rejected() {
    let reg = Registration::new(
        String::from("n"),
        int_schema("x"),
        Some(String::from("dotted.id")),
    );
    assert!(matches!(validate_registration(&reg), ConductorError::InvalidUuid(_)));
    let reg2 = Registration::new(String::from("n"), int_schema("x"), Some(String::new()));
    assert!(matches!(validate_registration(&reg2), ConductorError::InvalidUuid(_)));
    let reg3 = Registration::new(
        String::from("n"),
        int_schema("x"),
        Some(String::from("quo\"ted")),
    );
    assert!(matches!(validate_registration(&reg3), ConductorError::InvalidUuid(_)));
}

#[test]
fn reserved_ts_column_is_rejected() {
    // The reserved name decides regardless of the other schema contents.
    let schema = Builder::new()
        .add_int(String::from("x"))
        .add_time(String::from("ts"))
        .build();
    let reg = Registration::new(String::from("n"), schema, None);
    let e = validate_registration(&reg);
    assert!(matches!(e, ConductorError::TimestampDefined(_)));
    let mut catalog = ProducerCatalog::new();
    let r = register(&mut catalog, &reg);
    assert!(matches!(r.error, ConductorError::TimestampDefined(_)));
    assert!(r.uuid.is_none());
}

#[test]
fn empty_schema_is_rejected() {
    let reg = Registration::new_empty(String::from("n"), None);
    assert!(matches!(validate_registration(&reg), ConductorError::NoMembers(_)));
    let mut catalog = ProducerCatalog::new();
    let r = register(&mut catalog, &reg);
    assert!(matches!(r.error, ConductorError::NoMembers(_)));
    assert!(r.uuid.is_none());
}

#[test]
fn illegal_column_names_are_rejected() {
    let reg = Registration::new(String::from("n"), int_schema("a.b"), None);
    assert!(matches!(validate_registration(&reg), ConductorError::InvalidColumnNames(_)));
    let reg2 = Registration::new(String::from("n"), int_schema("a\"b"), None);
    assert!(matches!(validate_registration(&reg2), ConductorError::InvalidColumnNames(_)));
    let mut catalog = ProducerCatalog::new();
    let r = register(&mut catalog, &reg);
    assert!(matches!(r.error, ConductorError::InvalidColumnNames(_)));
    assert!(r.uuid.is_none());
}

#[test]
fn valid_registration_passes_validation() {
    let reg = Registration::new(String::from("n"), int_schema("x"), None);
    assert!(matches!(validate_registration(&reg), ConductorError::NoError));
}

#[test]
fn generated_identity_has_uuid_shape() {
    let reg = Registration::new(String::from("n"), int_schema("x"), None);
    let id = get_or_create_uuid_for_registration(&reg);
    assert_eq!(id.chars().count(), 36);
    assert!(id.chars().all(|c| c.is_ascii_hexdigit() && !c.is_ascii_uppercase() || c == '-'));
    assert_eq!(id.chars().filter(|c| *c == '-').count(), 4);
}

#[test]
fn custom_identity_is_kept_verbatim() {
    let reg = Registration::new(
        String::from("n"),
        int_schema("x"),
        Some(String::from("device-7")),
    );
    let id = get_or_create_uuid_for_registration(&reg);
    assert_eq!(id, "device-7");
}

#[test]
fn register_then_emit_round_trip() {
    // Registering succeeds with a non-empty id; emitting an integer under
    // the declared column succeeds, and the coerced parameter is the
    // 64-bit integer itself.
    let mut catalog = ProducerCatalog::new();
    let reg = Registration::new(String::from("n"), int_schema("x"), None);
    let r = register(&mut catalog, &reg);
    assert!(matches!(r.error, ConductorError::NoError));
    let id = r.uuid.expect("a successful registration returns an id");
    assert!(!id.is_empty());

    let record = Emit::new(
        id.clone(),
        None,
        vec![(String::from("x"), DynValue::Int(5))],
    );
    let er = emit(&catalog, &record);
    assert!(matches!(er.error, ConductorError::NoError));

    let row = catalog.lookup(id.as_str()).expect("the producer is registered");
    let (sql, params) = prepare_emit(row, &record).expect("the record matches the schema");
    assert_eq!(sql, format!("INSERT INTO \"{}\" (\"x\") VALUES ($1);", id));
    assert_eq!(params.len(), 1);
    assert_eq!(params[0], SqlParam::Long(5));
}

#[test]
fn emit_to_unregistered_id_fails() {
    let mut catalog = ProducerCatalog::new();
    let reg = Registration::new(String::from("n"), int_schema("x"), None);
    let r = register(&mut catalog, &reg);
    let registered = r.uuid.unwrap();
    // A fresh identity that was never registered is turned away.
    let mut other = registered.clone();
    other.push('0');
    let record = Emit::new(other, None, vec![(String::from("x"), DynValue::Int(1))]);
    assert!(matches!(emit(&catalog, &record).error, ConductorError::Unregistered(_)));
}

#[test]
fn emit_with_empty_id_fails() {
    let catalog = ProducerCatalog::new();
    let record = Emit::new(String::new(), None, vec![(String::from("x"), DynValue::Int(1))]);
    assert!(matches!(emit(&catalog, &record).error, ConductorError::InvalidUuid(_)));
}

#[test]
fn emit_field_set_must_equal_schema() {
    let mut catalog = ProducerCatalog::new();
    let schema = Builder::new()
        .add_int(String::from("x"))
        .add_bool(String::from("y"))
        .build();
    let reg = Registration::new(String::from("n"), schema, None);
    let id = register(&mut catalog, &reg).uuid.unwrap();

    // An extra unknown column is rejected.
    let extra = Emit::new(
        id.clone(),
        None,
        vec![
            (String::from("x"), DynValue::Int(1)),
            (String::from("y"), DynValue::Bool(true)),
            (String::from("z"), DynValue::Int(2)),
        ],
    );
    assert!(matches!(emit(&catalog, &extra).error, ConductorError::InvalidSchema(_)));

    // A missing required column is rejected the same way.
    let missing = Emit::new(id.clone(), None, vec![(String::from("x"), DynValue::Int(1))]);
    assert!(matches!(emit(&catalog, &missing).error, ConductorError::InvalidSchema(_)));

    // A repeated key is rejected too.
    let repeated = Emit::new(
        id.clone(),
        None,
        vec![
            (String::from("x"), DynValue::Int(1)),
            (String::from("x"), DynValue::Int(2)),
        ],
    );
    assert!(matches!(emit(&catalog, &repeated).error, ConductorError::InvalidSchema(_)));

    // The exact field set passes.
    let exact = Emit::new(
        id,
        None,
        vec![
            (String::from("y"), DynValue::Bool(false)),
            (String::from("x"), DynValue::Int(1)),
        ],
    );
    assert!(matches!(emit(&catalog, &exact).error, ConductorError::NoError));
}

#[test]
fn emit_uncoercible_value_fails() {
    let mut catalog = ProducerCatalog::new();
    let reg = Registration::new(String::from("n"), int_schema("x"), None);
    let id = register(&mut catalog, &reg).uuid.unwrap();
    let record = Emit::new(
        id,
        None,
        vec![(String::from("x"), DynValue::Str(String::from("5")))],
    );
    assert!(matches!(emit(&catalog, &record).error, ConductorError::InvalidData(_)));
}

#[test]
fn same_custom_id_cannot_register_twice() {
    // With identity uniqueness enforced by the catalog, two registrations
    // under one custom id never both succeed.
    let mut catalog = ProducerCatalog::new();
    let reg1 = Registration::new(
        String::from("first"),
        int_schema("x"),
        Some(String::from("shared-id")),
    );
    let reg2 = Registration::new(
        String::from("second"),
        int_schema("y"),
        Some(String::from("shared-id")),
    );
    let r1 = register(&mut catalog, &reg1);
    let r2 = register(&mut catalog, &reg2);
    assert!(matches!(r1.error, ConductorError::NoError));
    assert!(matches!(r2.error, ConductorError::InvalidUuid(_)));
    assert!(r2.uuid.is_none());
    assert_eq!(catalog.len(), 1);
}

#[test]
fn check_registered_reports_catalog_state() {
    let mut catalog = ProducerCatalog::new();
    let reg = Registration::new(
        String::from("n"),
        int_schema("x"),
        Some(String::from("known")),
    );
    assert!(!check_registered(&catalog, "known"));
    register(&mut catalog, &reg);
    assert!(check_registered(&catalog, "known"));
    assert!(!check_registered(&catalog, "unknown"));
    assert!(!check_registered(&catalog, ""));
}

#[test]
fn lookup_classifies_failures() {
    let mut catalog = ProducerCatalog::new();
    assert!(matches!(catalog.lookup(""), Err(ConductorError::InvalidUuid(_))));
    assert!(matches!(catalog.lookup("absent"), Err(ConductorError::Unregistered(_))));
    // A malformed row (an empty name) is a catalog invariant violation.
    let bad = Producer {
        name: String::new(),
        uuid: String::from("odd-row"),
        schema: int_schema("x"),
    };
    catalog.insert(bad).expect("the identity is free");
    assert!(matches!(catalog.lookup("odd-row"), Err(ConductorError::InternalError(_))));
}

#[test]
fn generated_ddl_text() {
    let reg = Registration::new(String::from("n"), int_schema("x"), None);
    let sql = generate_table_sql(&reg, "t1");
    assert_eq!(
        sql,
        "CREATE TABLE IF NOT EXISTS \"t1\" (ts TIMESTAMP, \"x\" long) timestamp(ts);"
    );
    let schema2 = Builder::new()
        .add_double(String::from("price"))
        .add_string(String::from("symb"))
        .build();
    let reg2 = Registration::new(String::from("n"), schema2, None);
    let sql2 = generate_table_sql(&reg2, "t2");
    assert_eq!(
        sql2,
        "CREATE TABLE IF NOT EXISTS \"t2\" (ts TIMESTAMP, \"price\" double, \"symb\" string) timestamp(ts);"
    );
}

#[test]
fn generated_dml_text() {
    let record = Emit::new(String::from("u1"), None, Vec::new());
    let columns = vec![String::from("a"), String::from("b"), String::from("c")];
    let sql = get_insert_sql(&record, &columns).expect("columns are present");
    assert_eq!(sql, "INSERT INTO \"u1\" (\"a\", \"b\", \"c\") VALUES ($1,$2,$3);");
    let none: Vec<String> = Vec::new();
    assert!(get_insert_sql(&record, &none).is_err());
}

#[test]
fn dml_positional_parameters_go_past_nine() {
    let record = Emit::new(String::from("u"), None, Vec::new());
    let columns: Vec<String> = (0..12).map(|i| format!("c{}", i)).collect();
    let sql = get_insert_sql(&record, &columns).unwrap();
    assert!(sql.ends_with("VALUES ($1,$2,$3,$4,$5,$6,$7,$8,$9,$10,$11,$12);"));
}

#[test]
fn validate_emit_schema_polarity() {
    let row = Producer {
        name: String::from("n"),
        uuid: String::from("u"),
        schema: int_schema("x"),
    };
    let good = Emit::new(String::from("u"), None, vec![(String::from("x"), DynValue::Int(1))]);
    assert!(validate_emit_schema(&good, &row));
    let bad = Emit::new(String::from("u"), None, vec![(String::from("w"), DynValue::Int(1))]);
    assert!(!validate_emit_schema(&bad, &row));
}

#[test]
fn emit_carries_its_parts() {
    let record = Emit::new(
        String::from("u"),
        Some(12),
        vec![(String::from("x"), DynValue::Int(1))],
    );
    assert_eq!(record.get_uuid(), "u");
    assert_eq!(record.get_timestamp(), Some(12));
    assert_eq!(record.get_data().len(), 1);
}

#[test]
fn registration_getters() {
    let reg = Registration::new(
        String::from("label"),
        int_schema("x"),
        Some(String::from("id-1")),
    );
    assert_eq!(reg.get_name(), "label");
    assert!(reg.has_custom_id());
    assert_eq!(reg.get_custom_id(), Some("id-1"));
    assert!(reg.contains_column("x"));
    assert!(!reg.contains_column("y"));
    assert_eq!(reg.schema_len(), 1);
    assert_eq!(reg.get_schema().len(), 1);
}
