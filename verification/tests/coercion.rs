use conductor::schema::DataTypes;
use conductor::value::{to_solid_type_from_json, DynValue, SqlNumber, SqlParam};

#[test]
fn int_coercion() {
    let ok = to_solid_type_from_json(&DynValue::Int(-3), DataTypes::Int);
    assert_eq!(ok.unwrap(), SqlParam::Long(-3));
    let big_ok = to_solid_type_from_json(&DynValue::UInt(9_223_372_036_854_775_807), DataTypes::Int);
    assert_eq!(big_ok.unwrap(), SqlParam::Long(i64::MAX));
    let too_big = to_solid_type_from_json(&DynValue::UInt(u64::MAX), DataTypes::Int);
    assert!(too_big.is_err());
    // No cross-type coercion: the text "5" is never read as a number.
    let text = to_solid_type_from_json(&DynValue::Str(String::from("5")), DataTypes::Int);
    assert!(text.is_err());
    // A float-typed number is not an integer.
    let float = to_solid_type_from_json(&DynValue::Float(5.0f64.to_bits()), DataTypes::Int);
    assert!(float.is_err());
}

#[test]
fn float_range_constant_matches_the_rule() {
    // The range check compares against the bits of the largest finite
    // 32-bit float read as a 64-bit one; subtracting the epsilon in 64-bit
    // arithmetic does not move that bound.
    assert_eq!((f32::MAX as f64).to_bits(), 0x47EFFFFFE0000000u64);
    assert_eq!((f32::MAX as f64) - (f32::EPSILON as f64), f32::MAX as f64);
    assert_eq!((f32::MIN as f64).to_bits(), 0xC7EFFFFFE0000000u64);
    assert_eq!((f32::MIN as f64) + (f32::EPSILON as f64), f32::MIN as f64);
}

#[test]
fn float_coercion_rejects_out_of_range() {
    // A value beyond the 32-bit float range is rejected for a Float
    // column and accepted for a Double column.
    let huge = 1.0e39f64;
    assert!(huge > f32::MAX as f64);
    let as_float = to_solid_type_from_json(&DynValue::Float(huge.to_bits()), DataTypes::Float);
    assert!(as_float.is_err());
    let as_double = to_solid_type_from_json(&DynValue::Float(huge.to_bits()), DataTypes::Double);
    assert_eq!(as_double.unwrap(), SqlParam::Double(SqlNumber::Float(huge.to_bits())));
    let negative = -1.0e39f64;
    assert!(
        to_solid_type_from_json(&DynValue::Float(negative.to_bits()), DataTypes::Float).is_err()
    );
    let infinite = f64::INFINITY;
    assert!(
        to_solid_type_from_json(&DynValue::Float(infinite.to_bits()), DataTypes::Float).is_err()
    );
}

#[test]
fn float_coercion_accepts_in_range() {
    let v = 12345678901234.0f64;
    assert!(v < f32::MAX as f64);
    let as_float = to_solid_type_from_json(&DynValue::Float(v.to_bits()), DataTypes::Float);
    assert_eq!(as_float.unwrap(), SqlParam::Float(SqlNumber::Float(v.to_bits())));
    let as_double = to_solid_type_from_json(&DynValue::Float(v.to_bits()), DataTypes::Double);
    assert_eq!(as_double.unwrap(), SqlParam::Double(SqlNumber::Float(v.to_bits())));
    // Integers pass through the lossy 64-bit float reading of a number.
    let from_int = to_solid_type_from_json(&DynValue::Int(7), DataTypes::Float);
    assert_eq!(from_int.unwrap(), SqlParam::Float(SqlNumber::Int(7)));
    let neg_zero = (-0.0f64).to_bits();
    assert!(to_solid_type_from_json(&DynValue::Float(neg_zero), DataTypes::Float).is_ok());
}

#[test]
fn time_coercion_parses_naive_datetimes() {
    let text = "2015-09-18T23:56:04";
    let expected = text
        .parse::<chrono::NaiveDateTime>()
        .unwrap()
        .and_utc()
        .timestamp_micros();
    let got = to_solid_type_from_json(
        &DynValue::Str(String::from(text)),
        DataTypes::Time,
    );
    assert_eq!(got.unwrap(), SqlParam::Timestamp(expected));
    // Fractional seconds survive to microsecond precision.
    let frac = "2015-09-18T23:56:04.250";
    let expected_frac = frac
        .parse::<chrono::NaiveDateTime>()
        .unwrap()
        .and_utc()
        .timestamp_micros();
    let got_frac =
        to_solid_type_from_json(&DynValue::Str(String::from(frac)), DataTypes::Time);
    assert_eq!(got_frac.unwrap(), SqlParam::Timestamp(expected_frac));
    assert_eq!(expected_frac - expected, 250_000);
    // Text that is no date-time, and values that are no text, are rejected.
    assert!(
        to_solid_type_from_json(&DynValue::Str(String::from("yesterday")), DataTypes::Time)
            .is_err()
    );
    assert!(to_solid_type_from_json(&DynValue::Int(0), DataTypes::Time).is_err());
}

#[test]
fn string_coercion() {
    let ok = to_solid_type_from_json(&DynValue::Str(String::from("hi")), DataTypes::String);
    assert_eq!(ok.unwrap(), SqlParam::Text(String::from("hi")));
    assert!(to_solid_type_from_json(&DynValue::Int(5), DataTypes::String).is_err());
    assert!(to_solid_type_from_json(&DynValue::Bool(true), DataTypes::String).is_err());
}

#[test]
fn bool_coercion() {
    let ok = to_solid_type_from_json(&DynValue::Bool(true), DataTypes::Bool);
    assert_eq!(ok.unwrap(), SqlParam::Bool(true));
    assert!(to_solid_type_from_json(&DynValue::Int(1), DataTypes::Bool).is_err());
    assert!(
        to_solid_type_from_json(&DynValue::Str(String::from("true")), DataTypes::Bool).is_err()
    );
}

#[test]
fn binary_coercion() {
    let ok = to_solid_type_from_json(
        &DynValue::Array(vec![DynValue::Int(0), DynValue::Int(255), DynValue::UInt(7)]),
        DataTypes::Binary,
    );
    assert_eq!(ok.unwrap(), SqlParam::Binary(vec![0u8, 255u8, 7u8]));
    let out_of_byte_range = to_solid_type_from_json(
        &DynValue::Array(vec![DynValue::Int(256)]),
        DataTypes::Binary,
    );
    assert!(out_of_byte_range.is_err());
    let negative = to_solid_type_from_json(
        &DynValue::Array(vec![DynValue::Int(-1)]),
        DataTypes::Binary,
    );
    assert!(negative.is_err());
    let not_an_int = to_solid_type_from_json(
        &DynValue::Array(vec![DynValue::Float(1.0f64.to_bits())]),
        DataTypes::Binary,
    );
    assert!(not_an_int.is_err());
    assert!(
        to_solid_type_from_json(&DynValue::Str(String::from("ab")), DataTypes::Binary).is_err()
    );
    let empty_ok = to_solid_type_from_json(&DynValue::Array(Vec::new()), DataTypes::Binary);
    assert_eq!(empty_ok.unwrap(), SqlParam::Binary(Vec::new()));
}

#[test]
fn null_and_objects_never_coerce() {
    for t in [
        DataTypes::Int,
        DataTypes::Float,
        DataTypes::Time,
        DataTypes::String,
        DataTypes::Binary,
        DataTypes::Bool,
        DataTypes::Double,
    ] {
        assert!(to_solid_type_from_json(&DynValue::Null, t).is_err());
        assert!(to_solid_type_from_json(&DynValue::Object, t).is_err());
    }
}
