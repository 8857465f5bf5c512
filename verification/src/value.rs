//! Untyped input values and their coercion into typed column parameters.
//!
//! An emitted record carries dynamically typed values. They are modelled as
//! a tagged union mirroring what a JSON document can hold: integers kept as
//! signed or unsigned machine words, floating-point numbers kept as the
//! IEEE-754 bits of a 64-bit float, text, booleans, arrays, objects and
//! null. The coercer turns such a value into the concrete parameter type
//! dictated by the schema, rejecting every combination not listed.

use vstd::prelude::*;
use crate::schema::DataTypes;

verus! {

/// A dynamically typed input value, as found in an emitted record.
#[derive(Debug)]
pub enum DynValue {
    /// An integer representable as a 64-bit signed word.
    Int(i64),
    /// A non-negative integer too large for a signed word.
    UInt(u64),
    /// A 64-bit float, held as its IEEE-754 bits.
    Float(u64),
    /// A text value.
    Str(String),
    /// A boolean value.
    Bool(bool),
    /// An array of values.
    Array(Vec<DynValue>),
    /// A compound object; never coercible to any column type.
    Object,
    /// An explicit null; never coercible to any column type.
    Null,
}

/// A typed statement parameter, ready to be bound to an insert statement.
#[derive(Debug, Clone, Copy, PartialEq, Eq, Structural)]
pub enum SqlNumber {
    /// A number that arrived as a signed integer.
    Int(i64),
    /// A number that arrived as an unsigned integer.
    UInt(u64),
    /// A number that arrived as a 64-bit float, held as its IEEE-754 bits.
    Float(u64),
}

/// The concrete parameter produced by coercion, one variant per column type.
#[derive(Debug, Clone, PartialEq)]
pub enum SqlParam {
    /// A 64-bit integer column value.
    Long(i64),
    /// A 32-bit float column value; the number is kept as it arrived and
    /// narrowed only at the binding boundary.
    Float(SqlNumber),
    /// A timestamp column value, in microseconds since the epoch.
    Timestamp(i64),
    /// A text column value.
    Text(String),
    /// A boolean column value.
    Bool(bool),
    /// A 64-bit float column value; the number is kept as it arrived.
    Double(SqlNumber),
    /// A byte-array column value.
    Binary(Vec<u8>),
}

/// The mathematical shape of a statement parameter.
pub enum SqlParamModel {
    Long(i64),
    Float(SqlNumber),
    Timestamp(i64),
    Text(Seq<char>),
    Bool(bool),
    Double(SqlNumber),
    Binary(Seq<u8>),
}

impl View for SqlParam {
    type V = SqlParamModel;

    open spec fn view(&self) -> SqlParamModel {
        match self {
            SqlParam::Long(v) => SqlParamModel::Long(*v),
            SqlParam::Float(n) => SqlParamModel::Float(*n),
            SqlParam::Timestamp(m) => SqlParamModel::Timestamp(*m),
            SqlParam::Text(s) => SqlParamModel::Text(s@),
            SqlParam::Bool(b) => SqlParamModel::Bool(*b),
            SqlParam::Double(n) => SqlParamModel::Double(*n),
            SqlParam::Binary(b) => SqlParamModel::Binary(b@),
        }
    }
}

/// The microsecond timestamp that the datetime parser yields for a text
/// value, if the text parses as a naive (timezone-less) date-time.
pub uninterp spec fn datetime_micros_of(s: Seq<char>) -> Option<i64>;

/// Relies on chrono's `NaiveDateTime` parsing (its `FromStr`, which is also
/// what its deserializer applies to text): the outcome is a function of the
/// text alone, named `datetime_micros_of`; on success the parsed date-time
/// is returned as microseconds since the epoch.
#[verifier::external_body]
fn parse_datetime_micros(s: &str) -> (r: Option<i64>)
    ensures
        r == datetime_micros_of(s@),
{
    match s.parse::<chrono::NaiveDateTime>() {
        Ok(dt) => Some(dt.and_utc().timestamp_micros()),
        Err(_) => None,
    }
}

/// True when the bits, read as a 64-bit float, lie outside the range a
/// 32-bit float column accepts.
///
/// The bound is the epsilon-adjusted one: a value is rejected when it
/// exceeds the largest finite 32-bit float less an epsilon, on either side.
/// Both bounds round to the largest finite 32-bit float itself when
/// computed in 64-bit arithmetic, so the test compares against the bits of
/// that constant; for any bit pattern denoting a number (including the
/// infinities), the comparison below agrees with the float comparison,
/// because finite 64-bit floats of one sign order as their bit patterns do.
/// The few patterns that denote no number at all are treated as out of
/// range.
pub open spec fn f32_range_exceeded(bits: u64) -> bool {
    if bits < 0x8000000000000000 {
        bits > 0x47EFFFFFE0000000
    } else {
        bits > 0xC7EFFFFFE0000000
    }
}

/// True when the value can stand as one byte of a binary column: an
/// integer between 0 and 255.
pub open spec fn byte_like(v: DynValue) -> bool {
    match v {
        DynValue::Int(i) => 0 <= i <= 255,
        DynValue::UInt(u) => u <= 255,
        _ => false,
    }
}

/// The byte a byte-like value stands for.
pub open spec fn spec_byte_of(v: DynValue) -> u8 {
    match v {
        DynValue::Int(i) => i as u8,
        DynValue::UInt(u) => u as u8,
        _ => 0,
    }
}

/// True when every element of the sequence is byte-like.
pub open spec fn all_byte_like(s: Seq<DynValue>) -> bool {
    forall|i: int| 0 <= i < s.len() ==> byte_like(#[trigger] s[i])
}

/// The bytes a sequence of byte-like values stands for.
pub open spec fn spec_bytes_of(s: Seq<DynValue>) -> Seq<u8> {
    Seq::new(s.len(), |i: int| spec_byte_of(s[i]))
}

/// True when the value can be coerced to the given column type.
///
/// No cross-type coercion happens: text is never read as a number, a
/// number never as text. Integers fit `Float` and `Double` columns, as
/// they do through the lossy 64-bit float reading of a JSON number.
pub open spec fn coercible(v: DynValue, t: DataTypes) -> bool {
    match t {
        DataTypes::Int => match v {
            DynValue::Int(_) => true,
            DynValue::UInt(u) => u <= i64::MAX as u64,
            _ => false,
        },
        DataTypes::Float => match v {
            DynValue::Int(_) => true,
            DynValue::UInt(_) => true,
            DynValue::Float(b) => !f32_range_exceeded(b),
            _ => false,
        },
        DataTypes::Time => match v {
            DynValue::Str(s) => datetime_micros_of(s@) is Some,
            _ => false,
        },
        DataTypes::String => v is Str,
        DataTypes::Bool => v is Bool,
        DataTypes::Double => match v {
            DynValue::Int(_) => true,
            DynValue::UInt(_) => true,
            DynValue::Float(_) => true,
            _ => false,
        },
        DataTypes::Binary => match v {
            DynValue::Array(items) => all_byte_like(items@),
            _ => false,
        },
    }
}

/// The parameter that coercion yields (meaningful only when coercible).
pub open spec fn spec_coerce(v: DynValue, t: DataTypes) -> SqlParamModel {
    match t {
        DataTypes::Int => match v {
            DynValue::Int(i) => SqlParamModel::Long(i),
            DynValue::UInt(u) => SqlParamModel::Long(u as i64),
            _ => SqlParamModel::Long(0),
        },
        DataTypes::Float => match v {
            DynValue::Int(i) => SqlParamModel::Float(SqlNumber::Int(i)),
            DynValue::UInt(u) => SqlParamModel::Float(SqlNumber::UInt(u)),
            DynValue::Float(b) => SqlParamModel::Float(SqlNumber::Float(b)),
            _ => SqlParamModel::Long(0),
        },
        DataTypes::Time => match v {
            DynValue::Str(s) => SqlParamModel::Timestamp(datetime_micros_of(s@)->Some_0),
            _ => SqlParamModel::Long(0),
        },
        DataTypes::String => match v {
            DynValue::Str(s) => SqlParamModel::Text(s@),
            _ => SqlParamModel::Long(0),
        },
        DataTypes::Bool => match v {
            DynValue::Bool(b) => SqlParamModel::Bool(b),
            _ => SqlParamModel::Long(0),
        },
        DataTypes::Double => match v {
            DynValue::Int(i) => SqlParamModel::Double(SqlNumber::Int(i)),
            DynValue::UInt(u) => SqlParamModel::Double(SqlNumber::UInt(u)),
            DynValue::Float(b) => SqlParamModel::Double(SqlNumber::Float(b)),
            _ => SqlParamModel::Long(0),
        },
        DataTypes::Binary => match v {
            DynValue::Array(items) => SqlParamModel::Binary(spec_bytes_of(items@)),
            _ => SqlParamModel::Long(0),
        },
    }
}

/// Converts an untyped value into the concrete parameter type dictated by
/// the schema; every malformed combination is rejected, never truncated.
pub fn to_solid_type_from_json(val: &DynValue, data_type: DataTypes) -> (r: Result<
    SqlParam,
    String,
>)
    ensures
        r is Ok <==> coercible(*val, data_type),
        r matches Ok(p) ==> p@ == spec_coerce(*val, data_type),
{
    match data_type {
        DataTypes::Int => match val {
            DynValue::Int(i) => Ok(SqlParam::Long(*i)),
            DynValue::UInt(u) => {
                if *u <= 9223372036854775807u64 {
                    Ok(SqlParam::Long(*u as i64))
                } else {
                    Err(String::from_str("value does not fit a 64-bit signed integer"))
                }
            },
            _ => Err(String::from_str("value is not an integer")),
        },
        DataTypes::Float => match val {
            DynValue::Int(i) => Ok(SqlParam::Float(SqlNumber::Int(*i))),
            DynValue::UInt(u) => Ok(SqlParam::Float(SqlNumber::UInt(*u))),
            DynValue::Float(b) => {
                let exceeded: bool = if *b < 0x8000000000000000u64 {
                    *b > 0x47EFFFFFE0000000u64
                } else {
                    *b > 0xC7EFFFFFE0000000u64
                };
                if exceeded {
                    Err(String::from_str("value does not fit a 32-bit float"))
                } else {
                    Ok(SqlParam::Float(SqlNumber::Float(*b)))
                }
            },
            _ => Err(String::from_str("value is not a number")),
        },
        DataTypes::Time => match val {
            DynValue::Str(s) => match parse_datetime_micros(s.as_str()) {
                Some(m) => Ok(SqlParam::Timestamp(m)),
                None => Err(String::from_str("value does not parse as a naive date-time")),
            },
            _ => Err(String::from_str("value is not a date-time text")),
        },
        DataTypes::String => match val {
            DynValue::Str(s) => Ok(SqlParam::Text(s.clone())),
            _ => Err(String::from_str("value is not a string")),
        },
        DataTypes::Bool => match val {
            DynValue::Bool(b) => Ok(SqlParam::Bool(*b)),
            _ => Err(String::from_str("value is not a boolean")),
        },
        DataTypes::Double => match val {
            DynValue::Int(i) => Ok(SqlParam::Double(SqlNumber::Int(*i))),
            DynValue::UInt(u) => Ok(SqlParam::Double(SqlNumber::UInt(*u))),
            DynValue::Float(b) => Ok(SqlParam::Double(SqlNumber::Float(*b))),
            _ => Err(String::from_str("value is not a number")),
        },
        DataTypes::Binary => match val {
            DynValue::Array(items) => match bytes_of(items) {
                Some(bytes) => Ok(SqlParam::Binary(bytes)),
                None => Err(String::from_str("value is not a byte array")),
            },
            _ => Err(String::from_str("value is not a byte array")),
        },
    }
}

/// Reads an array of byte-like values as bytes, if every element is one.
fn bytes_of(items: &Vec<DynValue>) -> (r: Option<Vec<u8>>)
    ensures
        r is Some <==> all_byte_like(items@),
        r matches Some(b) ==> b@ == spec_bytes_of(items@),
{
    let n = items.len();
    let mut bytes: Vec<u8> = Vec::new();
    let mut i: usize = 0;
    while i < n
        invariant
            n == items@.len(),
            0 <= i <= n,
            bytes@.len() == i,
            forall|j: int| 0 <= j < i ==> byte_like(#[trigger] items@[j]),
            forall|j: int| 0 <= j < i ==> bytes@[j] == spec_byte_of(#[trigger] items@[j]),
        decreases n - i,
    {
        match &items[i] {
            DynValue::Int(v) => {
                if 0 <= *v && *v <= 255 {
                    bytes.push(*v as u8);
                } else {
                    return None;
                }
            },
            DynValue::UInt(v) => {
                if *v <= 255 {
                    bytes.push(*v as u8);
                } else {
                    return None;
                }
            },
            _ => {
                return None;
            },
        }
        i = i + 1;
    }
    proof {
        assert(bytes@ =~= spec_bytes_of(items@));
    }
    Some(bytes)
}

} // verus!
