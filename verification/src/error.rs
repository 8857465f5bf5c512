//! The closed set of domain error kinds, with stable byte identifiers.

use vstd::prelude::*;

verus! {

/// Errors produced while registering producers or ingesting their records.
///
/// Every variant but `NoError` carries a diagnostic message; the message is
/// for operators and never decides behaviour, only the variant does.
#[derive(Debug, Clone, PartialEq)]
pub enum ConductorError {
    /// There was no error. This exists to be more compatible with being sent
    /// over the wire to clients which may not have proper support for options.
    NoError,
    /// A producer schema contains a `ts` field, which is reserved: the
    /// timestamp column is generated automatically.
    TimestampDefined(String),
    /// An empty schema was sent.
    NoMembers(String),
    /// At least one column name in the schema uses illegal characters.
    InvalidColumnNames(String),
    /// The schema is too large (more than 2,147,483,647 columns).
    TooManyColumns(String),
    /// A store or catalog inconsistency not attributable to caller input.
    InternalError(String),
    /// The id provided was invalid: an ill-formed custom id during
    /// registration, or an empty id on any other operation.
    InvalidUuid(String),
    /// The producer name provided is empty.
    NameInvalid(String),
    /// Data was emitted for an id that was never registered.
    Unregistered(String),
    /// A value does not match its declared column type and cannot be
    /// converted to it.
    InvalidData(String),
    /// The field set of an emitted record does not match the registered schema.
    InvalidSchema(String),
}

/// The byte identifier of each error kind, as sent over the wire.
pub open spec fn spec_error_code(e: ConductorError) -> u8 {
    match e {
        ConductorError::NoError => 0,
        ConductorError::TimestampDefined(_) => 1,
        ConductorError::NoMembers(_) => 2,
        ConductorError::InvalidColumnNames(_) => 3,
        ConductorError::TooManyColumns(_) => 4,
        ConductorError::InternalError(_) => 5,
        ConductorError::InvalidUuid(_) => 6,
        ConductorError::NameInvalid(_) => 7,
        ConductorError::Unregistered(_) => 8,
        ConductorError::InvalidData(_) => 9,
        ConductorError::InvalidSchema(_) => 10,
    }
}

/// The text form of each error, a label followed by the carried message.
pub open spec fn spec_error_text(e: ConductorError) -> Seq<char> {
    match e {
        ConductorError::NoError => "NoError"@,
        ConductorError::TimestampDefined(m) => "TimestampDefined: "@ + m@,
        ConductorError::NoMembers(m) => "NoMembers: "@ + m@,
        ConductorError::InvalidColumnNames(m) => "InvalidColumnNames: "@ + m@,
        ConductorError::TooManyColumns(m) => "TooManyColumns: "@ + m@,
        ConductorError::InternalError(m) => "InternalError: "@ + m@,
        ConductorError::InvalidUuid(m) => "InvalidUuid: "@ + m@,
        ConductorError::NameInvalid(m) => "NameInvalid: "@ + m@,
        ConductorError::Unregistered(m) => "Unregistered: "@ + m@,
        ConductorError::InvalidData(m) => "InvalidData: "@ + m@,
        ConductorError::InvalidSchema(m) => "InvalidSchema: "@ + m@,
    }
}

impl ConductorError {
    /// The stable byte identifier of this error kind.
    pub fn code(&self) -> (c: u8)
        ensures
            c == spec_error_code(*self),
    {
        match self {
            ConductorError::NoError => 0,
            ConductorError::TimestampDefined(_) => 1,
            ConductorError::NoMembers(_) => 2,
            ConductorError::InvalidColumnNames(_) => 3,
            ConductorError::TooManyColumns(_) => 4,
            ConductorError::InternalError(_) => 5,
            ConductorError::InvalidUuid(_) => 6,
            ConductorError::NameInvalid(_) => 7,
            ConductorError::Unregistered(_) => 8,
            ConductorError::InvalidData(_) => 9,
            ConductorError::InvalidSchema(_) => 10,
        }
    }

    /// Renders the error as text: its label, then the carried message.
    pub fn describe(&self) -> (s: String)
        ensures
            s@ == spec_error_text(*self),
    {
        match self {
            ConductorError::NoError => String::from_str("NoError"),
            ConductorError::TimestampDefined(m) => {
                String::from_str("TimestampDefined: ").concat(m.as_str())
            },
            ConductorError::NoMembers(m) => String::from_str("NoMembers: ").concat(m.as_str()),
            ConductorError::InvalidColumnNames(m) => {
                String::from_str("InvalidColumnNames: ").concat(m.as_str())
            },
            ConductorError::TooManyColumns(m) => {
                String::from_str("TooManyColumns: ").concat(m.as_str())
            },
            ConductorError::InternalError(m) => {
                String::from_str("InternalError: ").concat(m.as_str())
            },
            ConductorError::InvalidUuid(m) => String::from_str("InvalidUuid: ").concat(m.as_str()),
            ConductorError::NameInvalid(m) => String::from_str("NameInvalid: ").concat(m.as_str()),
            ConductorError::Unregistered(m) => {
                String::from_str("Unregistered: ").concat(m.as_str())
            },
            ConductorError::InvalidData(m) => String::from_str("InvalidData: ").concat(m.as_str()),
            ConductorError::InvalidSchema(m) => {
                String::from_str("InvalidSchema: ").concat(m.as_str())
            },
        }
    }
}

/// The numeric error taxonomy used by the compact wire format, where the
/// error crosses the boundary as a bare byte rather than a tagged variant.
#[derive(Debug, Clone, Copy, PartialEq, Eq, Structural)]
pub enum ProducerErrorCode {
    NoError,
    TimestampDefined,
    NoMembers,
    InvalidColumnNames,
    TooManyColumns,
    InternalError,
    InvalidUuid,
    NameInvalid,
    Unregistered,
    InvalidData,
}

/// The byte value of each numeric error code.
pub open spec fn spec_producer_error_code(e: ProducerErrorCode) -> u8 {
    match e {
        ProducerErrorCode::NoError => 0,
        ProducerErrorCode::TimestampDefined => 1,
        ProducerErrorCode::NoMembers => 2,
        ProducerErrorCode::InvalidColumnNames => 3,
        ProducerErrorCode::TooManyColumns => 4,
        ProducerErrorCode::InternalError => 5,
        ProducerErrorCode::InvalidUuid => 6,
        ProducerErrorCode::NameInvalid => 7,
        ProducerErrorCode::Unregistered => 8,
        ProducerErrorCode::InvalidData => 9,
    }
}

impl ProducerErrorCode {
    /// The byte sent over the wire for this code.
    pub fn code(&self) -> (c: u8)
        ensures
            c == spec_producer_error_code(*self),
    {
        match self {
            ProducerErrorCode::NoError => 0,
            ProducerErrorCode::TimestampDefined => 1,
            ProducerErrorCode::NoMembers => 2,
            ProducerErrorCode::InvalidColumnNames => 3,
            ProducerErrorCode::TooManyColumns => 4,
            ProducerErrorCode::InternalError => 5,
            ProducerErrorCode::InvalidUuid => 6,
            ProducerErrorCode::NameInvalid => 7,
            ProducerErrorCode::Unregistered => 8,
            ProducerErrorCode::InvalidData => 9,
        }
    }
}

} // verus!
