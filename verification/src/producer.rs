//! Registration and emission: validation, identity assignment, statement
//! generation, and the operations exposed at the boundary.

use vstd::prelude::*;
use crate::catalog::{
    catalog_contains, catalog_record_for, lemma_catalog_unique_index, Producer, ProducerCatalog,
};
use crate::error::ConductorError;
use crate::schema::{
    quest_type_label, schema_contains, schema_type_of, str_eq, builder_step, DataTypes, Schema,
};
use crate::value::{coercible, spec_coerce, to_solid_type_from_json, DynValue, SqlParam};

verus! {

/// The information required to register a producer.
#[derive(Debug)]
pub struct Registration {
    /// A human label for the producer; need not be unique, must not be empty.
    pub name: String,
    /// The column set the producer commits to.
    pub schema: Schema,
    /// A caller-chosen identity, for devices without persistent storage
    /// that cannot keep a generated one.
    pub use_custom_id: Option<String>,
}

impl Registration {
    /// Bundles a name, a schema and an optional custom identity.
    pub fn new(name: String, schema: Schema, custom_id: Option<String>) -> (r: Self)
        ensures
            r.name == name,
            r.schema == schema,
            r.use_custom_id == custom_id,
    {
        Registration { name, schema, use_custom_id: custom_id }
    }

    /// A registration with an empty schema.
    pub fn new_empty(name: String, custom_id: Option<String>) -> (r: Self)
        ensures
            r.name == name,
            r.schema@ =~= Seq::<(Seq<char>, DataTypes)>::empty(),
            r.use_custom_id == custom_id,
    {
        Registration { name, schema: Schema::new(), use_custom_id: custom_id }
    }

    /// The producer's name.
    pub fn get_name(&self) -> (r: &str)
        ensures
            r@ == self.name@,
    {
        self.name.as_str()
    }

    /// True when a custom identity was supplied.
    pub fn has_custom_id(&self) -> (b: bool)
        ensures
            b == (self.use_custom_id is Some),
    {
        self.use_custom_id.is_some()
    }

    /// The custom identity, if one was supplied.
    pub fn get_custom_id(&self) -> (r: Option<&str>)
        ensures
            r is Some <==> self.use_custom_id is Some,
            self.use_custom_id matches Some(c) ==> (r matches Some(s) && s@ == c@),
    {
        match &self.use_custom_id {
            Some(c_id) => Some(c_id.as_str()),
            None => None,
        }
    }

    /// True when the schema declares this column.
    pub fn contains_column(&self, column_name: &str) -> (b: bool)
        ensures
            b == schema_contains(self.schema@, column_name@),
    {
        self.schema.contains_column(column_name)
    }

    /// The number of declared columns.
    pub fn schema_len(&self) -> (n: usize)
        ensures
            n == self.schema@.len(),
    {
        self.schema.len()
    }

    /// The schema itself.
    pub fn get_schema(&self) -> (r: &Schema)
        ensures
            *r == self.schema,
    {
        &self.schema
    }
}

/// The response to a registration attempt. The identity is present exactly
/// when the error says there was none.
#[derive(Debug)]
pub struct RegistrationResult {
    /// What went wrong, or `NoError`.
    pub error: ConductorError,
    /// The identity to emit under, on success.
    pub uuid: Option<String>,
}

impl RegistrationResult {
    /// Bundles an error and an optional identity.
    pub fn new(error: ConductorError, uuid: Option<String>) -> (r: Self)
        ensures
            r.error == error,
            r.uuid == uuid,
    {
        RegistrationResult { error, uuid }
    }
}

/// One timestamped record submitted for ingestion.
#[derive(Debug)]
pub struct Emit {
    /// The identity obtained at registration.
    pub uuid: String,
    /// An optional caller timestamp; the store stamps the record itself.
    pub timestamp: Option<u64>,
    /// The record's fields: column names and their untyped values.
    pub data: Vec<(String, DynValue)>,
}

impl Emit {
    /// Bundles an identity, an optional timestamp and the record's fields.
    pub fn new(uuid: String, timestamp: Option<u64>, data: Vec<(String, DynValue)>) -> (r: Self)
        ensures
            r.uuid == uuid,
            r.timestamp == timestamp,
            r.data == data,
    {
        Emit { uuid, timestamp, data }
    }

    /// The identity this record is emitted under.
    pub fn get_uuid(&self) -> (r: &str)
        ensures
            r@ == self.uuid@,
    {
        self.uuid.as_str()
    }

    /// The caller timestamp, if one was supplied.
    pub fn get_timestamp(&self) -> (r: Option<u64>)
        ensures
            r == self.timestamp,
    {
        self.timestamp
    }

    /// The record's fields.
    pub fn get_data(&self) -> (r: &Vec<(String, DynValue)>)
        ensures
            r == &self.data,
    {
        &self.data
    }
}

/// The response to an emit attempt.
#[derive(Debug)]
pub struct EmitResult {
    /// What went wrong, or `NoError`.
    pub error: ConductorError,
}

/// A helper for building a schema one column at a time.
pub struct SchemaBuilder {
    schema: Schema,
}

impl View for SchemaBuilder {
    type V = Seq<(Seq<char>, DataTypes)>;

    closed spec fn view(&self) -> Seq<(Seq<char>, DataTypes)> {
        self.schema@
    }
}

impl SchemaBuilder {
    /// A builder holding no columns yet.
    pub fn new() -> (r: Self)
        ensures
            r@ =~= Seq::<(Seq<char>, DataTypes)>::empty(),
    {
        SchemaBuilder { schema: Schema::new() }
    }

    /// A builder holding no columns yet; the capacity hint is advisory.
    pub fn with_capacity(n: usize) -> (r: Self)
        ensures
            r@ =~= Seq::<(Seq<char>, DataTypes)>::empty(),
    {
        let _ = n;
        SchemaBuilder { schema: Schema::new() }
    }

    /// Adds a column of the given type.
    pub fn add_column(self, name: String, col_type: DataTypes) -> (r: Self)
        ensures
            builder_step(self@, r@, name@, col_type),
    {
        let mut s = self;
        s.schema.insert(name, col_type);
        s
    }

    /// Adds an `Int` column.
    pub fn add_int(self, name: String) -> (r: Self)
        ensures
            builder_step(self@, r@, name@, DataTypes::Int),
    {
        self.add_column(name, DataTypes::Int)
    }

    /// Adds a `Float` column.
    pub fn add_float(self, name: String) -> (r: Self)
        ensures
            builder_step(self@, r@, name@, DataTypes::Float),
    {
        self.add_column(name, DataTypes::Float)
    }

    /// Adds a `Time` column.
    pub fn add_time(self, name: String) -> (r: Self)
        ensures
            builder_step(self@, r@, name@, DataTypes::Time),
    {
        self.add_column(name, DataTypes::Time)
    }

    /// Adds a `Binary` column.
    pub fn add_binary(self, name: String) -> (r: Self)
        ensures
            builder_step(self@, r@, name@, DataTypes::Binary),
    {
        self.add_column(name, DataTypes::Binary)
    }

    /// Adds a `String` column.
    pub fn add_string(self, name: String) -> (r: Self)
        ensures
            builder_step(self@, r@, name@, DataTypes::String),
    {
        self.add_column(name, DataTypes::String)
    }

    /// Adds a `Bool` column.
    pub fn add_bool(self, name: String) -> (r: Self)
        ensures
            builder_step(self@, r@, name@, DataTypes::Bool),
    {
        self.add_column(name, DataTypes::Bool)
    }

    /// Adds a `Double` column.
    pub fn add_double(self, name: String) -> (r: Self)
        ensures
            builder_step(self@, r@, name@, DataTypes::Double),
    {
        self.add_column(name, DataTypes::Double)
    }

    /// Hands out the finished schema.
    pub fn build(self) -> (r: Schema)
        ensures
            r@ == self@,
    {
        self.schema
    }
}

/// Implemented by types that know the column type standing for them.
pub trait ToProducerData {
    /// The column type for the implementing type.
    fn conductor_data_type() -> DataTypes;
}

impl ToProducerData for u8 {
    fn conductor_data_type() -> DataTypes {
        DataTypes::Int
    }
}

impl ToProducerData for u16 {
    fn conductor_data_type() -> DataTypes {
        DataTypes::Int
    }
}

impl ToProducerData for u32 {
    fn conductor_data_type() -> DataTypes {
        DataTypes::Int
    }
}

impl ToProducerData for i8 {
    fn conductor_data_type() -> DataTypes {
        DataTypes::Int
    }
}

impl ToProducerData for i16 {
    fn conductor_data_type() -> DataTypes {
        DataTypes::Int
    }
}

impl ToProducerData for i32 {
    fn conductor_data_type() -> DataTypes {
        DataTypes::Int
    }
}

impl ToProducerData for i64 {
    fn conductor_data_type() -> DataTypes {
        DataTypes::Int
    }
}

impl ToProducerData for String {
    fn conductor_data_type() -> DataTypes {
        DataTypes::String
    }
}

impl ToProducerData for bool {
    fn conductor_data_type() -> DataTypes {
        DataTypes::Bool
    }
}

/// The producer name is not empty.
pub open spec fn name_ok(r: Registration) -> bool {
    r.name@.len() > 0
}

/// A supplied custom identity is not empty and quotes cleanly.
pub open spec fn custom_id_ok(r: Registration) -> bool {
    r.use_custom_id matches Some(c) ==> (c@.len() > 0 && !c@.contains('.') && !c@.contains('"'))
}

/// The schema uses the reserved `ts` column name.
pub open spec fn schema_has_ts(r: Registration) -> bool {
    schema_contains(r.schema@, "ts"@)
}

/// The schema declares at least one column.
pub open spec fn schema_nonempty(r: Registration) -> bool {
    r.schema@.len() > 0
}

/// Every declared column name quotes cleanly.
pub open spec fn column_names_ok(r: Registration) -> bool {
    forall|i: int|
        0 <= i < r.schema@.len() ==> !(#[trigger] r.schema@[i]).0.contains('.')
            && !r.schema@[i].0.contains('"')
}

/// The schema does not exceed the store's maximum column count.
pub open spec fn schema_size_ok(r: Registration) -> bool {
    r.schema@.len() <= 2147483647
}

/// A registration that passes every validation rule.
pub open spec fn registration_valid(r: Registration) -> bool {
    &&& name_ok(r)
    &&& custom_id_ok(r)
    &&& !schema_has_ts(r)
    &&& schema_nonempty(r)
    &&& column_names_ok(r)
    &&& schema_size_ok(r)
}

/// Checks a proposed registration, in a fixed order, stopping at the first
/// failure: empty name, ill-formed custom identity, reserved `ts` column,
/// empty schema, ill-formed column name, oversized schema.
pub fn validate_registration(registration: &Registration) -> (e: ConductorError)
    ensures
        e is NameInvalid <==> !name_ok(*registration),
        e is InvalidUuid <==> (name_ok(*registration) && !custom_id_ok(*registration)),
        e is TimestampDefined <==> (name_ok(*registration) && custom_id_ok(*registration)
            && schema_has_ts(*registration)),
        e is NoMembers <==> (name_ok(*registration) && custom_id_ok(*registration)
            && !schema_has_ts(*registration) && !schema_nonempty(*registration)),
        e is InvalidColumnNames <==> (name_ok(*registration) && custom_id_ok(*registration)
            && !schema_has_ts(*registration) && schema_nonempty(*registration) && !column_names_ok(
            *registration,
        )),
        e is TooManyColumns <==> (name_ok(*registration) && custom_id_ok(*registration)
            && !schema_has_ts(*registration) && schema_nonempty(*registration) && column_names_ok(
            *registration,
        ) && !schema_size_ok(*registration)),
        e is NoError <==> registration_valid(*registration),
{
    if string_len(&registration.name) == 0 {
        return ConductorError::NameInvalid(
            String::from_str("producer registration failed: the producer name is empty"),
        );
    }
    if let Some(custom_id) = &registration.use_custom_id {
        if string_len(custom_id) == 0 || contains_char(custom_id.as_str(), '.') || contains_char(
            custom_id.as_str(),
            '"',
        ) {
            return ConductorError::InvalidUuid(
                String::from_str(
                    "producer registration failed: the custom id is empty or has illegal characters",
                ),
            );
        }
    }
    if registration.schema.contains_column("ts") {
        return ConductorError::TimestampDefined(
            String::from_str("producer registration failed: ts is a reserved column name"),
        );
    }
    if registration.schema.is_empty() {
        return ConductorError::NoMembers(
            String::from_str("producer registration failed: the schema has no columns"),
        );
    }
    let entries = registration.schema.entries();
    let n = entries.len();
    let mut i: usize = 0;
    while i < n
        invariant
            n == entries@.len(),
            n == registration.schema@.len(),
            0 <= i <= n,
            name_ok(*registration),
            custom_id_ok(*registration),
            !schema_has_ts(*registration),
            schema_nonempty(*registration),
            forall|j: int|
                0 <= j < n ==> (#[trigger] entries@[j]).0@ == registration.schema@[j].0
                    && entries@[j].1 == registration.schema@[j].1,
            forall|j: int|
                0 <= j < i ==> !(#[trigger] registration.schema@[j]).0.contains('.')
                    && !registration.schema@[j].0.contains('"'),
        decreases n - i,
    {
        if contains_char(entries[i].0.as_str(), '.') || contains_char(entries[i].0.as_str(), '"') {
            assert(registration.schema@[i as int].0.contains('.')
                || registration.schema@[i as int].0.contains('"'));
            return ConductorError::InvalidColumnNames(
                String::from_str(
                    "producer registration failed: a column name holds a dot or a quote",
                ),
            );
        }
        i = i + 1;
    }
    if registration.schema.len() > 2147483647 {
        return ConductorError::TooManyColumns(
            String::from_str(
                "producer registration failed: the schema has more columns than the store supports",
            ),
        );
    }
    ConductorError::NoError
}

/// The character length of a string.
fn string_len(s: &String) -> (n: usize)
    ensures
        n == s@.len(),
{
    s.as_str().unicode_len()
}

/// True when the character occurs in the string.
fn contains_char(s: &str, c: char) -> (b: bool)
    ensures
        b == s@.contains(c),
{
    let n = s.unicode_len();
    let mut i: usize = 0;
    while i < n
        invariant
            n == s@.len(),
            0 <= i <= n,
            forall|j: int| 0 <= j < i ==> s@[j] != c,
        decreases n - i,
    {
        if s.get_char(i) == c {
            assert(s@.contains(c));
            return true;
        }
        i = i + 1;
    }
    assert(!s@.contains(c));
    false
}

/// A character that can occur in a generated identity.
pub open spec fn is_uuid_char(c: char) -> bool {
    ('0' <= c && c <= '9') || ('a' <= c && c <= 'f') || c == '-'
}

/// Relies on `uuid::Uuid::new_v4` and its display form: a fresh random
/// version-4 identifier rendered hyphenated and lower-case, 36 characters,
/// each a lower-case hex digit or a hyphen. Nothing more is assumed of the
/// random value.
#[verifier::external_body]
fn fresh_uuid_string() -> (r: String)
    ensures
        r@.len() == 36,
        forall|i: int| 0 <= i < 36 ==> is_uuid_char(#[trigger] r@[i]),
{
    uuid::Uuid::new_v4().to_string()
}

/// Returns the supplied custom identity verbatim, or a fresh random one.
pub fn get_or_create_uuid_for_registration(registration: &Registration) -> (id: String)
    ensures
        registration.use_custom_id matches Some(c) ==> id@ == c@,
        registration.use_custom_id is None ==> (id@.len() == 36 && forall|i: int|
            0 <= i < 36 ==> is_uuid_char(#[trigger] id@[i])),
{
    match &registration.use_custom_id {
        Some(custom_id) => custom_id.clone(),
        None => fresh_uuid_string(),
    }
}

/// The column clauses of a table-creation statement, one per schema entry,
/// each a quoted name and the store's type label.
pub open spec fn spec_column_clauses(cols: Seq<(Seq<char>, DataTypes)>) -> Seq<char>
    decreases cols.len(),
{
    if cols.len() == 0 {
        Seq::empty()
    } else {
        spec_column_clauses(cols.drop_last()) + ", \""@ + cols.last().0 + "\" "@ + quest_type_label(
            cols.last().1,
        )
    }
}

/// The table-creation statement for a schema: idempotent creation, an
/// implicit leading `ts` timestamp column, one column per entry in order,
/// and `ts` designated as the partitioning column.
pub open spec fn spec_table_sql(cols: Seq<(Seq<char>, DataTypes)>, table: Seq<char>) -> Seq<char> {
    "CREATE TABLE IF NOT EXISTS \""@ + table + "\" (ts TIMESTAMP"@ + spec_column_clauses(cols)
        + ") timestamp(ts);"@
}

/// Builds the table-creation statement for the registration's schema.
pub fn generate_table_sql(registration: &Registration, table_name: &str) -> (sql: String)
    ensures
        sql@ == spec_table_sql(registration.schema@, table_name@),
{
    let mut sql = String::from_str("CREATE TABLE IF NOT EXISTS \"");
    sql.append(table_name);
    sql.append("\" (ts TIMESTAMP");
    let ghost prefix = sql@;
    let entries = registration.schema.entries();
    let n = entries.len();
    let mut i: usize = 0;
    while i < n
        invariant
            n == entries@.len(),
            n == registration.schema@.len(),
            0 <= i <= n,
            forall|j: int|
                0 <= j < n ==> (#[trigger] entries@[j]).0@ == registration.schema@[j].0
                    && entries@[j].1 == registration.schema@[j].1,
            sql@ == prefix + spec_column_clauses(registration.schema@.take(i as int)),
        decreases n - i,
    {
        sql.append(", \"");
        sql.append(entries[i].0.as_str());
        sql.append("\" ");
        sql.append(entries[i].1.to_quest_type_str());
        i = i + 1;
        proof {
            let taken = registration.schema@.take(i as int);
            assert(taken.drop_last() =~= registration.schema@.take(i - 1));
            assert(taken.last() == registration.schema@[i - 1]);
        }
    }
    proof {
        assert(registration.schema@.take(n as int) =~= registration.schema@);
    }
    sql.append(") timestamp(ts);");
    sql
}


/// The decimal digit character for `d`.
pub open spec fn digit_char(d: int) -> char {
    if d == 0 {
        '0'
    } else if d == 1 {
        '1'
    } else if d == 2 {
        '2'
    } else if d == 3 {
        '3'
    } else if d == 4 {
        '4'
    } else if d == 5 {
        '5'
    } else if d == 6 {
        '6'
    } else if d == 7 {
        '7'
    } else if d == 8 {
        '8'
    } else {
        '9'
    }
}

/// The decimal digits of `n`.
pub open spec fn spec_digits(n: int) -> Seq<char>
    decreases n,
{
    if n < 10 {
        seq![digit_char(n)]
    } else {
        spec_digits(n / 10).push(digit_char(n % 10))
    }
}

/// The one-character text of a decimal digit.
fn digit_str(d: u64) -> (s: &'static str)
    requires
        d < 10,
    ensures
        s@ == seq![digit_char(d as int)],
{
    let r: &'static str = match d {
        0 => "0",
        1 => "1",
        2 => "2",
        3 => "3",
        4 => "4",
        5 => "5",
        6 => "6",
        7 => "7",
        8 => "8",
        _ => "9",
    };
    proof {
        reveal_strlit("0");
        reveal_strlit("1");
        reveal_strlit("2");
        reveal_strlit("3");
        reveal_strlit("4");
        reveal_strlit("5");
        reveal_strlit("6");
        reveal_strlit("7");
        reveal_strlit("8");
        reveal_strlit("9");
        assert(r@ =~= seq![digit_char(d as int)]);
    }
    r
}

/// Renders a number in decimal.
fn format_u64(n: u64) -> (s: String)
    ensures
        s@ == spec_digits(n as int),
    decreases n,
{
    if n < 10 {
        String::from_str(digit_str(n))
    } else {
        let mut s = format_u64(n / 10);
        s.append(digit_str(n % 10));
        proof {
            assert(s@ =~= spec_digits(n as int));
        }
        s
    }
}

/// The positional parameter list of an insert statement with `n` columns.
pub open spec fn spec_params_list(n: int) -> Seq<char>
    decreases n,
{
    if n <= 1 {
        "$1"@
    } else {
        spec_params_list(n - 1) + ",$"@ + spec_digits(n)
    }
}

/// A column name quoted as an identifier.
pub open spec fn spec_quoted(name: Seq<char>) -> Seq<char> {
    "\""@ + name + "\""@
}

/// The quoted column-name list of an insert statement.
pub open spec fn spec_columns_list(cols: Seq<Seq<char>>) -> Seq<char>
    decreases cols.len(),
{
    if cols.len() == 0 {
        Seq::empty()
    } else if cols.len() == 1 {
        spec_quoted(cols[0])
    } else {
        spec_columns_list(cols.drop_last()) + ", "@ + spec_quoted(cols.last())
    }
}

/// The parameterized row-insertion statement: the quoted table, the quoted
/// column names in the given order, and one positional parameter per
/// column, in the same order.
pub open spec fn spec_insert_sql(table: Seq<char>, cols: Seq<Seq<char>>) -> Seq<char> {
    "INSERT INTO \""@ + table + "\" ("@ + spec_columns_list(cols) + ") VALUES ("@
        + spec_params_list(cols.len() as int) + ");"@
}

/// Builds the row-insertion statement for the emitted record's identity and
/// column names; at least one column is required.
#[verifier::loop_isolation(false)]
pub fn get_insert_sql(emit: &Emit, column_names: &Vec<String>) -> (r: Result<String, String>)
    ensures
        r is Err <==> column_names@.len() == 0,
        r matches Ok(s) ==> s@ == spec_insert_sql(
            emit.uuid@,
            column_names@.map_values(|c: String| c@),
        ),
{
    let n = column_names.len();
    if n == 0 {
        return Err(
            String::from_str("Insert Sql must have at least one colum but there were none"),
        );
    }
    let ghost names = column_names@.map_values(|c: String| c@);
    let mut columns = String::from_str("\"");
    columns.append(column_names[0].as_str());
    columns.append("\"");
    proof {
        assert(columns@ =~= spec_columns_list(names.take(1)));
    }
    let mut i: usize = 1;
    while i < n
        invariant
            1 <= i <= n,
            columns@ == spec_columns_list(names.take(i as int)),
        decreases n - i,
    {
        columns.append(", ");
        columns.append("\"");
        columns.append(column_names[i].as_str());
        columns.append("\"");
        i = i + 1;
        proof {
            assert(names.take(i as int).drop_last() =~= names.take(i - 1));
            assert(names.take(i as int).last() == names[i - 1]);
            assert(columns@ =~= spec_columns_list(names.take(i as int)));
        }
    }
    proof {
        assert(names.take(n as int) =~= names);
    }
    let mut values_str = String::from_str("$1");
    let mut k: usize = 1;
    while k < n
        invariant
            1 <= k <= n,
            values_str@ == spec_params_list(k as int),
        decreases n - k,
    {
        k = k + 1;
        values_str.append(",$");
        let num = format_u64(k as u64);
        values_str.append(num.as_str());
    }
    let mut sql = String::from_str("INSERT INTO \"");
    sql.append(emit.uuid.as_str());
    sql.append("\" (");
    sql.append(columns.as_str());
    sql.append(") VALUES (");
    sql.append(values_str.as_str());
    sql.append(");");
    Ok(sql)
}

/// True when some field of the record carries the key `k`.
pub open spec fn data_contains_key(d: Seq<(String, DynValue)>, k: Seq<char>) -> bool {
    exists|i: int| 0 <= i < d.len() && d[i].0@ == k
}

/// True when no field key occurs twice in the record.
pub open spec fn data_keys_unique(d: Seq<(String, DynValue)>) -> bool {
    forall|i: int, j: int|
        0 <= i < d.len() && 0 <= j < d.len() && i != j ==> d[i].0@ != d[j].0@
}

/// The pinned emit rule: the record's key set equals the schema's key set,
/// with no key repeated.
pub open spec fn emit_data_matches(
    d: Seq<(String, DynValue)>,
    s: Seq<(Seq<char>, DataTypes)>,
) -> bool {
    &&& data_keys_unique(d)
    &&& forall|i: int| 0 <= i < d.len() ==> schema_contains(s, (#[trigger] d[i]).0@)
    &&& forall|j: int| 0 <= j < s.len() ==> data_contains_key(d, (#[trigger] s[j]).0)
}

/// True when some field of the record carries the key `k`.
fn data_has_key(data: &Vec<(String, DynValue)>, k: &str) -> (b: bool)
    ensures
        b == data_contains_key(data@, k@),
{
    let n = data.len();
    let mut i: usize = 0;
    while i < n
        invariant
            n == data@.len(),
            0 <= i <= n,
            forall|j: int| 0 <= j < i ==> (#[trigger] data@[j]).0@ != k@,
        decreases n - i,
    {
        if str_eq(data[i].0.as_str(), k) {
            assert(data@[i as int].0@ == k@);
            return true;
        }
        i = i + 1;
    }
    false
}

/// Checks the emitted record's field set against the registered schema:
/// every emitted key must be declared, every declared column must be
/// present, and no key may repeat.
#[verifier::loop_isolation(false)]
pub fn validate_emit_schema(data: &Emit, producer: &Producer) -> (ok: bool)
    ensures
        ok == emit_data_matches(data.data@, producer.schema@),
{
    let n = data.data.len();
    let mut i: usize = 0;
    while i < n
        invariant
            0 <= i <= n,
            forall|j: int|
                0 <= j < i ==> schema_contains(producer.schema@, (#[trigger] data.data@[j]).0@),
        decreases n - i,
    {
        if !producer.schema.contains_column(data.data[i].0.as_str()) {
            return false;
        }
        i = i + 1;
    }
    let mut a: usize = 1;
    while a < n
        invariant
            1 <= a <= n || n == 0,
            forall|p: int, q: int| 0 <= p < q < a ==> data.data@[p].0@ != data.data@[q].0@,
        decreases n - a,
    {
        let mut b: usize = 0;
        while b < a
            invariant
                0 <= b <= a < n,
                forall|p: int, q: int| 0 <= p < q < a ==> data.data@[p].0@ != data.data@[q].0@,
                forall|p: int| 0 <= p < b ==> data.data@[p].0@ != data.data@[a as int].0@,
            decreases a - b,
        {
            if str_eq(data.data[b].0.as_str(), data.data[a].0.as_str()) {
                assert(data.data@[b as int].0@ == data.data@[a as int].0@);
                return false;
            }
            b = b + 1;
        }
        a = a + 1;
    }
    proof {
        assert(data_keys_unique(data.data@)) by {
            assert forall|p: int, q: int|
                0 <= p < data.data@.len() && 0 <= q < data.data@.len() && p != q implies data.data@[p].0@
                != data.data@[q].0@ by {
                if n == 0 {
                } else if p < q {
                    assert(data.data@[p].0@ != data.data@[q].0@);
                } else {
                    assert(data.data@[q].0@ != data.data@[p].0@);
                }
            }
        }
    }
    let entries = producer.schema.entries();
    let m = entries.len();
    let mut t: usize = 0;
    while t < m
        invariant
            0 <= t <= m,
            forall|j: int| 0 <= j < t ==> data_contains_key(data.data@, (#[trigger] producer.schema@[j]).0),
        decreases m - t,
    {
        if !data_has_key(&data.data, entries[t].0.as_str()) {
            assert(!data_contains_key(data.data@, producer.schema@[t as int].0));
            return false;
        }
        t = t + 1;
    }
    true
}

/// What stopped the scan of an emitted record, if anything did.
pub enum EmitFault {
    /// A field names a column the schema does not declare.
    UnknownColumn,
    /// A value does not match its declared column type.
    BadValue,
}

/// Scans the record front to back: the first field whose key is unknown or
/// whose value cannot be coerced decides the fault.
pub open spec fn emit_scan(
    s: Seq<(Seq<char>, DataTypes)>,
    d: Seq<(String, DynValue)>,
) -> Option<EmitFault>
    decreases d.len(),
{
    if d.len() == 0 {
        None
    } else if !schema_contains(s, d[0].0@) {
        Some(EmitFault::UnknownColumn)
    } else if !coercible(d[0].1, schema_type_of(s, d[0].0@)) {
        Some(EmitFault::BadValue)
    } else {
        emit_scan(s, d.drop_first())
    }
}

/// A record whose keys are all declared never scans to an unknown column.
pub proof fn lemma_scan_no_unknown(s: Seq<(Seq<char>, DataTypes)>, d: Seq<(String, DynValue)>)
    requires
        forall|i: int| 0 <= i < d.len() ==> schema_contains(s, (#[trigger] d[i]).0@),
    ensures
        emit_scan(s, d) != Some(EmitFault::UnknownColumn),
    decreases d.len(),
{
    if d.len() == 0 {
    } else {
        assert(schema_contains(s, d[0].0@));
        if coercible(d[0].1, schema_type_of(s, d[0].0@)) {
            assert forall|i: int| 0 <= i < d.drop_first().len() implies schema_contains(
                s,
                (#[trigger] d.drop_first()[i]).0@,
            ) by {
                assert(d.drop_first()[i] == d[i + 1]);
            }
            lemma_scan_no_unknown(s, d.drop_first());
        }
    }
}

/// The insert statement and the coerced parameters of a prepared record.
pub type PreparedEmit = (String, Vec<SqlParam>);

/// What a successfully prepared record holds: the insert statement for the
/// record's identity and keys, and one coerced parameter per field, in the
/// record's own order.
pub open spec fn prepared_ok(p: PreparedEmit, producer: Producer, emit: Emit) -> bool {
    &&& p.0@ == spec_insert_sql(emit.uuid@, emit.data@.map_values(|e: (String, DynValue)| e.0@))
    &&& p.1@.len() == emit.data@.len()
    &&& forall|i: int|
        0 <= i < emit.data@.len() ==> (#[trigger] p.1@[i])@ == spec_coerce(
            emit.data@[i].1,
            schema_type_of(producer.schema@, emit.data@[i].0@),
        )
}

/// The error of a failed preparation (meaningful only for failures).
pub open spec fn err_kind(r: Result<PreparedEmit, ConductorError>) -> ConductorError {
    match r {
        Ok(_) => ConductorError::NoError,
        Err(e) => e,
    }
}

/// Turns an emitted record into the insert statement and its parameters,
/// coercing each value to the type its column declares: the first unknown
/// column or uncoercible value is the failure reported.
#[verifier::loop_isolation(false)]
pub fn prepare_emit(row: &Producer, record: &Emit) -> (r: Result<PreparedEmit, ConductorError>)
    requires
        record.data@.len() > 0,
    ensures
        (r is Ok <==> emit_scan(row.schema@, record.data@) is None),
        (emit_scan(row.schema@, record.data@) == Some(EmitFault::UnknownColumn) ==> err_kind(
            r,
        ) is InvalidColumnNames),
        (emit_scan(row.schema@, record.data@) == Some(EmitFault::BadValue) ==> err_kind(
            r,
        ) is InvalidData),
        (r matches Ok(p) ==> prepared_ok(p, *row, *record)),
{
    let n = record.data.len();
    let mut columns: Vec<String> = Vec::new();
    let mut params_store: Vec<SqlParam> = Vec::new();
    proof {
        assert(record.data@.skip(0) =~= record.data@);
    }
    let mut i: usize = 0;
    while i < n
        invariant
            0 <= i <= n,
            columns@.len() == i,
            params_store@.len() == i,
            emit_scan(row.schema@, record.data@) == emit_scan(
                row.schema@,
                record.data@.skip(i as int),
            ),
            forall|j: int| 0 <= j < i ==> (#[trigger] columns@[j])@ == record.data@[j].0@,
            forall|j: int|
                0 <= j < i ==> (#[trigger] params_store@[j])@ == spec_coerce(
                    record.data@[j].1,
                    schema_type_of(row.schema@, record.data@[j].0@),
                ),
        decreases n - i,
    {
        proof {
            assert(record.data@.skip(i as int)[0] == record.data@[i as int]);
        }
        let key = &record.data[i].0;
        let data_type = match row.schema.get(key.as_str()) {
            Some(dt) => dt,
            None => {
                return Err(
                    ConductorError::InvalidColumnNames(
                        String::from_str(
                            "the record names a column that the schema does not declare",
                        ),
                    ),
                );
            },
        };
        match to_solid_type_from_json(&record.data[i].1, data_type) {
            Ok(param) => {
                columns.push(key.clone());
                params_store.push(param);
            },
            Err(_) => {
                return Err(
                    ConductorError::InvalidData(
                        String::from_str("a value does not match its declared column type"),
                    ),
                );
            },
        }
        i = i + 1;
        proof {
            assert(record.data@.skip(i - 1).drop_first() =~= record.data@.skip(i as int));
        }
    }
    proof {
        assert(record.data@.skip(n as int).len() == 0);
    }
    let sql_result = get_insert_sql(record, &columns);
    let sql = match sql_result {
        Ok(s) => s,
        Err(_) => {
            return Err(ConductorError::InternalError(String::from_str("no columns to insert")));
        },
    };
    proof {
        let lhs = columns@.map_values(|c: String| c@);
        let rhs = record.data@.map_values(|e: (String, DynValue)| e.0@);
        assert(lhs =~= rhs);
    }
    Ok((sql, params_store))
}


/// Ingests one emitted record: looks the producer up, checks the field set
/// against the registered schema, and coerces each value; the lookup's
/// error, `InvalidSchema`, or the coercion's error is reported as it comes.
pub fn emit(catalog: &ProducerCatalog, data: &Emit) -> (r: EmitResult)
    ensures
        data.uuid@.len() == 0 ==> r.error is InvalidUuid,
        data.uuid@.len() > 0 && !catalog_contains(catalog@, data.uuid@) ==> r.error is Unregistered,
        data.uuid@.len() > 0 && catalog_contains(catalog@, data.uuid@) && !catalog_record_for(
            catalog@,
            data.uuid@,
        ).wf() ==> r.error is InternalError,
        emit_reaches_schema(catalog@, *data) && !emit_data_matches(
            data.data@,
            catalog_record_for(catalog@, data.uuid@).schema@,
        ) ==> r.error is InvalidSchema,
        emit_reaches_schema(catalog@, *data) && emit_data_matches(
            data.data@,
            catalog_record_for(catalog@, data.uuid@).schema@,
        ) && emit_scan(catalog_record_for(catalog@, data.uuid@).schema@, data.data@) is Some
            ==> r.error is InvalidData,
        emit_reaches_schema(catalog@, *data) && emit_data_matches(
            data.data@,
            catalog_record_for(catalog@, data.uuid@).schema@,
        ) && emit_scan(catalog_record_for(catalog@, data.uuid@).schema@, data.data@) is None
            ==> r.error is NoError,
{
    let producer = match catalog.lookup(data.uuid.as_str()) {
        Ok(p) => p,
        Err(e) => {
            return EmitResult { error: e };
        },
    };
    if !validate_emit_schema(data, producer) {
        return EmitResult {
            error: ConductorError::InvalidSchema(
                String::from_str("the emitted field set does not match the registered schema"),
            ),
        };
    }
    proof {
        assert(data_contains_key(data.data@, producer.schema@[0].0));
        assert(data.data@.len() > 0);
    }
    match prepare_emit(producer, data) {
        Ok(_) => EmitResult { error: ConductorError::NoError },
        Err(e) => {
            proof {
                lemma_scan_no_unknown(producer.schema@, data.data@);
                assert(emit_scan(producer.schema@, data.data@) == Some(EmitFault::BadValue));
            }
            EmitResult { error: e }
        },
    }
}

/// True when the record's identity reaches a well-formed catalog row.
pub open spec fn emit_reaches_schema(rows: Seq<Producer>, data: Emit) -> bool {
    data.uuid@.len() > 0 && catalog_contains(rows, data.uuid@) && catalog_record_for(
        rows,
        data.uuid@,
    ).wf()
}

/// The result hands back exactly this identity.
pub open spec fn result_id_is(r: RegistrationResult, c: Seq<char>) -> bool {
    r.uuid matches Some(id) && id@ == c
}

/// Registers a producer: validates the registration, assigns an identity,
/// and records the name, identity and schema in the catalog; an identity
/// already present is refused, so no identity is ever registered twice.
pub fn register(catalog: &mut ProducerCatalog, registration: &Registration) -> (r:
    RegistrationResult)
    ensures
        (r.error is NoError <==> r.uuid is Some),
        !(r.error is NoError) ==> final(catalog)@ == old(catalog)@,
        forall|id: Seq<char>|
            catalog_contains(old(catalog)@, id) ==> catalog_contains(final(catalog)@, id),
        !name_ok(*registration) ==> r.error is NameInvalid,
        name_ok(*registration) && !custom_id_ok(*registration) ==> r.error is InvalidUuid,
        name_ok(*registration) && custom_id_ok(*registration) && schema_has_ts(*registration)
            ==> r.error is TimestampDefined,
        name_ok(*registration) && custom_id_ok(*registration) && !schema_has_ts(*registration)
            && !schema_nonempty(*registration) ==> r.error is NoMembers,
        name_ok(*registration) && custom_id_ok(*registration) && !schema_has_ts(*registration)
            && schema_nonempty(*registration) && !column_names_ok(*registration)
            ==> r.error is InvalidColumnNames,
        name_ok(*registration) && custom_id_ok(*registration) && !schema_has_ts(*registration)
            && schema_nonempty(*registration) && column_names_ok(*registration) && !schema_size_ok(
            *registration,
        ) ==> r.error is TooManyColumns,
        !registration_valid(*registration) ==> !(r.error is NoError),
        registration_valid(*registration) ==> (registration.use_custom_id matches Some(c)
            ==> (catalog_contains(old(catalog)@, c@) ==> r.error is InvalidUuid)),
        registration_valid(*registration) ==> (registration.use_custom_id matches Some(c)
            ==> (!catalog_contains(old(catalog)@, c@) ==> (r.error is NoError && result_id_is(
            r,
            c@,
        )))),
        registration_valid(*registration) && registration.use_custom_id is None ==> (
        r.error is NoError || r.error is InvalidUuid),
        r.error is NoError ==> registered_here(old(catalog)@, final(catalog)@, *registration, r),
{
    let error_code = validate_registration(registration);
    let failed = !matches!(error_code, ConductorError::NoError);
    if failed {
        return RegistrationResult { error: error_code, uuid: None };
    }
    let uuid = get_or_create_uuid_for_registration(registration);
    proof {
        if registration.use_custom_id is None {
            assert(!uuid@.contains('.')) by {
                if uuid@.contains('.') {
                    let k = choose|k: int| 0 <= k < uuid@.len() && uuid@[k] == '.';
                    assert(is_uuid_char(uuid@[k]));
                }
            }
            assert(!uuid@.contains('"')) by {
                if uuid@.contains('"') {
                    let k = choose|k: int| 0 <= k < uuid@.len() && uuid@[k] == '"';
                    assert(is_uuid_char(uuid@[k]));
                }
            }
        }
    }
    let row = Producer {
        name: clone_string(&registration.name),
        uuid: clone_string(&uuid),
        schema: registration.schema.clone(),
    };
    match catalog.insert(row) {
        Ok(_) => {
            proof {
                use_type_invariant(&*catalog);
                lemma_catalog_unique_index(catalog@, uuid@, old(catalog)@.len() as int);
                assert forall|id: Seq<char>|
                    catalog_contains(old(catalog)@, id) implies catalog_contains(
                    catalog@,
                    id,
                ) by {
                    let k = choose|k: int|
                        0 <= k < old(catalog)@.len() && old(catalog)@[k].uuid@ == id;
                    assert(catalog@[k].uuid@ == id);
                }
            }
            RegistrationResult { error: ConductorError::NoError, uuid: Some(uuid) }
        },
        Err(err) => RegistrationResult { error: err, uuid: None },
    }
}

/// What a successful registration leaves behind: one new catalog row under
/// the returned identity, carrying the registration's name and schema; the
/// identity was free before, quotes cleanly, and is the custom one when one
/// was supplied.
pub open spec fn registered_here(
    before: Seq<Producer>,
    after: Seq<Producer>,
    registration: Registration,
    r: RegistrationResult,
) -> bool {
    &&& registration_valid(registration)
    &&& r.uuid matches Some(id) && {
        &&& id@.len() > 0
        &&& !id@.contains('.')
        &&& !id@.contains('"')
        &&& !catalog_contains(before, id@)
        &&& catalog_contains(after, id@)
        &&& after =~= before.push(catalog_record_for(after, id@))
        &&& catalog_record_for(after, id@).name@ == registration.name@
        &&& catalog_record_for(after, id@).uuid@ == id@
        &&& catalog_record_for(after, id@).schema@ == registration.schema@
        &&& (registration.use_custom_id matches Some(c) ==> id@ == c@)
    }
}

/// One custom identity registers at most once: a successful registration
/// ends with its identity in the catalog, and a registration succeeds only
/// when its identity was absent when it ran, so of two registrations that
/// supply the same custom identity, one after the other, at most the first
/// can have succeeded.
pub proof fn lemma_custom_id_registered_once(
    before: Seq<Producer>,
    mid: Seq<Producer>,
    after: Seq<Producer>,
    first: Registration,
    second: Registration,
    r1: RegistrationResult,
    r2: RegistrationResult,
    c: Seq<char>,
)
    requires
        first.use_custom_id matches Some(x) && x@ == c,
        second.use_custom_id matches Some(y) && y@ == c,
        registered_here(before, mid, first, r1),
    ensures
        !registered_here(mid, after, second, r2),
{
    let id1 = r1.uuid->0;
    assert(id1@ == c);
    assert(catalog_contains(mid, c));
    if registered_here(mid, after, second, r2) {
        let id2 = r2.uuid->0;
        assert(id2@ == c);
        assert(!catalog_contains(mid, c));
    }
}

/// Clones a string, keeping its characters.
fn clone_string(s: &String) -> (r: String)
    ensures
        r@ == s@,
{
    s.clone()
}

/// True when the identity is registered: the catalog lookup succeeds.
pub fn check_registered(catalog: &ProducerCatalog, uuid: &str) -> (b: bool)
    ensures
        b == (uuid@.len() > 0 && catalog_contains(catalog@, uuid@) && catalog_record_for(
            catalog@,
            uuid@,
        ).wf()),
{
    match catalog.lookup(uuid) {
        Ok(_) => true,
        Err(_) => false,
    }
}

} // verus!
