//! Column types and the schema a producer commits to at registration time.
//!
//! A schema maps column names to column types. It is held as a vector of
//! name/type pairs whose keys are unique, so that contracts can speak both
//! of the entry order (which fixes the generated DDL text) and of the
//! mapping itself.

use vstd::prelude::*;

verus! {

/// The closed set of column types a producer may declare.
#[derive(Debug, Clone, Copy, PartialEq, Eq, Structural)]
pub enum DataTypes {
    Int,
    Float,
    Time,
    String,
    Binary,
    Bool,
    Double,
}

/// The column-type label used by the store for each declared type.
pub open spec fn quest_type_label(t: DataTypes) -> Seq<char> {
    match t {
        DataTypes::Int => "long"@,
        DataTypes::Float => "float"@,
        DataTypes::Time => "timestamp"@,
        DataTypes::Binary => "binary"@,
        DataTypes::String => "string"@,
        DataTypes::Bool => "boolean"@,
        DataTypes::Double => "double"@,
    }
}

impl DataTypes {
    /// Converts the enum to the string representation used by the store's
    /// column types.
    pub fn to_quest_type_str(&self) -> (r: &str)
        ensures
            r@ == quest_type_label(*self),
    {
        match self {
            DataTypes::Int => "long",
            DataTypes::Float => "float",
            DataTypes::Time => "timestamp",
            DataTypes::Binary => "binary",
            DataTypes::String => "string",
            DataTypes::Bool => "boolean",
            DataTypes::Double => "double",
        }
    }
}

/// True when no column name occurs twice in `s`.
pub open spec fn unique_keys(s: Seq<(Seq<char>, DataTypes)>) -> bool {
    forall|i: int, j: int|
        0 <= i < s.len() && 0 <= j < s.len() && i != j ==> s[i].0 != s[j].0
}

/// True when `s` has a column named `k`.
pub open spec fn schema_contains(s: Seq<(Seq<char>, DataTypes)>, k: Seq<char>) -> bool {
    exists|i: int| 0 <= i < s.len() && s[i].0 == k
}

/// The position of column `k` in `s` (meaningful only when present).
pub open spec fn schema_index_of(s: Seq<(Seq<char>, DataTypes)>, k: Seq<char>) -> int {
    choose|i: int| 0 <= i < s.len() && s[i].0 == k
}

/// The declared type of column `k` in `s` (meaningful only when present).
pub open spec fn schema_type_of(s: Seq<(Seq<char>, DataTypes)>, k: Seq<char>) -> DataTypes {
    s[schema_index_of(s, k)].1
}

/// When keys are unique, any index holding `k` is the index of `k`.
pub proof fn lemma_unique_index(s: Seq<(Seq<char>, DataTypes)>, k: Seq<char>, i: int)
    requires
        unique_keys(s),
        0 <= i < s.len(),
        s[i].0 == k,
    ensures
        schema_contains(s, k),
        schema_index_of(s, k) == i,
        schema_type_of(s, k) == s[i].1,
{
    assert(schema_contains(s, k));
    let j = schema_index_of(s, k);
    assert(0 <= j < s.len() && s[j].0 == k);
    if i != j {
        assert(s[i].0 != s[j].0);
    }
}

/// The named, typed column set a producer commits to at registration time.
///
/// Entries are kept in insertion order; inserting an existing name replaces
/// its type in place. Column names are unique.
#[derive(Debug)]
pub struct Schema {
    cols: Vec<(String, DataTypes)>,
}

impl View for Schema {
    type V = Seq<(Seq<char>, DataTypes)>;

    closed spec fn view(&self) -> Seq<(Seq<char>, DataTypes)> {
        Seq::new(self.cols@.len(), |i: int| (self.cols@[i].0@, self.cols@[i].1))
    }
}

impl Schema {
    /// Column names never repeat; holds of every schema by construction.
    #[verifier::type_invariant]
    pub open spec fn type_inv(self) -> bool {
        unique_keys(self@)
    }

    /// A schema with no columns.
    pub fn new() -> (r: Self)
        ensures
            r@ =~= Seq::<(Seq<char>, DataTypes)>::empty(),
    {
        Schema { cols: Vec::new() }
    }

    /// The number of columns.
    pub fn len(&self) -> (n: usize)
        ensures
            n == self@.len(),
    {
        self.cols.len()
    }

    /// True when the schema has no columns.
    pub fn is_empty(&self) -> (b: bool)
        ensures
            b == (self@.len() == 0),
    {
        self.cols.len() == 0
    }

    /// The columns in insertion order.
    pub fn entries(&self) -> (r: &Vec<(String, DataTypes)>)
        ensures
            r@.len() == self@.len(),
            forall|i: int|
                0 <= i < r@.len() ==> (#[trigger] r@[i]).0@ == self@[i].0 && r@[i].1 == self@[i].1,
    {
        &self.cols
    }

    /// True when a column with this name is declared.
    pub fn contains_column(&self, column_name: &str) -> (b: bool)
        ensures
            b == schema_contains(self@, column_name@),
    {
        let n = self.cols.len();
        let mut i: usize = 0;
        while i < n
            invariant
                n == self.cols.len(),
                0 <= i <= n,
                forall|j: int| 0 <= j < i ==> self@[j].0 != column_name@,
            decreases n - i,
        {
            if str_eq(self.cols[i].0.as_str(), column_name) {
                assert(self@[i as int].0 == column_name@);
                return true;
            }
            i = i + 1;
        }
        false
    }

    /// The declared type of the named column, if any.
    pub fn get(&self, column_name: &str) -> (r: Option<DataTypes>)
        ensures
            r is Some <==> schema_contains(self@, column_name@),
            r matches Some(t) ==> t == schema_type_of(self@, column_name@),
    {
        proof {
            use_type_invariant(self);
        }
        let n = self.cols.len();
        let mut i: usize = 0;
        while i < n
            invariant
                n == self.cols.len(),
                0 <= i <= n,
                unique_keys(self@),
                forall|j: int| 0 <= j < i ==> self@[j].0 != column_name@,
            decreases n - i,
        {
            if str_eq(self.cols[i].0.as_str(), column_name) {
                proof {
                    lemma_unique_index(self@, column_name@, i as int);
                }
                return Some(self.cols[i].1);
            }
            i = i + 1;
        }
        None
    }

    /// Adds a column, replacing the type of an already declared name in place.
    pub fn insert(&mut self, name: String, col_type: DataTypes)
        ensures
            old(self)@.len() <= final(self)@.len() <= old(self)@.len() + 1,
            schema_contains(old(self)@, name@) ==> final(self)@ =~= old(self)@.update(
                schema_index_of(old(self)@, name@),
                (name@, col_type),
            ),
            !schema_contains(old(self)@, name@) ==> final(self)@ =~= old(self)@.push(
                (name@, col_type),
            ),
            schema_contains(final(self)@, name@),
            schema_type_of(final(self)@, name@) == col_type,
    {
        proof {
            use_type_invariant(&*self);
        }
        let ghost old_view = self@;
        let mut cols: Vec<(String, DataTypes)> = Vec::new();
        std::mem::swap(&mut cols, &mut self.cols);
        let ghost n = cols@.len() as int;
        match find_col(&cols, name.as_str()) {
            Some(i) => {
                proof {
                    lemma_unique_index(old_view, name@, i as int);
                }
                let ghost pre = cols@;
                cols.set(i, (name, col_type));
                proof {
                    assert(old_view[i as int].0 == pre[i as int].0@);
                    assert forall|j: int, l: int|
                        0 <= j < n && 0 <= l < n && j != l implies (#[trigger] cols@[j]).0@ != (
                    #[trigger] cols@[l]).0@ by {
                        if j != i && l != i {
                            assert(old_view[j].0 == pre[j].0@);
                            assert(old_view[l].0 == pre[l].0@);
                            assert(old_view[j].0 != old_view[l].0);
                        } else if j == i {
                            assert(cols@[j].0@ == name@);
                            assert(old_view[l].0 == pre[l].0@);
                            assert(old_view[l].0 != old_view[i as int].0);
                        } else {
                            assert(cols@[l].0@ == name@);
                            assert(old_view[j].0 == pre[j].0@);
                            assert(old_view[j].0 != old_view[i as int].0);
                        }
                    }
                    let snew = Schema { cols };
                    assert forall|j: int, l: int|
                        0 <= j < snew@.len() && 0 <= l < snew@.len() && j != l implies (
                    #[trigger] snew@[j]).0 != (#[trigger] snew@[l]).0 by {
                        assert(snew@[j].0 == cols@[j].0@);
                        assert(snew@[l].0 == cols@[l].0@);
                    }
                    assert(unique_keys(snew@));
                }
                self.cols = cols;
                proof {
                    assert forall|k: int| 0 <= k < n implies final(self)@[k] == old_view.update(
                        i as int,
                        (name@, col_type),
                    )[k] by {
                        if k != i {
                            assert(old_view[k] == (pre[k].0@, pre[k].1));
                        }
                    }
                    assert(final(self)@ =~= old_view.update(i as int, (name@, col_type)));
                    lemma_unique_index(final(self)@, name@, i as int);
                }
            },
            None => {
                let ghost pre = cols@;
                cols.push((name, col_type));
                proof {
                    let snew = Schema { cols };
                    assert forall|j: int, l: int|
                        0 <= j < snew@.len() && 0 <= l < snew@.len() && j != l implies (
                    #[trigger] snew@[j]).0 != (#[trigger] snew@[l]).0 by {
                        assert(snew@[j].0 == cols@[j].0@);
                        assert(snew@[l].0 == cols@[l].0@);
                        if j < n && l < n {
                            assert(old_view[j].0 == pre[j].0@);
                            assert(old_view[l].0 == pre[l].0@);
                            assert(old_view[j].0 != old_view[l].0);
                        } else if j == n {
                            assert(cols@[j].0@ == name@);
                            assert(old_view[l].0 == pre[l].0@);
                            assert(!schema_contains(old_view, name@));
                        } else {
                            assert(cols@[l].0@ == name@);
                            assert(old_view[j].0 == pre[j].0@);
                            assert(!schema_contains(old_view, name@));
                        }
                    }
                    assert(unique_keys(snew@));
                }
                self.cols = cols;
                proof {
                    assert forall|k: int| 0 <= k < n + 1 implies final(self)@[k] == old_view.push(
                        (name@, col_type),
                    )[k] by {
                        if k < n {
                            assert(old_view[k] == (pre[k].0@, pre[k].1));
                        }
                    }
                    assert(final(self)@ =~= old_view.push((name@, col_type)));
                    lemma_unique_index(final(self)@, name@, n);
                }
            },
        }
    }
}

/// The position of the entry carrying `name`, if any.
fn find_col(cols: &Vec<(String, DataTypes)>, name: &str) -> (r: Option<usize>)
    ensures
        r matches Some(i) ==> i < cols@.len() && cols@[i as int].0@ == name@,
        r is None ==> forall|j: int| 0 <= j < cols@.len() ==> (#[trigger] cols@[j]).0@ != name@,
{
    let n = cols.len();
    let mut i: usize = 0;
    while i < n
        invariant
            n == cols@.len(),
            0 <= i <= n,
            forall|j: int| 0 <= j < i ==> (#[trigger] cols@[j]).0@ != name@,
        decreases n - i,
    {
        if str_eq(cols[i].0.as_str(), name) {
            return Some(i);
        }
        i = i + 1;
    }
    None
}

impl Clone for Schema {
    /// Clones the schema, keeping every entry and its position.
    fn clone(&self) -> (r: Self)
        ensures
            r@ == self@,
    {
        proof {
            use_type_invariant(self);
        }
        let n = self.cols.len();
        let mut cols: Vec<(String, DataTypes)> = Vec::new();
        let mut i: usize = 0;
        while i < n
            invariant
                n == self.cols.len(),
                0 <= i <= n,
                cols@.len() == i,
                forall|j: int|
                    0 <= j < i ==> ((#[trigger] cols@[j]).0@, cols@[j].1) == self@[j],
            decreases n - i,
        {
            let name = self.cols[i].0.clone();
            cols.push((name, self.cols[i].1));
            i = i + 1;
        }
        let r = Schema { cols };
        proof {
            assert(r@ =~= self@);
        }
        r
    }
}

/// Compares two string slices character by character.
pub(crate) fn str_eq(a: &str, b: &str) -> (r: bool)
    ensures
        r == (a@ == b@),
{
    let an = a.unicode_len();
    let bn = b.unicode_len();
    if an != bn {
        return false;
    }
    let mut i: usize = 0;
    while i < an
        invariant
            an == a@.len(),
            bn == b@.len(),
            an == bn,
            0 <= i <= an,
            forall|j: int| 0 <= j < i ==> a@[j] == b@[j],
        decreases an - i,
    {
        if a.get_char(i) != b.get_char(i) {
            return false;
        }
        i = i + 1;
    }
    proof {
        assert(a@ =~= b@);
    }
    true
}

/// Implemented by types that know the column type standing for them.
pub trait ToConductorDataType {
    /// The column type for the implementing type.
    fn conductor_data_type() -> DataTypes;
}

impl ToConductorDataType for u8 {
    fn conductor_data_type() -> DataTypes {
        DataTypes::Int
    }
}

impl ToConductorDataType for u16 {
    fn conductor_data_type() -> DataTypes {
        DataTypes::Int
    }
}

impl ToConductorDataType for u32 {
    fn conductor_data_type() -> DataTypes {
        DataTypes::Int
    }
}

impl ToConductorDataType for i8 {
    fn conductor_data_type() -> DataTypes {
        DataTypes::Int
    }
}

impl ToConductorDataType for i16 {
    fn conductor_data_type() -> DataTypes {
        DataTypes::Int
    }
}

impl ToConductorDataType for i32 {
    fn conductor_data_type() -> DataTypes {
        DataTypes::Int
    }
}

impl ToConductorDataType for i64 {
    fn conductor_data_type() -> DataTypes {
        DataTypes::Int
    }
}

impl ToConductorDataType for String {
    fn conductor_data_type() -> DataTypes {
        DataTypes::String
    }
}

impl ToConductorDataType for bool {
    fn conductor_data_type() -> DataTypes {
        DataTypes::Bool
    }
}

/// Implemented by types that can state their full column set.
pub trait ConductorSchema {
    /// The schema describing the implementing type.
    fn generate_schema() -> Schema;
}

/// Convenience lookups shared by schema-like types.
pub trait SchemaHelpers {
    /// True when a column with this name is declared.
    fn contains_column(&self, column_name: &str) -> bool;
}

impl SchemaHelpers for Schema {
    fn contains_column(&self, column_name: &str) -> bool {
        Schema::contains_column(self, column_name)
    }
}

/// A helper for building a schema one column at a time.
pub struct Builder {
    schema: Schema,
}

impl View for Builder {
    type V = Seq<(Seq<char>, DataTypes)>;

    closed spec fn view(&self) -> Seq<(Seq<char>, DataTypes)> {
        self.schema@
    }
}

impl Builder {
    /// A builder holding no columns yet.
    pub fn new() -> (r: Self)
        ensures
            r@ =~= Seq::<(Seq<char>, DataTypes)>::empty(),
    {
        Builder { schema: Schema::new() }
    }

    /// A builder holding no columns yet; the capacity hint is advisory.
    pub fn with_capacity(n: usize) -> (r: Self)
        ensures
            r@ =~= Seq::<(Seq<char>, DataTypes)>::empty(),
    {
        let _ = n;
        Builder { schema: Schema::new() }
    }

    /// Adds a column of the given type.
    pub fn add_column(self, name: String, col_type: DataTypes) -> (r: Self)
        ensures
            builder_step(self@, r@, name@, col_type),
    {
        let mut s = self;
        s.schema.insert(name, col_type);
        s
    }

    /// Adds an `Int` column.
    pub fn add_int(self, name: String) -> (r: Self)
        ensures
            builder_step(self@, r@, name@, DataTypes::Int),
    {
        self.add_column(name, DataTypes::Int)
    }

    /// Adds a `Float` column.
    pub fn add_float(self, name: String) -> (r: Self)
        ensures
            builder_step(self@, r@, name@, DataTypes::Float),
    {
        self.add_column(name, DataTypes::Float)
    }

    /// Adds a `Time` column.
    pub fn add_time(self, name: String) -> (r: Self)
        ensures
            builder_step(self@, r@, name@, DataTypes::Time),
    {
        self.add_column(name, DataTypes::Time)
    }

    /// Adds a `Binary` column.
    pub fn add_binary(self, name: String) -> (r: Self)
        ensures
            builder_step(self@, r@, name@, DataTypes::Binary),
    {
        self.add_column(name, DataTypes::Binary)
    }

    /// Adds a `String` column.
    pub fn add_string(self, name: String) -> (r: Self)
        ensures
            builder_step(self@, r@, name@, DataTypes::String),
    {
        self.add_column(name, DataTypes::String)
    }

    /// Adds a `Bool` column.
    pub fn add_bool(self, name: String) -> (r: Self)
        ensures
            builder_step(self@, r@, name@, DataTypes::Bool),
    {
        self.add_column(name, DataTypes::Bool)
    }

    /// Adds a `Double` column.
    pub fn add_double(self, name: String) -> (r: Self)
        ensures
            builder_step(self@, r@, name@, DataTypes::Double),
    {
        self.add_column(name, DataTypes::Double)
    }

    /// Hands out the finished schema.
    pub fn build(self) -> (r: Schema)
        ensures
            r@ == self@,
    {
        self.schema
    }
}

/// What one builder step does: the new entry is appended, or replaces the
/// entry already carrying that name, in place.
pub open spec fn builder_step(
    before: Seq<(Seq<char>, DataTypes)>,
    after: Seq<(Seq<char>, DataTypes)>,
    name: Seq<char>,
    col_type: DataTypes,
) -> bool {
    &&& schema_contains(before, name) ==> after =~= before.update(
        schema_index_of(before, name),
        (name, col_type),
    )
    &&& !schema_contains(before, name) ==> after =~= before.push((name, col_type))
    &&& schema_contains(after, name)
    &&& schema_type_of(after, name) == col_type
}

} // verus!
