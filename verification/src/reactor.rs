//! Registration of actions: named operations with an input schema and an
//! optional output schema, performed by reactors.

use vstd::prelude::*;
use crate::schema::{schema_contains, ConductorSchema, Schema};

verus! {

/// The information required to register an action.
#[derive(Debug)]
pub struct ActionRegistration {
    /// A human label for the action.
    pub name: String,
    /// The columns the action consumes.
    pub input_schema: Schema,
    /// The columns the action yields, if it yields any.
    pub output_schema: Option<Schema>,
    /// A caller-chosen identity, for devices without persistent storage.
    pub use_custom_id: Option<String>,
}

impl ActionRegistration {
    /// Bundles a name, the schemas and an optional custom identity.
    pub fn new(
        name: String,
        input_schema: Schema,
        output_schema: Option<Schema>,
        custom_id: Option<String>,
    ) -> (r: Self)
        ensures
            r.name == name,
            r.input_schema == input_schema,
            r.output_schema == output_schema,
            r.use_custom_id == custom_id,
    {
        ActionRegistration { name, input_schema, output_schema, use_custom_id: custom_id }
    }

    /// A registration with an empty input schema and no output schema.
    pub fn new_empty(name: String, custom_id: Option<String>) -> (r: Self)
        ensures
            r.name == name,
            r.input_schema@ =~= Seq::<(Seq<char>, crate::schema::DataTypes)>::empty(),
            r.output_schema is None,
            r.use_custom_id == custom_id,
    {
        ActionRegistration {
            name,
            input_schema: Schema::new(),
            output_schema: None,
            use_custom_id: custom_id,
        }
    }

    /// The action's name.
    pub fn get_name(&self) -> (r: &str)
        ensures
            r@ == self.name@,
    {
        self.name.as_str()
    }

    /// The custom identity, if one was supplied.
    pub fn get_custom_id(&self) -> (r: Option<&str>)
        ensures
            r is Some <==> self.use_custom_id is Some,
            self.use_custom_id matches Some(c) ==> (r matches Some(s) && s@ == c@),
    {
        match &self.use_custom_id {
            Some(c_id) => Some(c_id.as_str()),
            None => None,
        }
    }

    /// True when a custom identity was supplied.
    pub fn has_custom_id(&self) -> (b: bool)
        ensures
            b == (self.use_custom_id is Some),
    {
        self.use_custom_id.is_some()
    }

    /// True when the input schema declares this column.
    pub fn input_contains_column(&self, column_name: &str) -> (b: bool)
        ensures
            b == schema_contains(self.input_schema@, column_name@),
    {
        self.input_schema.contains_column(column_name)
    }

    /// True when there is an output schema and it declares this column.
    pub fn output_contains_column(&self, column_name: &str) -> (b: bool)
        ensures
            b == (self.output_schema matches Some(s) && schema_contains(s@, column_name@)),
    {
        if let Some(output_schema) = &self.output_schema {
            return output_schema.contains_column(column_name);
        }
        false
    }

    /// The number of input columns.
    pub fn input_schema_len(&self) -> (n: usize)
        ensures
            n == self.input_schema@.len(),
    {
        self.input_schema.len()
    }

    /// The number of output columns; zero when there is no output schema.
    pub fn output_schema_len(&self) -> (n: usize)
        ensures
            self.output_schema matches Some(s) ==> n == s@.len(),
            self.output_schema is None ==> n == 0,
    {
        if let Some(output_schema) = &self.output_schema {
            return output_schema.len();
        }
        0
    }

    /// The input schema.
    pub fn get_input_schema(&self) -> (r: &Schema)
        ensures
            *r == self.input_schema,
    {
        &self.input_schema
    }

    /// The output schema, if any.
    pub fn get_output_schema(&self) -> (r: &Option<Schema>)
        ensures
            *r == self.output_schema,
    {
        &self.output_schema
    }
}

/// An operation a reactor can perform, with its data and schemas.
pub trait Action<I, O> {
    /// The action's input data.
    fn input_data(&self) -> &I;

    /// The schema of the input data.
    fn input_schema() -> Schema;

    /// The action's output data.
    fn output_data(&self) -> &O;

    /// The schema of the output data.
    fn output_schema() -> Schema;

    /// The custom identity, if one was supplied.
    fn custom_id(&self) -> Option<&str>;

    /// The action's name.
    fn name(&self) -> &str;
}

/// A ready-made action: a pair of data values with a name and an optional
/// custom identity.
pub struct BasicAction<I, O> {
    input_data: I,
    output_data: O,
    custom_id: Option<String>,
    name: String,
}

impl<I, O> BasicAction<I, O> {
    /// Bundles the data values, an optional custom identity and a name.
    pub fn new(input_data: I, output_data: O, custom_id: Option<String>, name: String) -> Self {
        BasicAction { input_data, output_data, custom_id, name }
    }
}

impl<I: ConductorSchema, O: ConductorSchema> Action<I, O> for BasicAction<I, O> {
    fn input_data(&self) -> &I {
        &self.input_data
    }

    fn input_schema() -> Schema {
        I::generate_schema()
    }

    fn output_data(&self) -> &O {
        &self.output_data
    }

    fn output_schema() -> Schema {
        O::generate_schema()
    }

    fn custom_id(&self) -> Option<&str> {
        match &self.custom_id {
            None => None,
            Some(id) => Some(id.as_str()),
        }
    }

    fn name(&self) -> &str {
        self.name.as_str()
    }
}

} // verus!
