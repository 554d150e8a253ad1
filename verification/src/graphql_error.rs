use vstd::prelude::*;
use serde_json::Value;

verus! {

/// An error that a GraphQL server reports about an operation.
#[derive(Clone, Debug)]
pub struct GraphQLError {
    pub locations: Option<Vec<SourceLocation>>,
    pub path: Option<Vec<StringOrU64>>,
    /// The AST nodes of the error, kept as the server sent them.
    pub nodes: Option<Vec<Value>>,
    pub source: Option<Source>,
    pub positions: Option<Vec<u64>>,
    pub original_error: Option<Error>,
    pub extensions: Option<Value>,
    /// The error's message; on the wire its fields stand beside the others.
    pub error: Error,
}

/// A place in the GraphQL document.
#[derive(Clone, Copy, Debug, PartialEq, Eq, Structural)]
pub struct SourceLocation {
    pub line: u64,
    pub column: u64,
}

/// One step of a response path: a field name or a list index.
#[derive(Clone, Debug)]
pub enum StringOrU64 {
    String(String),
    U64(u64),
}

/// The GraphQL document an error refers to.
#[derive(Clone, Debug)]
pub struct Source {
    pub body: String,
    pub name: String,
    pub location_offset: String,
}

/// The message of an error.
#[derive(Clone, Debug)]
pub struct Error {
    pub message: String,
}

impl GraphQLError {
    /// The error's message.
    pub fn description(&self) -> (r: &str)
        ensures
            r@ == self.error.message@,
    {
        self.error.message.as_str()
    }

    /// The text that the error displays as: its message.
    pub fn to_display_string(&self) -> (r: String)
        ensures
            r@ == self.error.message@,
    {
        self.error.message.clone()
    }
}

} // verus!
