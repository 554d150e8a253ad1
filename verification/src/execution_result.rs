use vstd::prelude::*;
use serde_json::Value;
use crate::graphql_error::GraphQLError;

verus! {

/// The result of one GraphQL execution: its data, the errors it met and the
/// server's extensions.
#[derive(Clone, Debug, Default)]
pub struct ExecutionResult {
    pub data: Value,
    pub errors: Option<Vec<GraphQLError>>,
    pub extensions: Option<Value>,
}

} // verus!
