use vstd::prelude::*;

verus! {

/// A GraphQL request: the document, the operation to run, its variables and extensions.
#[derive(Clone, Debug, Default)]
pub struct Request<TVariables = (), TExtensions = ()> {
    pub query: String,
    pub operation_name: Option<String>,
    pub variables: TVariables,
    pub extensions: Option<TExtensions>,
}

/// Tells the unit type apart from the others.
trait IsUnit<T> {
    fn is_unit(&self) -> (r: bool)
        default_ensures
            !r,
    {
        false
    }
}

impl IsUnit<()> for () {
    fn is_unit(&self) -> (r: bool)
        ensures
            r,
    {
        true
    }
}

} // verus!
