use vstd::prelude::*;
use crate::execution_result::ExecutionResult;
use crate::graphql_error::GraphQLError;

verus! {

/// The errors of an operation that the server reported with an `error` message.
#[derive(Debug)]
pub struct ResponseError(pub Vec<GraphQLError>);

/// One item of a subscription's stream.
pub type Response = Result<ExecutionResult, ResponseError>;

/// The messages of `errors`, one after the other with nothing between them.
pub open spec fn joined_messages(errors: Seq<GraphQLError>) -> Seq<char>
    decreases errors.len(),
{
    if errors.len() == 0 {
        Seq::<char>::empty()
    } else {
        joined_messages(errors.drop_last()) + errors.last().error.message@
    }
}

/// The text that Rust's `Debug` formatting gives for a string: the string in double
/// quotes, with the characters that need it escaped.
pub uninterp spec fn debug_text(s: Seq<char>) -> Seq<char>;

/// `format!("{:?}", s)` on a string slice. Claimed: the result is a function of the
/// characters of `s` alone, named `debug_text`; what that function is (std's escaping
/// rules for `str`'s `Debug`) is not written out.
#[verifier::external_body]
fn debug_quoted(s: &str) -> (r: String)
    ensures
        r@ == debug_text(s@),
{
    format!("{:?}", s)
}

impl ResponseError {
    /// The messages of all the errors, joined, in the `Debug` form of a string.
    pub fn to_display_string(&self) -> (r: String)
        ensures
            r@ == debug_text(joined_messages(self.0@)),
    {
        let mut joined = String::new();
        let mut i: usize = 0;
        while i < self.0.len()
            invariant
                i <= self.0@.len(),
                joined@ == joined_messages(self.0@.take(i as int)),
            decreases self.0@.len() - i,
        {
            assert(self.0@.take(i as int + 1).drop_last() =~= self.0@.take(i as int));
            joined.append(self.0[i].error.message.as_str());
            i = i + 1;
        }
        assert(self.0@.take(i as int) =~= self.0@);
        debug_quoted(joined.as_str())
    }
}

} // verus!
