use vstd::prelude::*;
use serde_json::Value;

verus! {

/// A JSON document as `serde_json` holds it. The library only carries such
/// values from one side of the protocol to the other and never looks inside.
#[verifier::external_type_specification]
#[verifier::external_body]
pub struct ExJsonValue(Value);

/// `Clone` of `serde_json::Value`, which serde_json derives: the copy is the same
/// JSON document as the original.
pub assume_specification[ <Value as Clone>::clone ](v: &Value) -> (r: Value)
    ensures
        r == *v,
;

} // verus!
