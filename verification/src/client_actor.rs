use vstd::prelude::*;

verus! {

/// A client that keeps every hook of the protocol at its default.
#[derive(Clone, Copy, Debug, Default)]
pub struct DefaultClientActor {}

} // verus!
