// A proving service's core: the staged proof pipeline, the classification of
// its failures, and the bearer-token gate in front of it.
use vstd::prelude::*;

pub mod auth;
pub mod failure;
pub mod mode;
pub mod pipeline;
pub mod server;

verus! {

} // verus!
