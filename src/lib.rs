//! Verified core of a desktop client: an HTTP relay that keeps session
//! cookies, and the decisions of a self-update pipeline.
use vstd::prelude::*;

pub mod pipeline;
pub mod relay;
pub mod session;
pub mod source;
pub mod text;

verus! {

} // verus!
