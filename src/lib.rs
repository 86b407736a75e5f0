use vstd::prelude::*;

pub mod stats;
pub mod target;
pub mod connector;
pub mod laws;

verus! {

} // verus!
