use vstd::prelude::*;

pub mod execution;
pub mod lifecycle;
pub mod metrics;
pub mod stream;

verus! {

} // verus!
