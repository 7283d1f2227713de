use vstd::prelude::*;

pub mod connection;
pub mod counters;
pub mod errors;
pub mod health;
pub mod labels;
pub mod remediation;
pub mod snapshot;

verus! {

} // verus!
