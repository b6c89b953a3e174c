use vstd::prelude::*;

pub mod contract;
pub mod error;
pub mod laws;
pub mod msg;
pub mod state;

verus! {

} // verus!
