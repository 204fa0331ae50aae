//! An owned counter record whose mutation is gated by the identity bound to
//! it at creation, and a stateless greeting program.
use vstd::prelude::*;

pub mod contract;
pub mod contract_cpi;
pub mod error;

verus! {

} // verus!
