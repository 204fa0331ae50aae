//! A program whose single entry point changes no state.
use vstd::prelude::*;

use crate::error::ErrorCode;

verus! {

/// The accounts of the greeting entry point: there are none.
#[derive(Clone, Copy, Debug, PartialEq, Eq, Structural)]
pub struct Initialize {}

/// The greeting entry point: it always succeeds and changes nothing.
pub fn initialize(_ctx: &Initialize) -> (r: Result<(), ErrorCode>)
    ensures
        r is Ok,
{
    Ok(())
}

} // verus!
