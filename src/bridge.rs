//! Integration bridge between the key hierarchy and the Age automation.
use vstd::prelude::*;
use crate::error::AgeResult;

verus! {

/// Sets up the integration bridge; it holds no state and cannot fail.
pub fn initialize() -> (r: AgeResult<()>)
    ensures
        r is Ok,
{
    Ok(())
}

} // verus!
