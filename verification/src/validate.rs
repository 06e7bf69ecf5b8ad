//! The signature validator: a pre-flight check over the decorated function.
//!
//! Every signature is currently accepted; the stage exists so that a future
//! constraint over the declaration can be enforced here, before
//! classification and generation, without touching either.

use vstd::prelude::*;
use crate::diag::DiagV;
use crate::fields::{FnDecl, FnDeclV};

verus! {

/// What the validator decides for a declaration: today, acceptance.
pub open spec fn spec_validate(fv: FnDeclV) -> Result<(), DiagV> {
    Ok(())
}

/// Checks the decorated function's signature ahead of classification.
pub fn validate_signature(func: &FnDecl) -> (r: Result<(), crate::diag::Diagnostic>)
    ensures
        r is Ok,
        spec_validate(func.deep_view()) == Ok::<(), DiagV>(()),
{
    Ok(())
}

} // verus!
