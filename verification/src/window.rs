//! The launch sequence's pure half.
//!
//! Bringing the UI up means preparing the process-wide state and then
//! handing it to the windowing runtime, which creates the window and runs
//! the event loop. Only the preparation is computation; it stands here.

use vstd::prelude::*;
use crate::diag::Diagnostic;
use crate::theme::{spec_default_theme, ThemeState};

verus! {

/// Prepares the state the application launches with: the stock theme.
/// Preparation itself cannot fail; window creation and the event loop are
/// the runtime's work and report their own errors.
pub fn launch() -> (r: Result<ThemeState, Diagnostic>)
    ensures
        r matches Ok(s) && s.inner == spec_default_theme(),
{
    Ok(ThemeState::new())
}

} // verus!
