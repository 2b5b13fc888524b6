//! The unsupported-platform implementation of the capability: every
//! operation fails with [`CapError::Unsupported`] and performs no I/O (its
//! bodies are pure and touch nothing).

use vstd::prelude::*;
use crate::capability::CapError;
use crate::state::ModeState;

verus! {

/// Stands in for a native backend where none exists for the running
/// platform.
#[derive(Clone, Copy, Debug, PartialEq, Eq, Structural)]
pub struct OsContext;

impl Default for OsContext {
    /// The fallback needs no state.
    fn default() -> (s: Self)
        ensures
            s == (OsContext {}),
    {
        OsContext {}
    }
}

impl crate::capability::OsContext for OsContext {
    open spec fn supported(&self) -> bool {
        false
    }

    fn read_global_hangul_state(&mut self) -> (r: Result<bool, CapError>) {
        Err(CapError::Unsupported)
    }

    fn update_hangul_state(&mut self, state: bool) -> (r: Result<(), CapError>) {
        Err(CapError::Unsupported)
    }

    fn hanja(&mut self, state: &mut ModeState) -> (r: Result<bool, CapError>) {
        Err(CapError::Unsupported)
    }

    fn emoji(&mut self, state: &mut ModeState) -> (r: Result<bool, CapError>) {
        Err(CapError::Unsupported)
    }
}

} // verus!
