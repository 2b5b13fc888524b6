//! The socket-protocol capability: read or toggle the global input mode,
//! request hanja conversion, request an emoji lookup.

use vstd::prelude::*;
use crate::state::ModeState;

verus! {

/// Why a capability operation failed.
#[derive(Clone, Copy, Debug, PartialEq, Eq, Structural)]
pub enum CapError {
    /// The peer was unreachable, or the connection broke while the request
    /// was being written or the response read.
    Connection,
    /// The peer's response body was not valid UTF-8; the buffer was left
    /// unmodified.
    InvalidData,
    /// No native backend exists for the running platform; no I/O was
    /// attempted.
    Unsupported,
}

/// The capability interface: one implementation per supported platform,
/// plus an always-erroring fallback ([`crate::fallback::OsContext`]),
/// selected at build or startup time by the caller.
///
/// An implementation whose `supported()` is false must uniformly fail with
/// [`CapError::Unsupported`] and leave every buffer untouched.
pub trait OsContext: Sized {
    /// Whether a native backend exists for the running platform. True
    /// unless an implementation says otherwise; the fallback overrides it.
    open spec fn supported(&self) -> bool {
        true
    }

    /// Ask the peer for the global input mode: true iff the response body
    /// is exactly the fixed mode-on literal.
    fn read_global_hangul_state(&mut self) -> (r: Result<bool, CapError>)
        ensures
            !old(self).supported() ==> r == Err::<bool, CapError>(CapError::Unsupported)
                && *final(self) == *old(self),
    ;

    /// Tell the peer the new global input mode (fire and forget: no
    /// response is read).
    fn update_hangul_state(&mut self, state: bool) -> (r: Result<(), CapError>)
        ensures
            !old(self).supported() ==> r == Err::<(), CapError>(CapError::Unsupported)
                && *final(self) == *old(self),
    ;

    /// Send the buffer's composed text to the peer; a non-empty response
    /// replaces the committed text (true), an empty one means no candidate
    /// (false, buffer untouched).
    fn hanja(&mut self, state: &mut ModeState) -> (r: Result<bool, CapError>)
        ensures
            !old(self).supported() ==> r == Err::<bool, CapError>(CapError::Unsupported)
                && final(state)@ == old(state)@ && *final(self) == *old(self),
    ;

    /// Ask the peer for an emoji candidate; a non-empty response is
    /// appended to the committed text (true), an empty one means no
    /// candidate (false, buffer untouched).
    fn emoji(&mut self, state: &mut ModeState) -> (r: Result<bool, CapError>)
        ensures
            !old(self).supported() ==> r == Err::<bool, CapError>(CapError::Unsupported)
                && final(state)@ == old(state)@ && *final(self) == *old(self),
    ;
}

} // verus!
