//! Runtime backbone of a modular input-method daemon.
//!
//! Two independent pieces, composed by a higher-level caller:
//!
//! * a socket-protocol capability ([`capability::OsContext`]) for querying
//!   and toggling the global input mode and for requesting text conversions
//!   from a window-manager-facing peer, with its wire protocol in
//!   [`protocol`] and a uniform unsupported-platform implementation in
//!   [`fallback`];
//! * a process supervisor ([`supervisor::Supervisor`]) that spawns a
//!   configured set of worker processes, watches their liveness, and
//!   terminates the survivors on an external shutdown request.

pub mod capability;
pub mod fallback;
pub mod protocol;
pub mod state;
pub mod supervisor;
