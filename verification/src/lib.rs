//! Verified core of a tunnel-process supervisor.
//!
//! The library holds the decision logic of a component that starts, watches,
//! restarts and stops one external tunnel process per connection id: the
//! classification of process output lines, the retry policy, the per-session
//! state machine, the command-line builder, the executable's search order,
//! and the id-to-session registry. The surrounding process plumbing (spawning,
//! reading the output stream, timers, cancellation signals) is unverified
//! glue that drives these functions and obeys their contracts.

use vstd::prelude::*;

pub mod backoff;
pub mod classify;
pub mod command;
pub mod locate;
pub mod registry;
pub mod session;
pub mod text;

verus! {

/// Input descriptor for one tunnel connection.
///
/// An empty `tunnel_token` selects quick-tunnel mode, where `local_port` is
/// exposed through an ephemeral public URL; a non-empty token selects named
/// mode, where the token alone configures the tunnel.
pub struct TunnelConfig {
    pub id: String,
    pub local_port: u16,
    pub tunnel_token: String,
}

} // verus!
