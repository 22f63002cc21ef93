//! The ways an operation on the registry, a session or the server can fail.

use vstd::prelude::*;

verus! {

/// Why an operation did not happen.
#[derive(Clone, Copy, Debug, PartialEq, Eq, Structural, Hash)]
pub enum AgentError {
    /// No session for the agent, or no command or file transfer under the id.
    NotFound,
    /// The session has no channel, or its channel no longer takes messages.
    ChannelClosed,
    /// The agent is applying an update and is given no new commands.
    Updating,
    /// The server was asked to start while it was running.
    AlreadyRunning,
    /// The server was asked for work while it was stopped.
    NotRunning,
    /// The transport layer failed: a handshake or an I/O error.
    Transport,
}

} // verus!
