//! The messages a controller puts on an agent's outbound channel.

use vstd::prelude::*;

verus! {

/// One message for the transport layer to deliver to an agent.
///
/// The set of messages is closed: the controller builds these four and never
/// has to interpret any other.
#[derive(Debug, PartialEq, Eq)]
pub enum Payload {
    /// Start `command` on the agent under the operation id `id`.
    RunCommand { id: u128, command: String },
    /// Stop the command `id`: a hard kill if `force`, a graceful terminate if not.
    KillCommand { id: u128, force: bool },
    /// Store the compressed bytes `data` at `path` under the operation id `id`.
    SendFile { id: u128, path: String, data: Vec<u8> },
    /// The session is gone: close the connection.
    Quit,
}

/// What a [`Payload`] says, with its strings and bytes as sequences.
pub enum PayloadView {
    RunCommand { id: u128, command: Seq<char> },
    KillCommand { id: u128, force: bool },
    SendFile { id: u128, path: Seq<char>, data: Seq<u8> },
    Quit,
}

impl View for Payload {
    type V = PayloadView;

    open spec fn view(&self) -> PayloadView {
        match *self {
            Payload::RunCommand { id, command } => PayloadView::RunCommand { id, command: command@ },
            Payload::KillCommand { id, force } => PayloadView::KillCommand { id, force },
            Payload::SendFile { id, path, data } => PayloadView::SendFile {
                id,
                path: path@,
                data: data@,
            },
            Payload::Quit => PayloadView::Quit,
        }
    }
}

impl Payload {
    /// Whether this is the last message of a session: after a `Quit` the
    /// connection is closed and nothing more is delivered.
    pub fn is_quit(&self) -> (r: bool)
        ensures
            r == (self@ == PayloadView::Quit),
    {
        matches!(self, Payload::Quit)
    }
}

} // verus!
