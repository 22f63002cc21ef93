//! Connectivity of an agent and the transitions between its three states.

use vstd::prelude::*;

verus! {

/// Connectivity of an agent as the controller sees it.
///
/// `Offline` is the initial state and the state after teardown. `Updating` is
/// a sub-state of being connected: the agent keeps its channel while it
/// applies a self-update.
#[derive(Clone, Copy, Debug, PartialEq, Eq, Structural, Hash)]
pub enum AgentStatus {
    Offline,
    Online,
    Updating,
}

impl Default for AgentStatus {
    fn default() -> (r: Self)
        ensures
            r == AgentStatus::Offline,
    {
        AgentStatus::Offline
    }
}

impl AgentStatus {
    /// Whether the agent holds a connection: online or applying an update.
    pub open spec fn connected(self) -> bool {
        self != AgentStatus::Offline
    }

    /// Whether an agent in this state is given new commands. Only an online
    /// agent is: while an agent applies an update, new commands are
    /// rejected, and an offline agent cannot be reached at all. File
    /// transfers and requests to stop a command are not held back by an
    /// update.
    pub open spec fn takes_commands(self) -> bool {
        self == AgentStatus::Online
    }

    /// The transition relation of the state machine: a handshake takes
    /// `Offline` to `Online`, an acknowledged update instruction takes
    /// `Online` to `Updating`, the end of an update takes `Updating` back to
    /// `Online`, and a disconnect takes every state to `Offline`.
    pub open spec fn may_become(self, next: AgentStatus) -> bool {
        match (self, next) {
            (_, AgentStatus::Offline) => true,
            (AgentStatus::Offline, AgentStatus::Online) => true,
            (AgentStatus::Updating, AgentStatus::Online) => true,
            (AgentStatus::Online, AgentStatus::Updating) => true,
            _ => false,
        }
    }

    /// The number that stands for a status on the wire.
    pub open spec fn code_of(self) -> u8 {
        match self {
            AgentStatus::Offline => 0,
            AgentStatus::Online => 1,
            AgentStatus::Updating => 2,
        }
    }

    pub fn is_offline(&self) -> (r: bool)
        ensures
            r == (*self == AgentStatus::Offline),
    {
        matches!(self, AgentStatus::Offline)
    }

    pub fn is_online(&self) -> (r: bool)
        ensures
            r == (*self == AgentStatus::Online),
    {
        matches!(self, AgentStatus::Online)
    }

    pub fn is_updating(&self) -> (r: bool)
        ensures
            r == (*self == AgentStatus::Updating),
    {
        matches!(self, AgentStatus::Updating)
    }

    /// Whether the agent holds a connection.
    pub fn is_connected(&self) -> (r: bool)
        ensures
            r == self.connected(),
    {
        !matches!(self, AgentStatus::Offline)
    }

    /// Whether an agent in this state is given new commands.
    pub fn accepts_commands(&self) -> (r: bool)
        ensures
            r == self.takes_commands(),
    {
        matches!(self, AgentStatus::Online)
    }

    /// Decides whether the state machine allows the step from `self` to `next`.
    pub fn can_become(&self, next: AgentStatus) -> (r: bool)
        ensures
            r == self.may_become(next),
    {
        match (*self, next) {
            (_, AgentStatus::Offline) => true,
            (AgentStatus::Offline, AgentStatus::Online) => true,
            (AgentStatus::Updating, AgentStatus::Online) => true,
            (AgentStatus::Online, AgentStatus::Updating) => true,
            _ => false,
        }
    }

    /// The number that stands for this status on the wire.
    pub fn code(&self) -> (r: u8)
        ensures
            r == self.code_of(),
    {
        match self {
            AgentStatus::Offline => 0,
            AgentStatus::Online => 1,
            AgentStatus::Updating => 2,
        }
    }

    /// Reads a status back from its number; numbers above 2 name no status.
    pub fn from_code(code: u8) -> (r: Option<AgentStatus>)
        ensures
            code <= 2 ==> r is Some && r->Some_0.code_of() == code,
            code > 2 ==> r is None,
    {
        if code == 0 {
            Some(AgentStatus::Offline)
        } else if code == 1 {
            Some(AgentStatus::Online)
        } else if code == 2 {
            Some(AgentStatus::Updating)
        } else {
            None
        }
    }
}

/// No step leads from `Offline` straight to `Updating`, no state steps to
/// itself except `Offline`, and `Offline` is reachable from every state.
pub proof fn lemma_status_machine(s: AgentStatus)
    ensures
        s.may_become(AgentStatus::Offline),
        !AgentStatus::Offline.may_become(AgentStatus::Updating),
        s.connected() ==> !s.may_become(s),
        s.may_become(AgentStatus::Updating) <==> s == AgentStatus::Online,
        s.may_become(AgentStatus::Online) <==> s != AgentStatus::Online,
{
}

} // verus!
