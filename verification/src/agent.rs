//! The controller-side record of one agent.

use vstd::prelude::*;
use vstd::std_specs::convert::FromSpecImpl;

use crate::entity::agents::Model;
use crate::ident::Id;
use crate::session::{Session, SessionView};

verus! {

/// An internet address, version 4 or 6, as a number.
#[derive(Clone, Copy, Debug, PartialEq, Eq, Structural, Hash)]
pub enum IpAddress {
    V4(u32),
    V6(u128),
}

/// The address and port of the peer of a connection.
#[derive(Clone, Copy, Debug, PartialEq, Eq, Structural, Hash)]
pub struct PeerAddress {
    pub ip: IpAddress,
    pub port: u16,
}

/// What an agent reports about its load. A field that the report leaves out
/// is `None`.
#[derive(Clone, Copy, Debug, PartialEq, Eq, Structural)]
pub struct Telemetry {
    /// When the agent answered, in milliseconds since the epoch.
    pub last_rsp: Option<i64>,
    /// Processor load in percent, as the bits of a single-precision number.
    pub cpu: Option<u32>,
    /// Memory in use, in bytes.
    pub memory: Option<u64>,
    /// Memory installed, in bytes.
    pub total_memory: Option<u64>,
    /// Disk space in use, in bytes.
    pub disk: Option<u64>,
    /// Disk space installed, in bytes.
    pub total_disk: Option<u64>,
    /// Round-trip time to the agent, in milliseconds.
    pub latency: Option<i64>,
    /// Upload rate, in bytes per second.
    pub net_up: Option<u64>,
    /// Download rate, in bytes per second.
    pub net_down: Option<u64>,
    /// Bytes uploaded in all.
    pub band_up: Option<u64>,
    /// Bytes downloaded in all.
    pub band_down: Option<u64>,
}

impl Default for Telemetry {
    fn default() -> (report: Telemetry)
        ensures
            report == Telemetry::empty(),
    {
        Telemetry {
            last_rsp: None,
            cpu: None,
            memory: None,
            total_memory: None,
            disk: None,
            total_disk: None,
            latency: None,
            net_up: None,
            net_down: None,
            band_up: None,
            band_down: None,
        }
    }
}

impl Telemetry {
    /// The report that says nothing.
    pub open spec fn empty() -> Telemetry {
        Telemetry {
            last_rsp: None,
            cpu: None,
            memory: None,
            total_memory: None,
            disk: None,
            total_disk: None,
            latency: None,
            net_up: None,
            net_down: None,
            band_up: None,
            band_down: None,
        }
    }
}

/// The value to keep of a measurement: the one just reported, or, where the
/// report left it out, the one known before.
pub open spec fn latest<T>(known: Option<T>, reported: Option<T>) -> Option<T> {
    if reported is Some {
        reported
    } else {
        known
    }
}

/// Computes [`latest`].
fn keep_latest<T: Copy>(known: Option<T>, reported: Option<T>) -> (kept: Option<T>)
    ensures
        kept == latest(known, reported),
{
    match reported {
        Some(_) => reported,
        None => known,
    }
}

/// One agent as the controller knows it: who it is, what it last reported
/// about itself, and the session that carries its connection and operations.
pub struct Agent {
    pub id: Id,
    pub uid: String,
    pub name: String,
    pub os: Option<String>,
    pub hostname: Option<String>,
    pub ip: String,
    pub system: Option<String>,
    pub arch: Option<String>,
    pub last_login: i64,
    /// The connection, the operation slots and the record of sent messages.
    pub session: Session,
    /// Seconds between two status reports of the agent; 0 if not set.
    pub report_rate: u32,
    pub disable_shell: bool,
    pub address: Option<PeerAddress>,
    pub endpoint: String,
    pub last_rsp: Option<i64>,
    /// Processor load in percent, as the bits of a single-precision number.
    pub cpu: Option<u32>,
    /// Memory in use, in bytes.
    pub memory: Option<u64>,
    /// Memory installed, in bytes.
    pub total_memory: Option<u64>,
    /// Disk space in use, in bytes.
    pub disk: Option<u64>,
    /// Disk space installed, in bytes.
    pub total_disk: Option<u64>,
    /// Round-trip time to the agent, in milliseconds.
    pub latency: Option<i64>,
    /// Upload rate, in bytes per second.
    pub net_up: Option<u64>,
    /// Download rate, in bytes per second.
    pub net_down: Option<u64>,
    /// Bytes uploaded in all.
    pub band_up: Option<u64>,
    /// Bytes downloaded in all.
    pub band_down: Option<u64>,
}

impl Agent {
    /// Nothing is known yet of the connection or of the agent's load.
    pub open spec fn fresh_connection(&self) -> bool {
        &&& self.session@ == SessionView::idle()
        &&& self.report_rate == 0
        &&& !self.disable_shell
        &&& self.address is None
        &&& self.endpoint@ == Seq::<char>::empty()
        &&& self.last_rsp is None
        &&& self.cpu is None
        &&& self.memory is None
        &&& self.total_memory is None
        &&& self.disk is None
        &&& self.total_disk is None
        &&& self.latency is None
        &&& self.net_up is None
        &&& self.net_down is None
        &&& self.band_up is None
        &&& self.band_down is None
    }

    /// Every field has its default: numbers 0, texts empty, the rest absent,
    /// the session idle.
    pub open spec fn blank(&self) -> bool {
        &&& self.id == 0
        &&& self.uid@ == Seq::<char>::empty()
        &&& self.name@ == Seq::<char>::empty()
        &&& self.os is None
        &&& self.hostname is None
        &&& self.ip@ == Seq::<char>::empty()
        &&& self.system is None
        &&& self.arch is None
        &&& self.last_login == 0
        &&& self.fresh_connection()
    }

    /// The agent is the one that the row `v` describes, not yet connected.
    pub open spec fn opened_from(&self, v: Model) -> bool {
        &&& self.id == v.id
        &&& self.uid == v.uid
        &&& self.name == v.name
        &&& self.os == v.os
        &&& self.hostname == v.hostname
        &&& self.ip == v.ip
        &&& self.system == v.system
        &&& self.arch == v.arch
        &&& self.last_login == v.last_login
        &&& self.fresh_connection()
    }

    /// The agent after the report: every measurement that the report holds
    /// replaces the one known before, and every other is kept. Nothing is
    /// remembered of the values that were replaced.
    pub open spec fn with_telemetry(self, report: Telemetry) -> Agent {
        Agent {
            last_rsp: latest(self.last_rsp, report.last_rsp),
            cpu: latest(self.cpu, report.cpu),
            memory: latest(self.memory, report.memory),
            total_memory: latest(self.total_memory, report.total_memory),
            disk: latest(self.disk, report.disk),
            total_disk: latest(self.total_disk, report.total_disk),
            latency: latest(self.latency, report.latency),
            net_up: latest(self.net_up, report.net_up),
            net_down: latest(self.net_down, report.net_down),
            band_up: latest(self.band_up, report.band_up),
            band_down: latest(self.band_down, report.band_down),
            ..self
        }
    }

    /// The agent with its identity read again from the row `v`: the texts
    /// and the time of the last login come from the row, the rest is kept.
    pub open spec fn with_identity(self, v: Model) -> Agent {
        Agent {
            uid: v.uid,
            name: v.name,
            os: v.os,
            hostname: v.hostname,
            ip: v.ip,
            system: v.system,
            arch: v.arch,
            last_login: v.last_login,
            ..self
        }
    }

    /// Takes in what the agent reports about its load.
    pub fn record_telemetry(&mut self, report: Telemetry)
        ensures
            *final(self) == old(self).with_telemetry(report),
    {
        self.last_rsp = keep_latest(self.last_rsp, report.last_rsp);
        self.cpu = keep_latest(self.cpu, report.cpu);
        self.memory = keep_latest(self.memory, report.memory);
        self.total_memory = keep_latest(self.total_memory, report.total_memory);
        self.disk = keep_latest(self.disk, report.disk);
        self.total_disk = keep_latest(self.total_disk, report.total_disk);
        self.latency = keep_latest(self.latency, report.latency);
        self.net_up = keep_latest(self.net_up, report.net_up);
        self.net_down = keep_latest(self.net_down, report.net_down);
        self.band_up = keep_latest(self.band_up, report.band_up);
        self.band_down = keep_latest(self.band_down, report.band_down);
    }

    /// Reads the identity again from the stored row `v`, which must be the
    /// row of this agent. A row of another agent changes nothing, and the
    /// answer is `false`.
    pub fn refresh_identity(&mut self, v: Model) -> (refreshed: bool)
        ensures
            refreshed == (v.id == old(self).id),
            *final(self) == if refreshed {
                old(self).with_identity(v)
            } else {
                *old(self)
            },
    {
        if v.id != self.id {
            return false;
        }
        self.uid = v.uid;
        self.name = v.name;
        self.os = v.os;
        self.hostname = v.hostname;
        self.ip = v.ip;
        self.system = v.system;
        self.arch = v.arch;
        self.last_login = v.last_login;
        true
    }

    /// An agent with every field at its default and an idle session.
    pub fn new() -> (agent: Agent)
        ensures
            agent.blank(),
    {
        Agent {
            id: 0,
            uid: String::new(),
            name: String::new(),
            os: None,
            hostname: None,
            ip: String::new(),
            system: None,
            arch: None,
            last_login: 0,
            session: Session::new(),
            report_rate: 0,
            disable_shell: false,
            address: None,
            endpoint: String::new(),
            last_rsp: None,
            cpu: None,
            memory: None,
            total_memory: None,
            disk: None,
            total_disk: None,
            latency: None,
            net_up: None,
            net_down: None,
            band_up: None,
            band_down: None,
        }
    }
}

impl Default for Agent {
    fn default() -> (agent: Agent)
        ensures
            agent.blank(),
    {
        Agent::new()
    }
}

impl FromSpecImpl<Model> for Agent {
    /// The session inside an agent is known by its view only, so no single
    /// value can be named as the result; `opened_from` says what holds of it.
    open spec fn obeys_from_spec() -> bool {
        false
    }

    open spec fn from_spec(v: Model) -> Agent {
        choose|agent: Agent| agent.opened_from(v)
    }
}

impl From<Model> for Agent {
    /// Opens the record of a stored agent: the identity comes from the row,
    /// everything else is at its default, and the session is idle.
    fn from(v: Model) -> (agent: Agent)
        ensures
            agent.opened_from(v),
    {
        let mut agent = Agent::new();
        agent.id = v.id;
        agent.uid = v.uid;
        agent.name = v.name;
        agent.os = v.os;
        agent.hostname = v.hostname;
        agent.ip = v.ip;
        agent.system = v.system;
        agent.arch = v.arch;
        agent.last_login = v.last_login;
        agent
    }
}

} // verus!
