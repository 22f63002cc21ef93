//! The administrative surface of the controller: commands, file transfers
//! and settings, over the registry of sessions.

use ecies::SecretKey;
use vstd::prelude::*;

use crate::agent::Agent;
use crate::compress::{deflated, FILE_COMPRESSION_LEVEL};
use crate::error::AgentError;
use crate::ident::{drawn_past, Id};
use crate::outcome::{command_view, file_view, AgentCommand, AgentFile, CommandView, FileView};
use crate::registry::{
    command_issued, command_output_of, file_issued, file_result_of, filed_by_id, kill_requested,
    Registry,
};
use crate::server::Server;

verus! {

/// The settings of the controller, as they are kept in memory.
pub struct Settings {
    /// The address the listener binds to.
    pub address: Option<String>,
    /// The controller's secret key.
    pub certificate: Option<SecretKey>,
    /// The shell program and its arguments that agents run commands with.
    pub shell: Option<Vec<String>>,
}

/// The texts of `words`, each as a sequence of characters.
pub open spec fn texts(words: Seq<String>) -> Seq<Seq<char>> {
    words.map_values(|word: String| word@)
}

/// The text of `word`, if there is one.
pub open spec fn text(word: Option<String>) -> Option<Seq<char>> {
    match word {
        Some(word) => Some(word@),
        None => None,
    }
}

/// The texts of `words`, if there are any.
pub open spec fn text_list(words: Option<Vec<String>>) -> Option<Seq<Seq<char>>> {
    match words {
        Some(words) => Some(texts(words@)),
        None => None,
    }
}

/// What a service holds, as mathematical values.
pub struct ServiceView {
    /// The agents that have a session.
    pub agents: Map<Id, Agent>,
    /// The address setting.
    pub address: Option<Seq<char>>,
    /// The certificate setting.
    pub certificate: Option<SecretKey>,
    /// The shell program setting.
    pub shell: Option<Seq<Seq<char>>>,
    /// The identifier of the permission to view agents.
    pub view_id: Id,
    /// The identifier of the permission to manage agents.
    pub manage_id: Id,
}

impl ServiceView {
    /// The same service with other agents.
    pub open spec fn with_agents(self, agents: Map<Id, Agent>) -> ServiceView {
        ServiceView { agents, ..self }
    }

    /// Every agent is filed under its own identifier.
    pub open spec fn wf(self) -> bool {
        filed_by_id(self.agents)
    }
}

/// The operations that administrative callers have on the controller.
///
/// Commands and file transfers are issued and forgotten: each call returns
/// an identifier at once, and the result is polled under that identifier
/// later. Every operation says `NotFound` for an agent without a session.
pub trait Service: View<V = ServiceView> + Sized {
    /// The transport layer behind this service.
    type Transport: Server;

    /// The transport layer that reaches the agents.
    fn get_server(&self) -> &Self::Transport;

    /// The identifier of the permission to view agents.
    fn get_view_id(&self) -> (r: Id)
        ensures
            r == self@.view_id,
    ;

    /// The identifier of the permission to manage agents.
    fn get_manage_id(&self) -> (r: Id)
        ensures
            r == self@.manage_id,
    ;

    /// The registry of sessions, for lookups and listings.
    fn get_agents(&self) -> (r: &Registry)
        ensures
            r@ == self@.agents,
    ;

    /// The address the listener binds to, if it is set.
    fn get_setting_address(&self) -> (r: Option<String>)
        ensures
            text(r) == self@.address,
    ;

    /// The controller's secret key, if it is set.
    fn get_setting_certificate(&self) -> (r: Option<&SecretKey>)
        ensures
            match r {
                Some(key) => self@.certificate == Some(*key),
                None => self@.certificate is None,
            },
    ;

    /// The shell program and its arguments, if they are set.
    fn get_setting_shell(&self) -> (r: Option<Vec<String>>)
        ensures
            text_list(r) == self@.shell,
    ;

    /// Sets the address the listener binds to. On failure nothing changes.
    fn set_setting_address(&mut self, address: &str) -> (r: Result<(), AgentError>)
        ensures
            final(self)@ == if r is Ok {
                ServiceView { address: Some(address@), ..old(self)@ }
            } else {
                old(self)@
            },
    ;

    /// Sets the controller's secret key. On failure nothing changes.
    fn set_setting_certificate(&mut self, cert: SecretKey) -> (r: Result<(), AgentError>)
        ensures
            final(self)@ == if r is Ok {
                ServiceView { certificate: Some(cert), ..old(self)@ }
            } else {
                old(self)@
            },
    ;

    /// Sets the shell program and its arguments. On failure nothing changes.
    fn set_setting_shell(&mut self, shell_prog: &[String]) -> (r: Result<(), AgentError>)
        ensures
            final(self)@ == if r is Ok {
                ServiceView { shell: Some(texts(shell_prog@)), ..old(self)@ }
            } else {
                old(self)@
            },
    ;

    /// Issues the command `cmd` to the agent `id` and returns the identifier
    /// of the command at once, without waiting for the agent. An agent that
    /// applies an update is given no new command: the error is `Updating`.
    fn run_command(&mut self, id: Id, cmd: &str) -> (r: Result<Id, AgentError>)
        ensures
            final(self)@.wf(),
            final(self)@ == old(self)@.with_agents(final(self)@.agents),
            command_issued(old(self)@.agents, final(self)@.agents, id, cmd@, r),
    ;

    /// Polls the command `cid` of the agent `id`: not found, pending
    /// (`None`), or the result so far.
    fn get_command_output(&self, id: Id, cid: Id) -> (r: Result<Option<AgentCommand>, AgentError>)
        ensures
            match r {
                Ok(slot) => command_output_of(self@.agents, id, cid) == Ok::<_, AgentError>(
                    command_view(slot),
                ),
                Err(e) => command_output_of(self@.agents, id, cid) == Err::<
                    Option<CommandView>,
                    _,
                >(e),
            },
    ;

    /// Asks the agent `id` to stop its command `cid`, by force or gracefully.
    /// The request is advisory and leaves the slot of the command alone.
    fn kill_command(&mut self, id: Id, cid: Id, force: bool) -> (r: Result<(), AgentError>)
        ensures
            final(self)@.wf(),
            final(self)@ == old(self)@.with_agents(final(self)@.agents),
            kill_requested(old(self)@.agents, final(self)@.agents, id, cid, force, r),
    ;

    /// Sends the file contents `data` to `path` on the agent `id`, in
    /// compressed form, and returns the identifier of the transfer at once.
    fn send_file(&mut self, id: Id, path: &str, data: &[u8]) -> (r: Result<Id, AgentError>)
        ensures
            final(self)@.wf(),
            final(self)@ == old(self)@.with_agents(final(self)@.agents),
            file_issued(
                old(self)@.agents,
                final(self)@.agents,
                id,
                path@,
                deflated(data@, FILE_COMPRESSION_LEVEL),
                r,
            ),
    ;

    /// Polls the file transfer `fid` of the agent `id`: not found, pending
    /// (`None`), or the outcome.
    fn get_file_result(&self, id: Id, fid: Id) -> (r: Result<Option<AgentFile>, AgentError>)
        ensures
            match r {
                Ok(slot) => file_result_of(self@.agents, id, fid) == Ok::<_, AgentError>(
                    file_view(slot),
                ),
                Err(e) => file_result_of(self@.agents, id, fid) == Err::<Option<FileView>, _>(e),
            },
    ;
}

/// Copies a list of texts.
fn copy_texts(words: &[String]) -> (copy: Vec<String>)
    ensures
        texts(copy@) == texts(words@),
{
    let mut copy: Vec<String> = Vec::new();
    let mut i: usize = 0;
    while i < words.len()
        invariant
            i <= words@.len(),
            copy@.len() == i,
            forall|j: int| 0 <= j < i ==> (#[trigger] copy@[j])@ == words@[j]@,
        decreases words@.len() - i,
    {
        copy.push(words[i].clone());
        i += 1;
    }
    assert(texts(copy@) =~= texts(words@));
    copy
}

/// The controller: a transport layer, the registry of sessions, and the
/// settings, behind the operations of [`Service`].
pub struct Controller<S: Server> {
    /// The transport layer.
    pub server: S,
    /// The agents that have a session.
    pub agents: Registry,
    /// The settings.
    pub settings: Settings,
    /// The identifier of the permission to view agents.
    pub view_id: Id,
    /// The identifier of the permission to manage agents.
    pub manage_id: Id,
}

/// The view holds the agents, the settings and the two permission
/// identifiers. The transport layer is not part of it: what is said of the
/// server is said of the field `server` itself.
impl<S: Server> View for Controller<S> {
    type V = ServiceView;

    open spec fn view(&self) -> ServiceView {
        ServiceView {
            agents: self.agents@,
            address: text(self.settings.address),
            certificate: self.settings.certificate,
            shell: text_list(self.settings.shell),
            view_id: self.view_id,
            manage_id: self.manage_id,
        }
    }
}

impl<S: Server> Controller<S> {
    /// A controller over `server` with no agents and no settings.
    pub fn new(server: S, view_id: Id, manage_id: Id) -> (controller: Self)
        ensures
            controller.server == server,
            controller@ == (ServiceView {
                agents: Map::empty(),
                address: None,
                certificate: None,
                shell: None,
                view_id,
                manage_id,
            }),
            controller@.wf(),
    {
        Controller {
            server,
            agents: Registry::new(),
            settings: Settings { address: None, certificate: None, shell: None },
            view_id,
            manage_id,
        }
    }

    /// Starts the transport layer on `addr` with the identity `key`.
    ///
    /// A server that is running is left alone and the error is
    /// `AlreadyRunning`, which no other start gives. Otherwise the server is
    /// asked to start on exactly `addr` with exactly `key`, and its answer
    /// is the result: a start that succeeds is bound to them, one that fails
    /// leaves address and key as they were.
    pub fn start_server(&mut self, addr: &str, key: SecretKey) -> (r: Result<(), AgentError>)
        ensures
            final(self)@ == old(self)@,
            old(self).server.running() <==> r == Err::<(), AgentError>(
                AgentError::AlreadyRunning,
            ),
            old(self).server.running() ==> final(self).server == old(self).server,
            final(self).server.running() == (old(self).server.running() || r is Ok),
            r is Ok ==> final(self).server.address()@ == addr@ && final(self).server.identity()
                == Some(key),
            r is Err ==> final(self).server.address() == old(self).server.address()
                && final(self).server.identity() == old(self).server.identity(),
            r is Err ==> forall|apid: Id|
                final(self).server.dialing(apid) == old(self).server.dialing(apid),
    {
        if self.server.is_running() {
            Err(AgentError::AlreadyRunning)
        } else {
            self.server.start(addr, key)
        }
    }

    /// Stops the transport layer. Stopping a server that was not running is
    /// the error `NotRunning`. The sessions stay in the registry: whoever
    /// closes a connection removes its session.
    pub fn stop_server(&mut self) -> (r: Result<(), AgentError>)
        ensures
            final(self)@ == old(self)@,
            !final(self).server.running(),
            r == if old(self).server.running() {
                Ok::<(), AgentError>(())
            } else {
                Err::<(), AgentError>(AgentError::NotRunning)
            },
    {
        if self.server.stop() {
            Ok(())
        } else {
            Err(AgentError::NotRunning)
        }
    }
}

impl<S: Server> Service for Controller<S> {
    type Transport = S;

    fn get_server(&self) -> (r: &S)
        ensures
            *r == self.server,
    {
        &self.server
    }

    fn get_view_id(&self) -> (r: Id) {
        self.view_id
    }

    fn get_manage_id(&self) -> (r: Id) {
        self.manage_id
    }

    fn get_agents(&self) -> (r: &Registry)
        ensures
            *r == self.agents,
    {
        &self.agents
    }

    fn get_setting_address(&self) -> (r: Option<String>) {
        match &self.settings.address {
            Some(address) => Some(address.clone()),
            None => None,
        }
    }

    fn get_setting_certificate(&self) -> (r: Option<&SecretKey>) {
        self.settings.certificate.as_ref()
    }

    fn get_setting_shell(&self) -> (r: Option<Vec<String>>) {
        match &self.settings.shell {
            Some(words) => Some(copy_texts(words.as_slice())),
            None => None,
        }
    }

    fn set_setting_address(&mut self, address: &str) -> (r: Result<(), AgentError>)
        ensures
            r is Ok,
    {
        self.settings.address = Some(address.to_owned());
        Ok(())
    }

    fn set_setting_certificate(&mut self, cert: SecretKey) -> (r: Result<(), AgentError>)
        ensures
            r is Ok,
    {
        self.settings.certificate = Some(cert);
        Ok(())
    }

    fn set_setting_shell(&mut self, shell_prog: &[String]) -> (r: Result<(), AgentError>)
        ensures
            r is Ok,
    {
        self.settings.shell = Some(copy_texts(shell_prog));
        Ok(())
    }

    fn run_command(&mut self, id: Id, cmd: &str) -> (r: Result<Id, AgentError>)
        ensures
            r matches Ok(issued) ==> drawn_past(
                old(self)@.agents[id].session@.commands.dom(),
                issued,
            ),
            !old(self)@.agents.contains_key(id)
                || !old(self)@.agents[id].session@.status.takes_commands() ==> r is Err,
    {
        self.agents.run_command(id, cmd)
    }

    fn get_command_output(&self, id: Id, cid: Id) -> (r: Result<Option<AgentCommand>, AgentError>) {
        self.agents.get_command_output(id, cid)
    }

    fn kill_command(&mut self, id: Id, cid: Id, force: bool) -> (r: Result<(), AgentError>)
        ensures
            command_output_of(old(self)@.agents, id, cid) is Err ==> r is Err,
    {
        self.agents.kill_command(id, cid, force)
    }

    fn send_file(&mut self, id: Id, path: &str, data: &[u8]) -> (r: Result<Id, AgentError>)
        ensures
            r matches Ok(issued) ==> drawn_past(
                old(self)@.agents[id].session@.files.dom(),
                issued,
            ),
            !old(self)@.agents.contains_key(id) || !old(self)@.agents[id].session@.status.connected()
                ==> r is Err,
    {
        self.agents.send_file(id, path, data)
    }

    fn get_file_result(&self, id: Id, fid: Id) -> (r: Result<Option<AgentFile>, AgentError>) {
        self.agents.get_file_result(id, fid)
    }
}

} // verus!
