//! The registry of sessions: at most one agent per identifier.

use std::collections::HashMap;
use vstd::prelude::*;
use vstd::std_specs::iter::IteratorSpec;

use crate::agent::{Agent, Telemetry};
use crate::compress::{deflated, FILE_COMPRESSION_LEVEL};
use crate::entity::agents::Model;
use crate::error::AgentError;
use crate::ident::{drawn_past, first_free, Id};
use crate::outcome::{command_view, file_view, AgentCommand, AgentFile, CommandView, FileView};
use crate::payload::PayloadView;
use crate::session::SessionView;
use crate::status::AgentStatus;

verus! {

/// The agents that have a session, each under its own identifier.
pub struct Registry {
    agents: HashMap<Id, Agent>,
}

impl View for Registry {
    type V = Map<Id, Agent>;

    closed spec fn view(&self) -> Map<Id, Agent> {
        self.agents@
    }
}

/// Every agent of `agents` is filed under its own identifier.
pub open spec fn filed_by_id(agents: Map<Id, Agent>) -> bool {
    forall|id: Id| agents.contains_key(id) ==> (#[trigger] agents[id]).id == id
}

/// `after` is `before` after teardown, whatever the channel answered: offline,
/// with the same slots, and with one `Quit` at the end of the record if the
/// session was connected and its channel took the `Quit`.
pub open spec fn shut_down(before: SessionView, after: SessionView) -> bool {
    ||| after == before.torn_down(false)
    ||| before.status.connected() && after == before.torn_down(true)
}

/// `after` is the agent `before` with its session torn down and every other
/// field as it was.
pub open spec fn retired(before: Agent, after: Agent) -> bool {
    &&& after == (Agent { session: after.session, ..before })
    &&& shut_down(before.session@, after.session@)
}

/// `post` is `pre` with the session of the agent `id` changed to one whose
/// view is `next`; every other agent, and every other field of this one, is
/// as before.
pub open spec fn session_changed(
    pre: Map<Id, Agent>,
    post: Map<Id, Agent>,
    id: Id,
    next: SessionView,
) -> bool {
    &&& pre.contains_key(id)
    &&& post == pre.insert(id, Agent { session: post[id].session, ..pre[id] })
    &&& post[id].session@ == next
}

/// What a poll for the command `command` of the agent `id` shows: not found
/// where the agent or the command is unknown, else the slot.
pub open spec fn command_output_of(agents: Map<Id, Agent>, id: Id, command: Id) -> Result<
    Option<CommandView>,
    AgentError,
> {
    if agents.contains_key(id) {
        agents[id].session@.command_output(command)
    } else {
        Err(AgentError::NotFound)
    }
}

/// What a poll for the file transfer `file` of the agent `id` shows: not
/// found where the agent or the transfer is unknown, else the slot.
pub open spec fn file_result_of(agents: Map<Id, Agent>, id: Id, file: Id) -> Result<
    Option<FileView>,
    AgentError,
> {
    if agents.contains_key(id) {
        agents[id].session@.file_result(file)
    } else {
        Err(AgentError::NotFound)
    }
}

/// What issuing the command text `command` to the agent `id` may lead to.
///
/// Success needs an online agent; it returns an identifier that no command
/// of the session had, leaves the slot pending and the run message last on
/// the record. Failure changes nothing: `NotFound` where the agent has no
/// session, `Updating` where it applies an update, `ChannelClosed` where its
/// channel is missing or refused the message.
pub open spec fn command_issued(
    pre: Map<Id, Agent>,
    post: Map<Id, Agent>,
    id: Id,
    command: Seq<char>,
    r: Result<Id, AgentError>,
) -> bool {
    match r {
        Ok(issued) => {
            &&& pre.contains_key(id)
            &&& pre[id].session@.status.takes_commands()
            &&& !pre[id].session@.commands.contains_key(issued)
            &&& session_changed(pre, post, id, pre[id].session@.with_command(issued, command))
        },
        Err(e) => {
            &&& post == pre
            &&& e == if !pre.contains_key(id) {
                AgentError::NotFound
            } else if pre[id].session@.status == AgentStatus::Updating {
                AgentError::Updating
            } else {
                AgentError::ChannelClosed
            }
        },
    }
}

/// What sending the bytes `data`, already compressed, to `path` on the agent
/// `id` may lead to. The cases are those of [`command_issued`].
pub open spec fn file_issued(
    pre: Map<Id, Agent>,
    post: Map<Id, Agent>,
    id: Id,
    path: Seq<char>,
    data: Seq<u8>,
    r: Result<Id, AgentError>,
) -> bool {
    match r {
        Ok(issued) => {
            &&& pre.contains_key(id)
            &&& pre[id].session@.status.connected()
            &&& !pre[id].session@.files.contains_key(issued)
            &&& session_changed(pre, post, id, pre[id].session@.with_file(issued, path, data))
        },
        Err(e) => {
            &&& post == pre
            &&& e == if pre.contains_key(id) {
                AgentError::ChannelClosed
            } else {
                AgentError::NotFound
            }
        },
    }
}

/// What asking the agent `id` to stop its command `command` may lead to.
///
/// Success puts the kill message last on the record and touches nothing
/// else. Failure changes nothing: `NotFound` where the agent or the command
/// is unknown, `ChannelClosed` where the channel is missing or refused.
pub open spec fn kill_requested(
    pre: Map<Id, Agent>,
    post: Map<Id, Agent>,
    id: Id,
    command: Id,
    force: bool,
    r: Result<(), AgentError>,
) -> bool {
    match r {
        Ok(_) => {
            &&& command_output_of(pre, id, command) is Ok
            &&& pre[id].session@.status.connected()
            &&& session_changed(
                pre,
                post,
                id,
                pre[id].session@.having_sent(PayloadView::KillCommand { id: command, force }),
            )
        },
        Err(e) => {
            &&& post == pre
            &&& e == if command_output_of(pre, id, command) is Ok {
                AgentError::ChannelClosed
            } else {
                AgentError::NotFound
            }
        },
    }
}

/// Taking the agent `id` out, changing at most its session, and putting it
/// back changes the session of that agent and nothing else; where the agent
/// comes back unchanged, so does the map.
proof fn lemma_put_back(pre: Map<Id, Agent>, post: Map<Id, Agent>, id: Id, agent: Agent, same: bool)
    requires
        pre.contains_key(id),
        agent == (Agent { session: agent.session, ..pre[id] }),
        same ==> agent.session == pre[id].session,
        post == pre.remove(id).insert(id, agent),
    ensures
        session_changed(pre, post, id, agent.session@),
        same ==> post == pre,
{
    assert(post =~= pre.insert(id, agent));
    if same {
        assert(agent == pre[id]);
        assert(post =~= pre);
    }
}

/// What a change of status of the agent `id` from `from` to `to` may lead
/// to: `Ok(true)` where the agent was in `from` and is now in `to`,
/// `Ok(false)` where it was in another state and nothing changed, and
/// `NotFound` where the agent has no session.
pub open spec fn status_stepped(
    pre: Map<Id, Agent>,
    post: Map<Id, Agent>,
    id: Id,
    from: AgentStatus,
    to: AgentStatus,
    r: Result<bool, AgentError>,
) -> bool {
    match r {
        Ok(stepped) => {
            &&& pre.contains_key(id)
            &&& stepped == (pre[id].session@.status == from)
            &&& if stepped {
                session_changed(pre, post, id, pre[id].session@.with_status(to))
            } else {
                post == pre
            }
        },
        Err(e) => e == AgentError::NotFound && !pre.contains_key(id) && post == pre,
    }
}

impl Registry {
    /// Every agent is filed under its own identifier. This is the invariant
    /// of the type: it holds of every registry at all times.
    #[verifier::type_invariant]
    pub open spec fn wf(self) -> bool {
        filed_by_id(self@)
    }

    /// A registry without agents.
    pub fn new() -> (registry: Registry)
        ensures
            registry.wf(),
            registry@ == Map::<Id, Agent>::empty(),
    {
        Registry { agents: HashMap::new() }
    }

    /// The number of agents that have a session.
    pub fn len(&self) -> (n: usize)
        ensures
            n == self@.len(),
    {
        broadcast use vstd::std_specs::hash::group_hash_axioms;

        self.agents.len()
    }

    /// Whether the agent `id` has a session.
    pub fn contains(&self, id: Id) -> (r: bool)
        ensures
            r == self@.contains_key(id),
    {
        broadcast use vstd::std_specs::hash::group_hash_axioms;

        self.agents.contains_key(&id)
    }

    /// Looks up the agent `id`.
    pub fn get(&self, id: Id) -> (r: Option<&Agent>)
        ensures
            self.wf(),
            match r {
                Some(agent) => self@.contains_key(id) && *agent == self@[id] && agent.id == id,
                None => !self@.contains_key(id),
            },
    {
        broadcast use vstd::std_specs::hash::group_hash_axioms;

        proof {
            use_type_invariant(self);
        }
        self.agents.get(&id)
    }

    /// The identifiers of all agents that have a session, each once, in no
    /// particular order.
    pub fn list_ids(&self) -> (ids: Vec<Id>)
        ensures
            ids@.to_set() == self@.dom(),
            ids@.no_duplicates(),
            ids@.len() == self@.len(),
    {
        broadcast use vstd::std_specs::hash::group_hash_axioms;

        let mut ids: Vec<Id> = Vec::new();
        let keys = self.agents.keys();
        let ghost all = keys.remaining();
        for key in it: keys
            invariant
                it.seq() == all,
                ids@.len() == it.index(),
                forall|i: int| 0 <= i < ids@.len() ==> ids@[i] == *all[i],
        {
            ids.push(*key);
        }
        assert(ids@ =~= all.unref());
        ids
    }

    /// Files `agent` under its identifier.
    ///
    /// Where another agent holds that identifier, it is taken out and torn
    /// down before the new one goes in, so the two are never in the registry
    /// together. The agent that was replaced is returned, offline.
    pub fn upsert(&mut self, agent: Agent) -> (replaced: Option<Agent>)
        ensures
            final(self).wf(),
            final(self)@ == old(self)@.insert(agent.id, agent),
            match replaced {
                Some(previous) => {
                    &&& old(self)@.contains_key(agent.id)
                    &&& retired(old(self)@[agent.id], previous)
                },
                None => !old(self)@.contains_key(agent.id),
            },
    {
        broadcast use vstd::std_specs::hash::group_hash_axioms;

        let id = agent.id;
        let replaced = match self.detach(id) {
            Some(previous) => {
                let mut previous = previous;
                previous.session.teardown();
                Some(previous)
            },
            None => None,
        };
        self.attach(agent);
        assert(self@ =~= old(self)@.insert(id, agent));
        replaced
    }

    /// Takes the agent `id` out of the registry and tears its session down.
    ///
    /// The agent is returned, offline and with its operation slots as they
    /// were. Afterwards the identifier is free again.
    pub fn remove(&mut self, id: Id) -> (removed: Option<Agent>)
        ensures
            final(self).wf(),
            final(self)@ == old(self)@.remove(id),
            match removed {
                Some(agent) => old(self)@.contains_key(id) && retired(old(self)@[id], agent),
                None => !old(self)@.contains_key(id),
            },
    {
        match self.detach(id) {
            Some(agent) => {
                let mut agent = agent;
                agent.session.teardown();
                Some(agent)
            },
            None => None,
        }
    }

    /// Takes the agent `id` out as it is, to be put back after a change.
    fn detach(&mut self, id: Id) -> (r: Option<Agent>)
        ensures
            final(self).wf(),
            match r {
                Some(agent) => {
                    &&& old(self)@.contains_key(id)
                    &&& agent == old(self)@[id]
                    &&& agent.id == id
                    &&& final(self)@ == old(self)@.remove(id)
                },
                None => !old(self)@.contains_key(id) && final(self)@ == old(self)@,
            },
    {
        broadcast use vstd::std_specs::hash::group_hash_axioms;

        proof {
            use_type_invariant(&*self);
        }
        let mut agents = HashMap::new();
        std::mem::swap(&mut agents, &mut self.agents);
        let r = agents.remove(&id);
        self.agents = agents;
        assert(r is None ==> self@ =~= old(self)@);
        r
    }

    /// Puts an agent in under its identifier.
    fn attach(&mut self, agent: Agent)
        ensures
            final(self).wf(),
            final(self)@ == old(self)@.insert(agent.id, agent),
    {
        broadcast use vstd::std_specs::hash::group_hash_axioms;

        proof {
            use_type_invariant(&*self);
        }
        let mut agents = HashMap::new();
        std::mem::swap(&mut agents, &mut self.agents);
        agents.insert(agent.id, agent);
        self.agents = agents;
    }

    /// Issues `command` to the agent `id` under the first free identifier at
    /// or after `seed`, and returns that identifier at once, without waiting
    /// for the agent.
    pub fn issue_command(&mut self, id: Id, seed: Id, command: &str) -> (r: Result<
        Id,
        AgentError,
    >)
        ensures
            final(self).wf(),
            command_issued(old(self)@, final(self)@, id, command@, r),
            r matches Ok(issued) ==> {
                &&& issued == first_free(old(self)@[id].session@.commands.dom(), seed)
                &&& !old(self)@[id].session@.commands.contains_key(seed) ==> issued == seed
            },
            !old(self)@.contains_key(id) || !old(self)@[id].session@.status.takes_commands()
                ==> r is Err,
    {
        match self.detach(id) {
            None => Err(AgentError::NotFound),
            Some(agent) => {
                let mut agent = agent;
                let r = agent.session.issue_command(seed, command);
                self.attach(agent);
                proof {
                    lemma_put_back(old(self)@, self@, id, agent, r is Err);
                }
                r
            },
        }
    }

    /// Issues `command` to the agent `id` under a new identifier and returns
    /// the identifier at once, without waiting for the agent. Only an online
    /// agent is given a command; one that applies an update gives `Updating`.
    pub fn run_command(&mut self, id: Id, command: &str) -> (r: Result<Id, AgentError>)
        ensures
            final(self).wf(),
            command_issued(old(self)@, final(self)@, id, command@, r),
            r matches Ok(issued) ==> drawn_past(old(self)@[id].session@.commands.dom(), issued),
            !old(self)@.contains_key(id) || !old(self)@[id].session@.status.takes_commands()
                ==> r is Err,
    {
        match self.detach(id) {
            None => Err(AgentError::NotFound),
            Some(agent) => {
                let mut agent = agent;
                let r = agent.session.run_command(command);
                self.attach(agent);
                proof {
                    lemma_put_back(old(self)@, self@, id, agent, r is Err);
                }
                r
            },
        }
    }

    /// Polls the command `command` of the agent `id`: `NotFound` where the
    /// agent or the command is unknown, `None` while the command is pending,
    /// else a copy of the result so far.
    pub fn get_command_output(&self, id: Id, command: Id) -> (r: Result<
        Option<AgentCommand>,
        AgentError,
    >)
        ensures
            match r {
                Ok(slot) => command_output_of(self@, id, command) == Ok::<_, AgentError>(
                    command_view(slot),
                ),
                Err(e) => command_output_of(self@, id, command) == Err::<Option<CommandView>, _>(e),
            },
    {
        match self.get(id) {
            None => Err(AgentError::NotFound),
            Some(agent) => agent.session.command_output(command),
        }
    }

    /// Asks the agent `id` to stop its command `command`: with a hard kill
    /// if `force`, with a graceful terminate if not. The request is advisory
    /// and leaves the slot of the command alone.
    pub fn kill_command(&mut self, id: Id, command: Id, force: bool) -> (r: Result<
        (),
        AgentError,
    >)
        ensures
            final(self).wf(),
            kill_requested(old(self)@, final(self)@, id, command, force, r),
            command_output_of(old(self)@, id, command) is Err ==> r is Err,
            old(self)@.contains_key(id) && !old(self)@[id].session@.status.connected() ==> r is Err,
    {
        match self.detach(id) {
            None => Err(AgentError::NotFound),
            Some(agent) => {
                let mut agent = agent;
                let r = agent.session.kill_command(command, force);
                self.attach(agent);
                proof {
                    lemma_put_back(old(self)@, self@, id, agent, r is Err);
                }
                r
            },
        }
    }

    /// Issues the transfer of the already compressed bytes `data` to `path`
    /// on the agent `id`, under the first free identifier at or after `seed`.
    pub fn issue_file(&mut self, id: Id, seed: Id, path: &str, data: Vec<u8>) -> (r: Result<
        Id,
        AgentError,
    >)
        ensures
            final(self).wf(),
            file_issued(old(self)@, final(self)@, id, path@, data@, r),
            r matches Ok(issued) ==> {
                &&& issued == first_free(old(self)@[id].session@.files.dom(), seed)
                &&& !old(self)@[id].session@.files.contains_key(seed) ==> issued == seed
            },
            !old(self)@.contains_key(id) || !old(self)@[id].session@.status.connected() ==> r is Err,
    {
        match self.detach(id) {
            None => Err(AgentError::NotFound),
            Some(agent) => {
                let mut agent = agent;
                let r = agent.session.issue_file(seed, path, data);
                self.attach(agent);
                proof {
                    lemma_put_back(old(self)@, self@, id, agent, r is Err);
                }
                r
            },
        }
    }

    /// Sends the file contents `data` to `path` on the agent `id` and returns
    /// the identifier of the transfer at once. The bytes that go out are the
    /// compressed form of `data`.
    pub fn send_file(&mut self, id: Id, path: &str, data: &[u8]) -> (r: Result<Id, AgentError>)
        ensures
            final(self).wf(),
            file_issued(
                old(self)@,
                final(self)@,
                id,
                path@,
                deflated(data@, FILE_COMPRESSION_LEVEL),
                r,
            ),
            r matches Ok(issued) ==> drawn_past(old(self)@[id].session@.files.dom(), issued),
            !old(self)@.contains_key(id) || !old(self)@[id].session@.status.connected() ==> r is Err,
    {
        match self.detach(id) {
            None => Err(AgentError::NotFound),
            Some(agent) => {
                let mut agent = agent;
                let r = agent.session.send_file(path, data);
                self.attach(agent);
                proof {
                    lemma_put_back(old(self)@, self@, id, agent, r is Err);
                }
                r
            },
        }
    }

    /// Polls the file transfer `file` of the agent `id`: `NotFound` where the
    /// agent or the transfer is unknown, `None` while the transfer is
    /// pending, else a copy of its outcome.
    pub fn get_file_result(&self, id: Id, file: Id) -> (r: Result<Option<AgentFile>, AgentError>)
        ensures
            match r {
                Ok(slot) => file_result_of(self@, id, file) == Ok::<_, AgentError>(file_view(slot)),
                Err(e) => file_result_of(self@, id, file) == Err::<Option<FileView>, _>(e),
            },
    {
        match self.get(id) {
            None => Err(AgentError::NotFound),
            Some(agent) => agent.session.file_result(file),
        }
    }

    /// Takes in what the agent `id` reports about its load: every
    /// measurement in the report replaces the one known before.
    pub fn record_telemetry(&mut self, id: Id, report: Telemetry) -> (r: Result<(), AgentError>)
        ensures
            final(self).wf(),
            match r {
                Ok(_) => {
                    &&& old(self)@.contains_key(id)
                    &&& final(self)@ == old(self)@.insert(
                        id,
                        old(self)@[id].with_telemetry(report),
                    )
                },
                Err(e) => {
                    &&& e == AgentError::NotFound
                    &&& !old(self)@.contains_key(id)
                    &&& final(self)@ == old(self)@
                },
            },
    {
        match self.detach(id) {
            None => Err(AgentError::NotFound),
            Some(agent) => {
                let mut agent = agent;
                agent.record_telemetry(report);
                self.attach(agent);
                assert(self@ =~= old(self)@.insert(id, agent));
                Ok(())
            },
        }
    }

    /// Reads the identity of the agent that the stored row `v` describes
    /// again from that row. The session and the measurements are kept.
    pub fn refresh_identity(&mut self, v: Model) -> (r: Result<(), AgentError>)
        ensures
            final(self).wf(),
            match r {
                Ok(_) => {
                    &&& old(self)@.contains_key(v.id)
                    &&& final(self)@ == old(self)@.insert(
                        v.id,
                        old(self)@[v.id].with_identity(v),
                    )
                },
                Err(e) => {
                    &&& e == AgentError::NotFound
                    &&& !old(self)@.contains_key(v.id)
                    &&& final(self)@ == old(self)@
                },
            },
    {
        let id = v.id;
        match self.detach(id) {
            None => Err(AgentError::NotFound),
            Some(agent) => {
                let mut agent = agent;
                agent.refresh_identity(v);
                self.attach(agent);
                assert(self@ =~= old(self)@.insert(id, agent));
                Ok(())
            },
        }
    }

    /// Takes in a report of the agent `id` on its command `command`: the
    /// exit code, if the command has ended, and the output since the last
    /// report. `NotFound` where the agent or the command is unknown.
    pub fn record_command(
        &mut self,
        id: Id,
        command: Id,
        code: Option<i32>,
        chunk: Vec<u8>,
    ) -> (r: Result<(), AgentError>)
        ensures
            final(self).wf(),
            match r {
                Ok(_) => {
                    &&& command_output_of(old(self)@, id, command) is Ok
                    &&& session_changed(
                        old(self)@,
                        final(self)@,
                        id,
                        old(self)@[id].session@.with_report(command, code, chunk@),
                    )
                },
                Err(e) => {
                    &&& e == AgentError::NotFound
                    &&& command_output_of(old(self)@, id, command) is Err
                    &&& final(self)@ == old(self)@
                },
            },
    {
        match self.detach(id) {
            None => Err(AgentError::NotFound),
            Some(agent) => {
                let mut agent = agent;
                let r = agent.session.record_command(command, code, chunk);
                self.attach(agent);
                proof {
                    lemma_put_back(old(self)@, self@, id, agent, r is Err);
                }
                r
            },
        }
    }

    /// Takes in the report of the agent `id` that its file transfer `file`
    /// has ended with `code` and `message`. The first report settles the
    /// transfer. `NotFound` where the agent or the transfer is unknown.
    pub fn record_file(&mut self, id: Id, file: Id, code: u32, message: String) -> (r: Result<
        (),
        AgentError,
    >)
        ensures
            final(self).wf(),
            match r {
                Ok(_) => {
                    &&& file_result_of(old(self)@, id, file) is Ok
                    &&& session_changed(
                        old(self)@,
                        final(self)@,
                        id,
                        old(self)@[id].session@.with_outcome(
                            file,
                            FileView { code, message: message@ },
                        ),
                    )
                },
                Err(e) => {
                    &&& e == AgentError::NotFound
                    &&& file_result_of(old(self)@, id, file) is Err
                    &&& final(self)@ == old(self)@
                },
            },
    {
        match self.detach(id) {
            None => Err(AgentError::NotFound),
            Some(agent) => {
                let mut agent = agent;
                let r = agent.session.record_file(file, code, message);
                self.attach(agent);
                proof {
                    lemma_put_back(old(self)@, self@, id, agent, r is Err);
                }
                r
            },
        }
    }

    /// The agent `id` has acknowledged an update instruction: where it is
    /// online it goes to updating.
    pub fn begin_update(&mut self, id: Id) -> (r: Result<bool, AgentError>)
        ensures
            final(self).wf(),
            status_stepped(
                old(self)@,
                final(self)@,
                id,
                AgentStatus::Online,
                AgentStatus::Updating,
                r,
            ),
    {
        match self.detach(id) {
            None => Err(AgentError::NotFound),
            Some(agent) => {
                let mut agent = agent;
                let started = agent.session.begin_update();
                self.attach(agent);
                proof {
                    lemma_put_back(old(self)@, self@, id, agent, !started);
                }
                Ok(started)
            },
        }
    }

    /// The update of the agent `id` has ended: where it is updating it goes
    /// back online.
    pub fn finish_update(&mut self, id: Id) -> (r: Result<bool, AgentError>)
        ensures
            final(self).wf(),
            status_stepped(
                old(self)@,
                final(self)@,
                id,
                AgentStatus::Updating,
                AgentStatus::Online,
                r,
            ),
    {
        match self.detach(id) {
            None => Err(AgentError::NotFound),
            Some(agent) => {
                let mut agent = agent;
                let finished = agent.session.finish_update();
                self.attach(agent);
                proof {
                    lemma_put_back(old(self)@, self@, id, agent, !finished);
                }
                Ok(finished)
            },
        }
    }
}

} // verus!
