//! What holds of the registry and its sessions across operations.
//!
//! Each lemma is stated over the same views and relations as the contracts
//! of the operations, so it applies to any run of them.

use vstd::prelude::*;

use crate::agent::Agent;
use crate::error::AgentError;
use crate::ident::Id;
use crate::outcome::{CommandView, FileView};
use crate::payload::PayloadView;
use crate::registry::{
    command_issued, command_output_of, file_issued, file_result_of, filed_by_id, kill_requested,
    session_changed, shut_down,
};
use crate::session::SessionView;
use crate::status::AgentStatus;

verus! {

/// One structural change of the registry.
pub enum RegistryStep {
    /// File the agent under its identifier, in place of any agent there.
    Upsert(Agent),
    /// Take out the agent filed under the identifier, if there is one.
    Remove(Id),
}

/// The agents after one step.
pub open spec fn after_step(agents: Map<Id, Agent>, step: RegistryStep) -> Map<Id, Agent> {
    match step {
        RegistryStep::Upsert(agent) => agents.insert(agent.id, agent),
        RegistryStep::Remove(id) => agents.remove(id),
    }
}

/// The agents after a sequence of steps, first step first.
pub open spec fn after_steps(agents: Map<Id, Agent>, steps: Seq<RegistryStep>) -> Map<Id, Agent>
    decreases steps.len(),
{
    if steps.len() == 0 {
        agents
    } else {
        after_step(after_steps(agents, steps.drop_last()), steps.last())
    }
}

/// Whatever sequence of upserts and removes runs on an empty registry, two
/// agents in it never share an identifier: each identifier leads to at most
/// one agent, and that agent carries the identifier.
pub proof fn lemma_one_session_per_agent(steps: Seq<RegistryStep>, a: Id, b: Id)
    ensures
        filed_by_id(after_steps(Map::empty(), steps)),
        ({
            let agents = after_steps(Map::empty(), steps);
            agents.contains_key(a) && agents.contains_key(b) && agents[a].id == agents[b].id
                ==> a == b
        }),
    decreases steps.len(),
{
    if steps.len() > 0 {
        lemma_one_session_per_agent(steps.drop_last(), a, b);
    }
}

/// A command that was issued can be polled at once: the poll shows it as
/// pending, never as not found.
pub proof fn lemma_issued_command_is_pending(
    pre: Map<Id, Agent>,
    post: Map<Id, Agent>,
    id: Id,
    command: Seq<char>,
    issued: Id,
)
    requires
        command_issued(pre, post, id, command, Ok(issued)),
    ensures
        command_output_of(post, id, issued) == Ok::<Option<CommandView>, AgentError>(None),
{
}

/// A file transfer that was issued can be polled at once: the poll shows it
/// as pending, never as not found.
pub proof fn lemma_issued_file_is_pending(
    pre: Map<Id, Agent>,
    post: Map<Id, Agent>,
    id: Id,
    path: Seq<char>,
    data: Seq<u8>,
    issued: Id,
)
    requires
        file_issued(pre, post, id, path, data, Ok(issued)),
    ensures
        file_result_of(post, id, issued) == Ok::<Option<FileView>, AgentError>(None),
{
}

/// While an agent applies an update it is given no new command: the issue
/// is rejected with `Updating`, nothing is sent and nothing changes.
pub proof fn lemma_update_holds_commands_back(
    pre: Map<Id, Agent>,
    post: Map<Id, Agent>,
    id: Id,
    command: Seq<char>,
    r: Result<Id, AgentError>,
)
    requires
        command_issued(pre, post, id, command, r),
        pre.contains_key(id),
        pre[id].session@.status == AgentStatus::Updating,
    ensures
        r == Err::<Id, AgentError>(AgentError::Updating),
        post == pre,
{
}

/// Issuing a command leaves every earlier command and every file transfer
/// of every agent as a poll showed it before.
pub proof fn lemma_issue_keeps_other_slots(
    pre: Map<Id, Agent>,
    post: Map<Id, Agent>,
    id: Id,
    command: Seq<char>,
    issued: Id,
    other_agent: Id,
    other: Id,
)
    requires
        command_issued(pre, post, id, command, Ok(issued)),
        other_agent != id || other != issued,
    ensures
        command_output_of(post, other_agent, other) == command_output_of(pre, other_agent, other),
        file_result_of(post, other_agent, other) == file_result_of(pre, other_agent, other),
{
}

/// The first report on a pending command is what the next poll shows,
/// exactly: the exit code and the output of the report.
pub proof fn lemma_first_report_is_shown(
    pre: Map<Id, Agent>,
    post: Map<Id, Agent>,
    id: Id,
    command: Id,
    code: Option<i32>,
    chunk: Seq<u8>,
)
    requires
        command_output_of(pre, id, command) == Ok::<Option<CommandView>, AgentError>(None),
        session_changed(pre, post, id, pre[id].session@.with_report(command, code, chunk)),
    ensures
        command_output_of(post, id, command) == Ok::<Option<CommandView>, AgentError>(
            Some(CommandView { code, output: chunk }),
        ),
{
}

/// Once a poll has shown an exit code, no later report changes what polls
/// show for that command.
pub proof fn lemma_finished_command_is_final(
    pre: Map<Id, Agent>,
    post: Map<Id, Agent>,
    id: Id,
    command: Id,
    code: Option<i32>,
    chunk: Seq<u8>,
)
    requires
        command_output_of(pre, id, command) matches Ok(Some(seen)) && seen.finished(),
        session_changed(pre, post, id, pre[id].session@.with_report(command, code, chunk)),
    ensures
        command_output_of(post, id, command) == command_output_of(pre, id, command),
{
}

/// Killing a command that the agent does not have is refused with
/// `NotFound`, whatever `force` is, and changes nothing.
pub proof fn lemma_kill_unknown_is_not_found(
    pre: Map<Id, Agent>,
    post: Map<Id, Agent>,
    id: Id,
    command: Id,
    force: bool,
    r: Result<(), AgentError>,
)
    requires
        kill_requested(pre, post, id, command, force, r),
        command_output_of(pre, id, command) is Err,
    ensures
        r == Err::<(), AgentError>(AgentError::NotFound),
        post == pre,
{
}

/// A kill request never touches a slot: polls show the same before and
/// after, for every command of every agent.
pub proof fn lemma_kill_is_advisory(
    pre: Map<Id, Agent>,
    post: Map<Id, Agent>,
    id: Id,
    command: Id,
    force: bool,
    r: Result<(), AgentError>,
    other_agent: Id,
    other: Id,
)
    requires
        kill_requested(pre, post, id, command, force, r),
    ensures
        command_output_of(post, other_agent, other) == command_output_of(pre, other_agent, other),
{
}

/// Teardown puts at most one `Quit` on the record, and exactly one where
/// the channel took it; it leaves the session offline with its slots as
/// they were; and tearing down again changes nothing more.
pub proof fn lemma_teardown_sends_one_quit(
    before: SessionView,
    after: SessionView,
    again: SessionView,
)
    requires
        shut_down(before, after),
        shut_down(after, again),
    ensures
        after.status == AgentStatus::Offline,
        after.commands == before.commands,
        after.files == before.files,
        after.sent == before.sent || after.sent == before.sent.push(PayloadView::Quit),
        !before.status.connected() ==> after == before,
        again == after,
{
}

/// After an agent was removed, every poll for it says not found.
pub proof fn lemma_removed_agent_is_not_found(agents: Map<Id, Agent>, id: Id, operation: Id)
    ensures
        !agents.remove(id).contains_key(id),
        command_output_of(agents.remove(id), id, operation) == Err::<
            Option<CommandView>,
            AgentError,
        >(AgentError::NotFound),
        file_result_of(agents.remove(id), id, operation) == Err::<Option<FileView>, AgentError>(
            AgentError::NotFound,
        ),
{
}

/// Every message goes to the end of the record of its session, behind all
/// that were sent before, so the record lists the messages of one agent in
/// the order of the calls that sent them. Reports and changes of status
/// send nothing.
pub proof fn lemma_messages_keep_call_order(
    session: SessionView,
    id: Id,
    text: Seq<char>,
    data: Seq<u8>,
    force: bool,
    code: Option<i32>,
    outcome: FileView,
    status: AgentStatus,
)
    ensures
        session.with_command(id, text).sent == session.sent.push(
            PayloadView::RunCommand { id, command: text },
        ),
        session.with_file(id, text, data).sent == session.sent.push(
            PayloadView::SendFile { id, path: text, data },
        ),
        session.having_sent(PayloadView::KillCommand { id, force }).sent == session.sent.push(
            PayloadView::KillCommand { id, force },
        ),
        session.torn_down(true).sent == session.sent.push(PayloadView::Quit),
        session.torn_down(false).sent == session.sent,
        session.with_report(id, code, data).sent == session.sent,
        session.with_outcome(id, outcome).sent == session.sent,
        session.with_status(status).sent == session.sent,
{
}

} // verus!
