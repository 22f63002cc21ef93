//! The connection of one agent and the operations issued over it.

use actix_cloud::tokio::sync::mpsc::UnboundedSender;
use std::collections::HashMap;
use vstd::prelude::*;

use crate::compress::{deflate, deflated, FILE_COMPRESSION_LEVEL};
use crate::error::AgentError;
use crate::ident::{drawn_past, first_free, fresh_id, random_id, Id};
use crate::outcome::{
    absorb_report, command_view, file_view, settle_transfer, AgentCommand, AgentFile, CommandView,
    FileView,
};
use crate::payload::{Payload, PayloadView};
use crate::status::AgentStatus;
use crate::transport::offer;

verus! {

/// The connection of a session: none, or a channel to an agent that is
/// online or applying an update. A channel exists exactly when the agent is
/// connected, because only the connected states have room for one.
enum Link {
    Offline,
    Online(UnboundedSender<Payload>),
    Updating(UnboundedSender<Payload>),
}

/// The mutable core of an agent's session: its connection, the slots of the
/// commands and file transfers issued over it, and a ghost record of every
/// message that its channels have taken.
pub struct Session {
    link: Link,
    command: HashMap<Id, Option<AgentCommand>>,
    file: HashMap<Id, Option<AgentFile>>,
    sent: Ghost<Seq<PayloadView>>,
}

/// What a [`Session`] holds, as mathematical values.
pub struct SessionView {
    /// The connectivity of the agent.
    pub status: AgentStatus,
    /// The slot of every command issued: `None` while pending.
    pub commands: Map<Id, Option<CommandView>>,
    /// The slot of every file transfer issued: `None` while pending.
    pub files: Map<Id, Option<FileView>>,
    /// Every message the channels of this session have taken, oldest first.
    pub sent: Seq<PayloadView>,
}

impl SessionView {
    /// A session that is offline and has issued nothing.
    pub open spec fn idle() -> SessionView {
        SessionView {
            status: AgentStatus::Offline,
            commands: Map::empty(),
            files: Map::empty(),
            sent: Seq::empty(),
        }
    }

    /// The session with another status and nothing else changed.
    pub open spec fn with_status(self, status: AgentStatus) -> SessionView {
        SessionView { status, ..self }
    }

    /// The session after its channel has taken `payload`.
    pub open spec fn having_sent(self, payload: PayloadView) -> SessionView {
        SessionView { sent: self.sent.push(payload), ..self }
    }

    /// The session after the command `id` was issued: its slot is pending
    /// and the run message is the last one sent.
    pub open spec fn with_command(self, id: Id, command: Seq<char>) -> SessionView {
        SessionView {
            commands: self.commands.insert(id, None),
            ..self.having_sent(PayloadView::RunCommand { id, command })
        }
    }

    /// The session after the file transfer `id` was issued: its slot is
    /// pending and the transfer message is the last one sent.
    pub open spec fn with_file(self, id: Id, path: Seq<char>, data: Seq<u8>) -> SessionView {
        SessionView {
            files: self.files.insert(id, None),
            ..self.having_sent(PayloadView::SendFile { id, path, data })
        }
    }

    /// The session after the agent reported on the command `id`.
    pub open spec fn with_report(self, id: Id, code: Option<i32>, chunk: Seq<u8>) -> SessionView {
        SessionView {
            commands: self.commands.insert(id, absorb_report(self.commands[id], code, chunk)),
            ..self
        }
    }

    /// The session after the agent reported the outcome of the transfer `id`.
    pub open spec fn with_outcome(self, id: Id, outcome: FileView) -> SessionView {
        SessionView {
            files: self.files.insert(id, settle_transfer(self.files[id], outcome)),
            ..self
        }
    }

    /// The session after teardown: offline, with a last `Quit` on the record
    /// if the channel took one. The slots stay as they were.
    pub open spec fn torn_down(self, notified: bool) -> SessionView {
        let offline = self.with_status(AgentStatus::Offline);
        if notified {
            offline.having_sent(PayloadView::Quit)
        } else {
            offline
        }
    }

    /// What a poll for the command `id` shows: not found, pending (`None`),
    /// or the result so far.
    pub open spec fn command_output(self, id: Id) -> Result<Option<CommandView>, AgentError> {
        if self.commands.contains_key(id) {
            Ok(self.commands[id])
        } else {
            Err(AgentError::NotFound)
        }
    }

    /// What a poll for the file transfer `id` shows: not found, pending
    /// (`None`), or the outcome.
    pub open spec fn file_result(self, id: Id) -> Result<Option<FileView>, AgentError> {
        if self.files.contains_key(id) {
            Ok(self.files[id])
        } else {
            Err(AgentError::NotFound)
        }
    }
}

impl View for Session {
    type V = SessionView;

    closed spec fn view(&self) -> SessionView {
        SessionView {
            status: match self.link {
                Link::Offline => AgentStatus::Offline,
                Link::Online(_) => AgentStatus::Online,
                Link::Updating(_) => AgentStatus::Updating,
            },
            commands: Map::new(
                |id: Id| self.command@.contains_key(id),
                |id: Id| command_view(self.command@[id]),
            ),
            files: Map::new(
                |id: Id| self.file@.contains_key(id),
                |id: Id| file_view(self.file@[id]),
            ),
            sent: self.sent@,
        }
    }
}

impl Session {
    /// Whether the session holds a channel to its agent.
    pub closed spec fn has_channel(&self) -> bool {
        !(self.link is Offline)
    }

    /// An offline session that has issued nothing.
    pub fn new() -> (session: Session)
        ensures
            session@ == SessionView::idle(),
    {
        let session = Session {
            link: Link::Offline,
            command: HashMap::new(),
            file: HashMap::new(),
            sent: Ghost(Seq::empty()),
        };
        assert(session@.commands =~= Map::<Id, Option<CommandView>>::empty());
        assert(session@.files =~= Map::<Id, Option<FileView>>::empty());
        session
    }

    /// The connectivity of the agent.
    pub fn status(&self) -> (status: AgentStatus)
        ensures
            status == self@.status,
    {
        match &self.link {
            Link::Offline => AgentStatus::Offline,
            Link::Online(_) => AgentStatus::Online,
            Link::Updating(_) => AgentStatus::Updating,
        }
    }

    /// Offers `payload` to the channel, if there is one, and records it where
    /// the channel took it. An offline session has no channel and refuses.
    fn enqueue(&mut self, payload: Payload) -> (accepted: bool)
        ensures
            accepted ==> old(self)@.status.connected(),
            accepted ==> final(self)@ == old(self)@.having_sent(payload@),
            !accepted ==> *final(self) == *old(self),
    {
        let ghost said = payload@;
        let taken = match &self.link {
            Link::Offline => false,
            Link::Online(channel) => offer(channel, payload),
            Link::Updating(channel) => offer(channel, payload),
        };
        self.note_answer(Ghost(said), taken)
    }

    /// Records the answer of the channel to the offer of the message `said`
    /// and hands the answer on: a message that was taken goes to the end of
    /// the record, a refused one leaves no trace.
    fn note_answer(&mut self, said: Ghost<PayloadView>, taken: bool) -> (accepted: bool)
        ensures
            accepted == taken,
            taken ==> final(self)@ == old(self)@.having_sent(said@),
            !taken ==> *final(self) == *old(self),
    {
        if taken {
            self.sent = Ghost(self.sent@.push(said@));
        }
        taken
    }

    /// The handshake has completed: an offline session goes online over
    /// `channel`. A session that is connected already stays as it is, and
    /// the answer is `false`.
    pub fn connect(&mut self, channel: UnboundedSender<Payload>) -> (connected: bool)
        ensures
            connected == (old(self)@.status == AgentStatus::Offline),
            connected ==> final(self)@ == old(self)@.with_status(AgentStatus::Online),
            connected ==> old(self)@.status.may_become(final(self)@.status),
            !connected ==> *final(self) == *old(self),
    {
        match &self.link {
            Link::Offline => {
                self.link = Link::Online(channel);
                true
            },
            _ => false,
        }
    }

    /// The agent has acknowledged an update instruction: an online session
    /// goes to updating and keeps its channel. In any other state nothing
    /// changes, and the answer is `false`.
    pub fn begin_update(&mut self) -> (started: bool)
        ensures
            started == (old(self)@.status == AgentStatus::Online),
            started ==> final(self)@ == old(self)@.with_status(AgentStatus::Updating),
            started ==> old(self)@.status.may_become(final(self)@.status),
            !started ==> *final(self) == *old(self),
    {
        let mut link = Link::Offline;
        std::mem::swap(&mut self.link, &mut link);
        match link {
            Link::Online(channel) => {
                self.link = Link::Updating(channel);
                true
            },
            other => {
                self.link = other;
                false
            },
        }
    }

    /// The update has ended: an updating session goes back online and keeps
    /// its channel. In any other state nothing changes, and the answer is
    /// `false`.
    pub fn finish_update(&mut self) -> (finished: bool)
        ensures
            finished == (old(self)@.status == AgentStatus::Updating),
            finished ==> final(self)@ == old(self)@.with_status(AgentStatus::Online),
            finished ==> old(self)@.status.may_become(final(self)@.status),
            !finished ==> *final(self) == *old(self),
    {
        let mut link = Link::Offline;
        std::mem::swap(&mut self.link, &mut link);
        match link {
            Link::Updating(channel) => {
                self.link = Link::Online(channel);
                true
            },
            other => {
                self.link = other;
                false
            },
        }
    }

    /// Ends the session's connection. A connected session offers one `Quit`
    /// to its channel, lets the channel go and is offline afterwards; the
    /// answer says whether the channel took the `Quit`. An offline session
    /// stays as it is. The operation slots are kept either way.
    pub fn teardown(&mut self) -> (notified: bool)
        ensures
            final(self)@ == old(self)@.torn_down(notified),
            old(self)@.status.may_become(final(self)@.status),
            notified ==> old(self)@.status.connected(),
            !old(self)@.status.connected() ==> *final(self) == *old(self),
    {
        let notified = self.enqueue(Payload::Quit);
        match &self.link {
            Link::Offline => {},
            _ => {
                self.link = Link::Offline;
            },
        }
        notified
    }

    /// Issues `command` under the first free identifier at or after `seed`.
    ///
    /// Only an online session is given a command. While the agent applies an
    /// update the command is rejected with `Updating`, and nothing is sent.
    /// Otherwise the run message goes to the channel first. Where the
    /// channel takes it, the command gets a pending slot and its identifier
    /// is returned. Where there is no channel or the channel refuses, the
    /// error is `ChannelClosed`: no slot is made for a command that no agent
    /// will ever hear of. Every failure leaves the session as it was.
    pub fn issue_command(&mut self, seed: Id, command: &str) -> (r: Result<Id, AgentError>)
        ensures
            match r {
                Ok(id) => {
                    &&& id == first_free(old(self)@.commands.dom(), seed)
                    &&& !old(self)@.commands.contains_key(seed) ==> id == seed
                    &&& !old(self)@.commands.contains_key(id)
                    &&& old(self)@.status.takes_commands()
                    &&& final(self)@ == old(self)@.with_command(id, command@)
                },
                Err(e) => {
                    &&& *final(self) == *old(self)
                    &&& e == if old(self)@.status == AgentStatus::Updating {
                        AgentError::Updating
                    } else {
                        AgentError::ChannelClosed
                    }
                },
            },
            !old(self)@.status.takes_commands() ==> r is Err,
    {
        broadcast use vstd::std_specs::hash::group_hash_axioms;

        if self.status().is_updating() {
            return Err(AgentError::Updating);
        }
        let id = fresh_id(&self.command, seed);
        assert(old(self)@.commands.dom() =~= self.command@.dom());
        let accepted = self.enqueue(Payload::RunCommand { id, command: command.to_owned() });
        self.open_command_slot(id, accepted)
    }

    /// Settles the issue of the command `id` once the channel has answered:
    /// a pending slot and the identifier where the channel took the run
    /// message, `ChannelClosed` and no slot where it did not.
    fn open_command_slot(&mut self, id: Id, accepted: bool) -> (r: Result<Id, AgentError>)
        ensures
            accepted ==> r == Ok::<Id, AgentError>(id) && final(self)@ == (SessionView {
                commands: old(self)@.commands.insert(id, None),
                ..old(self)@
            }),
            !accepted ==> r == Err::<Id, AgentError>(AgentError::ChannelClosed) && *final(self)
                == *old(self),
    {
        broadcast use vstd::std_specs::hash::group_hash_axioms;

        if accepted {
            self.command.insert(id, None);
            assert(self@.commands =~= old(self)@.commands.insert(id, None));
            assert(self@.files =~= old(self)@.files);
            Ok(id)
        } else {
            Err(AgentError::ChannelClosed)
        }
    }

    /// Issues `command` under a new identifier: a random one, or the next
    /// free one after it in the unlikely case that it is taken.
    ///
    /// See [`Session::issue_command`] for what happens to the session.
    pub fn run_command(&mut self, command: &str) -> (r: Result<Id, AgentError>)
        ensures
            match r {
                Ok(id) => {
                    &&& drawn_past(old(self)@.commands.dom(), id)
                    &&& !old(self)@.commands.contains_key(id)
                    &&& old(self)@.status.takes_commands()
                    &&& final(self)@ == old(self)@.with_command(id, command@)
                },
                Err(e) => {
                    &&& *final(self) == *old(self)
                    &&& e == if old(self)@.status == AgentStatus::Updating {
                        AgentError::Updating
                    } else {
                        AgentError::ChannelClosed
                    }
                },
            },
            !old(self)@.status.takes_commands() ==> r is Err,
    {
        let seed = random_id();
        self.issue_command(seed, command)
    }

    /// Asks the agent to stop the command `id`: with a hard kill if `force`,
    /// with a graceful terminate if not.
    ///
    /// The request is advisory: the slot of the command is not touched, and
    /// the agent's own report settles it later. An identifier that names no
    /// command of this session gives `NotFound`; a channel that is missing or
    /// refuses gives `ChannelClosed`.
    pub fn kill_command(&mut self, id: Id, force: bool) -> (r: Result<(), AgentError>)
        ensures
            match r {
                Ok(_) => {
                    &&& old(self)@.commands.contains_key(id)
                    &&& old(self)@.status.connected()
                    &&& final(self)@ == old(self)@.having_sent(
                        PayloadView::KillCommand { id, force },
                    )
                },
                Err(e) => {
                    &&& *final(self) == *old(self)
                    &&& e == if old(self)@.commands.contains_key(id) {
                        AgentError::ChannelClosed
                    } else {
                        AgentError::NotFound
                    }
                },
            },
            !old(self)@.commands.contains_key(id) || !old(self)@.status.connected() ==> r is Err,
    {
        broadcast use vstd::std_specs::hash::group_hash_axioms;

        if !self.command.contains_key(&id) {
            return Err(AgentError::NotFound);
        }
        if self.enqueue(Payload::KillCommand { id, force }) {
            Ok(())
        } else {
            Err(AgentError::ChannelClosed)
        }
    }

    /// Issues the transfer of the already compressed bytes `data` to `path`
    /// under the first free identifier at or after `seed`.
    ///
    /// As with commands, the slot is made only where the channel took the
    /// message.
    pub fn issue_file(&mut self, seed: Id, path: &str, data: Vec<u8>) -> (r: Result<
        Id,
        AgentError,
    >)
        ensures
            match r {
                Ok(id) => {
                    &&& id == first_free(old(self)@.files.dom(), seed)
                    &&& !old(self)@.files.contains_key(seed) ==> id == seed
                    &&& !old(self)@.files.contains_key(id)
                    &&& old(self)@.status.connected()
                    &&& final(self)@ == old(self)@.with_file(id, path@, data@)
                },
                Err(e) => e == AgentError::ChannelClosed && *final(self) == *old(self),
            },
            !old(self)@.status.connected() ==> r is Err,
    {
        broadcast use vstd::std_specs::hash::group_hash_axioms;

        let id = fresh_id(&self.file, seed);
        assert(old(self)@.files.dom() =~= self.file@.dom());
        let accepted = self.enqueue(Payload::SendFile { id, path: path.to_owned(), data });
        self.open_file_slot(id, accepted)
    }

    /// Settles the issue of the file transfer `id` once the channel has
    /// answered: a pending slot and the identifier where the channel took
    /// the transfer message, `ChannelClosed` and no slot where it did not.
    fn open_file_slot(&mut self, id: Id, accepted: bool) -> (r: Result<Id, AgentError>)
        ensures
            accepted ==> r == Ok::<Id, AgentError>(id) && final(self)@ == (SessionView {
                files: old(self)@.files.insert(id, None),
                ..old(self)@
            }),
            !accepted ==> r == Err::<Id, AgentError>(AgentError::ChannelClosed) && *final(self)
                == *old(self),
    {
        broadcast use vstd::std_specs::hash::group_hash_axioms;

        if accepted {
            self.file.insert(id, None);
            assert(self@.files =~= old(self)@.files.insert(id, None));
            assert(self@.commands =~= old(self)@.commands);
            Ok(id)
        } else {
            Err(AgentError::ChannelClosed)
        }
    }

    /// Sends the file contents `data` to `path` on the agent, compressed,
    /// under a new identifier.
    ///
    /// The bytes in the message are the DEFLATE stream of `data` at
    /// [`FILE_COMPRESSION_LEVEL`]. See [`Session::issue_file`] for what
    /// happens to the session.
    pub fn send_file(&mut self, path: &str, data: &[u8]) -> (r: Result<Id, AgentError>)
        ensures
            match r {
                Ok(id) => {
                    &&& drawn_past(old(self)@.files.dom(), id)
                    &&& !old(self)@.files.contains_key(id)
                    &&& old(self)@.status.connected()
                    &&& final(self)@ == old(self)@.with_file(
                        id,
                        path@,
                        deflated(data@, FILE_COMPRESSION_LEVEL),
                    )
                },
                Err(e) => e == AgentError::ChannelClosed && *final(self) == *old(self),
            },
            !old(self)@.status.connected() ==> r is Err,
    {
        let packed = deflate(data, FILE_COMPRESSION_LEVEL);
        let seed = random_id();
        self.issue_file(seed, path, packed)
    }

    /// Takes in a report of the agent on the command `id`: the exit code, if
    /// the command has ended, and the output since the last report.
    ///
    /// The slot changes as [`absorb_report`] says. An identifier that names
    /// no command of this session gives `NotFound`.
    pub fn record_command(&mut self, id: Id, code: Option<i32>, chunk: Vec<u8>) -> (r: Result<
        (),
        AgentError,
    >)
        ensures
            match r {
                Ok(_) => {
                    &&& old(self)@.commands.contains_key(id)
                    &&& final(self)@ == old(self)@.with_report(id, code, chunk@)
                },
                Err(e) => {
                    &&& e == AgentError::NotFound
                    &&& !old(self)@.commands.contains_key(id)
                    &&& *final(self) == *old(self)
                },
            },
    {
        broadcast use vstd::std_specs::hash::group_hash_axioms;

        if !self.command.contains_key(&id) {
            return Err(AgentError::NotFound);
        }
        let slot = self.command.remove(&id).unwrap();
        let next = match slot {
            None => AgentCommand { code, output: chunk },
            Some(seen) => {
                if seen.code.is_some() {
                    seen
                } else {
                    let mut seen = seen;
                    let mut chunk = chunk;
                    seen.output.append(&mut chunk);
                    seen.code = code;
                    seen
                }
            },
        };
        self.command.insert(id, Some(next));
        assert(self@.commands =~= old(self)@.with_report(id, code, chunk@).commands);
        assert(self@.files =~= old(self)@.files);
        Ok(())
    }

    /// Takes in the agent's report that the file transfer `id` has ended
    /// with `code` and `message`.
    ///
    /// The first report settles the transfer; a later one changes nothing. An
    /// identifier that names no transfer of this session gives `NotFound`.
    pub fn record_file(&mut self, id: Id, code: u32, message: String) -> (r: Result<
        (),
        AgentError,
    >)
        ensures
            match r {
                Ok(_) => {
                    &&& old(self)@.files.contains_key(id)
                    &&& final(self)@ == old(self)@.with_outcome(
                        id,
                        FileView { code, message: message@ },
                    )
                },
                Err(e) => {
                    &&& e == AgentError::NotFound
                    &&& !old(self)@.files.contains_key(id)
                    &&& *final(self) == *old(self)
                },
            },
    {
        broadcast use vstd::std_specs::hash::group_hash_axioms;

        if !self.file.contains_key(&id) {
            return Err(AgentError::NotFound);
        }
        let slot = self.file.remove(&id).unwrap();
        let next = match slot {
            None => AgentFile { code, message },
            Some(settled) => settled,
        };
        self.file.insert(id, Some(next));
        assert(self@.files =~= old(self)@.with_outcome(
            id,
            FileView { code, message: message@ },
        ).files);
        assert(self@.commands =~= old(self)@.commands);
        Ok(())
    }

    /// Polls the command `id`: `NotFound` for an identifier that names no
    /// command of this session, `None` while the command is pending, else a
    /// copy of the result so far.
    pub fn command_output(&self, id: Id) -> (r: Result<Option<AgentCommand>, AgentError>)
        ensures
            match r {
                Ok(slot) => self@.command_output(id) == Ok::<_, AgentError>(command_view(slot)),
                Err(e) => self@.command_output(id) == Err::<Option<CommandView>, _>(e),
            },
    {
        broadcast use vstd::std_specs::hash::group_hash_axioms;

        match self.command.get(&id) {
            None => Err(AgentError::NotFound),
            Some(None) => Ok(None),
            Some(Some(result)) => Ok(Some(result.clone())),
        }
    }

    /// Polls the file transfer `id`: `NotFound` for an identifier that names
    /// no transfer of this session, `None` while the transfer is pending,
    /// else a copy of its outcome.
    pub fn file_result(&self, id: Id) -> (r: Result<Option<AgentFile>, AgentError>)
        ensures
            match r {
                Ok(slot) => self@.file_result(id) == Ok::<_, AgentError>(file_view(slot)),
                Err(e) => self@.file_result(id) == Err::<Option<FileView>, _>(e),
            },
    {
        broadcast use vstd::std_specs::hash::group_hash_axioms;

        match self.file.get(&id) {
            None => Err(AgentError::NotFound),
            Some(None) => Ok(None),
            Some(Some(outcome)) => Ok(Some(outcome.clone())),
        }
    }
}

/// A session holds a channel exactly when its agent is online or updating.
pub proof fn lemma_channel_iff_connected(session: Session)
    ensures
        session.has_channel() <==> session@.status.connected(),
{
}

} // verus!
