//! Results of commands and file transfers, as a session keeps them.

use vstd::prelude::*;

verus! {

/// What is known of a command that an agent has started to answer.
///
/// `code` is the exit code, absent while the command still streams output.
/// `output` is everything the command has printed so far.
#[derive(Debug)]
pub struct AgentCommand {
    pub code: Option<i32>,
    pub output: Vec<u8>,
}

/// An [`AgentCommand`] with its output as a sequence of bytes.
pub struct CommandView {
    pub code: Option<i32>,
    pub output: Seq<u8>,
}

impl View for AgentCommand {
    type V = CommandView;

    open spec fn view(&self) -> CommandView {
        CommandView { code: self.code, output: self.output@ }
    }
}

impl CommandView {
    /// A result is final once it carries an exit code.
    pub open spec fn finished(self) -> bool {
        self.code is Some
    }
}

/// The slot of a command after a report from the agent with the exit code
/// `code` (if the command has ended) and the further output `chunk`.
///
/// A pending slot takes the report as its first result. A slot that still
/// streams appends the chunk and takes the exit code. A finished slot stays
/// as it is.
pub open spec fn absorb_report(
    slot: Option<CommandView>,
    code: Option<i32>,
    chunk: Seq<u8>,
) -> Option<CommandView> {
    match slot {
        None => Some(CommandView { code, output: chunk }),
        Some(seen) => if seen.finished() {
            Some(seen)
        } else {
            Some(CommandView { code, output: seen.output + chunk })
        },
    }
}

impl Clone for AgentCommand {
    fn clone(&self) -> (r: Self)
        ensures
            r@ == self@,
    {
        AgentCommand { code: self.code, output: self.output.clone() }
    }
}

impl Default for AgentCommand {
    fn default() -> (r: Self)
        ensures
            r@ == (CommandView { code: None, output: Seq::empty() }),
    {
        AgentCommand { code: None, output: Vec::new() }
    }
}

impl AgentCommand {
    /// A result with no exit code and no output.
    pub fn new() -> (r: Self)
        ensures
            r@ == (CommandView { code: None, output: Seq::empty() }),
    {
        AgentCommand { code: None, output: Vec::new() }
    }

    /// Whether the command has ended.
    pub fn is_finished(&self) -> (r: bool)
        ensures
            r == self@.finished(),
    {
        self.code.is_some()
    }
}

/// The outcome of a file transfer: a status code and a message for people.
#[derive(Debug)]
pub struct AgentFile {
    pub code: u32,
    pub message: String,
}

/// An [`AgentFile`] with its message as a sequence of characters.
pub struct FileView {
    pub code: u32,
    pub message: Seq<char>,
}

impl View for AgentFile {
    type V = FileView;

    open spec fn view(&self) -> FileView {
        FileView { code: self.code, message: self.message@ }
    }
}

/// The slot of a file transfer after the agent has reported `outcome`: the
/// first report settles the transfer, and a settled transfer stays as it is.
pub open spec fn settle_transfer(slot: Option<FileView>, outcome: FileView) -> Option<FileView> {
    match slot {
        None => Some(outcome),
        Some(settled) => Some(settled),
    }
}

impl Clone for AgentFile {
    fn clone(&self) -> (r: Self)
        ensures
            r@ == self@,
    {
        AgentFile { code: self.code, message: self.message.clone() }
    }
}

impl Default for AgentFile {
    fn default() -> (r: Self)
        ensures
            r@ == (FileView { code: 0, message: Seq::empty() }),
    {
        AgentFile { code: 0, message: String::new() }
    }
}

impl AgentFile {
    /// The outcome with code 0 and an empty message.
    pub fn new() -> (r: Self)
        ensures
            r@ == (FileView { code: 0, message: Seq::empty() }),
    {
        AgentFile { code: 0, message: String::new() }
    }
}

/// The view of a slot: pending, or the view of the result it holds.
pub open spec fn command_view(slot: Option<AgentCommand>) -> Option<CommandView> {
    match slot {
        Some(result) => Some(result@),
        None => None,
    }
}

/// The view of a slot: pending, or the view of the outcome it holds.
pub open spec fn file_view(slot: Option<AgentFile>) -> Option<FileView> {
    match slot {
        Some(outcome) => Some(outcome@),
        None => None,
    }
}

/// Reports only ever add to what a poll has shown: the output seen before is
/// a prefix of the output seen after, and an exit code once seen stays.
pub proof fn lemma_reports_are_monotonic(
    slot: Option<CommandView>,
    code: Option<i32>,
    chunk: Seq<u8>,
)
    ensures
        absorb_report(slot, code, chunk) is Some,
        slot matches Some(seen) ==> {
            let after = absorb_report(slot, code, chunk)->Some_0;
            &&& seen.output.is_prefix_of(after.output)
            &&& seen.finished() ==> after == seen
        },
{
    if let Some(seen) = slot {
        if !seen.finished() {
            assert(seen.output.is_prefix_of(seen.output + chunk));
        }
    }
}

} // verus!
