//! The two clipboard buffers, the failures of an operation on them, and the
//! backends that serve them.

use provider::{
    CommandConfig, CommandConfigView, CommandProvider, CommandProviderView, NopProvider,
    TermProvider, WindowsProvider,
};
use vstd::prelude::*;
use vstd::string::StringExecFns;

pub mod detect;
pub mod osc52;
pub mod provider;
pub mod text;

verus! {

/// Which buffer an operation addresses: the system clipboard, or the primary
/// selection of X11-style environments.
#[derive(Clone, Copy, Debug, PartialEq, Eq, Structural)]
pub enum ClipboardType {
    Clipboard,
    Selection,
}

/// The text of both buffers, as a backend that keeps them in memory sees them.
pub struct Buffers {
    pub clipboard: Seq<char>,
    pub selection: Seq<char>,
}

impl Buffers {
    /// Both buffers empty.
    pub open spec fn empty() -> Buffers {
        Buffers { clipboard: Seq::empty(), selection: Seq::empty() }
    }

    /// The text of one buffer.
    pub open spec fn get(self, clipboard_type: ClipboardType) -> Seq<char> {
        match clipboard_type {
            ClipboardType::Clipboard => self.clipboard,
            ClipboardType::Selection => self.selection,
        }
    }

    /// The buffers after one of them is overwritten.
    pub open spec fn set(self, clipboard_type: ClipboardType, text: Seq<char>) -> Buffers {
        match clipboard_type {
            ClipboardType::Clipboard => Buffers { clipboard: text, ..self },
            ClipboardType::Selection => Buffers { selection: text, ..self },
        }
    }
}

/// A buffer holds what was last written to it, and a write to one buffer
/// leaves the other as it was.
pub proof fn buffers_are_independent(
    buffers: Buffers,
    written: ClipboardType,
    read: ClipboardType,
    text: Seq<char>,
)
    ensures
        buffers.set(written, text).get(read) == if read == written {
            text
        } else {
            buffers.get(read)
        },
{
}

/// Why a clipboard operation failed.
#[derive(Clone, Copy, Debug, PartialEq, Eq)]
pub enum ClipboardError {
    /// The external program could not be started.
    ProcessSpawnFailure,
    /// The external program ran and did not exit successfully.
    ProcessExitFailure { program: &'static str },
    /// Bytes that should be text are not valid UTF-8.
    TextDecodingFailure,
    /// The terminal's reply does not have the form of the protocol.
    ProtocolFormatFailure,
    /// Reading or writing a stream failed.
    IOFailure,
    /// The terminal did not reply in time.
    Timeout,
    /// A channel to the external program that should be there is not.
    MissingHandle,
}

impl ClipboardError {
    /// The failure in words. A program that failed is named.
    pub open spec fn message_of(self) -> Seq<char> {
        match self {
            ClipboardError::ProcessSpawnFailure => "clipboard provider could not be started"@,
            ClipboardError::ProcessExitFailure { program } => "clipboard provider "@ + program@
                + " failed"@,
            ClipboardError::TextDecodingFailure => "clipboard contents are not valid UTF-8"@,
            ClipboardError::ProtocolFormatFailure =>
                "The clipboard escape sequence does not have the expected format"@,
            ClipboardError::IOFailure => "clipboard stream could not be read or written"@,
            ClipboardError::Timeout => "Reading escape code response timed out"@,
            ClipboardError::MissingHandle => "clipboard provider stream is missing"@,
        }
    }

    /// The failure in words.
    pub fn message(&self) -> (message: String)
        ensures
            message@ == self.message_of(),
    {
        match self {
            ClipboardError::ProcessSpawnFailure => String::from_str(
                "clipboard provider could not be started",
            ),
            ClipboardError::ProcessExitFailure { program } => {
                let mut message = String::from_str("clipboard provider ");
                message.append(program);
                message.append(" failed");
                message
            },
            ClipboardError::TextDecodingFailure => String::from_str(
                "clipboard contents are not valid UTF-8",
            ),
            ClipboardError::ProtocolFormatFailure => String::from_str(
                "The clipboard escape sequence does not have the expected format",
            ),
            ClipboardError::IOFailure => String::from_str(
                "clipboard stream could not be read or written",
            ),
            ClipboardError::Timeout => String::from_str("Reading escape code response timed out"),
            ClipboardError::MissingHandle => String::from_str(
                "clipboard provider stream is missing",
            ),
        }
    }
}

/// How a standard stream of an external program is attached.
#[derive(Clone, Copy, Debug, PartialEq, Eq, Structural)]
pub enum Stdio {
    /// To the null device.
    Null,
    /// To a pipe held by the caller.
    Piped,
}

/// An external program to run to its end: the command, how its three
/// standard streams are attached, and the bytes to write to its standard
/// input before closing it.
#[derive(Debug)]
pub struct Invocation {
    pub command: CommandConfig,
    pub stdin: Stdio,
    pub stdout: Stdio,
    pub stderr: Stdio,
    pub input: Option<Vec<u8>>,
}

/// An `Invocation` as the view of its command and of its input.
pub struct InvocationView {
    pub command: CommandConfigView,
    pub stdin: Stdio,
    pub stdout: Stdio,
    pub stderr: Stdio,
    pub input: Option<Seq<u8>>,
}

impl View for Invocation {
    type V = InvocationView;

    open spec fn view(&self) -> InvocationView {
        InvocationView {
            command: self.command@,
            stdin: self.stdin,
            stdout: self.stdout,
            stderr: self.stderr,
            input: match self.input {
                Some(bytes) => Some(bytes@),
                None => None,
            },
        }
    }
}

/// How the run of an external program ended.
#[derive(Debug)]
pub enum ProcessOutcome {
    /// The program could not be started.
    SpawnFailed,
    /// The program started without the pipe to its standard input.
    StdinMissing,
    /// The input could not be written in full.
    WriteFailed,
    /// Waiting for the program to end failed.
    WaitFailed,
    /// The program ended: whether it exited successfully, and what it wrote
    /// to its standard output, if that was piped.
    Exited { success: bool, stdout: Vec<u8> },
}

/// What a backend needs done to read a buffer.
#[derive(Debug)]
pub enum GetAction {
    /// Nothing: this is the text.
    Ready(String),
    /// Run the program and hand its outcome to `CommandProvider::finish_get`.
    Run(Invocation),
    /// Write the sequence to the controlling terminal, read the reply as
    /// `TermProvider::term_command` directs, and hand it to
    /// `TermProvider::finish_get`.
    Query(String),
    /// Read the text from the operating system's clipboard.
    Native,
}

/// A `GetAction` as the view of what it holds.
pub enum GetActionView {
    Ready(Seq<char>),
    Run(InvocationView),
    Query(Seq<char>),
    Native,
}

impl View for GetAction {
    type V = GetActionView;

    open spec fn view(&self) -> GetActionView {
        match self {
            GetAction::Ready(text) => GetActionView::Ready(text@),
            GetAction::Run(invocation) => GetActionView::Run(invocation@),
            GetAction::Query(sequence) => GetActionView::Query(sequence@),
            GetAction::Native => GetActionView::Native,
        }
    }
}

/// What a backend needs done to overwrite a buffer.
#[derive(Debug)]
pub enum SetAction {
    /// Nothing: the operation is complete.
    Ready,
    /// Run the program and hand its outcome to `CommandProvider::finish_set`.
    Run(Invocation),
    /// Write the sequence to standard output; a failure to write it is the
    /// failure of the operation.
    Print(String),
    /// Store the text in the operating system's clipboard.
    Native(String),
}

/// A `SetAction` as the view of what it holds.
pub enum SetActionView {
    Ready,
    Run(InvocationView),
    Print(Seq<char>),
    Native(Seq<char>),
}

impl View for SetAction {
    type V = SetActionView;

    open spec fn view(&self) -> SetActionView {
        match self {
            SetAction::Ready => SetActionView::Ready,
            SetAction::Run(invocation) => SetActionView::Run(invocation@),
            SetAction::Print(sequence) => SetActionView::Print(sequence@),
            SetAction::Native(text) => SetActionView::Native(text@),
        }
    }
}

/// The result of an operation that gives text, as the characters of the text.
pub open spec fn text_of(result: Result<String, ClipboardError>) -> Result<
    Seq<char>,
    ClipboardError,
> {
    match result {
        Ok(text) => Ok(text@),
        Err(error) => Err(error),
    }
}

/// The result of an operation that may give text, as the characters of the
/// text.
pub open spec fn optional_text_of(result: Result<Option<String>, ClipboardError>) -> Result<
    Option<Seq<char>>,
    ClipboardError,
> {
    match result {
        Ok(Some(text)) => Ok(Some(text@)),
        Ok(None) => Ok(None),
        Err(error) => Err(error),
    }
}

/// What every backend offers: a name, and the two operations on a buffer.
/// An operation either completes at once or names the one outside action that
/// completes it; which of the two, and which action, depends on the backend
/// and the arguments alone.
pub trait ClipboardProvider {
    /// The name of the backend.
    spec fn name_of(&self) -> Seq<char>;

    /// Whether the backend can take this text.
    spec fn accepts(&self, contents: Seq<char>) -> bool;

    /// What reading a buffer needs done.
    spec fn get_action(&self, clipboard_type: ClipboardType) -> GetActionView;

    /// What overwriting a buffer with a text needs done.
    spec fn set_action(&self, contents: Seq<char>, clipboard_type: ClipboardType) -> SetActionView;

    /// A name for the backend, for diagnostics.
    fn name(&self) -> (name: String)
        ensures
            name@ == self.name_of(),
    ;

    /// Starts reading a buffer.
    fn get_contents(&self, clipboard_type: ClipboardType) -> (action: GetAction)
        ensures
            action@ == self.get_action(clipboard_type),
    ;

    /// Starts overwriting a buffer.
    fn set_contents(&mut self, contents: String, clipboard_type: ClipboardType) -> (action:
        SetAction)
        requires
            old(self).accepts(contents@),
        ensures
            action@ == old(self).set_action(contents@, clipboard_type),
    ;
}

/// The backend that serves a process: one of the four kinds.
#[derive(Debug)]
pub enum Provider {
    Command(CommandProvider),
    Term(TermProvider),
    Windows(WindowsProvider),
    Nop(NopProvider),
}

/// A `Provider` as the view of the backend it holds.
pub enum ProviderView {
    Command(CommandProviderView),
    Term(Buffers),
    Windows,
    Nop(Buffers),
}

impl View for Provider {
    type V = ProviderView;

    open spec fn view(&self) -> ProviderView {
        match self {
            Provider::Command(provider) => ProviderView::Command(provider@),
            Provider::Term(provider) => ProviderView::Term(provider@),
            Provider::Windows(_) => ProviderView::Windows,
            Provider::Nop(provider) => ProviderView::Nop(provider@),
        }
    }
}

impl ClipboardProvider for Provider {
    open spec fn name_of(&self) -> Seq<char> {
        match self {
            Provider::Command(provider) => provider.name_of(),
            Provider::Term(provider) => provider.name_of(),
            Provider::Windows(provider) => provider.name_of(),
            Provider::Nop(provider) => provider.name_of(),
        }
    }

    open spec fn accepts(&self, contents: Seq<char>) -> bool {
        match self {
            Provider::Command(provider) => provider.accepts(contents),
            Provider::Term(provider) => provider.accepts(contents),
            Provider::Windows(provider) => provider.accepts(contents),
            Provider::Nop(provider) => provider.accepts(contents),
        }
    }

    open spec fn get_action(&self, clipboard_type: ClipboardType) -> GetActionView {
        match self {
            Provider::Command(provider) => provider.get_action(clipboard_type),
            Provider::Term(provider) => provider.get_action(clipboard_type),
            Provider::Windows(provider) => provider.get_action(clipboard_type),
            Provider::Nop(provider) => provider.get_action(clipboard_type),
        }
    }

    open spec fn set_action(
        &self,
        contents: Seq<char>,
        clipboard_type: ClipboardType,
    ) -> SetActionView {
        match self {
            Provider::Command(provider) => provider.set_action(contents, clipboard_type),
            Provider::Term(provider) => provider.set_action(contents, clipboard_type),
            Provider::Windows(provider) => provider.set_action(contents, clipboard_type),
            Provider::Nop(provider) => provider.set_action(contents, clipboard_type),
        }
    }

    fn name(&self) -> (name: String) {
        match self {
            Provider::Command(provider) => provider.name(),
            Provider::Term(provider) => provider.name(),
            Provider::Windows(provider) => provider.name(),
            Provider::Nop(provider) => provider.name(),
        }
    }

    fn get_contents(&self, clipboard_type: ClipboardType) -> (action: GetAction) {
        match self {
            Provider::Command(provider) => provider.get_contents(clipboard_type),
            Provider::Term(provider) => provider.get_contents(clipboard_type),
            Provider::Windows(provider) => provider.get_contents(clipboard_type),
            Provider::Nop(provider) => provider.get_contents(clipboard_type),
        }
    }

    /// The backends that keep the text in memory keep it; the others stay as
    /// they are.
    fn set_contents(&mut self, contents: String, clipboard_type: ClipboardType) -> (action:
        SetAction)
        ensures
            final(self)@ == match old(self)@ {
                ProviderView::Term(kept) => ProviderView::Term(
                    kept.set(clipboard_type, contents@),
                ),
                ProviderView::Nop(kept) => ProviderView::Nop(kept.set(clipboard_type, contents@)),
                unchanged => unchanged,
            },
    {
        match self {
            Provider::Command(provider) => provider.set_contents(contents, clipboard_type),
            Provider::Term(provider) => provider.set_contents(contents, clipboard_type),
            Provider::Windows(provider) => provider.set_contents(contents, clipboard_type),
            Provider::Nop(provider) => provider.set_contents(contents, clipboard_type),
        }
    }
}

} // verus!
