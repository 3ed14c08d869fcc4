//! The backends: an in-memory store, the terminal's escape-code protocol, the
//! operating system's own clipboard, and external commands.

use super::osc52::{
    base64_encoding, encode_text, encoded_len, parse_reply, query, query_of, reply_text,
    sequence, sequence_of, BACKSLASH,
};
use super::text::{from_utf8, str_eq};
use super::{
    optional_text_of, text_of, Buffers, ClipboardError, ClipboardProvider, ClipboardType,
    GetAction, GetActionView, Invocation, InvocationView, ProcessOutcome, SetAction,
    SetActionView, Stdio,
};
use vstd::prelude::*;
use vstd::string::{StrSliceExecFns, StringExecFns};
use vstd::utf8::{decode_utf8, encode_utf8, valid_utf8};

verus! {

/// A store of the two buffers in memory. It serves when nothing else does,
/// and stands behind the terminal backend.
#[derive(Debug)]
pub struct NopProvider {
    buf: String,
    primary_buf: String,
}

impl View for NopProvider {
    type V = Buffers;

    closed spec fn view(&self) -> Buffers {
        Buffers { clipboard: self.buf@, selection: self.primary_buf@ }
    }
}

impl Default for NopProvider {
    fn default() -> (provider: NopProvider)
        ensures
            provider@ == Buffers::empty(),
    {
        NopProvider { buf: String::new(), primary_buf: String::new() }
    }
}

impl NopProvider {
    /// A copy of the text of a buffer.
    pub fn contents(&self, clipboard_type: ClipboardType) -> (text: String)
        ensures
            text@ == self@.get(clipboard_type),
    {
        match clipboard_type {
            ClipboardType::Clipboard => self.buf.clone(),
            ClipboardType::Selection => self.primary_buf.clone(),
        }
    }
}

impl ClipboardProvider for NopProvider {
    open spec fn name_of(&self) -> Seq<char> {
        "none"@
    }

    open spec fn accepts(&self, contents: Seq<char>) -> bool {
        true
    }

    /// The text of the buffer, at once.
    open spec fn get_action(&self, clipboard_type: ClipboardType) -> GetActionView {
        GetActionView::Ready(self@.get(clipboard_type))
    }

    /// Nothing is left to do.
    open spec fn set_action(
        &self,
        contents: Seq<char>,
        clipboard_type: ClipboardType,
    ) -> SetActionView {
        SetActionView::Ready
    }

    fn name(&self) -> (name: String) {
        String::from_str("none")
    }

    fn get_contents(&self, clipboard_type: ClipboardType) -> (action: GetAction) {
        GetAction::Ready(self.contents(clipboard_type))
    }

    /// Overwrites the buffer.
    fn set_contents(&mut self, contents: String, clipboard_type: ClipboardType) -> (action:
        SetAction)
        ensures
            final(self)@ == old(self)@.set(clipboard_type, contents@),
    {
        match clipboard_type {
            ClipboardType::Clipboard => {
                self.buf = contents;
            },
            ClipboardType::Selection => {
                self.primary_buf = contents;
            },
        }
        SetAction::Ready
    }
}

/// The terminal's escape-code clipboard protocol, over an in-memory store
/// that answers when the terminal does not.
#[derive(Debug)]
pub struct TermProvider(NopProvider);

impl View for TermProvider {
    type V = Buffers;

    closed spec fn view(&self) -> Buffers {
        self.0@
    }
}

impl Default for TermProvider {
    fn default() -> (provider: TermProvider)
        ensures
            provider@ == Buffers::empty(),
    {
        TermProvider(NopProvider::default())
    }
}

/// What reading the terminal's reply gave: the next byte, or no byte within
/// the time allowed, or a failure of the device.
#[derive(Clone, Copy, Debug, PartialEq, Eq, Structural)]
pub enum ReadEvent {
    Byte(u8),
    TimedOut,
    Failed,
}

/// What to do next while reading the terminal's reply.
#[derive(Clone, Copy, Debug, PartialEq, Eq)]
pub enum ReadAction {
    /// Read another byte.
    Continue,
    /// The reply is complete.
    Done,
    /// Give the reply up.
    Abort(ClipboardError),
}

/// How long to wait for each byte of the terminal's reply, in milliseconds.
pub const READ_TIMEOUT_MILLIS: u64 = 100;

/// The name of a buffer in a sequence: nothing for the clipboard, `p` for
/// the primary selection.
pub open spec fn clip_char(clipboard_type: ClipboardType) -> Seq<char> {
    match clipboard_type {
        ClipboardType::Clipboard => Seq::empty(),
        ClipboardType::Selection => seq!['p'],
    }
}

/// The text that a read of the terminal backend ends with: what the attempt
/// on the terminal gave, and the text kept in memory if the attempt failed.
pub open spec fn resolved(
    kept: Buffers,
    clipboard_type: ClipboardType,
    attempt: Result<Seq<char>, ClipboardError>,
) -> Seq<char> {
    match attempt {
        Ok(text) => text,
        Err(_) => kept.get(clipboard_type),
    }
}

/// What the terminal's answer to a question gave: the text that the reply
/// carries, or the failure to get a reply or to read one out of it.
pub open spec fn attempt_of(reply: Result<Vec<u8>, ClipboardError>) -> Result<
    Seq<char>,
    ClipboardError,
> {
    match reply {
        Ok(bytes) => reply_text(bytes@),
        Err(error) => Err(error),
    }
}

/// One step of reading a reply: the reply so far with the byte that came, and
/// what to do next. A backslash completes the reply; a byte that does not
/// come in time, or a failure of the device, ends the reading without one.
pub open spec fn read_step(response: Seq<u8>, event: ReadEvent) -> (Seq<u8>, ReadAction) {
    match event {
        ReadEvent::Byte(byte) => (
            response.push(byte),
            if byte == BACKSLASH {
                ReadAction::Done
            } else {
                ReadAction::Continue
            },
        ),
        ReadEvent::TimedOut => (response, ReadAction::Abort(ClipboardError::Timeout)),
        ReadEvent::Failed => (response, ReadAction::Abort(ClipboardError::IOFailure)),
    }
}

/// What reading ends with when it has `response` and the device has `events`
/// to give: the reply up to its first backslash, or the failure that came
/// before one. A device with nothing more to give lets the time run out.
pub open spec fn read_all(response: Seq<u8>, events: Seq<ReadEvent>) -> Result<
    Seq<u8>,
    ClipboardError,
>
    decreases events.len(),
{
    if events.len() == 0 {
        Err(ClipboardError::Timeout)
    } else {
        match read_step(response, events[0]) {
            (reply, ReadAction::Done) => Ok(reply),
            (_, ReadAction::Abort(error)) => Err(error),
            (longer, ReadAction::Continue) => read_all(longer, events.drop_first()),
        }
    }
}

/// The events of a device that gives these bytes one by one.
pub open spec fn bytes_given(bytes: Seq<u8>) -> Seq<ReadEvent> {
    Seq::new(bytes.len(), |i: int| ReadEvent::Byte(bytes[i]))
}

/// Reading ends at the first backslash: of a device that gives bytes without
/// a backslash, then a backslash, then anything, the reply is those bytes and
/// the backslash.
pub proof fn reading_ends_at_first_backslash(
    response: Seq<u8>,
    body: Seq<u8>,
    rest: Seq<ReadEvent>,
)
    requires
        !body.contains(BACKSLASH),
    ensures
        read_all(response, bytes_given(body.push(BACKSLASH)) + rest) == Ok::<
            Seq<u8>,
            ClipboardError,
        >(response + body.push(BACKSLASH)),
    decreases body.len(),
{
    let events = bytes_given(body.push(BACKSLASH)) + rest;
    assert(events[0] == ReadEvent::Byte(body.push(BACKSLASH)[0]));
    if body.len() == 0 {
        assert(response + body.push(BACKSLASH) =~= response.push(BACKSLASH));
    } else {
        let first = body[0];
        let tail = body.drop_first();
        assert(body.contains(first));
        assert(!tail.contains(BACKSLASH)) by {
            if tail.contains(BACKSLASH) {
                let i = choose|i: int| 0 <= i < tail.len() && tail[i] == BACKSLASH;
                assert(body[i + 1] == BACKSLASH);
            }
        }
        assert(events.drop_first() =~= bytes_given(tail.push(BACKSLASH)) + rest);
        reading_ends_at_first_backslash(response.push(first), tail, rest);
        assert(response.push(first) + tail.push(BACKSLASH) =~= response + body.push(BACKSLASH));
    }
}

/// The bytes of a reply that was read, or the failure to read one.
pub open spec fn reply_of(result: Result<Vec<u8>, ClipboardError>) -> Result<
    Seq<u8>,
    ClipboardError,
> {
    match result {
        Ok(bytes) => Ok(bytes@),
        Err(error) => Err(error),
    }
}

impl TermProvider {
    /// The name of a buffer in a sequence.
    pub fn get_clip_char(clipboard_type: ClipboardType) -> (selector: &'static str)
        ensures
            selector@ == clip_char(clipboard_type),
    {
        proof {
            reveal_strlit("");
            reveal_strlit("p");
        }
        let selector = match clipboard_type {
            ClipboardType::Clipboard => "",
            ClipboardType::Selection => "p",
        };
        assert(selector@ =~= clip_char(clipboard_type));
        selector
    }

    /// One step of reading the terminal's reply.
    pub fn term_command(response: &mut Vec<u8>, event: ReadEvent) -> (action: ReadAction)
        ensures
            (final(response)@, action) == read_step(old(response)@, event),
    {
        match event {
            ReadEvent::Byte(byte) => {
                response.push(byte);
                if byte == BACKSLASH {
                    ReadAction::Done
                } else {
                    ReadAction::Continue
                }
            },
            ReadEvent::TimedOut => ReadAction::Abort(ClipboardError::Timeout),
            ReadEvent::Failed => ReadAction::Abort(ClipboardError::IOFailure),
        }
    }

    /// Reads the reply of a device that gives these events in turn.
    pub fn read_reply(events: &[ReadEvent]) -> (reply: Result<Vec<u8>, ClipboardError>)
        ensures
            reply_of(reply) == read_all(Seq::empty(), events@),
    {
        let mut response: Vec<u8> = Vec::new();
        let mut taken: usize = 0;
        assert(events@.skip(0) =~= events@);
        while taken < events.len()
            invariant
                taken <= events@.len(),
                read_all(response@, events@.skip(taken as int)) == read_all(
                    Seq::empty(),
                    events@,
                ),
            decreases events@.len() - taken,
        {
            assert(events@.skip(taken as int).drop_first() =~= events@.skip(taken + 1));
            assert(events@.skip(taken as int)[0] == events@[taken as int]);
            match Self::term_command(&mut response, events[taken]) {
                ReadAction::Continue => {},
                ReadAction::Done => {
                    return Ok(response);
                },
                ReadAction::Abort(error) => {
                    return Err(error);
                },
            }
            taken = taken + 1;
        }
        Err(ClipboardError::Timeout)
    }

    /// The text that a read ends with, given what the attempt on the terminal
    /// gave: a failed attempt is not passed on, the text kept in memory
    /// answers in its place.
    pub fn text_or_fallback(
        &self,
        clipboard_type: ClipboardType,
        attempt: Result<String, ClipboardError>,
    ) -> (text: String)
        ensures
            text@ == resolved(self@, clipboard_type, text_of(attempt)),
    {
        match attempt {
            Ok(text) => text,
            Err(_) => self.0.contents(clipboard_type),
        }
    }

    /// Completes a read with the terminal's answer to the question: the
    /// reply, or the failure to get one.
    pub fn finish_get(
        &self,
        clipboard_type: ClipboardType,
        reply: Result<Vec<u8>, ClipboardError>,
    ) -> (text: String)
        ensures
            text@ == resolved(self@, clipboard_type, attempt_of(reply)),
    {
        let attempt = match reply {
            Ok(bytes) => parse_reply(bytes.as_slice()),
            Err(error) => Err(error),
        };
        self.text_or_fallback(clipboard_type, attempt)
    }
}

/// A read of the terminal backend that gets no reply gives the text that was
/// last written to the same buffer of the same backend.
pub proof fn fallback_returns_last_set(
    kept: Buffers,
    clipboard_type: ClipboardType,
    text: Seq<char>,
    failure: ClipboardError,
)
    ensures
        resolved(kept.set(clipboard_type, text), clipboard_type, Err(failure)) == text,
{
}

impl ClipboardProvider for TermProvider {
    open spec fn name_of(&self) -> Seq<char> {
        "ansi-escape-codes"@
    }

    /// The texts whose base64 encoding is no longer than an allocation can
    /// be.
    open spec fn accepts(&self, contents: Seq<char>) -> bool {
        encoded_len(encode_utf8(contents).len()) <= isize::MAX
    }

    /// The terminal is asked for the text of the buffer.
    open spec fn get_action(&self, clipboard_type: ClipboardType) -> GetActionView {
        GetActionView::Query(query_of(clip_char(clipboard_type)))
    }

    /// The text is handed to the terminal in base64.
    open spec fn set_action(
        &self,
        contents: Seq<char>,
        clipboard_type: ClipboardType,
    ) -> SetActionView {
        SetActionView::Print(
            sequence_of(clip_char(clipboard_type), base64_encoding(encode_utf8(contents))),
        )
    }

    fn name(&self) -> (name: String) {
        String::from_str("ansi-escape-codes")
    }

    fn get_contents(&self, clipboard_type: ClipboardType) -> (action: GetAction) {
        GetAction::Query(query(Self::get_clip_char(clipboard_type)))
    }

    /// Keeps the text in memory, whatever becomes of the sequence.
    fn set_contents(&mut self, contents: String, clipboard_type: ClipboardType) -> (action:
        SetAction)
        ensures
            final(self)@ == old(self)@.set(clipboard_type, contents@),
    {
        let encoded = encode_text(contents.as_str());
        self.0.set_contents(contents, clipboard_type);
        SetAction::Print(sequence(Self::get_clip_char(clipboard_type), encoded.as_str()))
    }
}

/// The clipboard of an operating system that has one of its own and no
/// primary selection.
#[derive(Debug)]
pub struct WindowsProvider;

impl Default for WindowsProvider {
    fn default() -> (provider: WindowsProvider) {
        WindowsProvider
    }
}

impl ClipboardProvider for WindowsProvider {
    open spec fn name_of(&self) -> Seq<char> {
        "clipboard-win"@
    }

    open spec fn accepts(&self, contents: Seq<char>) -> bool {
        true
    }

    /// The clipboard is read from the operating system; the primary
    /// selection, which it does not have, is empty.
    open spec fn get_action(&self, clipboard_type: ClipboardType) -> GetActionView {
        match clipboard_type {
            ClipboardType::Clipboard => GetActionView::Native,
            ClipboardType::Selection => GetActionView::Ready(Seq::empty()),
        }
    }

    /// The clipboard is stored with the operating system; for the primary
    /// selection there is nothing to do.
    open spec fn set_action(
        &self,
        contents: Seq<char>,
        clipboard_type: ClipboardType,
    ) -> SetActionView {
        match clipboard_type {
            ClipboardType::Clipboard => SetActionView::Native(contents),
            ClipboardType::Selection => SetActionView::Ready,
        }
    }

    fn name(&self) -> (name: String) {
        String::from_str("clipboard-win")
    }

    fn get_contents(&self, clipboard_type: ClipboardType) -> (action: GetAction) {
        match clipboard_type {
            ClipboardType::Clipboard => GetAction::Native,
            ClipboardType::Selection => GetAction::Ready(String::new()),
        }
    }

    fn set_contents(&mut self, contents: String, clipboard_type: ClipboardType) -> (action:
        SetAction) {
        match clipboard_type {
            ClipboardType::Clipboard => SetAction::Native(contents),
            ClipboardType::Selection => SetAction::Ready,
        }
    }
}

/// One invocation of an external program: its name and its arguments.
#[derive(Clone, Copy, Debug, PartialEq, Eq)]
pub struct CommandConfig {
    pub prg: &'static str,
    pub args: &'static [&'static str],
}

/// A `CommandConfig` as the characters of its program name and arguments.
pub struct CommandConfigView {
    pub prg: Seq<char>,
    pub args: Seq<Seq<char>>,
}

impl View for CommandConfig {
    type V = CommandConfigView;

    open spec fn view(&self) -> CommandConfigView {
        CommandConfigView { prg: self.prg@, args: self.args.deep_view() }
    }
}

/// The run that an invocation asks for: standard input is piped exactly when
/// there is text to write, standard output exactly when the output is wanted,
/// and standard error is discarded.
pub open spec fn invocation_of(
    command: CommandConfigView,
    input: Option<Seq<char>>,
    pipe_output: bool,
) -> InvocationView {
    InvocationView {
        command,
        stdin: if input is Some {
            Stdio::Piped
        } else {
            Stdio::Null
        },
        stdout: if pipe_output {
            Stdio::Piped
        } else {
            Stdio::Null
        },
        stderr: Stdio::Null,
        input: match input {
            Some(text) => Some(encode_utf8(text)),
            None => None,
        },
    }
}

impl CommandConfig {
    /// What a run of this command gives, by how the run ended. A run that
    /// could not be made fails; so does one that did not exit successfully,
    /// and the failure names the program. After a successful exit the output,
    /// where it was asked for, is the text that its bytes encode, and a
    /// failure if they encode none.
    pub open spec fn executed(self, pipe_output: bool, outcome: ProcessOutcome) -> Result<
        Option<Seq<char>>,
        ClipboardError,
    > {
        match outcome {
            ProcessOutcome::SpawnFailed => Err(ClipboardError::ProcessSpawnFailure),
            ProcessOutcome::StdinMissing => Err(ClipboardError::MissingHandle),
            ProcessOutcome::WriteFailed => Err(ClipboardError::IOFailure),
            ProcessOutcome::WaitFailed => Err(ClipboardError::IOFailure),
            ProcessOutcome::Exited { success, stdout } => if !success {
                Err(ClipboardError::ProcessExitFailure { program: self.prg })
            } else if !pipe_output {
                Ok(None)
            } else if valid_utf8(stdout@) {
                Ok(Some(decode_utf8(stdout@)))
            } else {
                Err(ClipboardError::TextDecodingFailure)
            },
        }
    }

    /// The run to make of this command, with the text to write to its
    /// standard input, if any.
    pub fn invocation(&self, input: Option<&str>, pipe_output: bool) -> (invocation: Invocation)
        ensures
            invocation@ == invocation_of(
                self@,
                match input {
                    Some(text) => Some(text@),
                    None => None,
                },
                pipe_output,
            ),
    {
        let (stdin, bytes) = match input {
            Some(text) => (Stdio::Piped, Some(text.as_bytes_vec())),
            None => (Stdio::Null, None),
        };
        let stdout = if pipe_output {
            Stdio::Piped
        } else {
            Stdio::Null
        };
        Invocation { command: *self, stdin, stdout, stderr: Stdio::Null, input: bytes }
    }

    /// The result of a run of this command that ended as `outcome` says.
    pub fn execute(&self, pipe_output: bool, outcome: ProcessOutcome) -> (result: Result<
        Option<String>,
        ClipboardError,
    >)
        ensures
            optional_text_of(result) == self.executed(pipe_output, outcome),
    {
        match outcome {
            ProcessOutcome::SpawnFailed => Err(ClipboardError::ProcessSpawnFailure),
            ProcessOutcome::StdinMissing => Err(ClipboardError::MissingHandle),
            ProcessOutcome::WriteFailed => Err(ClipboardError::IOFailure),
            ProcessOutcome::WaitFailed => Err(ClipboardError::IOFailure),
            ProcessOutcome::Exited { success, stdout } => {
                if !success {
                    Err(ClipboardError::ProcessExitFailure { program: self.prg })
                } else if !pipe_output {
                    Ok(None)
                } else {
                    match from_utf8(stdout) {
                        Some(text) => Ok(Some(text)),
                        None => Err(ClipboardError::TextDecodingFailure),
                    }
                }
            },
        }
    }
}

/// The four invocations of a backend that shells out: reading and writing the
/// clipboard, and, where the program supports it, the primary selection.
#[derive(Debug)]
pub struct CommandProvider {
    pub get_cmd: CommandConfig,
    pub set_cmd: CommandConfig,
    pub get_primary_cmd: Option<CommandConfig>,
    pub set_primary_cmd: Option<CommandConfig>,
}

/// A `CommandProvider` as the views of its invocations.
pub struct CommandProviderView {
    pub get_cmd: CommandConfigView,
    pub set_cmd: CommandConfigView,
    pub get_primary_cmd: Option<CommandConfigView>,
    pub set_primary_cmd: Option<CommandConfigView>,
}

impl View for CommandProvider {
    type V = CommandProviderView;

    open spec fn view(&self) -> CommandProviderView {
        CommandProviderView {
            get_cmd: self.get_cmd@,
            set_cmd: self.set_cmd@,
            get_primary_cmd: match self.get_primary_cmd {
                Some(cmd) => Some(cmd@),
                None => None,
            },
            set_primary_cmd: match self.set_primary_cmd {
                Some(cmd) => Some(cmd@),
                None => None,
            },
        }
    }
}

/// The name of a backend that shells out: the program it runs, or the two
/// programs with `+` between them where reading and writing differ.
pub open spec fn command_name(get_prg: Seq<char>, set_prg: Seq<char>) -> Seq<char> {
    if get_prg != set_prg {
        get_prg + seq!['+'] + set_prg
    } else {
        get_prg
    }
}

impl CommandProvider {
    /// The invocation that reads a buffer, if the backend has one.
    pub open spec fn get_command(&self, clipboard_type: ClipboardType) -> Option<CommandConfig> {
        match clipboard_type {
            ClipboardType::Clipboard => Some(self.get_cmd),
            ClipboardType::Selection => self.get_primary_cmd,
        }
    }

    /// The invocation that overwrites a buffer, if the backend has one.
    pub open spec fn set_command(&self, clipboard_type: ClipboardType) -> Option<CommandConfig> {
        match clipboard_type {
            ClipboardType::Clipboard => Some(self.set_cmd),
            ClipboardType::Selection => self.set_primary_cmd,
        }
    }

    /// What a read gives, by how the run of its program ended. Without an
    /// invocation for the buffer the text is empty, whatever the outcome.
    pub open spec fn get_result(
        &self,
        clipboard_type: ClipboardType,
        outcome: ProcessOutcome,
    ) -> Result<Seq<char>, ClipboardError> {
        match self.get_command(clipboard_type) {
            None => Ok(Seq::empty()),
            Some(command) => match command.executed(true, outcome) {
                Ok(Some(text)) => Ok(text),
                Ok(None) => Err(ClipboardError::MissingHandle),
                Err(error) => Err(error),
            },
        }
    }

    /// What a write gives, by how the run of its program ended. Without an
    /// invocation for the buffer it succeeds, whatever the outcome.
    pub open spec fn set_result(
        &self,
        clipboard_type: ClipboardType,
        outcome: ProcessOutcome,
    ) -> Result<(), ClipboardError> {
        match self.set_command(clipboard_type) {
            None => Ok(()),
            Some(command) => match command.executed(false, outcome) {
                Ok(_) => Ok(()),
                Err(error) => Err(error),
            },
        }
    }

    /// Completes a read with the outcome of the run that `get_contents`
    /// asked for.
    pub fn finish_get(&self, clipboard_type: ClipboardType, outcome: ProcessOutcome) -> (result:
        Result<String, ClipboardError>)
        ensures
            text_of(result) == self.get_result(clipboard_type, outcome),
    {
        let command = match clipboard_type {
            ClipboardType::Clipboard => Some(self.get_cmd),
            ClipboardType::Selection => self.get_primary_cmd,
        };
        match command {
            None => Ok(String::new()),
            Some(command) => match command.execute(true, outcome) {
                Ok(Some(text)) => Ok(text),
                Ok(None) => Err(ClipboardError::MissingHandle),
                Err(error) => Err(error),
            },
        }
    }

    /// Completes a write with the outcome of the run that `set_contents`
    /// asked for.
    pub fn finish_set(&self, clipboard_type: ClipboardType, outcome: ProcessOutcome) -> (result:
        Result<(), ClipboardError>)
        ensures
            result == self.set_result(clipboard_type, outcome),
    {
        let command = match clipboard_type {
            ClipboardType::Clipboard => Some(self.set_cmd),
            ClipboardType::Selection => self.set_primary_cmd,
        };
        match command {
            None => Ok(()),
            Some(command) => match command.execute(false, outcome) {
                Ok(_) => Ok(()),
                Err(error) => Err(error),
            },
        }
    }
}

/// What a write hands to its program comes back as the same text when the
/// program that reads hands the same bytes back and exits successfully.
pub proof fn round_trip(
    provider: CommandProvider,
    clipboard_type: ClipboardType,
    text: Seq<char>,
    outcome: ProcessOutcome,
)
    requires
        provider.get_command(clipboard_type) is Some,
        provider.set_command(clipboard_type) is Some,
        outcome is Exited,
        outcome->success,
        Some(outcome->stdout@) == invocation_of(
            provider.set_command(clipboard_type)->0@,
            Some(text),
            false,
        ).input,
    ensures
        provider.get_result(clipboard_type, outcome) == Ok::<Seq<char>, ClipboardError>(text),
{
    vstd::utf8::encode_utf8_valid_utf8(text);
    vstd::utf8::encode_utf8_decode_utf8(text);
}

/// A program that does not exit successfully fails the read and the write
/// that ran it, and the failure names that program.
pub proof fn exit_failure_names_program(
    provider: CommandProvider,
    clipboard_type: ClipboardType,
    outcome: ProcessOutcome,
)
    requires
        outcome is Exited,
        !outcome->success,
    ensures
        provider.get_command(clipboard_type) matches Some(command) ==> provider.get_result(
            clipboard_type,
            outcome,
        ) == Err::<Seq<char>, ClipboardError>(
            ClipboardError::ProcessExitFailure { program: command.prg },
        ),
        provider.set_command(clipboard_type) matches Some(command) ==> provider.set_result(
            clipboard_type,
            outcome,
        ) == Err::<(), ClipboardError>(
            ClipboardError::ProcessExitFailure { program: command.prg },
        ),
{
}

/// Without commands for the primary selection, reading it gives the empty
/// text and writing it succeeds, and neither runs a program or fails,
/// however a run would have ended.
pub proof fn absent_primary_needs_no_run(
    provider: CommandProvider,
    contents: Seq<char>,
    outcome: ProcessOutcome,
)
    ensures
        provider.get_primary_cmd is None ==> provider.get_action(ClipboardType::Selection)
            == GetActionView::Ready(Seq::empty()) && provider.get_result(
            ClipboardType::Selection,
            outcome,
        ) == Ok::<Seq<char>, ClipboardError>(Seq::empty()),
        provider.set_primary_cmd is None ==> provider.set_action(
            contents,
            ClipboardType::Selection,
        ) == SetActionView::Ready && provider.set_result(ClipboardType::Selection, outcome) == Ok::<
            (),
            ClipboardError,
        >(()),
{
}

impl ClipboardProvider for CommandProvider {
    open spec fn name_of(&self) -> Seq<char> {
        command_name(self.get_cmd.prg@, self.set_cmd.prg@)
    }

    open spec fn accepts(&self, contents: Seq<char>) -> bool {
        true
    }

    /// The program that reads the buffer is run. Without one, which can only
    /// be for the primary selection, the text is empty and nothing is run.
    open spec fn get_action(&self, clipboard_type: ClipboardType) -> GetActionView {
        match self.get_command(clipboard_type) {
            Some(command) => GetActionView::Run(invocation_of(command@, None, true)),
            None => GetActionView::Ready(Seq::empty()),
        }
    }

    /// The program that overwrites the buffer is run, with the text on its
    /// standard input. Without one, which can only be for the primary
    /// selection, nothing is run.
    open spec fn set_action(
        &self,
        contents: Seq<char>,
        clipboard_type: ClipboardType,
    ) -> SetActionView {
        match self.set_command(clipboard_type) {
            Some(command) => SetActionView::Run(invocation_of(command@, Some(contents), false)),
            None => SetActionView::Ready,
        }
    }

    fn name(&self) -> (name: String) {
        if !str_eq(self.get_cmd.prg, self.set_cmd.prg) {
            proof {
                reveal_strlit("+");
            }
            let mut name = String::from_str(self.get_cmd.prg);
            name.append("+");
            name.append(self.set_cmd.prg);
            assert(name@ =~= self.get_cmd.prg@ + seq!['+'] + self.set_cmd.prg@);
            name
        } else {
            String::from_str(self.get_cmd.prg)
        }
    }

    fn get_contents(&self, clipboard_type: ClipboardType) -> (action: GetAction) {
        let command = match clipboard_type {
            ClipboardType::Clipboard => self.get_cmd,
            ClipboardType::Selection => {
                if let Some(command) = self.get_primary_cmd {
                    command
                } else {
                    return GetAction::Ready(String::new());
                }
            },
        };
        GetAction::Run(command.invocation(None, true))
    }

    /// The commands stay as they are.
    fn set_contents(&mut self, contents: String, clipboard_type: ClipboardType) -> (action:
        SetAction)
        ensures
            *final(self) == *old(self),
    {
        let command = match clipboard_type {
            ClipboardType::Clipboard => self.set_cmd,
            ClipboardType::Selection => {
                if let Some(command) = self.set_primary_cmd {
                    command
                } else {
                    return SetAction::Ready;
                }
            },
        };
        SetAction::Run(command.invocation(Some(contents.as_str()), false))
    }
}

impl Clone for CommandProvider {
    fn clone(&self) -> (copy: CommandProvider)
        ensures
            copy == *self,
    {
        CommandProvider {
            get_cmd: self.get_cmd,
            set_cmd: self.set_cmd,
            get_primary_cmd: self.get_primary_cmd,
            set_primary_cmd: self.set_primary_cmd,
        }
    }
}

} // verus!
