//! Detection of the backend: an ordered table of candidates, each with the
//! checks of the environment that it needs, walked from the top; the first
//! candidate whose checks all hold is taken.

use super::provider::{
    CommandConfig, CommandConfigView, CommandProvider, CommandProviderView, TermProvider,
    WindowsProvider,
};
use super::text::str_eq;
use super::{Buffers, Provider, ProviderView};
use vstd::prelude::*;

verus! {

/// One primitive check of the environment.
#[derive(Debug)]
pub enum Check {
    /// The named executable is found on the search path.
    Executable(&'static str),
    /// The named environment variable is set.
    EnvVar(&'static str),
    /// The command, run to its end, exits successfully.
    ExitSuccess(CommandConfig),
}

/// A `Check` as the characters of the names it holds.
pub enum CheckView {
    Executable(Seq<char>),
    EnvVar(Seq<char>),
    ExitSuccess(CommandConfigView),
}

impl View for Check {
    type V = CheckView;

    open spec fn view(&self) -> CheckView {
        match self {
            Check::Executable(name) => CheckView::Executable(name@),
            Check::EnvVar(name) => CheckView::EnvVar(name@),
            Check::ExitSuccess(command) => CheckView::ExitSuccess(command@),
        }
    }
}

impl Clone for Check {
    fn clone(&self) -> (copy: Check)
        ensures
            copy == *self,
    {
        match self {
            Check::Executable(name) => Check::Executable(name),
            Check::EnvVar(name) => Check::EnvVar(name),
            Check::ExitSuccess(command) => Check::ExitSuccess(*command),
        }
    }
}

/// A candidate backend: the checks that must all hold, in the order in which
/// they are made, and the commands that it then runs.
#[derive(Debug)]
pub struct Candidate {
    pub checks: Vec<Check>,
    pub provider: CommandProvider,
}

/// A `Candidate` as the views of its checks and of its provider.
pub struct CandidateView {
    pub checks: Seq<CheckView>,
    pub provider: CommandProviderView,
}

impl View for Candidate {
    type V = CandidateView;

    open spec fn view(&self) -> CandidateView {
        CandidateView {
            checks: Seq::new(self.checks@.len(), |k: int| self.checks@[k]@),
            provider: self.provider@,
        }
    }
}

/// An invocation, by the characters of its program name and arguments.
pub open spec fn command(prg: Seq<char>, args: Seq<Seq<char>>) -> CommandConfigView {
    CommandConfigView { prg, args }
}

/// A provider that serves the clipboard alone.
pub open spec fn clipboard_only(
    get_cmd: CommandConfigView,
    set_cmd: CommandConfigView,
) -> CommandProviderView {
    CommandProviderView { get_cmd, set_cmd, get_primary_cmd: None, set_primary_cmd: None }
}

/// A provider that serves the clipboard and the primary selection.
pub open spec fn with_primary(
    get_cmd: CommandConfigView,
    set_cmd: CommandConfigView,
    get_primary_cmd: CommandConfigView,
    set_primary_cmd: CommandConfigView,
) -> CommandProviderView {
    CommandProviderView {
        get_cmd,
        set_cmd,
        get_primary_cmd: Some(get_primary_cmd),
        set_primary_cmd: Some(set_primary_cmd),
    }
}

/// The pasteboard tools of macOS.
pub open spec fn pasteboard() -> CandidateView {
    CandidateView {
        checks: seq![
            CheckView::Executable("pbcopy"@),
            CheckView::Executable("pbpaste"@),
        ],
        provider: clipboard_only(
            command("pbpaste"@, Seq::empty()),
            command("pbcopy"@, Seq::empty()),
        ),
    }
}

/// The Wayland clipboard tools, inside a Wayland session.
pub open spec fn wayland() -> CandidateView {
    CandidateView {
        checks: seq![
            CheckView::EnvVar("WAYLAND_DISPLAY"@),
            CheckView::Executable("wl-copy"@),
            CheckView::Executable("wl-paste"@),
        ],
        provider: with_primary(
            command("wl-paste"@, seq!["--no-newline"@]),
            command("wl-copy"@, seq!["--type"@, "text/plain"@]),
            command("wl-paste"@, seq!["-p"@, "--no-newline"@]),
            command("wl-copy"@, seq!["-p"@, "--type"@, "text/plain"@]),
        ),
    }
}

/// `xclip`, inside an X11 session.
pub open spec fn xclip() -> CandidateView {
    CandidateView {
        checks: seq![
            CheckView::EnvVar("DISPLAY"@),
            CheckView::Executable("xclip"@),
        ],
        provider: with_primary(
            command("xclip"@, seq!["-o"@, "-selection"@, "clipboard"@]),
            command("xclip"@, seq!["-i"@, "-selection"@, "clipboard"@]),
            command("xclip"@, seq!["-o"@]),
            command("xclip"@, seq!["-i"@]),
        ),
    }
}

/// `xsel`, inside an X11 session in which a trial run of it succeeds.
pub open spec fn xsel() -> CandidateView {
    CandidateView {
        checks: seq![
            CheckView::EnvVar("DISPLAY"@),
            CheckView::Executable("xsel"@),
            CheckView::ExitSuccess(command("xsel"@, seq!["-o"@, "-b"@])),
        ],
        provider: with_primary(
            command("xsel"@, seq!["-o"@, "-b"@]),
            command("xsel"@, seq!["-i"@, "-b"@]),
            command("xsel"@, seq!["-o"@]),
            command("xsel"@, seq!["-i"@]),
        ),
    }
}

/// `lemonade`.
pub open spec fn lemonade() -> CandidateView {
    CandidateView {
        checks: seq![
            CheckView::Executable("lemonade"@),
        ],
        provider: clipboard_only(
            command("lemonade"@, seq!["paste"@]),
            command("lemonade"@, seq!["copy"@]),
        ),
    }
}

/// `doitclient`.
pub open spec fn doitclient() -> CandidateView {
    CandidateView {
        checks: seq![
            CheckView::Executable("doitclient"@),
        ],
        provider: clipboard_only(
            command("doitclient"@, seq!["wclip"@, "-r"@]),
            command("doitclient"@, seq!["wclip"@]),
        ),
    }
}

/// `win32yank.exe`.
pub open spec fn win32yank() -> CandidateView {
    CandidateView {
        checks: seq![
            CheckView::Executable("win32yank.exe"@),
        ],
        provider: clipboard_only(
            command("win32yank.exe"@, seq!["-o"@, "--lf"@]),
            command("win32yank.exe"@, seq!["-i"@, "--crlf"@]),
        ),
    }
}

/// The clipboard tools of Termux.
pub open spec fn termux() -> CandidateView {
    CandidateView {
        checks: seq![
            CheckView::Executable("termux-clipboard-set"@),
            CheckView::Executable("termux-clipboard-get"@),
        ],
        provider: clipboard_only(
            command("termux-clipboard-get"@, Seq::empty()),
            command("termux-clipboard-set"@, Seq::empty()),
        ),
    }
}

/// The buffer of `tmux`, inside a session of it. Reading asks the client to
/// refresh, waits a moment for the buffer to follow, and saves the buffer to
/// standard output.
pub open spec fn tmux() -> CandidateView {
    CandidateView {
        checks: seq![
            CheckView::EnvVar("TMUX"@),
            CheckView::Executable("tmux"@),
        ],
        provider: clipboard_only(
            command("sh"@, seq!["-c"@, "tmux refresh-client -l; sleep 0.1; tmux save-buffer -"@]),
            command("tmux"@, seq!["load-buffer"@, "-w"@, "-"@]),
        ),
    }
}

/// The candidates, from the most preferred down: the tools of one platform
/// come before the ones that work anywhere, and the terminal multiplexer,
/// which is slow and lossy, comes last.
pub open spec fn candidates() -> Seq<CandidateView> {
    seq![
        pasteboard(),
        wayland(),
        xclip(),
        xsel(),
        lemonade(),
        doitclient(),
        win32yank(),
        termux(),
        tmux(),
    ]
}

/// Builds an invocation.
fn config(prg: &'static str, args: &'static [&'static str]) -> (built: CommandConfig)
    ensures
        built@ == command(prg@, args.deep_view()),
{
    CommandConfig { prg, args }
}

/// Builds the candidate of the pasteboard tools.
fn pasteboard_candidate() -> (candidate: Candidate)
    ensures
        candidate@ == pasteboard(),
{
    let get_args: &'static [&'static str] = &[];
    let set_args: &'static [&'static str] = &[];
    let checks = vec![Check::Executable("pbcopy"), Check::Executable("pbpaste")];
    assert(get_args.deep_view() =~= Seq::<Seq<char>>::empty());
    assert(set_args.deep_view() =~= Seq::<Seq<char>>::empty());
    let provider = CommandProvider {
        get_cmd: config("pbpaste", get_args),
        set_cmd: config("pbcopy", set_args),
        get_primary_cmd: None,
        set_primary_cmd: None,
    };
    let candidate = Candidate { checks, provider };
    assert(candidate@.checks =~= pasteboard().checks);
    candidate
}

/// Builds the candidate of the Wayland tools.
fn wayland_candidate() -> (candidate: Candidate)
    ensures
        candidate@ == wayland(),
{
    let get_args: &'static [&'static str] = &["--no-newline"];
    let set_args: &'static [&'static str] = &["--type", "text/plain"];
    let get_primary_args: &'static [&'static str] = &["-p", "--no-newline"];
    let set_primary_args: &'static [&'static str] = &["-p", "--type", "text/plain"];
    let checks = vec![
        Check::EnvVar("WAYLAND_DISPLAY"),
        Check::Executable("wl-copy"),
        Check::Executable("wl-paste"),
    ];
    assert(get_args.deep_view() =~= seq!["--no-newline"@]);
    assert(set_args.deep_view() =~= seq!["--type"@, "text/plain"@]);
    assert(get_primary_args.deep_view() =~= seq!["-p"@, "--no-newline"@]);
    assert(set_primary_args.deep_view() =~= seq!["-p"@, "--type"@, "text/plain"@]);
    let provider = CommandProvider {
        get_cmd: config("wl-paste", get_args),
        set_cmd: config("wl-copy", set_args),
        get_primary_cmd: Some(config("wl-paste", get_primary_args)),
        set_primary_cmd: Some(config("wl-copy", set_primary_args)),
    };
    let candidate = Candidate { checks, provider };
    assert(candidate@.checks =~= wayland().checks);
    candidate
}

/// Builds the candidate of `xclip`.
fn xclip_candidate() -> (candidate: Candidate)
    ensures
        candidate@ == xclip(),
{
    let get_args: &'static [&'static str] = &["-o", "-selection", "clipboard"];
    let set_args: &'static [&'static str] = &["-i", "-selection", "clipboard"];
    let get_primary_args: &'static [&'static str] = &["-o"];
    let set_primary_args: &'static [&'static str] = &["-i"];
    let checks = vec![Check::EnvVar("DISPLAY"), Check::Executable("xclip")];
    assert(get_args.deep_view() =~= seq!["-o"@, "-selection"@, "clipboard"@]);
    assert(set_args.deep_view() =~= seq!["-i"@, "-selection"@, "clipboard"@]);
    assert(get_primary_args.deep_view() =~= seq!["-o"@]);
    assert(set_primary_args.deep_view() =~= seq!["-i"@]);
    let provider = CommandProvider {
        get_cmd: config("xclip", get_args),
        set_cmd: config("xclip", set_args),
        get_primary_cmd: Some(config("xclip", get_primary_args)),
        set_primary_cmd: Some(config("xclip", set_primary_args)),
    };
    let candidate = Candidate { checks, provider };
    assert(candidate@.checks =~= xclip().checks);
    candidate
}

/// Builds the candidate of `xsel`.
fn xsel_candidate() -> (candidate: Candidate)
    ensures
        candidate@ == xsel(),
{
    let get_args: &'static [&'static str] = &["-o", "-b"];
    let set_args: &'static [&'static str] = &["-i", "-b"];
    let get_primary_args: &'static [&'static str] = &["-o"];
    let set_primary_args: &'static [&'static str] = &["-i"];
    let probe_args: &'static [&'static str] = &["-o", "-b"];
    let checks = vec![
        Check::EnvVar("DISPLAY"),
        Check::Executable("xsel"),
        Check::ExitSuccess(config("xsel", probe_args)),
    ];
    assert(get_args.deep_view() =~= seq!["-o"@, "-b"@]);
    assert(set_args.deep_view() =~= seq!["-i"@, "-b"@]);
    assert(get_primary_args.deep_view() =~= seq!["-o"@]);
    assert(set_primary_args.deep_view() =~= seq!["-i"@]);
    assert(probe_args.deep_view() =~= seq!["-o"@, "-b"@]);
    let provider = CommandProvider {
        get_cmd: config("xsel", get_args),
        set_cmd: config("xsel", set_args),
        get_primary_cmd: Some(config("xsel", get_primary_args)),
        set_primary_cmd: Some(config("xsel", set_primary_args)),
    };
    let candidate = Candidate { checks, provider };
    assert(candidate@.checks =~= xsel().checks);
    candidate
}

/// Builds the candidate of `lemonade`.
fn lemonade_candidate() -> (candidate: Candidate)
    ensures
        candidate@ == lemonade(),
{
    let get_args: &'static [&'static str] = &["paste"];
    let set_args: &'static [&'static str] = &["copy"];
    let checks = vec![Check::Executable("lemonade")];
    assert(get_args.deep_view() =~= seq!["paste"@]);
    assert(set_args.deep_view() =~= seq!["copy"@]);
    let provider = CommandProvider {
        get_cmd: config("lemonade", get_args),
        set_cmd: config("lemonade", set_args),
        get_primary_cmd: None,
        set_primary_cmd: None,
    };
    let candidate = Candidate { checks, provider };
    assert(candidate@.checks =~= lemonade().checks);
    candidate
}

/// Builds the candidate of `doitclient`.
fn doitclient_candidate() -> (candidate: Candidate)
    ensures
        candidate@ == doitclient(),
{
    let get_args: &'static [&'static str] = &["wclip", "-r"];
    let set_args: &'static [&'static str] = &["wclip"];
    let checks = vec![Check::Executable("doitclient")];
    assert(get_args.deep_view() =~= seq!["wclip"@, "-r"@]);
    assert(set_args.deep_view() =~= seq!["wclip"@]);
    let provider = CommandProvider {
        get_cmd: config("doitclient", get_args),
        set_cmd: config("doitclient", set_args),
        get_primary_cmd: None,
        set_primary_cmd: None,
    };
    let candidate = Candidate { checks, provider };
    assert(candidate@.checks =~= doitclient().checks);
    candidate
}

/// Builds the candidate of `win32yank.exe`.
fn win32yank_candidate() -> (candidate: Candidate)
    ensures
        candidate@ == win32yank(),
{
    let get_args: &'static [&'static str] = &["-o", "--lf"];
    let set_args: &'static [&'static str] = &["-i", "--crlf"];
    let checks = vec![Check::Executable("win32yank.exe")];
    assert(get_args.deep_view() =~= seq!["-o"@, "--lf"@]);
    assert(set_args.deep_view() =~= seq!["-i"@, "--crlf"@]);
    let provider = CommandProvider {
        get_cmd: config("win32yank.exe", get_args),
        set_cmd: config("win32yank.exe", set_args),
        get_primary_cmd: None,
        set_primary_cmd: None,
    };
    let candidate = Candidate { checks, provider };
    assert(candidate@.checks =~= win32yank().checks);
    candidate
}

/// Builds the candidate of the Termux tools.
fn termux_candidate() -> (candidate: Candidate)
    ensures
        candidate@ == termux(),
{
    let get_args: &'static [&'static str] = &[];
    let set_args: &'static [&'static str] = &[];
    let checks = vec![
        Check::Executable("termux-clipboard-set"),
        Check::Executable("termux-clipboard-get"),
    ];
    assert(get_args.deep_view() =~= Seq::<Seq<char>>::empty());
    assert(set_args.deep_view() =~= Seq::<Seq<char>>::empty());
    let provider = CommandProvider {
        get_cmd: config("termux-clipboard-get", get_args),
        set_cmd: config("termux-clipboard-set", set_args),
        get_primary_cmd: None,
        set_primary_cmd: None,
    };
    let candidate = Candidate { checks, provider };
    assert(candidate@.checks =~= termux().checks);
    candidate
}

/// Builds the candidate of `tmux`.
fn tmux_candidate() -> (candidate: Candidate)
    ensures
        candidate@ == tmux(),
{
    let get_args: &'static [&'static str] = &[
        "-c",
        "tmux refresh-client -l; sleep 0.1; tmux save-buffer -",
    ];
    let set_args: &'static [&'static str] = &["load-buffer", "-w", "-"];
    let checks = vec![Check::EnvVar("TMUX"), Check::Executable("tmux")];
    assert(get_args.deep_view() =~= seq![
        "-c"@,
        "tmux refresh-client -l; sleep 0.1; tmux save-buffer -"@,
    ]);
    assert(set_args.deep_view() =~= seq!["load-buffer"@, "-w"@, "-"@]);
    let provider = CommandProvider {
        get_cmd: config("sh", get_args),
        set_cmd: config("tmux", set_args),
        get_primary_cmd: None,
        set_primary_cmd: None,
    };
    let candidate = Candidate { checks, provider };
    assert(candidate@.checks =~= tmux().checks);
    candidate
}

/// The view of a table of candidates.
pub open spec fn table_view(table: Seq<Candidate>) -> Seq<CandidateView> {
    Seq::new(table.len(), |i: int| table[i]@)
}

/// Builds the table of candidates.
fn table() -> (table: Vec<Candidate>)
    ensures
        table_view(table@) == candidates(),
{
    let mut table: Vec<Candidate> = Vec::new();
    table.push(pasteboard_candidate());
    table.push(wayland_candidate());
    table.push(xclip_candidate());
    table.push(xsel_candidate());
    table.push(lemonade_candidate());
    table.push(doitclient_candidate());
    table.push(win32yank_candidate());
    table.push(termux_candidate());
    table.push(tmux_candidate());
    assert(table_view(table@) =~= candidates());
    table
}

/// What the checks find: the executables on the search path, the environment
/// variables that are set, the commands that exit successfully, and whether
/// the operating system has a clipboard of its own.
#[derive(Debug)]
pub struct Environment {
    pub executables: Vec<String>,
    pub variables: Vec<String>,
    pub successes: Vec<CommandConfig>,
    pub native_clipboard: bool,
}

/// An `Environment` as sets of names.
pub struct EnvironmentView {
    pub executables: Set<Seq<char>>,
    pub variables: Set<Seq<char>>,
    pub successes: Set<CommandConfigView>,
    pub native_clipboard: bool,
}

impl EnvironmentView {
    /// Whether a check holds in this environment.
    pub open spec fn holds(self, check: CheckView) -> bool {
        match check {
            CheckView::Executable(name) => self.executables.contains(name),
            CheckView::EnvVar(name) => self.variables.contains(name),
            CheckView::ExitSuccess(command) => self.successes.contains(command),
        }
    }
}

/// Whether a name is among the given ones.
pub open spec fn named(names: Seq<String>, name: Seq<char>) -> bool {
    exists|i: int| 0 <= i < names.len() && (#[trigger] names[i])@ == name
}

/// Whether a command is among the given ones.
pub open spec fn listed(commands: Seq<CommandConfig>, command: CommandConfigView) -> bool {
    exists|i: int| 0 <= i < commands.len() && (#[trigger] commands[i])@ == command
}

impl View for Environment {
    type V = EnvironmentView;

    open spec fn view(&self) -> EnvironmentView {
        EnvironmentView {
            executables: Set::new(|name: Seq<char>| named(self.executables@, name)),
            variables: Set::new(|name: Seq<char>| named(self.variables@, name)),
            successes: Set::new(|command: CommandConfigView| listed(self.successes@, command)),
            native_clipboard: self.native_clipboard,
        }
    }
}

/// Whether a name is among the given ones.
fn contains_name(names: &Vec<String>, name: &str) -> (found: bool)
    ensures
        found == named(names@, name@),
{
    let mut i: usize = 0;
    while i < names.len()
        invariant
            i <= names@.len(),
            forall|j: int| 0 <= j < i ==> (#[trigger] names@[j])@ != name@,
        decreases names@.len() - i,
    {
        if str_eq(names[i].as_str(), name) {
            return true;
        }
        i += 1;
    }
    false
}

/// Whether two argument lists hold the same arguments.
fn args_eq(a: &[&str], b: &[&str]) -> (same: bool)
    ensures
        same == (a.deep_view() == b.deep_view()),
{
    if a.len() != b.len() {
        assert(a.deep_view().len() != b.deep_view().len());
        return false;
    }
    let mut i: usize = 0;
    while i < a.len()
        invariant
            a@.len() == b@.len(),
            i <= a@.len(),
            forall|j: int| 0 <= j < i ==> (#[trigger] a@[j])@ == b@[j]@,
        decreases a@.len() - i,
    {
        if !str_eq(a[i], b[i]) {
            assert(a.deep_view()[i as int] != b.deep_view()[i as int]);
            return false;
        }
        i += 1;
    }
    assert(a.deep_view() =~= b.deep_view());
    true
}

impl Environment {
    /// Whether the named executable is on the search path.
    pub fn executable_exists(&self, executable_name: &str) -> (found: bool)
        ensures
            found == self@.executables.contains(executable_name@),
    {
        contains_name(&self.executables, executable_name)
    }

    /// Whether the named environment variable is set.
    pub fn env_var_is_set(&self, env_var_name: &str) -> (set: bool)
        ensures
            set == self@.variables.contains(env_var_name@),
    {
        contains_name(&self.variables, env_var_name)
    }

    /// Whether the program, run with these arguments, exits successfully.
    pub fn is_exit_success(&self, program: &str, args: &[&str]) -> (success: bool)
        ensures
            success == self@.successes.contains(command(program@, args.deep_view())),
    {
        let mut i: usize = 0;
        while i < self.successes.len()
            invariant
                i <= self.successes@.len(),
                forall|j: int|
                    0 <= j < i ==> (#[trigger] self.successes@[j])@ != command(
                        program@,
                        args.deep_view(),
                    ),
            decreases self.successes@.len() - i,
        {
            if str_eq(self.successes[i].prg, program) && args_eq(self.successes[i].args, args) {
                return true;
            }
            i += 1;
        }
        false
    }

    /// Whether a check holds.
    pub fn holds(&self, check: &Check) -> (held: bool)
        ensures
            held == self@.holds(check@),
    {
        match check {
            Check::Executable(name) => self.executable_exists(name),
            Check::EnvVar(name) => self.env_var_is_set(name),
            Check::ExitSuccess(command) => self.is_exit_success(command.prg, command.args),
        }
    }
}

/// Whether every check of a candidate holds.
pub open spec fn satisfied(candidate: CandidateView, env: EnvironmentView) -> bool {
    forall|k: int| 0 <= k < candidate.checks.len() ==> env.holds(#[trigger] candidate.checks[k])
}

/// The backend for an environment in which no candidate is satisfied.
pub open spec fn fallback(native_clipboard: bool) -> ProviderView {
    if native_clipboard {
        ProviderView::Windows
    } else {
        ProviderView::Term(Buffers::empty())
    }
}

/// The backend that a table of candidates gives: that of the first candidate
/// that is satisfied, and the fallback if none is.
pub open spec fn select_from(table: Seq<CandidateView>, env: EnvironmentView) -> ProviderView
    decreases table.len(),
{
    if table.len() == 0 {
        fallback(env.native_clipboard)
    } else if satisfied(table[0], env) {
        ProviderView::Command(table[0].provider)
    } else {
        select_from(table.drop_first(), env)
    }
}

/// The backend for an environment.
pub open spec fn selected(env: EnvironmentView) -> ProviderView {
    select_from(candidates(), env)
}

/// What detection does next: a check to make, or the backend to take.
#[derive(Debug)]
pub enum Step {
    Probe(Check),
    Select(Provider),
}

/// A `Step` as the view of what it holds.
pub enum StepView {
    Probe(CheckView),
    Select(ProviderView),
}

impl View for Step {
    type V = StepView;

    open spec fn view(&self) -> StepView {
        match self {
            Step::Probe(check) => StepView::Probe(check@),
            Step::Select(provider) => StepView::Select(provider@),
        }
    }
}

/// The step at a position in the table: `row` candidates have been given up,
/// and the first `col` checks of the next one have held.
pub open spec fn pending(row: nat, col: nat, native_clipboard: bool) -> StepView {
    let table = candidates();
    if row >= table.len() {
        StepView::Select(fallback(native_clipboard))
    } else if col >= table[row as int].checks.len() {
        StepView::Select(ProviderView::Command(table[row as int].provider))
    } else {
        StepView::Probe(table[row as int].checks[col as int])
    }
}

/// The position after the answer to the pending check: the next check of the
/// same candidate if it held, the next candidate if it did not. Once a
/// backend is selected the position stays.
pub open spec fn advance(row: nat, col: nat, held: bool) -> (nat, nat) {
    match pending(row, col, false) {
        StepView::Select(_) => (row, col),
        StepView::Probe(_) => if held {
            (row, col + 1)
        } else {
            (row + 1, 0)
        },
    }
}

/// How many candidates are left at a position.
pub open spec fn rows_left(row: nat) -> nat {
    (candidates().len() - row) as nat
}

/// How many checks of the current candidate are left at a position.
pub open spec fn checks_left(row: nat, col: nat) -> nat {
    if row < candidates().len() {
        (candidates()[row as int].checks.len() - col) as nat
    } else {
        0
    }
}

/// The backend that detection ends with when it starts from a position and
/// every check is answered as the environment has it.
pub open spec fn outcome(row: nat, col: nat, env: EnvironmentView) -> ProviderView
    decreases rows_left(row), checks_left(row, col),
{
    match pending(row, col, env.native_clipboard) {
        StepView::Select(provider) => provider,
        StepView::Probe(check) => if env.holds(check) {
            outcome(row, col + 1, env)
        } else {
            outcome(row + 1, 0, env)
        },
    }
}

/// Detection in progress. It names one check at a time, and makes no check
/// whose answer cannot change the result.
#[derive(Debug)]
pub struct Cascade {
    table: Vec<Candidate>,
    row: usize,
    col: usize,
    native_clipboard: bool,
}

impl Cascade {
    #[verifier::type_invariant]
    spec fn well_formed(&self) -> bool {
        table_view(self.table@) == candidates()
    }

    /// How many candidates have been given up.
    pub closed spec fn row(&self) -> nat {
        self.row as nat
    }

    /// How many checks of the current candidate have held.
    pub closed spec fn col(&self) -> nat {
        self.col as nat
    }

    /// Whether the operating system has a clipboard of its own.
    pub closed spec fn native_clipboard(&self) -> bool {
        self.native_clipboard
    }

    /// Detection at its start.
    pub fn new(native_clipboard: bool) -> (cascade: Cascade)
        ensures
            cascade.row() == 0,
            cascade.col() == 0,
            cascade.native_clipboard() == native_clipboard,
    {
        Cascade { table: table(), row: 0, col: 0, native_clipboard }
    }

    /// The check to make next, or the backend that detection has arrived at.
    pub fn step(&self) -> (step: Step)
        ensures
            step@ == pending(self.row(), self.col(), self.native_clipboard()),
    {
        proof {
            use_type_invariant(self);
        }
        if self.row >= self.table.len() {
            if self.native_clipboard {
                Step::Select(Provider::Windows(WindowsProvider::default()))
            } else {
                Step::Select(Provider::Term(TermProvider::default()))
            }
        } else {
            let candidate = &self.table[self.row];
            assert(candidate@ == candidates()[self.row as int]) by {
                assert(table_view(self.table@)[self.row as int] == candidate@);
            }
            if self.col >= candidate.checks.len() {
                Step::Select(Provider::Command(candidate.provider.clone()))
            } else {
                Step::Probe(candidate.checks[self.col].clone())
            }
        }
    }

    /// Takes the answer to the pending check.
    pub fn answer(&mut self, held: bool)
        ensures
            (final(self).row(), final(self).col()) == advance(old(self).row(), old(self).col(), held),
            final(self).native_clipboard() == old(self).native_clipboard(),
    {
        proof {
            use_type_invariant(&*self);
        }
        if self.row < self.table.len() {
            assert(self.table@[self.row as int]@ == candidates()[self.row as int]) by {
                assert(table_view(self.table@)[self.row as int] == self.table@[self.row as int]@);
            }
            if self.col < self.table[self.row].checks.len() {
                if held {
                    self.col = self.col + 1;
                } else {
                    self.row = self.row + 1;
                    self.col = 0;
                }
            }
        }
    }
}

/// From any position that the answers of an environment lead to, detection
/// ends with the backend that the rest of the table gives.
proof fn lemma_outcome_from(row: nat, col: nat, env: EnvironmentView)
    requires
        row <= candidates().len(),
        row < candidates().len() ==> col <= candidates()[row as int].checks.len(),
        row < candidates().len() ==> forall|k: int|
            0 <= k < col ==> env.holds(#[trigger] candidates()[row as int].checks[k]),
    ensures
        outcome(row, col, env) == select_from(candidates().skip(row as int), env),
    decreases rows_left(row), checks_left(row, col),
{
    let table = candidates();
    let rest = table.skip(row as int);
    if row < table.len() {
        let candidate = table[row as int];
        assert(rest[0] == candidate);
        if col < candidate.checks.len() {
            if env.holds(candidate.checks[col as int]) {
                lemma_outcome_from(row, col + 1, env);
            } else {
                lemma_outcome_from(row + 1, 0, env);
                assert(rest.drop_first() =~= table.skip(row as int + 1));
            }
        }
    }
}

/// Detection that starts at the top of the table and is answered as an
/// environment has it ends with the backend selected for that environment.
pub proof fn cascade_reaches_selected(env: EnvironmentView)
    ensures
        outcome(0, 0, env) == selected(env),
{
    lemma_outcome_from(0, 0, env);
    assert(candidates().skip(0) =~= candidates());
}

/// Picks the backend for an environment: the checks of the candidates are
/// made one by one until a candidate is satisfied or none is left.
pub fn get_clipboard_provider(env: &Environment) -> (provider: Provider)
    ensures
        provider@ == selected(env@),
{
    let mut cascade = Cascade::new(env.native_clipboard);
    proof {
        cascade_reaches_selected(env@);
    }
    loop
        invariant
            cascade.native_clipboard() == env.native_clipboard,
            outcome(cascade.row(), cascade.col(), env@) == selected(env@),
        decreases rows_left(cascade.row()), checks_left(cascade.row(), cascade.col()),
    {
        match cascade.step() {
            Step::Select(provider) => {
                return provider;
            },
            Step::Probe(check) => {
                let held = env.holds(&check);
                cascade.answer(held);
            },
        }
    }
}

/// The executables that the candidates look for.
pub open spec fn known_executables() -> Set<Seq<char>> {
    Set::new(
        |name: Seq<char>|
            exists|i: int, k: int|
                0 <= i < candidates().len() && 0 <= k < candidates()[i].checks.len()
                    && #[trigger] candidates()[i].checks[k] == CheckView::Executable(name),
    )
}

/// Wayland comes before X11: where a Wayland session and an X11 session are
/// both announced, and `wl-copy`, `wl-paste` and `xclip` are all found, the
/// Wayland tools are taken, unless the pasteboard tools of macOS, which come
/// first of all, are found too.
pub proof fn wayland_precedes_x11(env: EnvironmentView)
    requires
        env.variables.contains("WAYLAND_DISPLAY"@),
        env.variables.contains("DISPLAY"@),
        env.executables.contains("wl-copy"@),
        env.executables.contains("wl-paste"@),
        env.executables.contains("xclip"@),
        !(env.executables.contains("pbcopy"@) && env.executables.contains("pbpaste"@)),
    ensures
        selected(env) == ProviderView::Command(wayland().provider),
{
    let table = candidates();
    assert(!satisfied(table[0], env)) by {
        assert(table[0].checks[0] == CheckView::Executable("pbcopy"@));
        assert(table[0].checks[1] == CheckView::Executable("pbpaste"@));
    }
    assert(table.drop_first()[0] == wayland());
    assert(satisfied(wayland(), env));
    reveal_with_fuel(select_from, 2);
}

/// A table in which no candidate is satisfied gives the fallback.
proof fn lemma_none_satisfied(table: Seq<CandidateView>, env: EnvironmentView)
    requires
        forall|i: int| 0 <= i < table.len() ==> !satisfied(#[trigger] table[i], env),
    ensures
        select_from(table, env) == fallback(env.native_clipboard),
    decreases table.len(),
{
    if table.len() > 0 {
        assert(!satisfied(table[0], env));
        assert forall|i: int| 0 <= i < table.drop_first().len() implies !satisfied(
            #[trigger] table.drop_first()[i],
            env,
        ) by {
            assert(table.drop_first()[i] == table[i + 1]);
        }
        lemma_none_satisfied(table.drop_first(), env);
    }
}

/// A candidate that looks for an executable that is not there is not
/// satisfied.
proof fn lemma_missing_executable(i: int, k: int, env: EnvironmentView)
    requires
        0 <= i < candidates().len(),
        0 <= k < candidates()[i].checks.len(),
        candidates()[i].checks[k] is Executable,
        env.executables.disjoint(known_executables()),
    ensures
        !satisfied(candidates()[i], env),
{
    let check = candidates()[i].checks[k];
    assert(known_executables().contains(check->Executable_0));
    assert(!env.holds(check));
}

/// Without any of the executables that the candidates look for, the fallback
/// is taken: the operating system's own clipboard where there is one, the
/// terminal's escape codes elsewhere.
pub proof fn fallback_without_executables(env: EnvironmentView)
    requires
        env.executables.disjoint(known_executables()),
    ensures
        selected(env) == fallback(env.native_clipboard),
{
    lemma_missing_executable(0, 0, env);
    lemma_missing_executable(1, 1, env);
    lemma_missing_executable(2, 1, env);
    lemma_missing_executable(3, 1, env);
    lemma_missing_executable(4, 0, env);
    lemma_missing_executable(5, 0, env);
    lemma_missing_executable(6, 0, env);
    lemma_missing_executable(7, 0, env);
    lemma_missing_executable(8, 1, env);
    lemma_none_satisfied(candidates(), env);
}

} // verus!
