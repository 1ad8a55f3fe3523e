//! Planning the start of a program in a new, visible terminal.
//!
//! Nothing here starts a process. A [`TerminalLauncher`] turns the path of a
//! script into the command line that opens a terminal, runs the script in it
//! and leaves an interactive shell open afterwards; the caller hands that
//! command line to the operating system and reports back what the system
//! said, which [`launch_outcome`] turns into the launcher's own result.

use crate::quote::{lemma_quote_roundtrip, push_shell_quoted, shell_quoted, with_first, word_value};
use vstd::prelude::*;

verus! {

/// Emulator that is started where the environment names no other.
pub const DEFAULT_TERMINAL: &'static str = "x-terminal-emulator";

/// Environment variable that names the user's terminal emulator.
pub const TERMINAL_VARIABLE: &'static str = "TERMINAL";

/// A command line as mathematics: the program, its arguments one by one, and
/// whether the new process is cut off from the caller's standard streams.
pub ghost struct CommandLine {
    pub program: Seq<char>,
    pub args: Seq<Seq<char>>,
    pub null_stdio: bool,
}

/// A command line to hand to the operating system. The arguments are passed
/// as they stand, one per element: no shell reads them on the way.
#[derive(Debug, Clone, PartialEq, Eq)]
pub struct LaunchCommand {
    pub program: String,
    pub args: Vec<String>,
    /// The process gets no standard input, output or error of the caller's.
    pub null_stdio: bool,
}

impl View for LaunchCommand {
    type V = CommandLine;

    open spec fn view(&self) -> CommandLine {
        CommandLine {
            program: self.program@,
            args: self.args.deep_view(),
            null_stdio: self.null_stdio,
        }
    }
}

/// The script that the new shell runs: the target, quoted so that it stays
/// one word, and then a shell that takes the place of the first and keeps
/// the window open.
pub open spec fn keep_open_script(path: Seq<char>) -> Seq<char> {
    shell_quoted(path) + "; exec bash"@
}

/// What a character becomes inside an AppleScript string literal.
pub open spec fn apple_char(c: char) -> Seq<char> {
    if c == '"' || c == '\\' {
        seq!['\\', c]
    } else {
        seq![c]
    }
}

/// The inside of an AppleScript string literal that stands for `s`.
pub open spec fn apple_escaped(s: Seq<char>) -> Seq<char>
    decreases s.len(),
{
    if s.len() == 0 {
        Seq::empty()
    } else {
        apple_char(s[0]) + apple_escaped(s.drop_first())
    }
}

/// How AppleScript reads the inside of a string literal: a backslash makes
/// the next character literal, a bare double quote would end the literal
/// early (`None`), every other character stands for itself.
pub open spec fn apple_value(text: Seq<char>) -> Option<Seq<char>>
    decreases text.len(),
{
    if text.len() == 0 {
        Some(Seq::empty())
    } else if text[0] == '\\' {
        if text.len() >= 2 && (text[1] == '"' || text[1] == '\\') {
            with_first(text[1], apple_value(text.skip(2)))
        } else {
            None
        }
    } else if text[0] == '"' {
        None
    } else {
        with_first(text[0], apple_value(text.drop_first()))
    }
}

/// The shell command that Terminal is told to run: `bash -c` with the
/// keep-open script as its one argument.
pub open spec fn terminal_line(path: Seq<char>) -> Seq<char> {
    "bash -c "@ + shell_quoted(keep_open_script(path))
}

/// The AppleScript statement that opens a Terminal window on the script.
pub open spec fn apple_statement(path: Seq<char>) -> Seq<char> {
    "tell application \"Terminal\" to do script \""@ + apple_escaped(terminal_line(path)) + "\""@
}

/// Unix-like desktops: `setsid` puts the emulator in a session of its own,
/// `-e` hands it the command to run.
pub open spec fn unix_plan(terminal: Seq<char>, path: Seq<char>) -> CommandLine {
    CommandLine {
        program: "setsid"@,
        args: seq![terminal, "-e"@, "bash"@, "-c"@, keep_open_script(path)],
        null_stdio: true,
    }
}

/// Windows: `start` opens a new console, PowerShell runs the file and stays.
pub open spec fn windows_plan(path: Seq<char>) -> CommandLine {
    CommandLine {
        program: "cmd"@,
        args: seq!["/C"@, "start"@, "powershell"@, "-NoExit"@, "-File"@, path],
        null_stdio: false,
    }
}

/// macOS: Terminal is driven through its scripting interface.
pub open spec fn macos_plan(path: Seq<char>) -> CommandLine {
    CommandLine { program: "osascript"@, args: seq!["-e"@, apple_statement(path)], null_stdio: false }
}

/// Appending one character to the text appends its escaped form.
pub proof fn lemma_apple_escaped_push(s: Seq<char>, c: char)
    ensures
        apple_escaped(s.push(c)) == apple_escaped(s) + apple_char(c),
    decreases s.len(),
{
    if s.len() == 0 {
        assert(s.push(c).drop_first() =~= Seq::<char>::empty());
        assert(apple_escaped(Seq::<char>::empty()) =~= Seq::<char>::empty());
        assert(apple_escaped(s.push(c)) =~= apple_char(c));
        assert(apple_escaped(s) + apple_char(c) =~= apple_char(c));
    } else {
        assert(s.push(c).drop_first() =~= s.drop_first().push(c));
        lemma_apple_escaped_push(s.drop_first(), c);
        assert(apple_escaped(s.push(c)) =~= apple_escaped(s) + apple_char(c));
    }
}

/// Escaping is faithful: AppleScript reads the escaped form of any text as
/// that text.
pub proof fn lemma_apple_roundtrip(s: Seq<char>)
    ensures
        apple_value(apple_escaped(s)) == Some(s),
    decreases s.len(),
{
    if s.len() == 0 {
        assert(s =~= Seq::<char>::empty());
    } else {
        let rest = s.drop_first();
        let tail = apple_escaped(rest);
        lemma_apple_roundtrip(rest);
        let text = apple_escaped(s);
        if s[0] == '"' || s[0] == '\\' {
            assert(text =~= seq!['\\', s[0]] + tail);
            assert(text.skip(2) =~= tail);
        } else {
            assert(text =~= seq![s[0]] + tail);
            assert(text.drop_first() =~= tail);
        }
        assert(seq![s[0]] + rest =~= s);
    }
}

/// The script that the Unix plan hands to `bash -c` begins with one shell
/// word whose value is the path: nothing in the path can split it or end it
/// early.
pub proof fn lemma_script_names_path(path: Seq<char>)
    ensures
        keep_open_script(path).subrange(0, shell_quoted(path).len() as int) == shell_quoted(path),
        word_value(shell_quoted(path)) == Some(path),
{
    lemma_quote_roundtrip(path);
    assert(keep_open_script(path).subrange(0, shell_quoted(path).len() as int) =~= shell_quoted(
        path,
    ));
}

/// What Terminal is told to run comes through both layers of quoting
/// unharmed: AppleScript reads the literal as the `bash -c` line, and the
/// shell reads the argument of `-c` as the keep-open script.
pub proof fn lemma_macos_layers(path: Seq<char>)
    ensures
        apple_value(apple_escaped(terminal_line(path))) == Some(terminal_line(path)),
        word_value(shell_quoted(keep_open_script(path))) == Some(keep_open_script(path)),
{
    lemma_apple_roundtrip(terminal_line(path));
    lemma_quote_roundtrip(keep_open_script(path));
}

/// Appends `text` to `out`, escaped for an AppleScript string literal.
pub fn push_apple_escaped(out: &mut String, text: &str)
    ensures
        final(out)@ == old(out)@ + apple_escaped(text@),
{
    assert(apple_escaped(text@.take(0)) =~= Seq::<char>::empty());
    assert(out@ =~= old(out)@ + apple_escaped(text@.take(0)));
    for c in it: text.chars()
        invariant
            it.seq() == text@,
            out@ == old(out)@ + apple_escaped(text@.take(it.index() as int)),
    {
        proof {
            lemma_apple_escaped_push(text@.take(it.index() as int), c);
            assert(text@.take(it.index() as int).push(c) =~= text@.take(it.index() + 1));
        }
        if c == '"' || c == '\\' {
            out.push('\\');
        }
        out.push(c);
        assert(out@ =~= old(out)@ + apple_escaped(text@.take(it.index() + 1)));
    }
    assert(text@.take(text@.len() as int) =~= text@);
}

/// The terminal emulator to start: the one the environment names, or the
/// system's default where it names none.
pub fn resolve_terminal(named: Option<String>) -> (terminal: String)
    ensures
        terminal@ == match named {
            Some(t) => t@,
            None => DEFAULT_TERMINAL@,
        },
{
    match named {
        Some(t) => t,
        None => DEFAULT_TERMINAL.to_owned(),
    }
}

/// Builds the script for `bash -c`.
pub fn build_keep_open_script(path: &str) -> (script: String)
    ensures
        script@ == keep_open_script(path@),
{
    let mut script = String::new();
    push_shell_quoted(&mut script, path);
    script.append("; exec bash");
    assert(script@ =~= keep_open_script(path@));
    script
}

/// Builds the AppleScript statement for `osascript -e`.
pub fn build_apple_statement(path: &str) -> (statement: String)
    ensures
        statement@ == apple_statement(path@),
{
    let script = build_keep_open_script(path);
    let mut line = "bash -c ".to_owned();
    push_shell_quoted(&mut line, script.as_str());
    let mut statement = "tell application \"Terminal\" to do script \"".to_owned();
    push_apple_escaped(&mut statement, line.as_str());
    statement.append("\"");
    assert(statement@ =~= apple_statement(path@));
    statement
}

/// The way this host opens a terminal. One value is chosen when the program
/// starts and used for every launch.
#[derive(Debug, Clone, PartialEq, Eq)]
pub enum TerminalLauncher {
    /// A Unix-like desktop with a terminal emulator that takes `-e`.
    Unix { terminal: String },
    /// Windows, through a new console host.
    Windows,
    /// macOS, through Terminal's scripting interface.
    MacOs,
}

impl TerminalLauncher {
    /// The command line that this launcher starts for `path`.
    pub open spec fn plan(self, path: Seq<char>) -> CommandLine {
        match self {
            TerminalLauncher::Unix { terminal } => unix_plan(terminal@, path),
            TerminalLauncher::Windows => windows_plan(path),
            TerminalLauncher::MacOs => macos_plan(path),
        }
    }

    /// The launcher for a Unix-like desktop. `named` is what the environment
    /// holds under [`TERMINAL_VARIABLE`], if anything.
    pub fn unix(named: Option<String>) -> (launcher: Self)
        ensures
            launcher matches TerminalLauncher::Unix { terminal } && terminal@ == (match named {
                Some(t) => t@,
                None => DEFAULT_TERMINAL@,
            }),
    {
        TerminalLauncher::Unix { terminal: resolve_terminal(named) }
    }

    /// Plans the launch of `path`.
    pub fn command(&self, path: &str) -> (cmd: LaunchCommand)
        ensures
            cmd@ == self.plan(path@),
    {
        match self {
            TerminalLauncher::Unix { terminal } => unix_command(terminal.as_str(), path),
            TerminalLauncher::Windows => windows_command(path),
            TerminalLauncher::MacOs => macos_command(path),
        }
    }
}

/// The command line for a Unix-like desktop.
pub fn unix_command(terminal: &str, path: &str) -> (cmd: LaunchCommand)
    ensures
        cmd@ == unix_plan(terminal@, path@),
{
    let mut args: Vec<String> = Vec::new();
    args.push(terminal.to_owned());
    args.push("-e".to_owned());
    args.push("bash".to_owned());
    args.push("-c".to_owned());
    args.push(build_keep_open_script(path));
    let cmd = LaunchCommand { program: "setsid".to_owned(), args, null_stdio: true };
    assert(cmd@.args =~~= unix_plan(terminal@, path@).args);
    cmd
}

/// The command line for Windows.
pub fn windows_command(path: &str) -> (cmd: LaunchCommand)
    ensures
        cmd@ == windows_plan(path@),
{
    let mut args: Vec<String> = Vec::new();
    args.push("/C".to_owned());
    args.push("start".to_owned());
    args.push("powershell".to_owned());
    args.push("-NoExit".to_owned());
    args.push("-File".to_owned());
    args.push(path.to_owned());
    let cmd = LaunchCommand { program: "cmd".to_owned(), args, null_stdio: false };
    assert(cmd@.args =~~= windows_plan(path@).args);
    cmd
}

/// The command line for macOS.
pub fn macos_command(path: &str) -> (cmd: LaunchCommand)
    ensures
        cmd@ == macos_plan(path@),
{
    let mut args: Vec<String> = Vec::new();
    args.push("-e".to_owned());
    args.push(build_apple_statement(path));
    let cmd = LaunchCommand { program: "osascript".to_owned(), args, null_stdio: false };
    assert(cmd@.args =~~= macos_plan(path@).args);
    cmd
}

/// What the operating system said when it refused a request.
#[derive(Debug, Clone, PartialEq, Eq)]
pub struct OsFailure {
    /// The system's error number, where it gave one.
    pub code: Option<i32>,
    /// The system's words.
    pub message: String,
}

/// Why a launch failed.
#[derive(Debug, Clone, PartialEq, Eq)]
pub enum LaunchError {
    /// The terminal process could not be started: the emulator or the shell
    /// was not found, or the system denied the request.
    SpawnFailed(OsFailure),
}

impl LaunchError {
    /// The failure of the operating system behind this error.
    pub fn cause(&self) -> (cause: &OsFailure)
        ensures
            *self == LaunchError::SpawnFailed(*cause),
    {
        match self {
            LaunchError::SpawnFailed(cause) => cause,
        }
    }

    /// The text shown to the user.
    pub open spec fn message_text(self) -> Seq<char> {
        match self {
            LaunchError::SpawnFailed(cause) => "could not start the terminal: "@ + cause.message@,
        }
    }

    /// A line for the user that names the failure and its cause.
    pub fn message(&self) -> (text: String)
        ensures
            text@ == self.message_text(),
    {
        match self {
            LaunchError::SpawnFailed(cause) => {
                let mut text = "could not start the terminal: ".to_owned();
                text.append(cause.message.as_str());
                text
            },
        }
    }
}

/// The launcher's result for what the operating system answered to the
/// spawn request: success once the system has accepted it, and the system's
/// failure, wrapped, where it refused. A refusal never passes for success.
pub fn launch_outcome(spawned: Result<(), OsFailure>) -> (outcome: Result<(), LaunchError>)
    ensures
        outcome == (match spawned {
            Ok(_) => Ok::<(), LaunchError>(()),
            Err(failure) => Err(LaunchError::SpawnFailed(failure)),
        }),
{
    match spawned {
        Ok(_) => Ok(()),
        Err(failure) => Err(LaunchError::SpawnFailed(failure)),
    }
}

} // verus!
