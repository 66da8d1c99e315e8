//! The native package managers.
//!
//! A backend does its work by running its native tool. Which command to
//! run, and what its exit and output mean, is decided here; running the
//! command is left to the caller. Each operation is a function from the
//! commands seen so far to the next step: another command to run, or the
//! operation's result.

pub mod apt;
pub mod brew;
pub mod flatpak;

use vstd::prelude::*;
use vstd::string::StringExecFns;
use crate::error::{ErrorKind, UpmError};
use crate::privilege::{BackendSetup, MethodPrivilege};
use crate::text::{groups_text, lines_of, lines_text, regex_captures, search, split_lines};

verus! {

/// A command: the program, its arguments and what is added to its
/// environment.
#[derive(Debug, Clone, PartialEq, Eq)]
pub struct CommandLine {
    pub program: String,
    pub args: Vec<String>,
    pub envs: Vec<(String, String)>,
}

/// The text of a command.
pub struct CommandLineView {
    pub program: Seq<char>,
    pub args: Seq<Seq<char>>,
    pub envs: Seq<(Seq<char>, Seq<char>)>,
}

impl View for CommandLine {
    type V = CommandLineView;

    open spec fn view(&self) -> CommandLineView {
        CommandLineView {
            program: self.program@,
            args: self.args@.map_values(|s: String| s@),
            envs: self.envs@.map_values(|p: (String, String)| (p.0@, p.1@)),
        }
    }
}

/// The command that runs `program` with `args` in the caller's environment.
pub open spec fn command(program: Seq<char>, args: Seq<Seq<char>>) -> CommandLineView {
    CommandLineView { program, args, envs: Seq::empty() }
}

impl CommandLine {
    /// The command that runs `program` without arguments.
    pub fn new(program: &str) -> (c: CommandLine)
        ensures
            c@ == command(program@, Seq::empty()),
    {
        let c = CommandLine {
            program: String::from_str(program),
            args: Vec::new(),
            envs: Vec::new(),
        };
        assert(c@.args =~= Seq::empty());
        assert(c@.envs =~= Seq::empty());
        c
    }

    /// The command with one more argument at the end.
    pub fn arg(self, arg: &str) -> (c: CommandLine)
        ensures
            c@ == (CommandLineView { args: self@.args.push(arg@), ..self@ }),
    {
        let mut c = self;
        c.args.push(String::from_str(arg));
        assert(c@.args =~= self@.args.push(arg@));
        c
    }

    /// The command with one more environment variable.
    pub fn env(self, key: &str, value: &str) -> (c: CommandLine)
        ensures
            c@ == (CommandLineView { envs: self@.envs.push((key@, value@)), ..self@ }),
    {
        let mut c = self;
        c.envs.push((String::from_str(key), String::from_str(value)));
        assert(c@.envs =~= self@.envs.push((key@, value@)));
        c
    }
}

/// How running a command ended.
#[derive(Debug, Clone, PartialEq, Eq)]
pub enum CommandEvent {
    /// The command ran and exited.
    Exited { success: bool, stdout: String, stderr: String },
    /// The command could not be run at all.
    Failed { message: String },
}

impl CommandEvent {
    /// The message of the failure, if the command failed: what it wrote to
    /// its error stream, or why it could not be run.
    pub open spec fn failure_text(self) -> Option<Seq<char>> {
        match self {
            CommandEvent::Exited { success, stdout, stderr } => if success {
                None
            } else {
                Some(stderr@)
            },
            CommandEvent::Failed { message } => Some(message@),
        }
    }

    /// What the command wrote to its output stream.
    pub open spec fn output_text(self) -> Seq<char> {
        match self {
            CommandEvent::Exited { success, stdout, stderr } => stdout@,
            CommandEvent::Failed { message } => Seq::empty(),
        }
    }

    /// The backend error of a failed command. It carries the failure's
    /// message as it is.
    pub fn failure(&self) -> (r: Option<UpmError>)
        ensures
            match self.failure_text() {
                Some(text) => r matches Some(e) && e.says(ErrorKind::Backend, text),
                None => r is None,
            },
    {
        match self {
            CommandEvent::Exited { success, stdout, stderr } => if *success {
                None
            } else {
                Some(UpmError::new(ErrorKind::Backend, stderr.as_str()))
            },
            CommandEvent::Failed { message } => Some(
                UpmError::new(ErrorKind::Backend, message.as_str()),
            ),
        }
    }
}

/// The next step of an operation.
#[derive(Debug, PartialEq, Eq)]
pub enum Step<T> {
    /// Run this command and come back with how it ended.
    Run(CommandLine),
    /// The operation is over.
    Done(Result<T, UpmError>),
}

/// The end of an operation that is one command: it succeeds if the command
/// does, and fails with the command's message if it does not.
pub open spec fn finished(event: CommandEvent, result: Result<(), UpmError>) -> bool {
    match event.failure_text() {
        Some(text) => result matches Err(e) && e.says(ErrorKind::Backend, text),
        None => result is Ok,
    }
}

/// The step of an operation that is one command: first the command, then
/// its verdict.
pub fn run_once(command: CommandLine, seen: &Vec<CommandEvent>) -> (r: Step<()>)
    ensures
        seen@.len() == 0 ==> r == Step::<()>::Run(command),
        seen@.len() > 0 ==> (r matches Step::Done(result) && finished(seen@[0], result)),
{
    if seen.len() == 0 {
        return Step::Run(command);
    }
    match seen[0].failure() {
        Some(e) => Step::Done(Err(e)),
        None => Step::Done(Ok(())),
    }
}

/// One row for each line that the pattern matches: the groups of the match.
/// Lines without a match leave no row. A pattern that does not compile
/// gives its error at the first line.
pub open spec fn captured_rows(pattern: Seq<char>, lines: Seq<Seq<char>>) -> Result<
    Seq<Seq<Option<Seq<char>>>>,
    Seq<char>,
>
    decreases lines.len(),
{
    if lines.len() == 0 {
        Ok(Seq::empty())
    } else {
        match captured_rows(pattern, lines.drop_last()) {
            Err(message) => Err(message),
            Ok(rows) => match regex_captures(pattern, lines.last()) {
                Err(message) => Err(message),
                Ok(None) => Ok(rows),
                Ok(Some(groups)) => Ok(rows.push(groups)),
            },
        }
    }
}

/// The text of rows of groups.
pub open spec fn rows_text(rows: Vec<Vec<Option<String>>>) -> Seq<Seq<Option<Seq<char>>>> {
    rows@.map_values(|row: Vec<Option<String>>| groups_text(row))
}

/// Searches every line of `text` with `pattern` and collects the groups of
/// each match, in the order of the lines.
pub fn capture_lines(pattern: &str, text: &str) -> (r: Result<Vec<Vec<Option<String>>>, UpmError>)
    ensures
        match captured_rows(pattern@, lines_of(text@)) {
            Ok(rows) => r matches Ok(found) && rows_text(found) == rows,
            Err(message) => r matches Err(e) && e.says(ErrorKind::Backend, message),
        },
{
    let lines = split_lines(text);
    let ghost all = lines_of(text@);
    let mut rows: Vec<Vec<Option<String>>> = Vec::new();
    let mut i: usize = 0;
    assert(all.take(0) =~= Seq::empty());
    assert(rows_text(rows) =~= Seq::empty());
    while i < lines.len()
        invariant
            i <= lines@.len(),
            lines_text(lines) == all,
            all == lines_of(text@),
            captured_rows(pattern@, all.take(i as int)) == Ok::<
                Seq<Seq<Option<Seq<char>>>>,
                Seq<char>,
            >(rows_text(rows)),
        decreases lines@.len() - i,
    {
        let ghost before = rows_text(rows);
        proof {
            assert(all.take(i as int + 1).drop_last() =~= all.take(i as int));
            assert(all.take(i as int + 1).last() == lines@[i as int]@);
        }
        match search(pattern, lines[i].as_str()) {
            Err(message) => {
                proof {
                    assert(captured_rows(pattern@, all.take(i as int + 1)) == Err::<
                        Seq<Seq<Option<Seq<char>>>>,
                        Seq<char>,
                    >(message@));
                    lemma_rows_fail_later(pattern@, all, i as int + 1);
                }
                return Err(UpmError { kind: ErrorKind::Backend, message });
            },
            Ok(None) => {},
            Ok(Some(groups)) => {
                rows.push(groups);
                assert(rows_text(rows) =~= before.push(groups_text(groups)));
            },
        }
        i = i + 1;
    }
    assert(all.take(i as int) =~= all);
    Ok(rows)
}

/// Once the rows of the first lines are an error, the rows of all lines are
/// that error.
proof fn lemma_rows_fail_later(pattern: Seq<char>, lines: Seq<Seq<char>>, n: int)
    requires
        0 <= n <= lines.len(),
        captured_rows(pattern, lines.take(n)) is Err,
    ensures
        captured_rows(pattern, lines) == captured_rows(pattern, lines.take(n)),
    decreases lines.len() - n,
{
    if n == lines.len() {
        assert(lines.take(n) =~= lines);
    } else {
        assert(lines.take(n + 1).drop_last() =~= lines.take(n));
        lemma_rows_fail_later(pattern, lines, n + 1);
    }
}

/// The text of the group at place `i` of a match, if the match has that
/// group and the group took part.
pub open spec fn group_at(groups: Seq<Option<Seq<char>>>, i: int) -> Option<Seq<char>> {
    if 0 <= i < groups.len() {
        groups[i]
    } else {
        None
    }
}

/// The text of the group at place `i` of a match.
pub fn group(groups: &Vec<Option<String>>, i: usize) -> (r: Option<&String>)
    ensures
        match group_at(groups_text(*groups), i as int) {
            Some(text) => r matches Some(s) && s@ == text,
            None => r is None,
        },
{
    if i < groups.len() {
        match &groups[i] {
            Some(s) => Some(s),
            None => None,
        }
    } else {
        None
    }
}

/// The end of a probe that is one command: the tool is installed, with the
/// given needs, if the command succeeds. A command that cannot be run at
/// all, or that runs and exits with a failure, means that the tool is
/// absent: the backend is not installed, which is no error.
pub open spec fn probed(event: CommandEvent, privilege: MethodPrivilege) -> BackendSetup {
    if event.failure_text() is None {
        BackendSetup::Installed(privilege)
    } else {
        BackendSetup::NotInstalled
    }
}

/// The verdict of a probe's command.
pub fn probe_verdict(event: &CommandEvent, privilege: MethodPrivilege) -> (r: BackendSetup)
    ensures
        r == probed(*event, privilege),
{
    match event {
        CommandEvent::Failed { message } => BackendSetup::NotInstalled,
        CommandEvent::Exited { success, stdout, stderr } => if *success {
            BackendSetup::Installed(privilege)
        } else {
            BackendSetup::NotInstalled
        },
    }
}

/// The step of a probe that is one command: first the command, then its
/// verdict.
pub fn probe_once(
    command: CommandLine,
    privilege: MethodPrivilege,
    seen: &Vec<CommandEvent>,
) -> (r: Step<BackendSetup>)
    ensures
        seen@.len() == 0 ==> r == Step::<BackendSetup>::Run(command),
        seen@.len() > 0 ==> r == Step::Done(
            Ok::<BackendSetup, UpmError>(probed(seen@[0], privilege)),
        ),
{
    if seen.len() == 0 {
        return Step::Run(command);
    }
    Step::Done(Ok(probe_verdict(&seen[0], privilege)))
}

/// What a command that had to succeed wrote to its output stream; the
/// backend error of the command if it failed.
pub fn output_of(event: &CommandEvent) -> (r: Result<String, UpmError>)
    ensures
        match event.failure_text() {
            Some(text) => r matches Err(e) && e.says(ErrorKind::Backend, text),
            None => r matches Ok(output) && output@ == event.output_text(),
        },
{
    match event {
        CommandEvent::Exited { success, stdout, stderr } => if *success {
            Ok(stdout.clone())
        } else {
            Err(UpmError::new(ErrorKind::Backend, stderr.as_str()))
        },
        CommandEvent::Failed { message } => Err(
            UpmError::new(ErrorKind::Backend, message.as_str()),
        ),
    }
}

} // verus!
