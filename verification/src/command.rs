//! The closed set of commands and the dispatch from a command name to one
//! of them. An unrecognized, non-empty name is a `CommandNotFound` failure;
//! an empty name selects no command at all.

use vstd::prelude::*;
use crate::error::ShellError;
use crate::text::str_eq;

verus! {

/// One of the supported commands.
#[derive(Clone, Copy, Debug, PartialEq, Eq, Structural)]
pub enum Command {
    Exit,
    Cd,
    Help,
    Ls,
    Cat,
    Mkdir,
    Touch,
    Rm,
    Cp,
    Mv,
    Grep,
    Pwd,
    Echo,
    Date,
    History,
}

/// The command that a name selects, if any.
pub open spec fn command_of(name: Seq<char>) -> Option<Command> {
    if name == "exit"@ {
        Some(Command::Exit)
    } else if name == "cd"@ {
        Some(Command::Cd)
    } else if name == "help"@ {
        Some(Command::Help)
    } else if name == "ls"@ {
        Some(Command::Ls)
    } else if name == "cat"@ {
        Some(Command::Cat)
    } else if name == "mkdir"@ {
        Some(Command::Mkdir)
    } else if name == "touch"@ {
        Some(Command::Touch)
    } else if name == "rm"@ {
        Some(Command::Rm)
    } else if name == "cp"@ {
        Some(Command::Cp)
    } else if name == "mv"@ {
        Some(Command::Mv)
    } else if name == "grep"@ {
        Some(Command::Grep)
    } else if name == "pwd"@ {
        Some(Command::Pwd)
    } else if name == "echo"@ {
        Some(Command::Echo)
    } else if name == "date"@ {
        Some(Command::Date)
    } else if name == "history"@ {
        Some(Command::History)
    } else {
        None
    }
}

/// Selects the handler for a command name.
///
/// An empty name selects nothing and is a silent no-op; a known name
/// selects its command; any other name is reported as `CommandNotFound`
/// carrying the unrecognized name. This is never fatal to the loop.
pub fn lookup_command(name: &str) -> (r: Result<Option<Command>, ShellError>)
    ensures
        command_of(name@) matches Some(c) ==> r == Ok::<Option<Command>, ShellError>(Some(c)),
        command_of(name@) is None && name@.len() == 0 ==> r == Ok::<Option<Command>, ShellError>(
            None::<Command>,
        ),
        command_of(name@) is None && name@.len() != 0 ==> (r matches Err(e) && e matches
            ShellError::CommandNotFound(n) && n@ == name@),
{
    if str_eq(name, "exit") {
        Ok(Some(Command::Exit))
    } else if str_eq(name, "cd") {
        Ok(Some(Command::Cd))
    } else if str_eq(name, "help") {
        Ok(Some(Command::Help))
    } else if str_eq(name, "ls") {
        Ok(Some(Command::Ls))
    } else if str_eq(name, "cat") {
        Ok(Some(Command::Cat))
    } else if str_eq(name, "mkdir") {
        Ok(Some(Command::Mkdir))
    } else if str_eq(name, "touch") {
        Ok(Some(Command::Touch))
    } else if str_eq(name, "rm") {
        Ok(Some(Command::Rm))
    } else if str_eq(name, "cp") {
        Ok(Some(Command::Cp))
    } else if str_eq(name, "mv") {
        Ok(Some(Command::Mv))
    } else if str_eq(name, "grep") {
        Ok(Some(Command::Grep))
    } else if str_eq(name, "pwd") {
        Ok(Some(Command::Pwd))
    } else if str_eq(name, "echo") {
        Ok(Some(Command::Echo))
    } else if str_eq(name, "date") {
        Ok(Some(Command::Date))
    } else if str_eq(name, "history") {
        Ok(Some(Command::History))
    } else if name.is_empty() {
        Ok(None)
    } else {
        Err(ShellError::CommandNotFound(name.to_owned()))
    }
}

/// The static text that `help` prints, one line per entry.
pub fn help_lines() -> (lines: Vec<String>)
    ensures
        lines.deep_view() =~= seq![
            "Implemented commands:"@,
            "  exit          - Exit the shell"@,
            "  cd [dir]      - Change directory"@,
            "  ls [path]     - List directory contents"@,
            "  cat <file>    - Display file content"@,
            "  mkdir <dir>   - Create directory"@,
            "  touch <file>  - Create empty file"@,
            "  rm <path>     - Remove file/directory"@,
            "  cp <src> <dst> - Copy file"@,
            "  mv <src> <dst> - Move/rename file"@,
            "  grep <pattern> <file> - Search text"@,
            "  pwd           - Print working directory"@,
            "  echo <text>   - Display message"@,
            "  date          - Show current date/time"@,
            "  help          - Show this help"@,
            "  history       - Show command history"@,
        ],
{
    let mut lines: Vec<String> = Vec::new();
    lines.push("Implemented commands:".to_owned());
    lines.push("  exit          - Exit the shell".to_owned());
    lines.push("  cd [dir]      - Change directory".to_owned());
    lines.push("  ls [path]     - List directory contents".to_owned());
    lines.push("  cat <file>    - Display file content".to_owned());
    lines.push("  mkdir <dir>   - Create directory".to_owned());
    lines.push("  touch <file>  - Create empty file".to_owned());
    lines.push("  rm <path>     - Remove file/directory".to_owned());
    lines.push("  cp <src> <dst> - Copy file".to_owned());
    lines.push("  mv <src> <dst> - Move/rename file".to_owned());
    lines.push("  grep <pattern> <file> - Search text".to_owned());
    lines.push("  pwd           - Print working directory".to_owned());
    lines.push("  echo <text>   - Display message".to_owned());
    lines.push("  date          - Show current date/time".to_owned());
    lines.push("  help          - Show this help".to_owned());
    lines.push("  history       - Show command history".to_owned());
    lines
}

} // verus!
