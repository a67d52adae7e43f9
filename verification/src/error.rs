//! The closed set of failure kinds that handlers report, and the rendering
//! of each into the diagnostic lines written to the error stream: one
//! primary line, then a contextual hint where the kind calls for one.

use vstd::prelude::*;
use vstd::string::StringExecFns;
use crate::usage::usage_spec;
use crate::usage::get_command_usage;

verus! {

/// A structured handler failure.
#[derive(Debug)]
pub enum ShellError {
    /// An underlying filesystem or OS failure, with its rendered message
    /// and whether it was a permission denial.
    Io { message: String, permission_denied: bool },
    /// A value was supplied but is semantically unusable.
    InvalidArgument(String),
    /// A required argument is absent; carries what was expected.
    MissingArguments(String),
    /// The first token of the line names no known command.
    CommandNotFound(String),
    /// An explicit existence pre-check failed for this path.
    FileNotFound(String),
    /// An operation that needs a regular file was given a directory.
    IsDirectory(String),
}

/// The diagnostic lines that a failure of `e` in command `command` produces,
/// in order: the primary line, then the hint line where there is one.
pub open spec fn diagnostic_spec(e: ShellError, command: Seq<char>) -> Seq<Seq<char>> {
    match e {
        ShellError::Io { message, permission_denied } => {
            let primary = "Error in "@ + command + ": "@ + message@;
            if permission_denied {
                seq![primary, "Try running with elevated privileges"@]
            } else {
                seq![primary]
            }
        },
        ShellError::InvalidArgument(m) => seq![
            "Invalid argument: "@ + m@,
            "Usage: "@ + usage_spec(command),
        ],
        ShellError::MissingArguments(m) => seq![
            "Missing required argument: "@ + m@,
            "Usage: "@ + usage_spec(command),
        ],
        ShellError::CommandNotFound(n) => seq!["Command not found: "@ + n@],
        ShellError::FileNotFound(p) => seq![
            "File not found: "@ + p@,
            "Check the path and try again"@,
        ],
        ShellError::IsDirectory(p) => seq![
            "Is a directory: "@ + p@,
            "Did you mean to use a file instead?"@,
        ],
    }
}

/// Renders a failure into the diagnostic lines to print, in order.
pub fn diagnostic_lines(e: &ShellError, command: &str) -> (lines: Vec<String>)
    ensures
        lines.deep_view() == diagnostic_spec(*e, command@),
{
    let mut lines: Vec<String> = Vec::new();
    match e {
        ShellError::Io { message, permission_denied } => {
            let mut primary = String::new();
            primary.append("Error in ");
            primary.append(command);
            primary.append(": ");
            primary.append(message.as_str());
            lines.push(primary);
            if *permission_denied {
                lines.push("Try running with elevated privileges".to_owned());
            }
        },
        ShellError::InvalidArgument(m) => {
            let mut primary = String::new();
            primary.append("Invalid argument: ");
            primary.append(m.as_str());
            lines.push(primary);
            let mut hint = String::new();
            hint.append("Usage: ");
            hint.append(get_command_usage(command));
            lines.push(hint);
        },
        ShellError::MissingArguments(m) => {
            let mut primary = String::new();
            primary.append("Missing required argument: ");
            primary.append(m.as_str());
            lines.push(primary);
            let mut hint = String::new();
            hint.append("Usage: ");
            hint.append(get_command_usage(command));
            lines.push(hint);
        },
        ShellError::CommandNotFound(n) => {
            let mut primary = String::new();
            primary.append("Command not found: ");
            primary.append(n.as_str());
            lines.push(primary);
        },
        ShellError::FileNotFound(p) => {
            let mut primary = String::new();
            primary.append("File not found: ");
            primary.append(p.as_str());
            lines.push(primary);
            lines.push("Check the path and try again".to_owned());
        },
        ShellError::IsDirectory(p) => {
            let mut primary = String::new();
            primary.append("Is a directory: ");
            primary.append(p.as_str());
            lines.push(primary);
            lines.push("Did you mean to use a file instead?".to_owned());
        },
    }
    proof {
        assert(lines.deep_view() =~= diagnostic_spec(*e, command@));
    }
    lines
}

} // verus!
