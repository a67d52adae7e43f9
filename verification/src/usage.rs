//! The static usage line shown for each command in diagnostics.

use vstd::prelude::*;
use crate::text::str_eq;

verus! {

/// The usage text keyed by command name; empty for commands that have no
/// fixed usage string.
pub open spec fn usage_spec(c: Seq<char>) -> Seq<char> {
    if c == "cd"@ {
        "cd [directory]"@
    } else if c == "ls"@ {
        "ls [directory]"@
    } else if c == "cat"@ {
        "cat <file>"@
    } else if c == "mkdir"@ {
        "mkdir <directory>"@
    } else if c == "touch"@ {
        "touch <file>"@
    } else if c == "cp"@ {
        "cp <source> <destination>"@
    } else if c == "mv"@ {
        "mv <source> <destination>"@
    } else if c == "rm"@ {
        "rm <file> [-r for directories]"@
    } else if c == "grep"@ {
        "grep <pattern> <file>"@
    } else {
        Seq::empty()
    }
}

/// Looks up the usage line for a command name.
pub fn get_command_usage(command: &str) -> (r: &'static str)
    ensures
        r@ == usage_spec(command@),
{
    if str_eq(command, "cd") {
        "cd [directory]"
    } else if str_eq(command, "ls") {
        "ls [directory]"
    } else if str_eq(command, "cat") {
        "cat <file>"
    } else if str_eq(command, "mkdir") {
        "mkdir <directory>"
    } else if str_eq(command, "touch") {
        "touch <file>"
    } else if str_eq(command, "cp") {
        "cp <source> <destination>"
    } else if str_eq(command, "mv") {
        "mv <source> <destination>"
    } else if str_eq(command, "rm") {
        "rm <file> [-r for directories]"
    } else if str_eq(command, "grep") {
        "grep <pattern> <file>"
    } else {
        proof {
            reveal_strlit("");
            assert(""@ =~= Seq::<char>::empty());
        }
        ""
    }
}

} // verus!
