//! The decisions of the read-eval-print loop, separated from the reading
//! itself: what one read outcome leads to, and the prompt shown before
//! each read. Only the end of input or a failure of the reader ever ends
//! the loop; no command failure does.

use vstd::prelude::*;
use vstd::string::StringExecFns;
use crate::tokenize::parse_input;
use crate::tokenize::tokens_of;

verus! {

/// What one attempt to read a line produced.
pub enum ReadOutcome {
    /// A line of text, already trimmed of its trailing newline.
    Line(String),
    /// The read was interrupted; the line in progress is discarded.
    Interrupted,
    /// There is no further input.
    EndOfInput,
    /// The reader itself failed, with its rendered message.
    Failed(String),
}

/// What the loop does next for one read outcome.
pub enum StepDecision {
    /// Empty input: no handler runs, nothing is recorded, the loop goes on.
    Skip,
    /// Non-empty input: record `line` in the history, then dispatch
    /// `command` on `args`; the loop goes on whatever the handler returns.
    Run { line: String, command: String, args: Vec<String> },
    /// Print `line` and, only at end of input or on a reader failure,
    /// leave the loop.
    Notice { line: String, terminate: bool },
}

/// Whether a decision ends the loop.
pub open spec fn terminates(d: StepDecision) -> bool {
    match d {
        StepDecision::Notice { line, terminate } => terminate,
        _ => false,
    }
}

/// Decides what one read outcome leads to.
///
/// A line of text never ends the loop: empty input is skipped silently,
/// and any other line is recorded and dispatched, whether or not its first
/// token names a known command. An interruption prints an indicator and
/// the loop goes on. Only the end of input and a reader failure terminate.
pub fn loop_step(outcome: ReadOutcome) -> (d: StepDecision)
    ensures
        terminates(d) <==> (outcome is EndOfInput || outcome is Failed),
        outcome matches ReadOutcome::Line(s) ==> {
            &&& s@.len() == 0 ==> d == StepDecision::Skip
            &&& s@.len() > 0 ==> (d matches StepDecision::Run { line, command, args } && line@
                == s@ && {
                let toks = tokens_of(s@);
                &&& toks.len() == 0 ==> command@ == Seq::<char>::empty() && args.deep_view()
                    == Seq::<Seq<char>>::empty()
                &&& toks.len() > 0 ==> command@ == toks[0] && args.deep_view() == toks.skip(1)
            })
        },
        outcome is Interrupted ==> (d matches StepDecision::Notice { line, terminate }
            && line@ == "^C"@ && !terminate),
        outcome is EndOfInput ==> (d matches StepDecision::Notice { line, terminate }
            && line@ == "exit"@ && terminate),
        outcome matches ReadOutcome::Failed(m) ==> (d matches StepDecision::Notice {
            line,
            terminate,
        } && line@ == "Readline error: "@ + m@ && terminate),
{
    match outcome {
        ReadOutcome::Line(s) => {
            if s.as_str().is_empty() {
                StepDecision::Skip
            } else {
                let (command, args) = parse_input(s.as_str());
                StepDecision::Run { line: s, command, args }
            }
        },
        ReadOutcome::Interrupted => StepDecision::Notice {
            line: "^C".to_owned(),
            terminate: false,
        },
        ReadOutcome::EndOfInput => StepDecision::Notice {
            line: "exit".to_owned(),
            terminate: true,
        },
        ReadOutcome::Failed(m) => {
            let mut line = String::new();
            line.append("Readline error: ");
            line.append(m.as_str());
            StepDecision::Notice { line, terminate: true }
        },
    }
}

/// The prompt rendered before each read.
pub fn prompt_line(cwd: &str) -> (r: String)
    ensures
        r@ == "ASH$ "@ + cwd@ + " > "@,
{
    let mut r = String::new();
    r.append("ASH$ ");
    r.append(cwd);
    r.append(" > ");
    r
}

} // verus!
