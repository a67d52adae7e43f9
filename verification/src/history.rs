//! The in-memory history log: the ordered sequence of previously entered
//! lines. It is appended to on every non-empty input, never reordered and
//! never deduplicated; persistence loads it at startup and rewrites it at
//! shutdown.

use vstd::prelude::*;
use vstd::string::StringExecFns;
use crate::text::dec_digits;
use crate::text::dec_u64;

verus! {

/// The ordered log of previously entered lines.
pub struct History {
    pub entries: Vec<String>,
}

impl View for History {
    type V = Seq<Seq<char>>;

    open spec fn view(&self) -> Seq<Seq<char>> {
        self.entries.deep_view()
    }
}

/// The lines that the `history` command prints: a placeholder when the log
/// is empty, otherwise one 1-indexed line per entry, in entry order.
pub open spec fn history_lines(entries: Seq<Seq<char>>) -> Seq<Seq<char>> {
    if entries.len() == 0 {
        seq!["No command history available"@]
    } else {
        Seq::new(entries.len(), |i: int| dec_digits((i + 1) as nat) + ": "@ + entries[i])
    }
}

impl History {
    /// An empty log, for a run that loaded no previous history.
    pub fn new() -> (h: History)
        ensures
            h@ == Seq::<Seq<char>>::empty(),
    {
        let entries: Vec<String> = Vec::new();
        proof {
            assert(entries.deep_view() =~= Seq::<Seq<char>>::empty());
        }
        History { entries }
    }

    /// The log as loaded from the persisted file: exactly those lines, in
    /// their persisted order.
    pub fn from_entries(entries: Vec<String>) -> (h: History)
        ensures
            h@ == entries.deep_view(),
    {
        History { entries }
    }

    /// Appends one entered line at the end; nothing else moves.
    pub fn push(&mut self, line: String)
        ensures
            final(self)@ == old(self)@.push(line@),
    {
        let ghost pre = self.entries.deep_view();
        self.entries.push(line);
        proof {
            assert(self.entries.deep_view() =~= pre.push(self.entries@.last()@));
        }
    }

    pub fn len(&self) -> (n: usize)
        ensures
            n == self@.len(),
    {
        self.entries.len()
    }

    /// Renders the log as the `history` command prints it.
    pub fn render(&self) -> (lines: Vec<String>)
        ensures
            lines.deep_view() == history_lines(self@),
    {
        let mut lines: Vec<String> = Vec::new();
        if self.entries.len() == 0 {
            lines.push("No command history available".to_owned());
            proof {
                assert(lines.deep_view() =~= history_lines(self@));
            }
            return lines;
        }
        let ghost dv = self.entries.deep_view();
        let mut k: usize = 0;
        while k < self.entries.len()
            invariant
                k <= self.entries.len(),
                dv == self.entries.deep_view(),
                dv.len() == self.entries.len(),
                forall|t: int| 0 <= t < dv.len() ==> dv[t] == self.entries@[t]@,
                lines.deep_view().len() == k,
                forall|t: int| 0 <= t < k ==> lines.deep_view()[t] == dec_digits((t + 1) as nat)
                    + ": "@ + dv[t],
            decreases self.entries.len() - k,
        {
            let ghost pre = lines.deep_view();
            let mut line = dec_u64((k as u64) + 1);
            line.append(": ");
            line.append(self.entries[k].as_str());
            lines.push(line);
            proof {
                assert(lines.deep_view() =~= pre.push(line@));
            }
            k += 1;
        }
        proof {
            assert(lines.deep_view() =~= history_lines(self@));
        }
        lines
    }
}

/// The persistence law for history across two sequential runs: when the
/// log of the later run is the entries loaded from the earlier run followed
/// by the lines entered since, every loaded entry is present, at its old
/// place, and every one of them precedes every newly entered line.
pub proof fn lemma_history_runs_ordered(h: History, loaded: Seq<Seq<char>>, added: Seq<Seq<char>>)
    requires
        h@ == loaded + added,
    ensures
        h@.len() == loaded.len() + added.len(),
        forall|i: int| 0 <= i < loaded.len() ==> h@[i] == loaded[i],
        forall|j: int| 0 <= j < added.len() ==> h@[loaded.len() + j] == added[j],
{
}

} // verus!
