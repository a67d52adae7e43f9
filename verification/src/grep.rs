//! The matching side of `grep`: which lines of a file contain the pattern
//! as a literal, case-sensitive substring, and how each match is printed.

use vstd::prelude::*;
use vstd::string::StringExecFns;
use crate::text::contains_str;
use crate::text::dec_digits;
use crate::text::dec_u64;
use crate::text::has_substring;

verus! {

/// One printed match: `file:line_number: line`, with 1-indexed numbers.
pub open spec fn match_line(file: Seq<char>, number: nat, line: Seq<char>) -> Seq<char> {
    file + ":"@ + dec_digits(number) + ": "@ + line
}

/// Everything `grep` prints for the given file contents: one `match_line`
/// for each line that contains the pattern, in line order.
pub open spec fn grep_output(file: Seq<char>, lines: Seq<Seq<char>>, pattern: Seq<char>) -> Seq<
    Seq<char>,
>
    decreases lines.len(),
{
    if lines.len() == 0 {
        Seq::empty()
    } else {
        let pre = grep_output(file, lines.drop_last(), pattern);
        if has_substring(lines.last(), pattern) {
            pre.push(match_line(file, lines.len() as nat, lines.last()))
        } else {
            pre
        }
    }
}

/// Scans the lines of a file for the pattern as a literal substring and
/// renders the matching lines the way `grep` prints them.
pub fn grep_matches(file: &str, lines: &Vec<String>, pattern: &str) -> (out: Vec<String>)
    ensures
        out.deep_view() == grep_output(file@, lines.deep_view(), pattern@),
{
    let mut out: Vec<String> = Vec::new();
    let ghost dv = lines.deep_view();
    let mut k: usize = 0;
    proof {
        assert(dv.take(0) =~= Seq::<Seq<char>>::empty());
        assert(out.deep_view() =~= Seq::<Seq<char>>::empty());
    }
    while k < lines.len()
        invariant
            k <= lines.len(),
            dv == lines.deep_view(),
            dv.len() == lines.len(),
            forall|t: int| 0 <= t < dv.len() ==> dv[t] == lines@[t]@,
            out.deep_view() == grep_output(file@, dv.take(k as int), pattern@),
        decreases lines.len() - k,
    {
        let ghost pre = out.deep_view();
        proof {
            assert(dv.take(k + 1).drop_last() =~= dv.take(k as int));
        }
        if contains_str(lines[k].as_str(), pattern) {
            let mut line = file.to_owned();
            line.append(":");
            let number = dec_u64((k as u64) + 1);
            line.append(number.as_str());
            line.append(": ");
            line.append(lines[k].as_str());
            out.push(line);
            proof {
                assert(out.deep_view() =~= pre.push(line@));
                assert(line@ == match_line(file@, (k + 1) as nat, dv[k as int]));
            }
        }
        k += 1;
    }
    proof {
        assert(dv.take(lines.len() as int) =~= dv);
    }
    out
}

} // verus!
