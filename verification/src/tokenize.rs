//! Whitespace tokenization of an input line: the command name is the first
//! token, the arguments are the remaining tokens in their original order.
//! There is no quoting and no escaping.

use vstd::prelude::*;
use vstd::string::StrSliceExecFns;
use vstd::string::StringExecFns;

verus! {

/// The characters that separate tokens.
pub open spec fn is_space(c: char) -> bool {
    c == ' ' || c == '\t' || c == '\n' || c == '\r' || c == '\u{b}' || c == '\u{c}'
}

/// Length of the run of non-space characters at the front of `s`.
pub open spec fn token_len(s: Seq<char>) -> nat
    decreases s.len(),
{
    if s.len() == 0 || is_space(s[0]) {
        0
    } else {
        1 + token_len(s.skip(1))
    }
}

pub proof fn lemma_token_len_le(s: Seq<char>)
    ensures
        token_len(s) <= s.len(),
    decreases s.len(),
{
    if s.len() != 0 && !is_space(s[0]) {
        lemma_token_len_le(s.skip(1));
    }
}

/// The leading non-space run is exactly as long as the run that an index
/// scan finds: `m` non-space characters followed by the end or a space.
pub proof fn lemma_token_len_run(s: Seq<char>, m: int)
    requires
        0 <= m <= s.len(),
        forall|j: int| 0 <= j < m ==> !is_space(s[j]),
        m == s.len() || is_space(s[m]),
    ensures
        token_len(s) == m,
    decreases m,
{
    if m > 0 {
        assert(!is_space(s[0]));
        lemma_token_len_run(s.skip(1), m - 1);
    }
}

/// The sequence of whitespace-delimited tokens of `s`, in order.
pub open spec fn tokens_of(s: Seq<char>) -> Seq<Seq<char>>
    decreases s.len(),
    via tokens_of_decreases
{
    if s.len() == 0 {
        Seq::empty()
    } else if is_space(s[0]) {
        tokens_of(s.skip(1))
    } else {
        let k = 1 + token_len(s.skip(1)) as int;
        seq![s.take(k)] + tokens_of(s.skip(k))
    }
}

#[via_fn]
proof fn tokens_of_decreases(s: Seq<char>) {
    if s.len() != 0 && !is_space(s[0]) {
        lemma_token_len_le(s.skip(1));
    }
}

proof fn lemma_token_run_nonspace(s: Seq<char>, j: int)
    requires
        0 <= j < token_len(s),
    ensures
        !is_space(s[j]),
    decreases j,
{
    lemma_token_len_le(s);
    if s.len() == 0 || is_space(s[0]) {
        assert(token_len(s) == 0);
    }
    if j > 0 {
        lemma_token_run_nonspace(s.skip(1), j - 1);
        assert(s.skip(1)[j - 1] == s[j]);
    }
}

/// Tokens are what the word says: every token of a line is non-empty and
/// holds no whitespace character.
pub proof fn lemma_tokens_wellformed(s: Seq<char>)
    ensures
        forall|k: int| 0 <= k < tokens_of(s).len() ==> (#[trigger] tokens_of(s)[k]).len() > 0,
        forall|k: int, j: int|
            0 <= k < tokens_of(s).len() && 0 <= j < tokens_of(s)[k].len() ==> !is_space(
                #[trigger] tokens_of(s)[k][j],
            ),
    decreases s.len(),
{
    if s.len() == 0 {
    } else if is_space(s[0]) {
        lemma_tokens_wellformed(s.skip(1));
        assert(tokens_of(s) == tokens_of(s.skip(1)));
    } else {
        let k = 1 + token_len(s.skip(1)) as int;
        assert(token_len(s) == k);
        lemma_token_len_le(s.skip(1));
        lemma_tokens_wellformed(s.skip(k));
        assert(tokens_of(s) == seq![s.take(k)] + tokens_of(s.skip(k)));
        assert(tokens_of(s)[0] == s.take(k));
        assert(s.take(k).len() == k);
        assert forall|t: int| 0 <= t < tokens_of(s).len() implies (#[trigger] tokens_of(s)[t]).len()
            > 0 by {
            if t > 0 {
                assert(tokens_of(s)[t] == tokens_of(s.skip(k))[t - 1]);
            }
        }
        assert forall|t: int, j: int|
            0 <= t < tokens_of(s).len() && 0 <= j < tokens_of(s)[t].len() implies !is_space(
            #[trigger] tokens_of(s)[t][j],
        ) by {
            if t == 0 {
                assert(tokens_of(s)[0][j] == s[j]);
                lemma_token_run_nonspace(s, j);
            } else {
                assert(tokens_of(s)[t] == tokens_of(s.skip(k))[t - 1]);
            }
        }
    }
}

fn is_space_char(c: char) -> (r: bool)
    ensures
        r == is_space(c),
{
    c == ' ' || c == '\t' || c == '\n' || c == '\r' || c == '\u{b}' || c == '\u{c}'
}

/// Splits a line into its whitespace-delimited tokens.
pub fn tokenize(input: &str) -> (toks: Vec<String>)
    ensures
        toks.deep_view() == tokens_of(input@),
{
    let n = input.unicode_len();
    let mut toks: Vec<String> = Vec::new();
    let mut i: usize = 0;
    proof {
        assert(input@.skip(0) =~= input@);
        assert(toks.deep_view() + tokens_of(input@) =~= tokens_of(input@));
    }
    while i < n
        invariant
            n == input@.len(),
            i <= n,
            tokens_of(input@) == toks.deep_view() + tokens_of(input@.skip(i as int)),
        decreases n - i,
    {
        let ghost pre = toks.deep_view();
        if is_space_char(input.get_char(i)) {
            proof {
                assert(input@.skip(i as int).skip(1) =~= input@.skip(i + 1));
            }
            i += 1;
        } else {
            let start = i;
            let mut j = i + 1;
            while j < n && !is_space_char(input.get_char(j))
                invariant
                    n == input@.len(),
                    i < j <= n,
                    forall|t: int| i <= t < j ==> !is_space(input@[t]),
                decreases n - j,
            {
                j += 1;
            }
            let token = input.substring_char(start, j).to_owned();
            proof {
                let suf = input@.skip(i as int);
                lemma_token_len_run(suf, j - i);
                assert(token_len(suf) == 1 + token_len(suf.skip(1))) by {
                    assert(!is_space(suf[0]));
                }
                assert(suf.take(j - i) =~= input@.subrange(i as int, j as int));
                assert(suf.skip(j - i) =~= input@.skip(j as int));
                assert(tokens_of(suf) == seq![input@.subrange(i as int, j as int)]
                    + tokens_of(input@.skip(j as int)));
            }
            toks.push(token);
            proof {
                assert(toks.deep_view() =~= pre.push(input@.subrange(i as int, j as int)));
                assert(pre + (seq![input@.subrange(i as int, j as int)] + tokens_of(
                    input@.skip(j as int),
                )) =~= toks.deep_view() + tokens_of(input@.skip(j as int)));
            }
            i = j;
        }
    }
    proof {
        assert(input@.skip(n as int) =~= Seq::<char>::empty());
        assert(toks.deep_view() + tokens_of(Seq::<char>::empty()) =~= toks.deep_view());
    }
    toks
}

/// Splits a raw input line into the command name and its arguments.
///
/// The command name is the first whitespace-delimited token, or the empty
/// string when the line holds no token at all; the arguments are the
/// remaining tokens in their original order.
pub fn parse_input(input: &str) -> (r: (String, Vec<String>))
    ensures
        tokens_of(input@).len() == 0 ==> r.0@ == Seq::<char>::empty() && r.1.deep_view()
            == Seq::<Seq<char>>::empty(),
        tokens_of(input@).len() > 0 ==> r.0@ == tokens_of(input@)[0] && r.1.deep_view()
            == tokens_of(input@).skip(1),
{
    let mut toks = tokenize(input);
    if toks.len() == 0 {
        let empty: Vec<String> = Vec::new();
        proof {
            assert(empty.deep_view() =~= Seq::<Seq<char>>::empty());
        }
        (String::new(), empty)
    } else {
        let ghost whole = toks.deep_view();
        let command = toks.remove(0);
        proof {
            assert(toks.deep_view() =~= whole.skip(1));
        }
        (command, toks)
    }
}

} // verus!
