//! Splitting a raw command line into whitespace-delimited tokens.
//!
//! A token is a maximal run of non-delimiter characters; runs of
//! delimiters between tokens are collapsed, so no token is ever empty.

use vstd::prelude::*;

verus! {

/// The delimiter set: space, tab, newline, carriage return.
pub open spec fn is_delim(c: char) -> bool {
    c == ' ' || c == '\t' || c == '\n' || c == '\r'
}

/// A well-formed token: non-empty and free of delimiters.
pub open spec fn token_wf(t: Seq<char>) -> bool {
    &&& t.len() > 0
    &&& forall|j: int| 0 <= j < t.len() ==> !is_delim(t[j])
}

/// The token sequence of a line: the maximal runs of non-delimiter
/// characters, in left-to-right order.
pub open spec fn tokens_of(s: Seq<char>) -> Seq<Seq<char>>
    decreases s.len(),
{
    if s.len() == 0 {
        Seq::<Seq<char>>::empty()
    } else {
        let rest = tokens_of(s.drop_first());
        if is_delim(s[0]) {
            rest
        } else if s.len() >= 2 && !is_delim(s[1]) {
            rest.update(0, seq![s[0]] + rest[0])
        } else {
            seq![seq![s[0]]] + rest
        }
    }
}

/// Every token that tokenization yields is non-empty and contains no
/// delimiter character.
pub proof fn lemma_tokens_wf(s: Seq<char>)
    ensures
        forall|i: int| 0 <= i < tokens_of(s).len() ==> token_wf(#[trigger] tokens_of(s)[i]),
    decreases s.len(),
{
    if s.len() == 0 {
    } else {
        let rest = tokens_of(s.drop_first());
        lemma_tokens_wf(s.drop_first());
        if is_delim(s[0]) {
        } else if s.len() >= 2 && !is_delim(s[1]) {
            assert(s.drop_first()[0] == s[1]);
            assert(tokens_of(s.drop_first()).len() > 0) by {
                lemma_tokens_first_run(s.drop_first());
            }
            assert(token_wf(rest[0]));
            assert(token_wf(seq![s[0]] + rest[0]));
            assert forall|i: int| 0 <= i < tokens_of(s).len() implies token_wf(
                #[trigger] tokens_of(s)[i],
            ) by {
                if i != 0 {
                    assert(tokens_of(s)[i] == rest[i]);
                }
            }
        } else {
            assert(token_wf(seq![s[0]]));
            assert forall|i: int| 0 <= i < tokens_of(s).len() implies token_wf(
                #[trigger] tokens_of(s)[i],
            ) by {
                if i != 0 {
                    assert(tokens_of(s)[i] == rest[i - 1]);
                }
            }
        }
    }
}

/// A line that starts with a non-delimiter character has at least one token.
proof fn lemma_tokens_first_run(s: Seq<char>)
    requires
        s.len() > 0,
        !is_delim(s[0]),
    ensures
        tokens_of(s).len() > 0,
    decreases s.len(),
{
    if s.len() >= 2 && !is_delim(s[1]) {
        assert(s.drop_first()[0] == s[1]);
        lemma_tokens_first_run(s.drop_first());
    }
}

/// Tokenizing a line that starts with a run of `k` non-delimiter characters,
/// ended by a delimiter or by the end of the line, yields that run as the
/// first token, followed by the tokens of the remainder.
proof fn lemma_tokens_run(s: Seq<char>, k: int)
    requires
        1 <= k <= s.len(),
        forall|j: int| 0 <= j < k ==> !is_delim(s[j]),
        k == s.len() || is_delim(s[k]),
    ensures
        tokens_of(s) == seq![s.subrange(0, k)] + tokens_of(s.subrange(k, s.len() as int)),
    decreases k,
{
    let rest = tokens_of(s.drop_first());
    let tail = s.drop_first();
    if k == 1 {
        if s.len() == 1 {
            assert(tokens_of(s) == seq![seq![s[0]]] + tokens_of(tail));
            assert(tail.len() == 0);
            assert(s.subrange(0, 1) =~= seq![s[0]]);
            assert(s.subrange(1, s.len() as int) =~= tail);
        } else {
            assert(is_delim(s[1]));
            assert(tokens_of(s) == seq![seq![s[0]]] + rest);
            assert(s.subrange(0, 1) =~= seq![s[0]]);
            assert(s.subrange(1, s.len() as int) =~= tail);
        }
    } else {
        assert(tail[0] == s[1]);
        assert(!is_delim(s[1]));
        assert(forall|j: int| 0 <= j < k - 1 ==> tail[j] == s[j + 1]);
        assert(k - 1 == tail.len() || is_delim(tail[k - 1]));
        lemma_tokens_run(tail, k - 1);
        assert(tokens_of(tail) == seq![tail.subrange(0, k - 1)] + tokens_of(
            tail.subrange(k - 1, tail.len() as int),
        ));
        assert(tokens_of(tail).len() > 0);
        assert(tokens_of(s) == tokens_of(tail).update(0, seq![s[0]] + tokens_of(tail)[0]));
        assert(tokens_of(tail)[0] == tail.subrange(0, k - 1));
        assert(seq![s[0]] + tail.subrange(0, k - 1) =~= s.subrange(0, k));
        assert(tail.subrange(k - 1, tail.len() as int) =~= s.subrange(k, s.len() as int));
        assert(tokens_of(s) =~= seq![s.subrange(0, k)] + tokens_of(
            s.subrange(k, s.len() as int),
        ));
    }
}

/// The given tokens rejoined into one line, with a single space between
/// consecutive tokens.
pub open spec fn join_spaces(ts: Seq<Seq<char>>) -> Seq<char>
    decreases ts.len(),
{
    if ts.len() == 0 {
        Seq::<char>::empty()
    } else if ts.len() == 1 {
        ts[0]
    } else {
        ts[0] + seq![' '] + join_spaces(ts.drop_first())
    }
}

/// Joining well-formed tokens with single spaces and tokenizing the result
/// gives the tokens back.
proof fn lemma_tokens_of_join(ts: Seq<Seq<char>>)
    requires
        forall|i: int| 0 <= i < ts.len() ==> token_wf(#[trigger] ts[i]),
    ensures
        tokens_of(join_spaces(ts)) == ts,
    decreases ts.len(),
{
    if ts.len() == 0 {
        assert(ts =~= Seq::<Seq<char>>::empty());
    } else if ts.len() == 1 {
        let t = ts[0];
        assert(token_wf(t));
        lemma_tokens_run(t, t.len() as int);
        assert(t.subrange(0, t.len() as int) =~= t);
        assert(t.subrange(t.len() as int, t.len() as int) =~= Seq::<char>::empty());
        assert(tokens_of(t) =~= seq![t]);
        assert(ts =~= seq![t]);
    } else {
        let t = ts[0];
        assert(token_wf(t));
        let u = join_spaces(ts);
        let restj = join_spaces(ts.drop_first());
        let k = t.len() as int;
        assert(forall|m: int| 0 <= m < k ==> u[m] == t[m]);
        assert(u[k] == ' ');
        lemma_tokens_run(u, k);
        assert(u.subrange(0, k) =~= t);
        let v = u.subrange(k, u.len() as int);
        assert(v[0] == ' ');
        assert(v.drop_first() =~= restj);
        lemma_tokens_of_join(ts.drop_first());
        assert(tokens_of(u) =~= seq![t] + ts.drop_first());
        assert(seq![t] + ts.drop_first() =~= ts);
    }
}

/// Re-joining the tokens of any line with single spaces and tokenizing
/// the joined line again yields the same token sequence.
pub proof fn lemma_retokenize(s: Seq<char>)
    ensures
        tokens_of(join_spaces(tokens_of(s))) == tokens_of(s),
{
    lemma_tokens_wf(s);
    lemma_tokens_of_join(tokens_of(s));
}

fn is_delim_char(c: char) -> (r: bool)
    ensures
        r == is_delim(c),
{
    c == ' ' || c == '\t' || c == '\n' || c == '\r'
}

/// Splits a line into its whitespace-delimited tokens: delimiter runs are
/// collapsed, no token is empty, and left-to-right order is preserved.
pub fn lsh_split_line(line: String) -> (tokens: Vec<String>)
    ensures
        tokens.deep_view() == tokens_of(line@),
{
    let s: &str = line.as_str();
    let n: usize = s.unicode_len();
    let mut tokens: Vec<String> = Vec::new();
    let mut i: usize = 0;
    proof {
        assert(line@.subrange(0, n as int) =~= line@);
        assert(tokens.deep_view() =~= Seq::<Seq<char>>::empty());
    }
    while i < n
        invariant
            s@ == line@,
            n == line@.len(),
            i <= n,
            tokens_of(line@) == tokens.deep_view() + tokens_of(
                line@.subrange(i as int, n as int),
            ),
        decreases n - i,
    {
        let c = s.get_char(i);
        if is_delim_char(c) {
            proof {
                let sub = line@.subrange(i as int, n as int);
                assert(sub[0] == line@[i as int]);
                assert(sub.drop_first() =~= line@.subrange(i as int + 1, n as int));
            }
            i = i + 1;
        } else {
            let start = i;
            let mut j = i + 1;
            while j < n
                invariant
                    s@ == line@,
                    n == line@.len(),
                    start < j <= n,
                    forall|m: int| start <= m < j ==> !is_delim(line@[m]),
                ensures
                    start < j <= n,
                    forall|m: int| start <= m < j ==> !is_delim(line@[m]),
                    j == n || is_delim(line@[j as int]),
                decreases n - j,
            {
                let cj = s.get_char(j);
                if is_delim_char(cj) {
                    break;
                }
                j = j + 1;
            }
            proof {
                let sub = line@.subrange(start as int, n as int);
                let k = j - start;
                assert(forall|m: int| 0 <= m < k ==> sub[m] == line@[start + m]);
                lemma_tokens_run(sub, k as int);
                assert(sub.subrange(0, k as int) =~= line@.subrange(start as int, j as int));
                assert(sub.subrange(k as int, sub.len() as int) =~= line@.subrange(
                    j as int,
                    n as int,
                ));
            }
            let ghost prior = tokens.deep_view();
            let tok: &str = s.substring_char(start, j);
            tokens.push(String::from_str(tok));
            proof {
                assert(tokens.deep_view() =~= prior + seq![line@.subrange(start as int, j as int)]);
                assert(tokens.deep_view() + tokens_of(line@.subrange(j as int, n as int)) =~= prior
                    + tokens_of(line@.subrange(start as int, n as int)));
            }
            i = j;
        }
    }
    proof {
        assert(tokens_of(line@.subrange(n as int, n as int)) =~= Seq::<Seq<char>>::empty());
        assert(tokens.deep_view() + Seq::<Seq<char>>::empty() =~= tokens.deep_view());
    }
    tokens
}

} // verus!
