//! Splitting an attribute value into whitespace-separated tokens.
use vstd::prelude::*;

use crate::text::{chars_of, is_whitespace, white_space};

verus! {

/// How many characters `s` begins with before its first whitespace.
pub open spec fn word_len(s: Seq<char>) -> nat
    decreases s.len(),
{
    if s.len() == 0 || white_space(s[0]) {
        0
    } else {
        1 + word_len(s.drop_first())
    }
}

/// The maximal runs of non-whitespace characters of `s`, in order.
pub open spec fn tokens(s: Seq<char>) -> Seq<Seq<char>>
    decreases s.len(),
    via tokens_decreases
{
    if s.len() == 0 {
        Seq::empty()
    } else if white_space(s[0]) {
        tokens(s.drop_first())
    } else {
        let k = word_len(s);
        seq![s.take(k as int)] + tokens(s.skip(k as int))
    }
}

#[via_fn]
proof fn tokens_decreases(s: Seq<char>) {
    lemma_word_len_bound(s);
}

proof fn lemma_word_len_bound(s: Seq<char>)
    ensures
        word_len(s) <= s.len(),
        s.len() > 0 && !white_space(s[0]) ==> word_len(s) > 0,
    decreases s.len(),
{
    if s.len() > 0 && !white_space(s[0]) {
        lemma_word_len_bound(s.drop_first());
    }
}

/// A run of non-whitespace characters from `i` to `j`, ended by whitespace or
/// by the end of `s`, is the word that begins at `i`.
proof fn lemma_word_len(s: Seq<char>, i: int, j: int)
    requires
        0 <= i <= j <= s.len(),
        forall|k: int| i <= k < j ==> !white_space(#[trigger] s[k]),
        j == s.len() || white_space(s[j]),
    ensures
        word_len(s.skip(i)) == j - i,
    decreases j - i,
{
    if i < j {
        assert(s.skip(i).drop_first() =~= s.skip(i + 1));
        lemma_word_len(s, i + 1, j);
    }
}

/// One step of a left-to-right split: what remains after position `i`
/// splits into the word there and what follows it.
proof fn lemma_tokens_word(s: Seq<char>, i: int, j: int)
    requires
        0 <= i < j <= s.len(),
        forall|k: int| i <= k < j ==> !white_space(#[trigger] s[k]),
        j == s.len() || white_space(s[j]),
    ensures
        tokens(s.skip(i)) == seq![s.subrange(i, j)] + tokens(s.skip(j)),
{
    lemma_word_len(s, i, j);
    assert(s.skip(i).take(j - i) =~= s.subrange(i, j));
    assert(s.skip(i).skip(j - i) =~= s.skip(j));
}

proof fn lemma_tokens_space(s: Seq<char>, i: int)
    requires
        0 <= i < s.len(),
        white_space(s[i]),
    ensures
        tokens(s.skip(i)) == tokens(s.skip(i + 1)),
{
    assert(s.skip(i).drop_first() =~= s.skip(i + 1));
}

/// A non-empty run without whitespace is one token.
pub proof fn lemma_tokens_of_word(s: Seq<char>)
    requires
        s.len() > 0,
        forall|k: int| 0 <= k < s.len() ==> !white_space(#[trigger] s[k]),
    ensures
        tokens(s) == seq![s],
{
    lemma_tokens_word(s, 0, s.len() as int);
    assert(s.skip(0) =~= s);
    assert(s.subrange(0, s.len() as int) =~= s);
    assert(s.skip(s.len() as int) =~= Seq::<char>::empty());
    assert(tokens(s) =~= seq![s]);
}

/// The tokens of `text`, as slices of it.
pub fn split_tokens<'a>(text: &'a str) -> (r: Vec<&'a str>)
    ensures
        r@.map_values(|t: &'a str| t@) == tokens(text@),
{
    let chars = chars_of(text);
    let n = chars.len();
    let mut out: Vec<&'a str> = Vec::new();
    let mut i: usize = 0;
    assert(text@.skip(0) =~= text@);
    assert(out@.map_values(|t: &'a str| t@) =~= Seq::empty());
    while i < n
        invariant
            chars@ == text@,
            n == chars.len(),
            i <= n,
            out@.map_values(|t: &'a str| t@) + tokens(text@.skip(i as int)) == tokens(text@),
        decreases n - i,
    {
        if is_whitespace(chars[i]) {
            proof {
                lemma_tokens_space(text@, i as int);
            }
            i = i + 1;
        } else {
            let start = i;
            while i < n && !is_whitespace(chars[i])
                invariant
                    chars@ == text@,
                    n == chars.len(),
                    start <= i <= n,
                    forall|k: int| start <= k < i ==> !white_space(#[trigger] text@[k]),
                decreases n - i,
            {
                i = i + 1;
            }
            proof {
                lemma_tokens_word(text@, start as int, i as int);
            }
            let t = text.substring_char(start, i);
            let ghost before = out@;
            out.push(t);
            assert(out@.map_values(|t: &'a str| t@) =~= before.map_values(|t: &'a str| t@).push(
                t@,
            ));
            assert(out@.map_values(|t: &'a str| t@) + tokens(text@.skip(i as int))
                =~= before.map_values(|t: &'a str| t@) + tokens(text@.skip(start as int)));
        }
    }
    assert(text@.skip(n as int) =~= Seq::<char>::empty());
    assert(out@.map_values(|t: &'a str| t@) =~= tokens(text@));
    out
}

} // verus!
