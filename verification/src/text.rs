//! Character-level helpers on strings.

use vstd::prelude::*;
use vstd::std_specs::iter::IteratorSpec;

verus! {

/// The text of an optional string.
pub open spec fn text_of(s: Option<String>) -> Option<Seq<char>> {
    match s {
        Some(s) => Some(s@),
        None => None,
    }
}

/// The number of characters of `s` that come before its first `/`, or
/// the length of `s` where it holds none.
pub open spec fn word_len(s: Seq<char>) -> nat
    decreases s.len(),
{
    if s.len() == 0 || s[0] == '/' {
        0
    } else {
        1 + word_len(s.skip(1))
    }
}

/// `word_len` is the first position that ends a word.
pub proof fn lemma_word_len(s: Seq<char>, n: int)
    requires
        0 <= n <= s.len(),
        forall|j: int| 0 <= j < n ==> s[j] != '/',
        n == s.len() || s[n] == '/',
    ensures
        word_len(s) == n,
    decreases n,
{
    if n > 0 {
        let tail = s.skip(1);
        assert forall|j: int| 0 <= j < n - 1 implies tail[j] != '/' by {
            assert(tail[j] == s[j + 1]);
        }
        lemma_word_len(tail, n - 1);
    }
}

/// A word is free of `/` and stops at one, or at the end.
pub proof fn lemma_word_len_bounds(s: Seq<char>)
    ensures
        word_len(s) <= s.len(),
        forall|j: int| 0 <= j < word_len(s) ==> s[j] != '/',
        word_len(s) == s.len() || s[word_len(s) as int] == '/',
    decreases s.len(),
{
    if s.len() != 0 && s[0] != '/' {
        let tail = s.skip(1);
        lemma_word_len_bounds(tail);
        assert forall|j: int| 0 <= j < word_len(s) implies s[j] != '/' by {
            if j > 0 {
                assert(tail[j - 1] == s[j]);
            }
        }
        if word_len(s) != s.len() {
            assert(tail[word_len(tail) as int] == s[word_len(s) as int]);
        }
    }
}

/// The characters of `s`, in order.
pub fn chars_of(s: &str) -> (v: Vec<char>)
    ensures
        v@ == s@,
{
    let mut v: Vec<char> = Vec::new();
    for c in it: s.chars()
        invariant
            v@ == it.seq().take(it.index() as int),
    {
        v.push(c);
    }
    v
}

/// The end of the word that starts at `start`: the position of the next
/// `/`, or the length of `chars`.
pub(crate) fn word_end(chars: &Vec<char>, start: usize) -> (end: usize)
    requires
        start <= chars.len(),
    ensures
        start <= end <= chars.len(),
        end - start == word_len(chars@.skip(start as int)),
{
    let mut end: usize = start;
    while end < chars.len() && chars[end] != '/'
        invariant
            start <= end <= chars.len(),
            forall|j: int| start <= j < end ==> chars@[j] != '/',
        decreases chars.len() - end,
    {
        end += 1;
    }
    proof {
        lemma_word_len(chars@.skip(start as int), end - start);
    }
    end
}

/// Whether the characters of `chars` from `start` up to `end` spell `word`.
pub(crate) fn spells(chars: &Vec<char>, start: usize, end: usize, word: &Vec<char>) -> (same: bool)
    requires
        start <= end <= chars.len(),
    ensures
        same == (chars@.subrange(start as int, end as int) == word@),
{
    let ghost part = chars@.subrange(start as int, end as int);
    if end - start != word.len() {
        return false;
    }
    let mut i: usize = 0;
    while i < word.len()
        invariant
            start <= end <= chars.len(),
            end - start == word.len(),
            i <= word.len(),
            part == chars@.subrange(start as int, end as int),
            forall|j: int| 0 <= j < i ==> part[j] == word@[j],
        decreases word.len() - i,
    {
        if chars[start + i] != word[i] {
            assert(part[i as int] != word@[i as int]);
            return false;
        }
        i += 1;
    }
    assert(part =~= word@);
    true
}

/// A copy of the characters of `chars` from `start` up to `end`.
pub(crate) fn copy_range(chars: &Vec<char>, start: usize, end: usize) -> (part: Vec<char>)
    requires
        start <= end <= chars.len(),
    ensures
        part@ == chars@.subrange(start as int, end as int),
{
    let mut part: Vec<char> = Vec::new();
    let mut i: usize = start;
    while i < end
        invariant
            start <= i <= end <= chars.len(),
            part@ == chars@.subrange(start as int, i as int),
        decreases end - i,
    {
        part.push(chars[i]);
        i += 1;
        assert(part@ =~= chars@.subrange(start as int, i as int));
    }
    part
}

} // verus!
