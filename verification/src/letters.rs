//! Membership of letters in the secret word and in the record of guesses.
//!
//! Everything here compares characters exactly as they are: no case folding,
//! so `'A'` never stands for `'a'`.

use vstd::prelude::*;

verus! {

/// Every character of `word` occurs somewhere in `guessed`.
pub open spec fn all_revealed(word: Seq<char>, guessed: Seq<char>) -> bool {
    forall|i: int| 0 <= i < word.len() ==> guessed.contains(#[trigger] word[i])
}

/// The test that tells a wrong guess from a right one: `c` is not in `word`.
pub open spec fn absent_from(word: Seq<char>) -> spec_fn(char) -> bool {
    |c: char| !word.contains(c)
}

/// The wrong guesses among `guesses`, in the order they were made, repeats
/// included.
pub open spec fn misses(word: Seq<char>, guesses: Seq<char>) -> Seq<char> {
    guesses.filter(absent_from(word))
}

/// How many of `guesses` are not in `word`; a letter guessed wrongly twice
/// counts twice.
pub open spec fn miss_count(word: Seq<char>, guesses: Seq<char>) -> nat {
    misses(word, guesses).len()
}

/// No guesses, no misses.
pub proof fn lemma_miss_count_empty(word: Seq<char>)
    ensures
        miss_count(word, Seq::<char>::empty()) == 0,
{
    reveal(Seq::filter);
}

/// One more guess adds one miss if the letter is not in the word, and none
/// if it is.
pub proof fn lemma_miss_count_push(word: Seq<char>, guesses: Seq<char>, c: char)
    ensures
        miss_count(word, guesses.push(c)) == miss_count(word, guesses) + if word.contains(c) {
            0nat
        } else {
            1nat
        },
{
    reveal(Seq::filter);
    assert(guesses.push(c).drop_last() =~= guesses);
}

/// There are never more misses than guesses.
pub proof fn lemma_miss_count_bound(word: Seq<char>, guesses: Seq<char>)
    ensures
        miss_count(word, guesses) <= guesses.len(),
{
    guesses.lemma_filter_len(absent_from(word));
}

/// Whether `c` occurs somewhere in `word`.
pub fn word_contains(word: &str, c: char) -> (found: bool)
    ensures
        found == word@.contains(c),
{
    let mut found = false;
    for ch in it: word.chars()
        invariant
            it.seq() == word@,
            found == exists|j: int| 0 <= j < it.index() && word@[j] == c,
    {
        if ch == c {
            found = true;
        }
    }
    found
}

/// Whether `c` has been guessed, however often.
pub fn is_guessed(guessed_letters: &[char], c: char) -> (found: bool)
    ensures
        found == guessed_letters@.contains(c),
{
    let mut found = false;
    let mut i: usize = 0;
    while i < guessed_letters.len()
        invariant
            i <= guessed_letters@.len(),
            found == exists|j: int| 0 <= j < i && guessed_letters@[j] == c,
        decreases guessed_letters@.len() - i,
    {
        if guessed_letters[i] == c {
            found = true;
        }
        i += 1;
    }
    found
}

/// Whether every character of `word` has been guessed. An empty word has
/// nothing left to guess.
pub fn all_guessed(word: &str, guessed_letters: &[char]) -> (done: bool)
    ensures
        done == all_revealed(word@, guessed_letters@),
{
    let mut done = true;
    for ch in it: word.chars()
        invariant
            it.seq() == word@,
            done == forall|j: int| 0 <= j < it.index() ==> guessed_letters@.contains(#[trigger] word@[j]),
    {
        if !is_guessed(guessed_letters, ch) {
            done = false;
        }
    }
    done
}

} // verus!
