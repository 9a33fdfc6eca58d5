//! The word source: one line of a word list, picked at random and trimmed
//! of the white space around it.

use vstd::prelude::*;
use vstd::string::StrSliceExecFns;
use rand::rngs::ThreadRng;
use rand::seq::SliceRandom;
use crate::text::white_space;

verus! {

/// `s` without the white space it starts with.
pub open spec fn trim_start(s: Seq<char>) -> Seq<char>
    decreases s.len(),
{
    if s.len() > 0 && white_space(s.first()) {
        trim_start(s.drop_first())
    } else {
        s
    }
}

/// `s` without the white space it ends with.
pub open spec fn trim_end(s: Seq<char>) -> Seq<char>
    decreases s.len(),
{
    if s.len() > 0 && white_space(s.last()) {
        trim_end(s.drop_last())
    } else {
        s
    }
}

/// `s` without the white space at either end. White space inside stays.
pub open spec fn trimmed(s: Seq<char>) -> Seq<char> {
    trim_end(trim_start(s))
}

/// Everything of `s` from `from` up to `to` is white space.
pub open spec fn blank_between(s: Seq<char>, from: int, to: int) -> bool {
    forall|k: int| from <= k < to ==> white_space(#[trigger] s[k])
}

/// If `s` is blank up to `from`, and `from` is its end or holds something
/// else than white space, then trimming its start leaves what begins at
/// `from`.
proof fn lemma_trim_start(s: Seq<char>, from: int)
    requires
        0 <= from <= s.len(),
        blank_between(s, 0, from),
        from < s.len() ==> !white_space(s[from]),
    ensures
        trim_start(s) == s.subrange(from, s.len() as int),
    decreases from,
{
    if from == 0 {
        assert(s.subrange(0, s.len() as int) =~= s);
    } else {
        let rest = s.drop_first();
        assert(white_space(s[0]));
        assert forall|k: int| 0 <= k < from - 1 implies white_space(#[trigger] rest[k]) by {
            assert(rest[k] == s[k + 1]);
        }
        lemma_trim_start(rest, from - 1);
        assert(rest.subrange(from - 1, rest.len() as int) =~= s.subrange(from, s.len() as int));
    }
}

/// If `s` is blank from `to` on, and `to` is its start or follows something
/// else than white space, then trimming its end leaves what ends at `to`.
proof fn lemma_trim_end(s: Seq<char>, to: int)
    requires
        0 <= to <= s.len(),
        blank_between(s, to, s.len() as int),
        to > 0 ==> !white_space(s[to - 1]),
    ensures
        trim_end(s) == s.subrange(0, to),
    decreases s.len() - to,
{
    if to == s.len() {
        assert(s.subrange(0, s.len() as int) =~= s);
    } else {
        let rest = s.drop_last();
        assert(white_space(s[s.len() - 1]));
        assert forall|k: int| to <= k < rest.len() implies white_space(#[trigger] rest[k]) by {
            assert(rest[k] == s[k]);
        }
        lemma_trim_end(rest, to);
        assert(rest.subrange(0, to) =~= s.subrange(0, to));
    }
}

/// What trimming comes to: the stretch of `s` from its first character
/// that is not white space to its last, given where those are. Where `s`
/// is blank throughout, `from` and `to` are both 0 and nothing is left.
pub proof fn lemma_trimmed(s: Seq<char>, from: int, to: int)
    requires
        0 <= from <= to <= s.len(),
        blank_between(s, 0, from),
        blank_between(s, to, s.len() as int),
        from < to ==> !white_space(s[from]) && !white_space(s[to - 1]),
        from == to ==> from == 0 && blank_between(s, 0, s.len() as int),
    ensures
        trimmed(s) == s.subrange(from, to),
{
    if from < to {
        lemma_trim_start(s, from);
        let tail = s.subrange(from, s.len() as int);
        assert forall|k: int| to - from <= k < tail.len() implies white_space(
            #[trigger] tail[k],
        ) by {
            assert(tail[k] == s[from + k]);
        }
        assert(tail[to - from - 1] == s[to - 1]);
        lemma_trim_end(tail, to - from);
        assert(tail.subrange(0, to - from) =~= s.subrange(from, to));
    } else {
        lemma_trim_start(s, s.len() as int);
        let tail = s.subrange(s.len() as int, s.len() as int);
        lemma_trim_end(tail, 0);
        assert(tail.subrange(0, 0) =~= s.subrange(from, to));
    }
}

/// Where the white space that `s` starts with ends: everything before is
/// white space, and what stands there, if anything does, is not.
proof fn lemma_first_solid(s: Seq<char>) -> (from: int)
    ensures
        0 <= from <= s.len(),
        blank_between(s, 0, from),
        from < s.len() ==> !white_space(s[from]),
    decreases s.len(),
{
    if s.len() > 0 && white_space(s.first()) {
        let rest = s.drop_first();
        let inner: int = lemma_first_solid(rest);
        assert forall|k: int| 0 <= k < inner + 1 implies white_space(#[trigger] s[k]) by {
            if k > 0 {
                assert(s[k] == rest[k - 1]);
            }
        }
        if inner < rest.len() {
            assert(s[inner + 1] == rest[inner]);
        }
        inner + 1
    } else {
        0
    }
}

/// Where the white space that `s` ends with begins: everything from there
/// on is white space, and what stands just before, if anything does, is
/// not.
proof fn lemma_last_solid(s: Seq<char>) -> (to: int)
    ensures
        0 <= to <= s.len(),
        blank_between(s, to, s.len() as int),
        to > 0 ==> !white_space(s[to - 1]),
    decreases s.len(),
{
    if s.len() > 0 && white_space(s.last()) {
        let rest = s.drop_last();
        let inner: int = lemma_last_solid(rest);
        assert forall|k: int| inner <= k < s.len() implies white_space(#[trigger] s[k]) by {
            if k < rest.len() {
                assert(s[k] == rest[k]);
            }
        }
        if inner > 0 {
            assert(s[inner - 1] == rest[inner - 1]);
        }
        inner
    } else {
        s.len() as int
    }
}

/// Trimming cuts `s` in three: white space, the trimmed text, white space.
/// The trimmed text neither starts nor ends with white space. The result
/// says where the cuts are.
pub proof fn lemma_trimmed_is_cut(s: Seq<char>) -> (cut: (int, int))
    ensures
        0 <= cut.0 <= cut.1 <= s.len(),
        trimmed(s) == s.subrange(cut.0, cut.1),
        blank_between(s, 0, cut.0),
        blank_between(s, cut.1, s.len() as int),
        trimmed(s).len() > 0 ==> !white_space(trimmed(s).first()) && !white_space(
            trimmed(s).last(),
        ),
{
    let from: int = lemma_first_solid(s);
    let to: int = lemma_last_solid(s);
    if from < s.len() {
        assert(from < to) by {
            if to <= from {
                assert(white_space(s[from]));
            }
        }
        lemma_trimmed(s, from, to);
        (from, to)
    } else {
        lemma_trimmed(s, 0, 0);
        (0, 0)
    }
}

/// The line without the white space at either end.
pub fn trim(line: &str) -> (word: &str)
    ensures
        word@ == trimmed(line@),
{
    let length: usize = line.unicode_len();
    let mut found = false;
    let mut from: usize = 0;
    let mut to: usize = 0;
    let mut i: usize = 0;
    for c in it: line.chars()
        invariant
            it.seq() == line@,
            length == line@.len(),
            i == it.index(),
            from <= to <= i,
            blank_between(line@, 0, from as int),
            blank_between(line@, to as int, i as int),
            found ==> from < to && !white_space(line@[from as int]) && !white_space(
                line@[to - 1],
            ),
            !found ==> from == 0 && to == 0,
    {
        if !c.is_whitespace() {
            if !found {
                from = i;
                found = true;
            }
            to = i + 1;
        }
        i += 1;
    }
    proof {
        lemma_trimmed(line@, from as int, to as int);
    }
    line.substring_char(from, to)
}

/// `rand::rngs::ThreadRng`, the handle that `rand::thread_rng` returns,
/// as a value that is only passed on: nothing inside it is looked at.
#[verifier::external_type_specification]
#[verifier::external_body]
pub struct ExThreadRng(ThreadRng);

/// `rand::thread_rng`: a handle to the calling thread's random number
/// generator. Nothing is claimed of it. The generator seeds itself from the
/// operating system when a thread first asks for it, and panics if the
/// system has no entropy to give; no argument decides that, so no
/// `requires` can rule it out.
pub assume_specification[ rand::thread_rng ]() -> (rng: ThreadRng)
;

/// `rand::seq::SliceRandom::choose` on a slice: nothing if the slice is
/// empty, else one of its items. Which one depends on `rng`, so nothing is
/// claimed of that.
#[verifier::external_body]
fn choose_from<'a>(lines: &'a [String], rng: &mut ThreadRng) -> (picked: Option<&'a String>)
    ensures
        picked is None <==> lines@.len() == 0,
        picked matches Some(line) ==> exists|i: int| 0 <= i < lines@.len() && lines@[i] == *line,
{
    lines.choose(rng)
}

/// A word for the session: one of `lines`, picked at random and trimmed.
/// There is none only if there are no lines. A blank line is a line like
/// any other and gives the empty word.
pub fn choose_word<'a>(lines: &'a [String]) -> (word: Option<&'a str>)
    ensures
        word is None <==> lines@.len() == 0,
        word matches Some(w) ==> exists|i: int|
            0 <= i < lines@.len() && w@ == trimmed(#[trigger] lines@[i]@),
{
    let mut rng = rand::thread_rng();
    match choose_from(lines, &mut rng) {
        Some(line) => Some(trim(line.as_str())),
        None => None,
    }
}

} // verus!
