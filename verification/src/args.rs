//! Whitespace splitting of trailing pass-through arguments.
//!
//! A delegating mode receives raw trailing tokens from the command line and
//! forwards them to the external tool, split on whitespace with empty pieces
//! dropped.

use vstd::prelude::*;
use vstd::string::StrSliceExecFns;

verus! {

/// A whitespace character: the Unicode `White_Space` set.
pub open spec fn is_ws_char(c: char) -> bool {
    let u = c as u32;
    u == 0x09 || u == 0x0A || u == 0x0B || u == 0x0C || u == 0x0D || u == 0x20 || u == 0x85
        || u == 0xA0 || u == 0x1680 || (0x2000 <= u && u <= 0x200A) || u == 0x2028 || u == 0x2029
        || u == 0x202F || u == 0x205F || u == 0x3000
}

/// Runtime test for [`is_ws_char`].
pub fn ws_char(c: char) -> (b: bool)
    ensures
        b == is_ws_char(c),
{
    let u = c as u32;
    u == 0x09 || u == 0x0A || u == 0x0B || u == 0x0C || u == 0x0D || u == 0x20 || u == 0x85
        || u == 0xA0 || u == 0x1680 || (0x2000 <= u && u <= 0x200A) || u == 0x2028 || u == 0x2029
        || u == 0x202F || u == 0x205F || u == 0x3000
}

/// One splitting step: fold state is the finished words plus the word in
/// progress; a whitespace character finishes the current word (if any), any
/// other character extends it.
pub open spec fn split_step(acc: (Seq<Seq<char>>, Seq<char>), c: char) -> (Seq<Seq<char>>, Seq<char>) {
    if is_ws_char(c) {
        if acc.1.len() == 0 {
            acc
        } else {
            (acc.0.push(acc.1), Seq::<char>::empty())
        }
    } else {
        (acc.0, acc.1.push(c))
    }
}

/// Folds [`split_step`] over the characters of `s`, left to right.
pub open spec fn split_fold(s: Seq<char>) -> (Seq<Seq<char>>, Seq<char>)
    decreases s.len(),
{
    if s.len() == 0 {
        (Seq::<Seq<char>>::empty(), Seq::<char>::empty())
    } else {
        split_step(split_fold(s.drop_last()), s.last())
    }
}

/// The maximal whitespace-free runs of `s`, in order, empties dropped.
pub open spec fn split_ws(s: Seq<char>) -> Seq<Seq<char>> {
    let (done, cur) = split_fold(s);
    if cur.len() == 0 {
        done
    } else {
        done.push(cur)
    }
}

/// Splitting of a whole token list: the words of each token, concatenated in
/// token order.
pub open spec fn split_all(tokens: Seq<Seq<char>>) -> Seq<Seq<char>>
    decreases tokens.len(),
{
    if tokens.len() == 0 {
        Seq::<Seq<char>>::empty()
    } else {
        split_all(tokens.drop_last()) + split_ws(tokens.last())
    }
}

/// A well-formed word: nonempty and free of whitespace.
pub open spec fn word_ok(w: Seq<char>) -> bool {
    w.len() > 0 && forall|j: int| 0 <= j < w.len() ==> !is_ws_char(w[j])
}

/// Helper: every finished word of the fold is well formed, and the word in
/// progress is free of whitespace.
proof fn lemma_split_fold_words(s: Seq<char>)
    ensures
        forall|i: int|
            0 <= i < split_fold(s).0.len() ==> word_ok(#[trigger] split_fold(s).0[i]),
        forall|j: int| 0 <= j < split_fold(s).1.len() ==> !is_ws_char(split_fold(s).1[j]),
    decreases s.len(),
{
    if s.len() > 0 {
        lemma_split_fold_words(s.drop_last());
        let prev = split_fold(s.drop_last());
        let c = s.last();
        assert forall|i: int|
            0 <= i < split_fold(s).0.len() implies word_ok(#[trigger] split_fold(s).0[i]) by {
            if is_ws_char(c) && prev.1.len() > 0 {
                if i < prev.0.len() {
                    assert(split_fold(s).0[i] == prev.0[i]);
                } else {
                    assert(split_fold(s).0[i] == prev.1);
                }
            } else {
                assert(split_fold(s).0[i] == prev.0[i]);
            }
        }
        assert forall|j: int|
            0 <= j < split_fold(s).1.len() implies !is_ws_char(split_fold(s).1[j]) by {
            if !is_ws_char(c) && j == prev.1.len() {
                assert(split_fold(s).1[j] == c);
            }
        }
    }
}

/// What splitting yields is exactly words: nothing empty and nothing that
/// still holds whitespace survives the split.
pub proof fn lemma_split_yields_words(s: Seq<char>)
    ensures
        forall|i: int| 0 <= i < split_ws(s).len() ==> word_ok(#[trigger] split_ws(s)[i]),
{
    lemma_split_fold_words(s);
    let done = split_fold(s).0;
    let cur = split_fold(s).1;
    assert forall|i: int| 0 <= i < split_ws(s).len() implies word_ok(#[trigger] split_ws(s)[i]) by {
        if cur.len() > 0 && i == done.len() {
            assert(split_ws(s)[i] == cur);
        } else {
            assert(split_ws(s)[i] == done[i]);
        }
    }
}

/// The same, over a whole token list.
pub proof fn lemma_split_all_yields_words(tokens: Seq<Seq<char>>)
    ensures
        forall|i: int|
            0 <= i < split_all(tokens).len() ==> word_ok(#[trigger] split_all(tokens)[i]),
    decreases tokens.len(),
{
    if tokens.len() > 0 {
        lemma_split_all_yields_words(tokens.drop_last());
        lemma_split_yields_words(tokens.last());
        let left = split_all(tokens.drop_last());
        let right = split_ws(tokens.last());
        assert forall|i: int|
            0 <= i < split_all(tokens).len() implies word_ok(#[trigger] split_all(tokens)[i]) by {
            if i < left.len() {
                assert(split_all(tokens)[i] == left[i]);
            } else {
                assert(split_all(tokens)[i] == right[i - left.len()]);
            }
        }
    }
}

/// Splits one raw token on whitespace, dropping empty pieces.
pub fn split_ws_exec(s: &str) -> (words: Vec<String>)
    ensures
        words@.map_values(|w: String| w@) == split_ws(s@),
{
    let n = s.unicode_len();
    let mut words: Vec<String> = Vec::new();
    // Start of the word in progress; `start == i` means no word is open.
    let mut start: usize = 0;
    let mut i: usize = 0;
    while i < n
        invariant
            n == s@.len(),
            start <= i <= n,
            split_fold(s@.take(i as int)) == (
                words@.map_values(|w: String| w@),
                s@.subrange(start as int, i as int),
            ),
            forall|k: int| start <= k < i ==> !is_ws_char(s@[k]),
        decreases n - i,
    {
        let c = s.get_char(i);
        proof {
            assert(s@.take(i + 1).drop_last() =~= s@.take(i as int));
            assert(s@.take(i + 1).last() == s@[i as int]);
        }
        if ws_char(c) {
            if start < i {
                let word = s.substring_char(start, i).to_owned();
                words.push(word);
                proof {
                    assert(words@.map_values(|w: String| w@) =~= words@.drop_last().map_values(
                        |w: String| w@,
                    ).push(s@.subrange(start as int, i as int)));
                }
            }
            start = i + 1;
            proof {
                assert(s@.subrange(start as int, i + 1) =~= Seq::<char>::empty());
            }
        } else {
            proof {
                assert(s@.subrange(start as int, i + 1) =~= s@.subrange(
                    start as int,
                    i as int,
                ).push(s@[i as int]));
            }
        }
        i = i + 1;
    }
    proof {
        assert(s@.take(n as int) =~= s@);
    }
    if start < n {
        let word = s.substring_char(start, n).to_owned();
        words.push(word);
        proof {
            assert(words@.map_values(|w: String| w@) =~= words@.drop_last().map_values(
                |w: String| w@,
            ).push(s@.subrange(start as int, n as int)));
        }
    }
    words
}

/// Splits every raw trailing token on whitespace and concatenates the words,
/// dropping empty pieces.
pub fn split_tail_args(raw: &Vec<String>) -> (args: Vec<String>)
    ensures
        args@.map_values(|w: String| w@) == split_all(raw@.map_values(|t: String| t@)),
{
    let mut args: Vec<String> = Vec::new();
    let mut i: usize = 0;
    while i < raw.len()
        invariant
            i <= raw@.len(),
            args@.map_values(|w: String| w@) == split_all(
                raw@.take(i as int).map_values(|t: String| t@),
            ),
        decreases raw@.len() - i,
    {
        let mut words = split_ws_exec(raw[i].as_str());
        let ghost old_args = args@;
        let mut j: usize = 0;
        while j < words.len()
            invariant
                j <= words@.len(),
                args@ == old_args + words@.take(j as int),
            decreases words@.len() - j,
        {
            let w = words[j].clone();
            args.push(w);
            proof {
                assert(old_args + words@.take(j + 1) =~= (old_args + words@.take(j as int)).push(
                    words@[j as int],
                ));
            }
            j = j + 1;
        }
        proof {
            assert(words@.take(words@.len() as int) =~= words@);
            let mapped = raw@.take(i + 1).map_values(|t: String| t@);
            assert(mapped.drop_last() =~= raw@.take(i as int).map_values(|t: String| t@));
            assert(mapped.last() == raw@[i as int]@);
            assert((old_args + words@).map_values(|w: String| w@) =~= old_args.map_values(
                |w: String| w@,
            ) + words@.map_values(|w: String| w@));
        }
        i = i + 1;
    }
    proof {
        assert(raw@.take(raw@.len() as int) =~= raw@);
    }
    args
}

} // verus!
