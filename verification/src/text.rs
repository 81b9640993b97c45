//! Text handling: UTF-8 decoding of process output and splitting text into
//! whitespace-separated words.

use std::string::FromUtf8Error;
use vstd::prelude::*;
use vstd::utf8::{decode_utf8, valid_utf8};

verus! {

/// The characters with the Unicode `White_Space` property, which is what
/// `char::is_whitespace` tests.
pub open spec fn is_white_space(c: char) -> bool {
    let v = c as u32;
    ||| 0x9 <= v <= 0xd
    ||| v == 0x20
    ||| v == 0x85
    ||| v == 0xa0
    ||| v == 0x1680
    ||| 0x2000 <= v <= 0x200a
    ||| v == 0x2028
    ||| v == 0x2029
    ||| v == 0x202f
    ||| v == 0x205f
    ||| v == 0x3000
}

/// Whether `c` is a Unicode white-space character.
pub fn is_whitespace(c: char) -> (b: bool)
    ensures
        b == is_white_space(c),
{
    let v = c as u32;
    (0x9 <= v && v <= 0xd) || v == 0x20 || v == 0x85 || v == 0xa0 || v == 0x1680 || (0x2000
        <= v && v <= 0x200a) || v == 0x2028 || v == 0x2029 || v == 0x202f || v == 0x205f || v
        == 0x3000
}

/// The maximal runs of non-white-space characters of `s`, in order
/// (what `str::split_whitespace` yields).  A character that is not white
/// space either extends the last word, when the character before it is
/// part of that word, or starts a new one.
pub open spec fn words(s: Seq<char>) -> Seq<Seq<char>>
    decreases s.len(),
{
    if s.len() == 0 {
        seq![]
    } else {
        let before = words(s.drop_last());
        if is_white_space(s.last()) {
            before
        } else if s.len() > 1 && !is_white_space(s[s.len() - 2]) {
            before.drop_last().push(before.last().push(s.last()))
        } else {
            before.push(seq![s.last()])
        }
    }
}

/// The views of a sequence of strings.
pub open spec fn string_views(v: Seq<String>) -> Seq<Seq<char>> {
    v.map_values(|s: String| s@)
}

/// Every word is non-empty and holds no white space; a word ends where the
/// text ends or at a white-space character.
pub proof fn law_words_well_formed(s: Seq<char>)
    ensures
        forall|k: int|
            0 <= k < words(s).len() ==> #[trigger] words(s)[k].len() > 0 && (forall|m: int|
                0 <= m < words(s)[k].len() ==> !is_white_space(words(s)[k][m])),
        s.len() > 0 && !is_white_space(s.last()) ==> words(s).len() > 0,
    decreases s.len(),
{
    if s.len() > 0 {
        law_words_well_formed(s.drop_last());
        let before = words(s.drop_last());
        if !is_white_space(s.last()) && s.len() > 1 && !is_white_space(s[s.len() - 2]) {
            assert(s.drop_last().last() == s[s.len() - 2]);
            let w = words(s);
            assert forall|k: int| 0 <= k < w.len() implies #[trigger] w[k].len() > 0 && (forall|
                m: int,
            |
                0 <= m < w[k].len() ==> !is_white_space(w[k][m])) by {
                if k < w.len() - 1 {
                    assert(w[k] == before[k]);
                } else {
                    assert(w[k] == before.last().push(s.last()));
                    assert(before[before.len() - 1] == before.last());
                }
            }
        } else if !is_white_space(s.last()) {
            let w = words(s);
            assert forall|k: int| 0 <= k < w.len() implies #[trigger] w[k].len() > 0 && (forall|
                m: int,
            |
                0 <= m < w[k].len() ==> !is_white_space(w[k][m])) by {
                if k < w.len() - 1 {
                    assert(w[k] == before[k]);
                } else {
                    assert(w[k] == seq![s.last()]);
                }
            }
        }
    }
}

/// The words `w`, one after another.
pub open spec fn concat_words(w: Seq<Seq<char>>) -> Seq<char>
    decreases w.len(),
{
    if w.len() == 0 {
        seq![]
    } else {
        concat_words(w.drop_last()) + w.last()
    }
}

/// The characters of `s` that are not white space, in order.
pub open spec fn without_white_space(s: Seq<char>) -> Seq<char>
    decreases s.len(),
{
    if s.len() == 0 {
        seq![]
    } else {
        without_white_space(s.drop_last()) + if is_white_space(s.last()) {
            seq![]
        } else {
            seq![s.last()]
        }
    }
}

/// No character is lost or added: the words, one after another, are the
/// text with its white space taken out.
pub proof fn law_words_concatenate(s: Seq<char>)
    ensures
        concat_words(words(s)) == without_white_space(s),
    decreases s.len(),
{
    if s.len() > 0 {
        let front = s.drop_last();
        law_words_concatenate(front);
        law_words_well_formed(front);
        let before = words(front);
        let c = s.last();
        if !is_white_space(c) && s.len() > 1 && !is_white_space(s[s.len() - 2]) {
            assert(front.last() == s[s.len() - 2]);
            let w = before.drop_last().push(before.last().push(c));
            assert(w.drop_last() == before.drop_last());
            assert(concat_words(before) == concat_words(before.drop_last()) + before.last());
            assert(concat_words(w) =~= concat_words(before) + seq![c]);
        } else if !is_white_space(c) {
            let w = before.push(seq![c]);
            assert(w.drop_last() == before);
            assert(concat_words(w) =~= concat_words(before) + seq![c]);
        } else {
            assert(without_white_space(s) =~= without_white_space(front));
        }
    }
}

/// `w` is the run of `s` from `a` to `b`: the characters before and after
/// it (if any) are white space.
pub open spec fn is_run(s: Seq<char>, w: Seq<char>, a: int, b: int) -> bool {
    &&& 0 <= a < b <= s.len()
    &&& w == s.subrange(a, b)
    &&& a == 0 || is_white_space(s[a - 1])
    &&& b == s.len() || is_white_space(s[b])
}

/// `bounds` places the words `w` in `s`: word `k` is the run of `s` from
/// `bounds[k].0` to `bounds[k].1`, the words come in the order of the text,
/// each ending before the next begins, and a text that ends in a character
/// that is not white space ends with its last word.
pub open spec fn placed_runs(s: Seq<char>, w: Seq<Seq<char>>, bounds: Seq<(int, int)>) -> bool {
    &&& bounds.len() == w.len()
    &&& forall|k: int| 0 <= k < bounds.len() ==> is_run(s, w[k], (#[trigger] bounds[k]).0, bounds[k].1)
    &&& forall|k: int| 0 < k < bounds.len() ==> bounds[k - 1].1 < #[trigger] bounds[k].0
    &&& (s.len() > 0 && !is_white_space(s.last())) <==> (bounds.len() > 0 && bounds.last().1
        == s.len())
}

/// Each word is a whole run of the text, as `placed_runs` says, with
/// `bounds` giving where each one starts and ends.
pub proof fn law_words_are_maximal_runs(s: Seq<char>) -> (bounds: Seq<(int, int)>)
    ensures
        placed_runs(s, words(s), bounds),
    decreases s.len(),
{
    if s.len() == 0 {
        return seq![];
    }
    let n = s.len() as int;
    let front = s.drop_last();
    let fb = law_words_are_maximal_runs(front);
    law_words_well_formed(front);
    let c = s.last();
    if is_white_space(c) {
        lemma_runs_after_white_space(s, fb);
        fb
    } else if n > 1 && !is_white_space(s[n - 2]) {
        lemma_runs_extended(s, fb)
    } else {
        lemma_runs_new_word(s, fb)
    }
}

proof fn lemma_run_in_front(s: Seq<char>, w: Seq<char>, a: int, b: int)
    requires
        s.len() > 0,
        is_run(s.drop_last(), w, a, b),
        b < s.len() - 1 || is_white_space(s.last()),
    ensures
        is_run(s, w, a, b),
{
    let front = s.drop_last();
    assert(front.subrange(a, b) =~= s.subrange(a, b));
    if a > 0 {
        assert(s[a - 1] == front[a - 1]);
    }
    if b < s.len() - 1 {
        assert(s[b] == front[b]);
    }
}

proof fn lemma_runs_after_white_space(s: Seq<char>, fb: Seq<(int, int)>)
    requires
        s.len() > 0,
        is_white_space(s.last()),
        placed_runs(s.drop_last(), words(s.drop_last()), fb),
    ensures
        placed_runs(s, words(s), fb),
{
    let w = words(s);
    assert forall|k: int| 0 <= k < fb.len() implies is_run(s, w[k], (#[trigger] fb[k]).0, fb[k].1) by {
        lemma_run_in_front(s, w[k], fb[k].0, fb[k].1);
    }
}

proof fn lemma_bound_before_last(fb: Seq<(int, int)>, k: int)
    requires
        0 <= k < fb.len() - 1,
        forall|j: int| 0 <= j < fb.len() ==> (#[trigger] fb[j]).0 < fb[j].1,
        forall|j: int| 0 < j < fb.len() ==> fb[j - 1].1 < #[trigger] fb[j].0,
    ensures
        fb[k].1 < fb.last().0,
    decreases fb.len() - 1 - k,
{
    if k + 1 < fb.len() - 1 {
        lemma_bound_before_last(fb, k + 1);
        assert(fb[k].1 < fb[k + 1].0);
        assert(fb[k + 1].0 < fb[k + 1].1);
    } else {
        assert(fb[k].1 < fb[k + 1].0);
    }
}

proof fn lemma_runs_extended(s: Seq<char>, fb: Seq<(int, int)>) -> (bounds: Seq<(int, int)>)
    requires
        s.len() > 1,
        !is_white_space(s.last()),
        !is_white_space(s[s.len() - 2]),
        placed_runs(s.drop_last(), words(s.drop_last()), fb),
        words(s.drop_last()).len() > 0,
    ensures
        placed_runs(s, words(s), bounds),
{
    let n = s.len() as int;
    let front = s.drop_last();
    let before = words(front);
    let c = s.last();
    assert(front.last() == s[n - 2]);
    let last = fb.len() - 1;
    let a0 = fb[last].0;
    let b0 = fb[last].1;
    let bounds = fb.update(last, (a0, n));
    let w = words(s);
    assert(w == before.drop_last().push(before.last().push(c)));
    assert forall|j: int| 0 <= j < fb.len() implies (#[trigger] fb[j]).0 < fb[j].1 by {
        assert(is_run(front, before[j], fb[j].0, fb[j].1));
    }
    assert forall|k: int| 0 <= k < bounds.len() implies is_run(s, w[k], (#[trigger] bounds[k]).0, bounds[k].1) by {
        if k < last {
            assert(bounds[k] == fb[k]);
            assert(w[k] == before[k]);
            assert(is_run(front, before[k], fb[k].0, fb[k].1));
            lemma_bound_before_last(fb, k);
            lemma_run_in_front(s, w[k], fb[k].0, fb[k].1);
        } else {
            assert(is_run(front, before[last], a0, b0));
            assert(before.last() == before[last]);
            assert(front.subrange(a0, b0).push(c) =~= s.subrange(a0, n));
            if a0 > 0 {
                assert(s[a0 - 1] == front[a0 - 1]);
            }
        }
    }
    assert forall|k: int| 0 < k < bounds.len() implies bounds[k - 1].1 < #[trigger] bounds[k].0 by {
        assert(fb[k - 1].1 < fb[k].0);
    }
    bounds
}

proof fn lemma_runs_new_word(s: Seq<char>, fb: Seq<(int, int)>) -> (bounds: Seq<(int, int)>)
    requires
        s.len() > 0,
        !is_white_space(s.last()),
        s.len() == 1 || is_white_space(s[s.len() - 2]),
        placed_runs(s.drop_last(), words(s.drop_last()), fb),
    ensures
        placed_runs(s, words(s), bounds),
{
    let n = s.len() as int;
    let front = s.drop_last();
    let before = words(front);
    let c = s.last();
    let bounds = fb.push((n - 1, n));
    let w = words(s);
    if n > 1 {
        assert(front.last() == s[n - 2]);
        assert(s[n - 2] == front[n - 2]);
    } else {
        assert(before.len() == 0);
    }
    assert(w == before.push(seq![c]));
    assert forall|j: int| 0 <= j < fb.len() implies (#[trigger] fb[j]).0 < fb[j].1 by {
        assert(is_run(front, before[j], fb[j].0, fb[j].1));
    }
    assert forall|k: int| 0 <= k < bounds.len() implies is_run(s, w[k], (#[trigger] bounds[k]).0, bounds[k].1) by {
        if k < fb.len() {
            assert(bounds[k] == fb[k]);
            assert(w[k] == before[k]);
            assert(is_run(front, before[k], fb[k].0, fb[k].1));
            if k < fb.len() - 1 {
                lemma_bound_before_last(fb, k);
            }
            assert(fb.last() == fb[fb.len() - 1]);
            lemma_run_in_front(s, w[k], fb[k].0, fb[k].1);
        } else {
            assert(w[k] == seq![c]);
            assert(s.subrange(n - 1, n) =~= seq![c]);
        }
    }
    assert forall|k: int| 0 < k < bounds.len() implies bounds[k - 1].1 < #[trigger] bounds[k].0 by {
        if k < fb.len() {
            assert(fb[k - 1].1 < fb[k].0);
        } else {
            assert(fb.last() == fb[fb.len() - 1]);
        }
    }
    bounds
}

/// Splits `text` into its white-space separated words.
pub fn split_whitespace(text: &str) -> (res: Vec<String>)
    ensures
        string_views(res@) == words(text@),
{
    let n = text.unicode_len();
    let mut acc: Vec<String> = Vec::new();
    let mut start: usize = 0;
    let mut i: usize = 0;
    while i < n
        invariant
            n == text@.len(),
            start <= i <= n,
            start < i ==> !is_white_space(text@[i - 1]),
            start == i && i > 0 ==> is_white_space(text@[i - 1]),
            words(text@.take(i as int)) == string_views(acc@) + (if start < i {
                seq![text@.subrange(start as int, i as int)]
            } else {
                seq![]
            }),
        decreases n - i,
    {
        let c = text.get_char(i);
        let ghost prefix = text@.take(i + 1);
        assert(prefix.drop_last() == text@.take(i as int));
        assert(prefix.last() == c);
        if is_whitespace(c) {
            if start < i {
                let word = String::from_str(text.substring_char(start, i));
                acc.push(word);
                assert(string_views(acc@) == string_views(acc@.drop_last()).push(word@));
            }
            start = i + 1;
        } else {
            if start < i {
                assert(prefix[prefix.len() - 2] == text@[i - 1]);
                assert(text@.subrange(start as int, i as int).push(c) == text@.subrange(
                    start as int,
                    i + 1,
                ));
            } else {
                assert(text@.subrange(start as int, i + 1) == seq![c]);
            }
        }
        i = i + 1;
    }
    if start < n {
        let word = String::from_str(text.substring_char(start, n));
        acc.push(word);
        assert(string_views(acc@) == string_views(acc@.drop_last()).push(word@));
    }
    assert(text@.take(n as int) == text@);
    acc
}

/// `std::string::FromUtf8Error`, the error of `String::from_utf8`; the
/// logic only carries it to its message.
#[verifier::external_type_specification]
#[verifier::external_body]
pub struct ExFromUtf8Error(FromUtf8Error);

/// `String::from_utf8`: succeeds exactly on valid UTF-8 input, and then
/// holds the decoded characters.
#[verifier::external_body]
pub(crate) fn string_from_utf8(bytes: Vec<u8>) -> (res: Result<String, FromUtf8Error>)
    ensures
        res is Ok <==> valid_utf8(bytes@),
        res matches Ok(s) ==> s@ == decode_utf8(bytes@),
{
    String::from_utf8(bytes)
}

/// What `String::from_utf8_lossy` yields: the decoded text, with each
/// ill-formed byte sequence replaced by U+FFFD.
pub uninterp spec fn utf8_lossy(bytes: Seq<u8>) -> Seq<char>;

/// `String::from_utf8_lossy`, turned into an owned string.  Its result is
/// named by `utf8_lossy`; on valid UTF-8 it is the decoded text, as the
/// documentation of `from_utf8_lossy` says.
#[verifier::external_body]
pub(crate) fn string_from_utf8_lossy(bytes: &Vec<u8>) -> (res: String)
    ensures
        res@ == utf8_lossy(bytes@),
        valid_utf8(bytes@) ==> res@ == decode_utf8(bytes@),
{
    String::from_utf8_lossy(bytes.as_slice()).into_owned()
}

} // verus!
