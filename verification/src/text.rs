//! Characters and words: the Unicode `White_Space` property, the split of a
//! line into its whitespace-separated words, and upper-casing.

use vstd::prelude::*;
use vstd::utf8::is_ascii_chars;

verus! {

/// The code points that carry the Unicode property `White_Space`.
pub open spec fn white_space(c: char) -> bool {
    ||| ('\u{9}' <= c && c <= '\u{d}')
    ||| c == ' '
    ||| c == '\u{85}'
    ||| c == '\u{a0}'
    ||| c == '\u{1680}'
    ||| ('\u{2000}' <= c && c <= '\u{200a}')
    ||| c == '\u{2028}'
    ||| c == '\u{2029}'
    ||| c == '\u{202f}'
    ||| c == '\u{205f}'
    ||| c == '\u{3000}'
}

/// Whether `c` carries the Unicode property `White_Space`.
pub fn is_whitespace(c: char) -> (r: bool)
    ensures
        r == white_space(c),
{
    (c >= '\u{9}' && c <= '\u{d}') || c == ' ' || c == '\u{85}' || c == '\u{a0}' || c
        == '\u{1680}' || (c >= '\u{2000}' && c <= '\u{200a}') || c == '\u{2028}' || c
        == '\u{2029}' || c == '\u{202f}' || c == '\u{205f}' || c == '\u{3000}'
}

/// No character of `s` is whitespace.
pub open spec fn is_word(s: Seq<char>) -> bool {
    forall|i: int| 0 <= i < s.len() ==> !white_space(#[trigger] s[i])
}

/// The length of the longest prefix of `s` that holds no whitespace.
pub open spec fn word_len(s: Seq<char>) -> nat
    decreases s.len(),
{
    if s.len() == 0 || white_space(s[0]) {
        0
    } else {
        1 + word_len(s.skip(1))
    }
}

/// The words of `s`: its maximal runs of characters that are not whitespace,
/// from left to right.
pub open spec fn tokens(s: Seq<char>) -> Seq<Seq<char>>
    decreases s.len(),
    via tokens_decreases
{
    if s.len() == 0 {
        Seq::empty()
    } else if white_space(s[0]) {
        tokens(s.skip(1))
    } else {
        let n = word_len(s) as int;
        seq![s.take(n)] + tokens(s.skip(n))
    }
}

#[via_fn]
proof fn tokens_decreases(s: Seq<char>) {
    if s.len() != 0 && !white_space(s[0]) {
        lemma_word_len_bounds(s);
    }
}

/// `word_len(s)` does not exceed the length of `s`, covers no whitespace, and
/// stops at the end of `s` or in front of a whitespace character.
pub proof fn lemma_word_len_bounds(s: Seq<char>)
    ensures
        word_len(s) <= s.len(),
        is_word(s.take(word_len(s) as int)),
        word_len(s) == s.len() || white_space(s[word_len(s) as int]),
        s.len() > 0 && !white_space(s[0]) ==> word_len(s) >= 1,
    decreases s.len(),
{
    if s.len() == 0 || white_space(s[0]) {
    } else {
        let t = s.skip(1);
        lemma_word_len_bounds(t);
        let n = word_len(s) as int;
        assert forall|i: int| 0 <= i < n implies !white_space(#[trigger] s.take(n)[i]) by {
            if i > 0 {
                assert(s.take(n)[i] == t.take(n - 1)[i - 1]);
            }
        }
    }
}

/// A position `k` up to which `s` holds no whitespace, and at which `s` ends
/// or holds whitespace, is `word_len(s)`.
pub proof fn lemma_word_len_is(s: Seq<char>, k: int)
    requires
        0 <= k <= s.len(),
        is_word(s.take(k)),
        k == s.len() || white_space(s[k]),
    ensures
        word_len(s) == k,
    decreases k,
{
    if k == 0 {
    } else {
        assert(s[0] == s.take(k)[0]);
        let t = s.skip(1);
        assert forall|i: int| 0 <= i < k - 1 implies !white_space(#[trigger] t.take(k - 1)[i]) by {
            assert(t.take(k - 1)[i] == s.take(k)[i + 1]);
        }
        lemma_word_len_is(t, k - 1);
    }
}

/// Every word of a text has at least one character and holds no whitespace.
pub proof fn lemma_tokens_are_words(s: Seq<char>)
    ensures
        forall|i: int|
            0 <= i < tokens(s).len() ==> (#[trigger] tokens(s)[i]).len() > 0 && is_word(
                tokens(s)[i],
            ),
    decreases s.len(),
{
    if s.len() == 0 {
    } else if white_space(s[0]) {
        lemma_tokens_are_words(s.skip(1));
        assert(tokens(s) == tokens(s.skip(1)));
    } else {
        // The first word is a word by what `word_len` is; the others are the
        // words of the rest.
        let n = word_len(s) as int;
        lemma_word_len_bounds(s);
        lemma_tokens_are_words(s.skip(n));
        assert(tokens(s) == seq![s.take(n)] + tokens(s.skip(n)));
    }
}

/// A text that is one word has that word as its only one.
pub proof fn lemma_tokens_of_word(w: Seq<char>)
    requires
        w.len() > 0,
        is_word(w),
    ensures
        tokens(w) == seq![w],
{
    let n = w.len() as int;
    assert(w.take(n) == w);
    lemma_word_len_is(w, n);
    assert(tokens(w) == seq![w.take(n)] + tokens(w.skip(n)));
}

/// Two words with a blank between them are the two words of that text.
pub proof fn lemma_tokens_of_pair(a: Seq<char>, b: Seq<char>)
    requires
        a.len() > 0,
        is_word(a),
        b.len() > 0,
        is_word(b),
    ensures
        tokens(a + seq![' '] + b) == seq![a, b],
{
    let s = a + seq![' '] + b;
    let n = a.len() as int;
    assert(s.take(n) == a);
    lemma_word_len_is(s, n);
    let t = s.skip(n);
    assert(t.skip(1) == b);
    assert(tokens(t) == tokens(t.skip(1)));
    lemma_tokens_of_word(b);
}

/// A word that stands behind leading whitespace, and in front of the end or
/// of more whitespace, is the first word of the text; the words of what
/// follows it are the others.
pub proof fn lemma_tokens_of_first_word(lead: Seq<char>, w: Seq<char>, rest: Seq<char>)
    requires
        forall|i: int| 0 <= i < lead.len() ==> white_space(#[trigger] lead[i]),
        w.len() > 0,
        is_word(w),
        rest.len() == 0 || white_space(rest[0]),
    ensures
        tokens(lead + w + rest) == seq![w] + tokens(rest),
    decreases lead.len(),
{
    let s = lead + w + rest;
    if lead.len() == 0 {
        let n = w.len() as int;
        assert(s.take(n) == w);
        lemma_word_len_is(s, n);
        assert(s.skip(n) == rest);
    } else {
        assert(s.skip(1) == lead.skip(1) + w + rest);
        lemma_tokens_of_first_word(lead.skip(1), w, rest);
    }
}

/// The characters of `s`, in order.
pub fn to_chars(s: &str) -> (v: Vec<char>)
    ensures
        v@ == s@,
{
    broadcast use vstd::string::group_string_axioms;

    let mut v: Vec<char> = Vec::new();
    for c in it: s.chars()
        invariant
            it.seq() == s@,
            v@ == s@.take(it.index() as int),
    {
        v.push(c);
    }
    v
}

/// The views of a sequence of string slices.
pub open spec fn views(toks: Seq<&str>) -> Seq<Seq<char>> {
    Seq::new(toks.len(), |i: int| toks[i]@)
}

/// Splits `line` into its words, as `str::split_whitespace` does.
pub fn split_whitespace<'a>(line: &'a str) -> (toks: Vec<&'a str>)
    ensures
        views(toks@) == tokens(line@),
        toks.len() == tokens(line@).len(),
        forall|i: int| 0 <= i < toks.len() ==> toks@[i]@ == #[trigger] tokens(line@)[i],
{
    let chars = to_chars(line);
    let n = chars.len();
    let mut toks: Vec<&'a str> = Vec::new();
    let mut i: usize = 0;
    assert(line@.skip(0) == line@);
    while i < n
        invariant
            chars@ == line@,
            n == chars.len(),
            i <= n,
            tokens(line@) == views(toks@) + tokens(line@.skip(i as int)),
        decreases n - i,
    {
        let ghost rest = line@.skip(i as int);
        if is_whitespace(chars[i]) {
            assert(rest.skip(1) == line@.skip(i + 1));
            i = i + 1;
        } else {
            let start = i;
            while i < n && !is_whitespace(chars[i])
                invariant
                    chars@ == line@,
                    n == chars.len(),
                    start <= i <= n,
                    forall|k: int| start <= k < i ==> !white_space(#[trigger] line@[k]),
                decreases n - i,
            {
                i = i + 1;
            }
            let tok = line.substring_char(start, i);
            proof {
                let k = i - start;
                assert(rest.take(k) == line@.subrange(start as int, i as int));
                lemma_word_len_is(rest, k);
                assert(rest.skip(k) == line@.skip(i as int));
            }
            toks.push(tok);
        }
    }
    assert forall|i: int| 0 <= i < toks.len() implies toks@[i]@ == #[trigger] tokens(line@)[i] by {
        assert(views(toks@)[i] == toks@[i]@);
    }
    toks
}

/// The upper-case form of an ASCII letter; any other character unchanged.
pub open spec fn ascii_upper(c: char) -> char {
    if 'a' <= c && c <= 'z' {
        ((c as u8) - 32) as char
    } else {
        c
    }
}

/// Upper-cases one ASCII letter and leaves any other character as it is.
pub fn to_ascii_upper(c: char) -> (r: char)
    ensures
        r == ascii_upper(c),
{
    if c >= 'a' && c <= 'z' {
        ((c as u8) - 32) as char
    } else {
        c
    }
}

/// What `str::to_uppercase` returns for the characters `s`: the Unicode
/// upper-case mapping of each character, which may be several characters.
pub uninterp spec fn unicode_uppercase(s: Seq<char>) -> Seq<char>;

/// The upper-case form of `s`. Where `s` is ASCII, each letter is replaced by
/// its capital; else the form is the one that the Unicode tables give.
pub open spec fn uppercase(s: Seq<char>) -> Seq<char> {
    if is_ascii_chars(s) {
        Seq::new(s.len(), |i: int| ascii_upper(s[i]))
    } else {
        unicode_uppercase(s)
    }
}

/// Calls `str::to_uppercase`. Trusted: the characters of the result depend on
/// the characters of `s` alone. Nothing is claimed about which they are.
#[verifier::external_body]
fn unicode_to_uppercase(s: &str) -> (r: String)
    ensures
        r@ == unicode_uppercase(s@),
{
    s.to_uppercase()
}

/// The upper-case form of `s`, as `str::to_uppercase` gives it. ASCII text is
/// folded here; any other text goes through the standard library's tables.
pub fn to_uppercase(s: &str) -> (r: Vec<char>)
    ensures
        r@ == uppercase(s@),
{
    if s.is_ascii() {
        let chars = to_chars(s);
        let n = chars.len();
        let mut out: Vec<char> = Vec::new();
        let mut i: usize = 0;
        while i < n
            invariant
                chars@ == s@,
                n == chars.len(),
                i <= n,
                out.len() == i,
                forall|k: int| 0 <= k < i ==> out@[k] == ascii_upper(s@[k]),
            decreases n - i,
        {
            out.push(to_ascii_upper(chars[i]));
            i = i + 1;
        }
        out
    } else {
        let upper = unicode_to_uppercase(s);
        to_chars(upper.as_str())
    }
}

} // verus!
