//! Lexical layer: how a source line falls apart into words, and how words
//! are compared with keywords.

use vstd::prelude::*;
use vstd::string::StrSliceExecFns;
use vstd::utf8::is_ascii_chars;

verus! {

/// Whether a character has the Unicode `White_Space` property, in the eyes of
/// `char::is_whitespace`.
pub uninterp spec fn unicode_white_space(c: char) -> bool;

/// The Unicode lowercase form of a text, in the eyes of `str::to_lowercase`.
pub uninterp spec fn unicode_lowercase(s: Seq<char>) -> Seq<char>;

/// Calls `char::is_whitespace`. Nothing is claimed of the answer beyond its
/// being a function of the character, which is given the name
/// [`unicode_white_space`].
#[verifier::external_body]
fn char_is_whitespace(c: char) -> (b: bool)
    ensures
        b == unicode_white_space(c),
{
    c.is_whitespace()
}

/// Calls `str::to_lowercase`. Nothing is claimed of the answer beyond its
/// being a function of the text, which is given the name
/// [`unicode_lowercase`].
#[verifier::external_body]
fn str_to_lowercase(s: &str) -> (r: String)
    ensures
        r@ == unicode_lowercase(s@),
{
    s.to_lowercase()
}

/// Whether `c` separates words. Within ASCII these are the space and the
/// controls from tab to carriage return; beyond ASCII the Unicode property
/// decides.
pub open spec fn is_space(c: char) -> bool {
    if c <= '\u{7f}' {
        c == ' ' || '\t' <= c <= '\r'
    } else {
        unicode_white_space(c)
    }
}

/// Decides [`is_space`].
pub fn char_is_space(c: char) -> (b: bool)
    ensures
        b == is_space(c),
{
    let code: u32 = c as u32;
    if code <= 0x7f {
        code == 0x20 || (0x09 <= code && code <= 0x0d)
    } else {
        char_is_whitespace(c)
    }
}

/// Where the word that starts at `from` ends: the position of the first
/// separator at or after `from`, or the end of the line.
pub open spec fn word_end(line: Seq<char>, from: int) -> int
    decreases line.len() - from,
{
    if from >= line.len() || is_space(line[from]) {
        from
    } else {
        word_end(line, from + 1)
    }
}

/// A word ends after it starts, within the line, and holds no separator.
pub proof fn lemma_word_end(line: Seq<char>, from: int)
    requires
        0 <= from <= line.len(),
    ensures
        from <= word_end(line, from) <= line.len(),
        from < line.len() && !is_space(line[from]) ==> from < word_end(line, from),
        word_end(line, from) < line.len() ==> is_space(line[word_end(line, from)]),
        forall|k: int| from <= k < word_end(line, from) ==> !is_space(#[trigger] line[k]),
    decreases line.len() - from,
{
    if from < line.len() && !is_space(line[from]) {
        lemma_word_end(line, from + 1);
    }
}

/// The words of `line` that start at or after `from`.
pub open spec fn words_from(line: Seq<char>, from: int) -> Seq<Seq<char>>
    decreases line.len() - from,
    via words_from_terminates
{
    if from < 0 || from >= line.len() {
        Seq::empty()
    } else if is_space(line[from]) {
        words_from(line, from + 1)
    } else {
        seq![line.subrange(from, word_end(line, from))] + words_from(line, word_end(line, from))
    }
}

#[via_fn]
proof fn words_from_terminates(line: Seq<char>, from: int) {
    if 0 <= from < line.len() && !is_space(line[from]) {
        lemma_word_end(line, from);
    }
}

/// The words of a line: its maximal runs of characters that are not
/// separators, from left to right.
pub open spec fn words(line: Seq<char>) -> Seq<Seq<char>> {
    words_from(line, 0)
}

/// Whether `s` can stand as one word of a line: it is not empty and holds
/// no separator.
pub open spec fn is_word(s: Seq<char>) -> bool {
    s.len() > 0 && forall|i: int| 0 <= i < s.len() ==> !is_space(#[trigger] s[i])
}

/// The line that spells `ws` with one space between neighbours.
pub open spec fn joined(ws: Seq<Seq<char>>) -> Seq<char>
    decreases ws.len(),
{
    if ws.len() == 0 {
        Seq::empty()
    } else if ws.len() == 1 {
        ws[0]
    } else {
        ws[0] + seq![' '] + joined(ws.drop_first())
    }
}

/// A run of characters that are no separators, followed by a separator or
/// by the end of the line, ends the word that starts anywhere in it.
pub proof fn lemma_word_end_is(line: Seq<char>, from: int, end: int)
    requires
        0 <= from <= end <= line.len(),
        forall|k: int| from <= k < end ==> !is_space(#[trigger] line[k]),
        end < line.len() ==> is_space(line[end]),
    ensures
        word_end(line, from) == end,
    decreases end - from,
{
    if from < end {
        lemma_word_end_is(line, from + 1, end);
    }
}

/// The words of a line from some position on are the words of what is left
/// of the line from there.
pub proof fn lemma_words_of_rest(line: Seq<char>, cut: int, from: int)
    requires
        0 <= cut <= line.len(),
        0 <= from,
    ensures
        cut + from <= line.len() ==> word_end(line, cut + from) == cut + word_end(line.skip(cut), from),
        words_from(line, cut + from) == words_from(line.skip(cut), from),
    decreases line.len() - cut - from,
{
    let rest = line.skip(cut);
    if cut + from < line.len() {
        lemma_words_of_rest(line, cut, from + 1);
        if !is_space(line[cut + from]) {
            lemma_word_end(line, cut + from);
            lemma_word_end(rest, from);
            let end = word_end(rest, from);
            lemma_words_of_rest(line, cut, end);
            assert(line.subrange(cut + from, cut + end) =~= rest.subrange(from, end));
        }
    }
}

/// Separators before the first word do not count: the words from a position
/// on are the words from any later position that only separators lie before.
pub proof fn lemma_words_skip_spaces(line: Seq<char>, from: int, to: int)
    requires
        0 <= from <= to <= line.len(),
        forall|k: int| from <= k < to ==> is_space(#[trigger] line[k]),
    ensures
        words_from(line, from) == words_from(line, to),
    decreases to - from,
{
    if from < to {
        lemma_words_skip_spaces(line, from + 1, to);
    }
}

/// Every word of a line is a word.
pub proof fn lemma_words_are_words(line: Seq<char>, from: int)
    requires
        0 <= from,
    ensures
        forall|k: int| 0 <= k < words_from(line, from).len() ==> is_word(#[trigger] words_from(line, from)[k]),
    decreases line.len() - from,
{
    if from < line.len() {
        if is_space(line[from]) {
            lemma_words_are_words(line, from + 1);
            assert(words_from(line, from) == words_from(line, from + 1));
        } else {
            lemma_word_end(line, from);
            let end = word_end(line, from);
            lemma_words_are_words(line, end);
            assert(is_word(line.subrange(from, end)));
            assert forall|k: int| 0 <= k < words_from(line, from).len() implies is_word(
                #[trigger] words_from(line, from)[k],
            ) by {
                if k > 0 {
                    assert(words_from(line, from)[k] == words_from(line, end)[k - 1]);
                }
            }
        }
    }
}

/// A line that is one word has that word as its only word.
pub proof fn lemma_words_of_word(w: Seq<char>)
    requires
        is_word(w),
    ensures
        words(w) == seq![w],
{
    lemma_word_end_is(w, 0, w.len() as int);
    assert(w.subrange(0, w.len() as int) =~= w);
    assert(words_from(w, w.len() as int) =~= Seq::<Seq<char>>::empty());
}

/// A line that begins with a word and a space has that word as its first
/// word, and after it the words of the rest of the line.
pub proof fn lemma_words_after_word(w: Seq<char>, rest: Seq<char>)
    requires
        is_word(w),
    ensures
        words(w + seq![' '] + rest) == seq![w] + words(rest),
{
    let line = w + seq![' '] + rest;
    let n = w.len() as int;
    assert(forall|k: int| 0 <= k < n ==> !is_space(#[trigger] line[k]));
    lemma_word_end_is(line, 0, n);
    assert(line.subrange(0, n) =~= w);
    assert(words_from(line, n) == words_from(line, n + 1));
    lemma_words_of_rest(line, n + 1, 0);
    assert(line.skip(n + 1) =~= rest);
}

/// Words that are spelled with one space between them are the words of the
/// line so spelled.
pub proof fn lemma_words_of_joined(ws: Seq<Seq<char>>)
    requires
        forall|i: int| 0 <= i < ws.len() ==> is_word(#[trigger] ws[i]),
    ensures
        words(joined(ws)) == ws,
    decreases ws.len(),
{
    if ws.len() == 1 {
        lemma_words_of_word(ws[0]);
    } else if ws.len() > 1 {
        let rest = ws.drop_first();
        assert(forall|i: int| 0 <= i < rest.len() ==> is_word(#[trigger] rest[i]));
        lemma_words_of_joined(rest);
        lemma_words_after_word(ws[0], joined(rest));
    }
}

/// The texts of a sequence of string slices.
pub open spec fn texts(items: Seq<&str>) -> Seq<Seq<char>> {
    Seq::new(items.len(), |i: int| items[i]@)
}

/// The characters of a string slice, one by one.
pub fn chars_of(s: &str) -> (chars: Vec<char>)
    ensures
        chars@ == s@,
{
    let mut chars: Vec<char> = Vec::new();
    for c in it: s.chars()
        invariant
            chars@ == it.seq().take(it.index()),
            it.seq() == s@,
    {
        chars.push(c);
    }
    chars
}

/// Splits a line into its words.
pub fn tokenize<'a>(line: &'a str) -> (found: Vec<&'a str>)
    ensures
        texts(found@) == words(line@),
{
    let chars = chars_of(line);
    let n = chars.len();
    let mut found: Vec<&'a str> = Vec::new();
    let mut i: usize = 0;
    while i < n
        invariant
            i <= n,
            n == line@.len(),
            chars@ == line@,
            texts(found@) + words_from(line@, i as int) == words(line@),
        decreases n - i,
    {
        if char_is_space(chars[i]) {
            i = i + 1;
        } else {
            let start = i;
            while i < n && !char_is_space(chars[i])
                invariant
                    start <= i <= n,
                    n == line@.len(),
                    chars@ == line@,
                    word_end(line@, start as int) == word_end(line@, i as int),
                decreases n - i,
            {
                i = i + 1;
            }
            proof {
                lemma_word_end(line@, start as int);
            }
            found.push(line.substring_char(start, i));
        }
    }
    found
}

/// Whether `s` begins with `c`.
pub open spec fn begins_with(s: Seq<char>, c: char) -> bool {
    s.len() > 0 && s.first() == c
}

/// Whether `s` ends in `c`.
pub open spec fn ends_in(s: Seq<char>, c: char) -> bool {
    s.len() > 0 && s.last() == c
}

/// Decides [`begins_with`].
pub fn starts_with_char(s: &str, c: char) -> (b: bool)
    ensures
        b == begins_with(s@, c),
{
    let chars = chars_of(s);
    chars.len() > 0 && chars[0] == c
}

/// Decides [`ends_in`].
pub fn ends_with_char(s: &str, c: char) -> (b: bool)
    ensures
        b == ends_in(s@, c),
{
    let chars = chars_of(s);
    chars.len() > 0 && chars[chars.len() - 1] == c
}

/// `s` without the run of `c` at its end.
pub open spec fn strip_trailing(s: Seq<char>, c: char) -> Seq<char>
    decreases s.len(),
{
    if s.len() > 0 && s.last() == c {
        strip_trailing(s.drop_last(), c)
    } else {
        s
    }
}

/// What is left after stripping is a prefix of the text and does not end in
/// the stripped character, and what was stripped is that character only.
pub proof fn lemma_strip_trailing(s: Seq<char>, c: char)
    ensures
        strip_trailing(s, c).len() <= s.len(),
        strip_trailing(s, c) == s.take(strip_trailing(s, c).len() as int),
        !ends_in(strip_trailing(s, c), c),
        forall|i: int| strip_trailing(s, c).len() <= i < s.len() ==> s[i] == c,
    decreases s.len(),
{
    if s.len() > 0 && s.last() == c {
        lemma_strip_trailing(s.drop_last(), c);
        let kept = strip_trailing(s, c).len() as int;
        assert forall|i: int| kept <= i < s.len() implies s[i] == c by {
            if i < s.len() - 1 {
                assert(s.drop_last()[i] == s[i]);
            }
        }
    }
}

/// Cuts the run of `c` off the end of `s`.
pub fn trim_trailing<'a>(s: &'a str, c: char) -> (r: &'a str)
    ensures
        r@ == strip_trailing(s@, c),
{
    let chars = chars_of(s);
    let mut end: usize = chars.len();
    assert(s@.take(end as int) =~= s@);
    while end > 0 && chars[end - 1] == c
        invariant
            end <= chars.len(),
            chars@ == s@,
            strip_trailing(s@, c) == strip_trailing(s@.take(end as int), c),
        decreases end,
    {
        assert(s@.take(end as int).drop_last() =~= s@.take(end as int - 1));
        end = end - 1;
    }
    s.substring_char(0, end)
}

/// The lowercase form of an ASCII character; any other character unchanged.
pub open spec fn lower(c: char) -> char {
    if 'A' <= c <= 'Z' {
        ((c as u8 + 32) as u8) as char
    } else {
        c
    }
}

/// The form of a word in which it is compared with keywords: letter by
/// letter in lowercase where the word is ASCII, else its Unicode lowercase
/// form.
pub open spec fn fold(s: Seq<char>) -> Seq<char> {
    if is_ascii_chars(s) {
        Seq::new(s.len(), |i: int| lower(s[i]))
    } else {
        unicode_lowercase(s)
    }
}

/// Computes [`lower`].
fn lower_char(c: char) -> (r: char)
    ensures
        r == lower(c),
{
    let code: u32 = c as u32;
    if 0x41 <= code && code <= 0x5a {
        ((code + 32) as u8) as char
    } else {
        c
    }
}

/// Computes [`fold`].
pub fn fold_word(word: &str) -> (folded: Vec<char>)
    ensures
        folded@ == fold(word@),
{
    if word.is_ascii() {
        let chars = chars_of(word);
        let mut folded: Vec<char> = Vec::new();
        let mut i: usize = 0;
        while i < chars.len()
            invariant
                i <= chars.len(),
                chars@ == word@,
                folded@ == Seq::new(i as nat, |k: int| lower(word@[k])),
            decreases chars.len() - i,
        {
            folded.push(lower_char(chars[i]));
            i = i + 1;
        }
        folded
    } else {
        let lowered = str_to_lowercase(word);
        chars_of(lowered.as_str())
    }
}

/// Whether `chars` spells `text`.
pub fn spells(chars: &Vec<char>, text: &str) -> (b: bool)
    ensures
        b == (chars@ == text@),
{
    let other = chars_of(text);
    if chars.len() != other.len() {
        return false;
    }
    let mut i: usize = 0;
    while i < chars.len()
        invariant
            i <= chars.len(),
            chars.len() == other.len(),
            other@ == text@,
            chars@.take(i as int) == text@.take(i as int),
        decreases chars.len() - i,
    {
        if chars[i] != other[i] {
            return false;
        }
        i = i + 1;
    }
    assert(chars@.take(chars@.len() as int) =~= chars@);
    assert(text@.take(text@.len() as int) =~= text@);
    true
}

} // verus!
