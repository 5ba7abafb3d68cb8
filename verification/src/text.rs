//! Working on text character by character: white space, words and trimming.

use vstd::prelude::*;

verus! {

/// Whether std's `char::is_whitespace` holds of `c`: whether the character
/// has the Unicode property White_Space.
pub uninterp spec fn is_whitespace(c: char) -> bool;

/// Calls `char::is_whitespace` of std.
///
/// Trusted: the result is a function of the character, named
/// `is_whitespace`.
#[verifier::external_body]
pub(crate) fn whitespace(c: char) -> (white: bool)
    ensures
        white == is_whitespace(c),
{
    c.is_whitespace()
}

/// Appends a character to a string, as std documents `String::push`.
pub assume_specification[ String::push ](s: &mut String, ch: char)
    ensures
        final(s)@ == old(s)@.push(ch),
;

/// Removes the last character of a string and returns it, or returns `None`
/// where the string is empty, as std documents `String::pop`.
pub assume_specification[ String::pop ](s: &mut String) -> (last: Option<char>)
    ensures
        old(s)@.len() == 0 ==> last is None && final(s)@ == old(s)@,
        old(s)@.len() > 0 ==> last == Some(old(s)@.last()) && final(s)@ == old(s)@.drop_last(),
;

/// Empties a string, as std documents `String::clear`.
pub assume_specification[ String::clear ](s: &mut String)
    ensures
        final(s)@ == Seq::<char>::empty(),
;

/// The characters of a text, in order.
pub fn chars_of(text: &str) -> (chars: Vec<char>)
    ensures
        chars@ == text@,
{
    let mut chars: Vec<char> = Vec::new();
    for c in it: text.chars()
        invariant
            it.seq() == text@,
            chars@ == text@.take(it.index() as int),
    {
        chars.push(c);
        assert(text@.take(it.index() + 1) =~= text@.take(it.index() as int).push(c));
    }
    assert(text@.take(text@.len() as int) =~= text@);
    chars
}

/// The text made of the characters from index `from` up to, not including,
/// index `to`.
pub(crate) fn text_of(chars: &Vec<char>, from: usize, to: usize) -> (text: String)
    requires
        from <= to <= chars@.len(),
    ensures
        text@ == chars@.subrange(from as int, to as int),
{
    let mut text = String::new();
    let mut i: usize = from;
    while i < to
        invariant
            from <= i <= to <= chars@.len(),
            text@ == chars@.subrange(from as int, i as int),
        decreases to - i,
    {
        text.push(chars[i]);
        assert(chars@.subrange(from as int, i + 1) =~= chars@.subrange(from as int, i as int).push(
            chars@[i as int],
        ));
        i += 1;
    }
    text
}

/// The first index from `from` on that holds no white space, or the length
/// of the text where only white space follows.
pub open spec fn skip_space(text: Seq<char>, from: int) -> int
    decreases text.len() - from,
{
    if from < 0 || from >= text.len() {
        text.len() as int
    } else if is_whitespace(text[from]) {
        skip_space(text, from + 1)
    } else {
        from
    }
}

/// The first index from `from` on that holds white space, or the length of
/// the text where none follows.
pub open spec fn skip_word(text: Seq<char>, from: int) -> int
    decreases text.len() - from,
{
    if from < 0 || from >= text.len() {
        text.len() as int
    } else if !is_whitespace(text[from]) {
        skip_word(text, from + 1)
    } else {
        from
    }
}

/// The end of the text without its trailing white space: the index after the
/// last character before `to` that is no white space, or zero.
pub open spec fn skip_space_back(text: Seq<char>, to: int) -> int
    decreases to,
{
    if to <= 0 || to > text.len() {
        0
    } else if is_whitespace(text[to - 1]) {
        skip_space_back(text, to - 1)
    } else {
        to
    }
}

/// Where the skipping functions land: within the text, not before their
/// start, on a character of the kind they look for, and past none but the
/// other kind.
pub proof fn lemma_skips(text: Seq<char>, from: int)
    requires
        0 <= from <= text.len(),
    ensures
        from <= skip_space(text, from) <= text.len(),
        from <= skip_word(text, from) <= text.len(),
        0 <= skip_space_back(text, from) <= from,
        skip_space(text, from) < text.len() ==> !is_whitespace(text[skip_space(text, from)]),
        skip_word(text, from) < text.len() ==> is_whitespace(text[skip_word(text, from)]),
        skip_space_back(text, from) > 0 ==> !is_whitespace(text[skip_space_back(text, from) - 1]),
        forall|i: int| from <= i < skip_space(text, from) ==> is_whitespace(#[trigger] text[i]),
        forall|i: int| from <= i < skip_word(text, from) ==> !is_whitespace(#[trigger] text[i]),
        forall|i: int|
            skip_space_back(text, from) <= i < from ==> is_whitespace(#[trigger] text[i]),
    decreases text.len() - from, from,
{
    if from < text.len() {
        lemma_skips(text, from + 1);
    }
    if from > 0 {
        lemma_skips_back(text, from);
    }
}

proof fn lemma_skips_back(text: Seq<char>, to: int)
    requires
        0 <= to <= text.len(),
    ensures
        0 <= skip_space_back(text, to) <= to,
        skip_space_back(text, to) > 0 ==> !is_whitespace(text[skip_space_back(text, to) - 1]),
        forall|i: int| skip_space_back(text, to) <= i < to ==> is_whitespace(#[trigger] text[i]),
    decreases to,
{
    if to > 0 && is_whitespace(text[to - 1]) {
        lemma_skips_back(text, to - 1);
    }
}

/// The index computed by `skip_space`.
pub(crate) fn find_word(chars: &Vec<char>, from: usize) -> (at: usize)
    requires
        from <= chars@.len(),
    ensures
        at == skip_space(chars@, from as int),
        from <= at <= chars@.len(),
{
    let mut i: usize = from;
    while i < chars.len() && whitespace(chars[i])
        invariant
            from <= i <= chars@.len(),
            skip_space(chars@, from as int) == skip_space(chars@, i as int),
        decreases chars@.len() - i,
    {
        i += 1;
    }
    i
}

/// The index computed by `skip_word`.
pub(crate) fn find_space(chars: &Vec<char>, from: usize) -> (at: usize)
    requires
        from <= chars@.len(),
    ensures
        at == skip_word(chars@, from as int),
        from <= at <= chars@.len(),
{
    let mut i: usize = from;
    while i < chars.len() && !whitespace(chars[i])
        invariant
            from <= i <= chars@.len(),
            skip_word(chars@, from as int) == skip_word(chars@, i as int),
        decreases chars@.len() - i,
    {
        i += 1;
    }
    i
}

/// The text without the white space at its two ends.
pub open spec fn trimmed(text: Seq<char>) -> Seq<char> {
    let start = skip_space(text, 0);
    if start >= text.len() {
        Seq::empty()
    } else {
        text.subrange(start, skip_space_back(text, text.len() as int))
    }
}

/// Removes the white space at the two ends of a text.
pub fn trim(text: &str) -> (result: String)
    ensures
        result@ == trimmed(text@),
{
    let chars = chars_of(text);
    let start = find_word(&chars, 0);
    if start >= chars.len() {
        return String::new();
    }
    let mut end: usize = chars.len();
    while end > 0 && whitespace(chars[end - 1])
        invariant
            end <= chars@.len(),
            skip_space_back(chars@, chars@.len() as int) == skip_space_back(chars@, end as int),
        decreases end,
    {
        end -= 1;
    }
    proof {
        lemma_skips(chars@, 0);
        lemma_skips(chars@, chars@.len() as int);
        if end <= start {
            assert(is_whitespace(chars@[start as int]));
        }
    }
    text_of(&chars, start, end)
}

/// Whether the characters from `from` up to `to` spell `literal`.
pub(crate) fn spells(chars: &Vec<char>, from: usize, to: usize, literal: &str) -> (same: bool)
    requires
        from <= to <= chars@.len(),
    ensures
        same == (chars@.subrange(from as int, to as int) == literal@),
{
    let wanted = chars_of(literal);
    if wanted.len() != to - from {
        return false;
    }
    let mut i: usize = 0;
    while i < wanted.len()
        invariant
            from <= to <= chars@.len(),
            wanted@ == literal@,
            wanted@.len() == to - from,
            i <= wanted@.len(),
            forall|k: int| 0 <= k < i ==> chars@[from + k] == wanted@[k],
        decreases wanted@.len() - i,
    {
        if chars[from + i] != wanted[i] {
            assert(chars@.subrange(from as int, to as int)[i as int] != wanted@[i as int]);
            return false;
        }
        i += 1;
    }
    assert(chars@.subrange(from as int, to as int) =~= wanted@);
    true
}

} // verus!
