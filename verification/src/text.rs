//! Small building blocks on strings that the rest of the library shares.

use vstd::prelude::*;
use vstd::std_specs::iter::IteratorSpec;
use vstd::utf8::{decode_utf8, valid_utf8};

verus! {

/// `String::push` of the standard library: the character is appended to the
/// end of the string and nothing else changes.
pub assume_specification[ String::push ](s: &mut String, c: char)
    ensures
        final(s)@ == old(s)@.push(c),
;

/// The views of a sequence of strings, in order.
pub open spec fn texts(v: Seq<String>) -> Seq<Seq<char>> {
    v.map_values(|s: String| s@)
}

/// `std::str::from_utf8`, with its result copied into a `String`: the text
/// that the bytes encode in UTF-8, and nothing where they encode none.
#[verifier::external_body]
pub(crate) fn text_of_bytes(bytes: &[u8]) -> (text: Option<String>)
    ensures
        text is Some <==> valid_utf8(bytes@),
        text matches Some(decoded) ==> decoded@ == decode_utf8(bytes@),
{
    std::str::from_utf8(bytes).ok().map(|decoded| decoded.to_owned())
}

/// The characters of a text, one by one.
pub fn chars_of(text: &str) -> (chars: Vec<char>)
    ensures
        chars@ == text@,
{
    let mut chars: Vec<char> = Vec::new();
    for c in it: text.chars()
        invariant
            it.seq() == text@,
            chars@ == text@.take(it.index()),
    {
        chars.push(c);
        assert(text@.take(it.index() + 1) == text@.take(it.index()).push(c));
    }
    assert(text@.take(text@.len() as int) == text@);
    chars
}

/// A copy of the first `count` strings of a list.
pub fn copy_texts(list: &Vec<String>, count: usize) -> (copy: Vec<String>)
    requires
        count <= list.len(),
    ensures
        texts(copy@) == texts(list@).take(count as int),
{
    let mut copy: Vec<String> = Vec::new();
    let mut i: usize = 0;
    while i < count
        invariant
            i <= count <= list.len(),
            texts(copy@) == texts(list@).take(i as int),
        decreases count - i,
    {
        let ghost before = copy@;
        copy.push(list[i].clone());
        assert(texts(copy@) == texts(before).push(list@[i as int]@));
        assert(texts(list@).take(i + 1) == texts(list@).take(i as int).push(list@[i as int]@));
        i += 1;
    }
    copy
}

/// The text that is made of the characters from `from` up to `to`.
pub fn text_of_chars(chars: &Vec<char>, from: usize, to: usize) -> (text: String)
    requires
        from <= to <= chars.len(),
    ensures
        text@ == chars@.subrange(from as int, to as int),
{
    let mut text = String::new();
    let mut i: usize = from;
    while i < to
        invariant
            from <= i <= to <= chars.len(),
            text@ == chars@.subrange(from as int, i as int),
        decreases to - i,
    {
        text.push(chars[i]);
        assert(chars@.subrange(from as int, i + 1) == chars@.subrange(from as int, i as int).push(
            chars@[i as int],
        ));
        i += 1;
    }
    text
}

/// Whether `text` ends with `suffix`.
pub open spec fn ends_with(text: Seq<char>, suffix: Seq<char>) -> bool {
    text.len() >= suffix.len() && text.subrange(text.len() - suffix.len(), text.len() as int)
        == suffix
}

/// Whether the characters end with those of `suffix`.
pub fn has_suffix(chars: &Vec<char>, suffix: &Vec<char>) -> (yes: bool)
    ensures
        yes == ends_with(chars@, suffix@),
{
    if chars.len() < suffix.len() {
        return false;
    }
    let start = chars.len() - suffix.len();
    let mut i: usize = 0;
    while i < suffix.len()
        invariant
            start + suffix.len() == chars.len(),
            i <= suffix.len(),
            chars@.subrange(start as int, start + i) == suffix@.take(i as int),
        decreases suffix.len() - i,
    {
        if chars[start + i] != suffix[i] {
            assert(chars@.subrange(start as int, chars.len() as int)[i as int]
                != suffix@[i as int]);
            return false;
        }
        assert(chars@.subrange(start as int, start + i + 1) == chars@.subrange(
            start as int,
            start + i,
        ).push(chars@[start + i]));
        assert(suffix@.take(i + 1) == suffix@.take(i as int).push(suffix@[i as int]));
        i += 1;
    }
    assert(suffix@.take(suffix.len() as int) == suffix@);
    true
}

} // verus!
