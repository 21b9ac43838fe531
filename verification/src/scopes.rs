use crate::text::{chars_of, string_of};
use crate::views::texts_view;
use vstd::prelude::*;

verus! {

/// The scopes of a token response, as one text or as a list.
#[derive(Debug)]
pub enum ScopeField {
    Text(String),
    List(Vec<String>),
}

/// Whether a character is white space in the sense of Unicode.
pub open spec fn is_space(c: char) -> bool {
    let v = c as u32;
    (0x09 <= v <= 0x0D) || v == 0x20 || v == 0x85 || v == 0xA0 || v == 0x1680 || (0x2000 <= v
        <= 0x200A) || v == 0x2028 || v == 0x2029 || v == 0x202F || v == 0x205F || v == 0x3000
}

/// The words of a text: its longest runs of characters that are no white
/// space, with the run `word` that is being read put before what follows.
pub open spec fn words_after(word: Seq<char>, rest: Seq<char>) -> Seq<Seq<char>>
    decreases rest.len(),
{
    if rest.len() == 0 {
        if word.len() > 0 {
            seq![word]
        } else {
            Seq::<Seq<char>>::empty()
        }
    } else if is_space(rest[0]) {
        if word.len() > 0 {
            seq![word] + words_after(Seq::<char>::empty(), rest.skip(1))
        } else {
            words_after(Seq::<char>::empty(), rest.skip(1))
        }
    } else {
        words_after(word.push(rest[0]), rest.skip(1))
    }
}

/// The words of a text.
pub open spec fn words_of(text: Seq<char>) -> Seq<Seq<char>> {
    words_after(Seq::<char>::empty(), text)
}

/// The scopes that a field of a token response names: the words of a text,
/// or the entries of a list as they are.
pub open spec fn scopes_in(field: &ScopeField) -> Seq<Seq<char>> {
    match field {
        ScopeField::Text(t) => words_of(t@),
        ScopeField::List(l) => texts_view(l@),
    }
}

/// Whether a character is white space in the sense of Unicode.
pub fn is_white_space(c: char) -> (r: bool)
    ensures
        r == is_space(c),
{
    let v: u32 = c as u32;
    (0x09 <= v && v <= 0x0D) || v == 0x20 || v == 0x85 || v == 0xA0 || v == 0x1680 || (0x2000 <= v
        && v <= 0x200A) || v == 0x2028 || v == 0x2029 || v == 0x202F || v == 0x205F || v == 0x3000
}

/// The words of a text, separated by white space.
pub fn split_words(text: &str) -> (words: Vec<String>)
    ensures
        texts_view(words@) == words_of(text@),
{
    let chars = chars_of(text);
    let mut words: Vec<String> = Vec::new();
    let mut word: Vec<char> = Vec::new();
    let mut i: usize = 0;
    assert(chars@.skip(0) =~= chars@);
    assert(texts_view(words@) + words_after(word@, chars@) =~= words_of(chars@));
    while i < chars.len()
        invariant
            i <= chars.len(),
            chars@ == text@,
            words_of(text@) == texts_view(words@) + words_after(word@, chars@.skip(i as int)),
        decreases chars.len() - i,
    {
        let ghost rest = chars@.skip(i as int);
        let ghost done = texts_view(words@);
        assert(rest[0] == chars@[i as int]);
        assert(rest.skip(1) =~= chars@.skip(i + 1));
        if is_white_space(chars[i]) {
            if word.len() > 0 {
                let ghost w = word@;
                words.push(string_of(&word));
                word = Vec::new();
                assert(texts_view(words@) =~= done.push(w));
                assert(word@ =~= Seq::<char>::empty());
                assert(texts_view(words@) + words_after(word@, rest.skip(1)) =~= done + words_after(
                    w,
                    rest,
                ));
            } else {
                assert(word@ =~= Seq::<char>::empty());
            }
        } else {
            let ghost w = word@;
            word.push(chars[i]);
            assert(words_after(w, rest) == words_after(word@, rest.skip(1)));
        }
        i = i + 1;
    }
    assert(chars@.skip(chars.len() as int) =~= Seq::<char>::empty());
    let ghost done = texts_view(words@);
    if word.len() > 0 {
        words.push(string_of(&word));
        assert(texts_view(words@) =~= done + seq![word@]);
    } else {
        assert(done + Seq::<Seq<char>>::empty() =~= done);
    }
    words
}

/// The scopes that a field of a token response names.
pub fn scopes_of(field: ScopeField) -> (scopes: Vec<String>)
    ensures
        texts_view(scopes@) == scopes_in(&field),
{
    match field {
        ScopeField::Text(t) => split_words(t.as_str()),
        ScopeField::List(l) => l,
    }
}

} // verus!
