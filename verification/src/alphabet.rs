use crate::text::{ascii_lower, chars_of, string_of, to_ascii_lower};
use rand::Rng;
use vstd::prelude::*;

verus! {

/// Whether a number is a Unicode scalar value: a code point that is no
/// surrogate.
pub open spec fn is_scalar(v: int) -> bool {
    0 <= v <= 0xD7FF || 0xE000 <= v <= 0x10FFFF
}

/// The characters from `low` to `high`, both included, in the order of their
/// code points.
pub open spec fn char_range(low: int, high: int) -> Seq<char>
    decreases high - low + 1,
{
    if low > high {
        Seq::<char>::empty()
    } else if is_scalar(low) {
        seq![low as char] + char_range(low + 1, high)
    } else {
        char_range(low + 1, high)
    }
}

/// The characters that a pattern stands for: `a-z` is every character from
/// `a` to `z`, any other character is itself, and a character followed by a
/// hyphen at the very end is dropped with it.
pub open spec fn expanded(pattern: Seq<char>) -> Seq<char>
    decreases pattern.len(),
{
    if pattern.len() == 0 {
        Seq::<char>::empty()
    } else if pattern.len() >= 2 && pattern[1] == '-' {
        if pattern.len() >= 3 {
            char_range(pattern[0] as int, pattern[2] as int) + expanded(pattern.skip(3))
        } else {
            Seq::<char>::empty()
        }
    } else {
        seq![pattern[0]] + expanded(pattern.skip(1))
    }
}

/// The characters of several patterns, one after the other.
pub open spec fn expanded_all(patterns: Seq<Seq<char>>) -> Seq<char>
    decreases patterns.len(),
{
    if patterns.len() == 0 {
        Seq::<char>::empty()
    } else {
        expanded_all(patterns.drop_last()) + expanded(patterns.last())
    }
}

/// Whether a character is an ASCII letter or digit.
pub open spec fn is_alphanumeric(c: char) -> bool {
    ('0' <= c && c <= '9') || ('a' <= c && c <= 'z') || ('A' <= c && c <= 'Z')
}

/// `char::from_u32`: the character of a code point, none for a surrogate or a
/// number beyond the last code point.
#[verifier::external_body]
pub(crate) fn char_of(v: u32) -> (r: Option<char>)
    ensures
        r == (if is_scalar(v as int) {
            Some(v as char)
        } else {
            None
        }),
{
    char::from_u32(v)
}

/// `Rng::gen_range` of rand's thread-local generator over `0..n`: some index
/// below `n`.
#[verifier::external_body]
pub(crate) fn random_below(n: usize) -> (r: usize)
    requires
        n > 0,
    ensures
        r < n,
{
    rand::thread_rng().gen_range(0..n)
}

/// `Rng::sample` of rand's thread-local generator with the `Alphanumeric`
/// distribution: some ASCII letter or digit.
#[verifier::external_body]
pub(crate) fn random_alphanumeric() -> (r: char)
    ensures
        is_alphanumeric(r),
{
    rand::thread_rng().sample(rand::distributions::Alphanumeric) as char
}

fn push_range(out: &mut Vec<char>, low: char, high: char)
    ensures
        final(out)@ == old(out)@ + char_range(low as int, high as int),
{
    let first: u32 = low as u32;
    let last: u32 = high as u32;
    if first > last {
        assert(out@ =~= old(out)@ + char_range(low as int, high as int));
        return ;
    }
    let mut v: u32 = first;
    loop
        invariant
            first <= v <= last,
            last <= 0x10FFFF,
            old(out)@ + char_range(low as int, high as int) == out@ + char_range(
                v as int,
                last as int,
            ),
        decreases last - v,
    {
        let ghost before = out@;
        match char_of(v) {
            Some(c) => {
                out.push(c);
            },
            None => {},
        }
        if v == last {
            assert(char_range(v as int + 1, last as int) =~= Seq::<char>::empty());
            assert(out@ + char_range(v as int + 1, last as int) =~= before + char_range(
                v as int,
                last as int,
            ));
            assert(out@ =~= out@ + Seq::<char>::empty());
            return ;
        }
        assert(out@ + char_range(v as int + 1, last as int) =~= before + char_range(
            v as int,
            last as int,
        ));
        v = v + 1;
    }
}

/// Expands a pattern such as `a-z0-9_` into the characters it stands for.
pub fn expand_alphabet(pattern: &str) -> (r: String)
    ensures
        r@ == expanded(pattern@),
{
    let out = expand_chars(&chars_of(pattern));
    string_of(&out)
}

fn expand_chars(pattern: &Vec<char>) -> (out: Vec<char>)
    ensures
        out@ == expanded(pattern@),
{
    let mut out: Vec<char> = Vec::new();
    let mut i: usize = 0;
    let n = pattern.len();
    assert(pattern@.skip(0) =~= pattern@);
    assert(out@ + expanded(pattern@) =~= expanded(pattern@));
    while i < n
        invariant
            i <= n,
            n == pattern.len(),
            expanded(pattern@) == out@ + expanded(pattern@.skip(i as int)),
        decreases n - i,
    {
        let ghost rest = pattern@.skip(i as int);
        let ghost before = out@;
        assert(rest.len() == n - i);
        assert(rest[0] == pattern@[i as int]);
        if i + 1 < n && pattern[i + 1] == '-' {
            assert(rest[1] == pattern@[i + 1]);
            if i + 2 < n {
                assert(rest[2] == pattern@[i + 2]);
                push_range(&mut out, pattern[i], pattern[i + 2]);
                assert(rest.skip(3) =~= pattern@.skip(i + 3));
                assert(out@ + expanded(pattern@.skip(i + 3)) =~= before + expanded(rest));
                i = i + 3;
            } else {
                assert(expanded(rest) =~= Seq::<char>::empty());
                assert(pattern@.skip(n as int) =~= Seq::<char>::empty());
                i = n;
            }
        } else {
            out.push(pattern[i]);
            assert(rest.skip(1) =~= pattern@.skip(i + 1));
            assert(out@ + expanded(pattern@.skip(i + 1)) =~= before + expanded(rest));
            i = i + 1;
        }
    }
    assert(pattern@.skip(n as int) =~= Seq::<char>::empty());
    assert(out@ + Seq::<char>::empty() =~= out@);
    out
}

/// Draws random texts over a set of characters.
pub struct RandomStringGenerator {
    base_chars: Vec<char>,
}

impl RandomStringGenerator {
    /// The characters that are drawn from where a call names no alphabet.
    pub closed spec fn base(&self) -> Seq<char> {
        self.base_chars@
    }
}

/// Whether a character is one of a set, or the lowercase form of one.
pub open spec fn drawn_from(c: char, set: Seq<char>) -> bool {
    exists|i: int| 0 <= i < set.len() && (c == #[trigger] set[i] || c == ascii_lower(set[i]))
}

/// Whether every character of a text is one of a set, or the lowercase form
/// of one.
pub open spec fn all_drawn_from(text: Seq<char>, set: Seq<char>) -> bool {
    forall|i: int| 0 <= i < text.len() ==> drawn_from(#[trigger] text[i], set)
}

/// The characters of each pattern of a list.
pub open spec fn patterns_view(patterns: Seq<&str>) -> Seq<Seq<char>> {
    patterns.map_values(|p: &str| p@)
}

/// A generator over the characters of some patterns, which must name at least
/// one character.
pub fn create_random_string_generator(base_patterns: &Vec<&str>) -> (g: RandomStringGenerator)
    requires
        expanded_all(patterns_view(base_patterns@)).len() > 0,
    ensures
        g.base() == expanded_all(patterns_view(base_patterns@)),
{
    let mut base: Vec<char> = Vec::new();
    let mut i: usize = 0;
    while i < base_patterns.len()
        invariant
            i <= base_patterns.len(),
            base@ == expanded_all(patterns_view(base_patterns@).take(i as int)),
        decreases base_patterns.len() - i,
    {
        let part = expand_chars(&chars_of(base_patterns[i]));
        proof {
            let all = patterns_view(base_patterns@);
            assert(all.take(i + 1).drop_last() =~= all.take(i as int));
            assert(all.take(i + 1).last() == base_patterns@[i as int]@);
        }
        crate::text::push_all(&mut base, &part);
        i = i + 1;
    }
    assert(patterns_view(base_patterns@).take(base_patterns.len() as int) =~= patterns_view(
        base_patterns@,
    ));
    RandomStringGenerator { base_chars: base }
}

/// The character at a place of a set, in lowercase where asked.
pub fn choose_char(chars: &Vec<char>, index: usize, lower: bool) -> (c: char)
    requires
        index < chars.len(),
    ensures
        c == (if lower {
            ascii_lower(chars@[index as int])
        } else {
            chars@[index as int]
        }),
        drawn_from(c, chars@),
{
    if lower {
        to_ascii_lower(chars[index])
    } else {
        chars[index]
    }
}

impl RandomStringGenerator {
    /// A random text of `length` characters, each drawn from the given
    /// alphabet, or from the generator's own where none is given, and put in
    /// lowercase or not by a second draw.
    pub fn generate(&self, length: usize, alphabet: Option<&str>) -> (r: String)
        requires
            length > 0,
            match alphabet {
                Some(p) => expanded(p@).len() > 0,
                None => self.base().len() > 0,
            },
        ensures
            r@.len() == length,
            all_drawn_from(
                r@,
                match alphabet {
                    Some(p) => expanded(p@),
                    None => self.base(),
                },
            ),
    {
        let own: Vec<char>;
        let chars: &Vec<char> = match alphabet {
            Some(p) => {
                own = expand_chars(&chars_of(p));
                &own
            },
            None => &self.base_chars,
        };
        let mut out: Vec<char> = Vec::new();
        let mut i: usize = 0;
        while i < length
            invariant
                i <= length,
                out@.len() == i,
                chars@.len() > 0,
                all_drawn_from(out@, chars@),
            decreases length - i,
        {
            let index = random_below(chars.len());
            let lower = random_below(2) == 0;
            let c = choose_char(chars, index, lower);
            out.push(c);
            i = i + 1;
        }
        string_of(&out)
    }
}

/// A random text of thirty-two ASCII letters and digits.
pub fn generate_random_string() -> (r: String)
    ensures
        r@.len() == 32,
        forall|i: int| 0 <= i < 32 ==> is_alphanumeric(#[trigger] r@[i]),
{
    let mut out: Vec<char> = Vec::new();
    let mut i: usize = 0;
    while i < 32
        invariant
            i <= 32,
            out@.len() == i,
            forall|j: int| 0 <= j < i ==> is_alphanumeric(#[trigger] out@[j]),
        decreases 32 - i,
    {
        out.push(random_alphanumeric());
        i = i + 1;
    }
    string_of(&out)
}

} // verus!
