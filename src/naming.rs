//! Normalization of names to lower camelCase.
use vstd::prelude::*;
use crate::text::{chars_of, push_chars, string_of};

verus! {

/// What `str::to_lowercase` returns for `s`: full Unicode lowercasing.
pub uninterp spec fn lowercase_of(s: Seq<char>) -> Seq<char>;

/// Relies on `str::to_lowercase`: the result depends on the characters alone.
#[verifier::external_body]
fn lowercase(s: &str) -> (r: String)
    ensures
        r@ == lowercase_of(s@),
{
    s.to_lowercase()
}

/// The characters that separate the words of a name.
pub open spec fn is_separator(c: char) -> bool {
    c == '_' || c == '-' || c == ' '
}

pub open spec fn ascii_upper(c: char) -> char {
    if 'a' <= c && c <= 'z' {
        ((c as u32) - 32) as char
    } else {
        c
    }
}

pub open spec fn ascii_lower(c: char) -> char {
    if 'A' <= c && c <= 'Z' {
        ((c as u32) + 32) as char
    } else {
        c
    }
}

/// Index of the first separator of `s`, or its length when it has none.
pub open spec fn first_word_end(s: Seq<char>) -> int
    decreases s.len(),
{
    if s.len() == 0 {
        0
    } else if is_separator(s[0]) {
        0
    } else {
        1 + first_word_end(s.drop_first())
    }
}

/// The characters of `s` before its first separator.
pub open spec fn first_word(s: Seq<char>) -> Seq<char> {
    s.take(first_word_end(s))
}

/// The characters of `s` after its first separator (none when it has none).
pub open spec fn after_first_word(s: Seq<char>) -> Seq<char> {
    if first_word_end(s) < s.len() {
        s.skip(first_word_end(s) + 1)
    } else {
        Seq::empty()
    }
}

/// The later words of a name in camel form: separators dropped, each word's
/// first character in ASCII upper case and its other characters in ASCII
/// lower case. `at_start` says whether `s` begins a word.
pub open spec fn camel_words(s: Seq<char>, at_start: bool) -> Seq<char>
    decreases s.len(),
{
    if s.len() == 0 {
        Seq::empty()
    } else if is_separator(s[0]) {
        camel_words(s.drop_first(), true)
    } else if at_start {
        seq![ascii_upper(s[0])] + camel_words(s.drop_first(), false)
    } else {
        seq![ascii_lower(s[0])] + camel_words(s.drop_first(), false)
    }
}

/// The camelCase form of `name`, given its first word already lowercased.
pub open spec fn camel_case(first_lower: Seq<char>, name: Seq<char>) -> Seq<char> {
    first_lower + camel_words(after_first_word(name), true)
}

fn upper_ascii(c: char) -> (r: char)
    ensures
        r == ascii_upper(c),
{
    if 'a' <= c && c <= 'z' {
        ((c as u8) - 32) as char
    } else {
        c
    }
}

fn lower_ascii(c: char) -> (r: char)
    ensures
        r == ascii_lower(c),
{
    if 'A' <= c && c <= 'Z' {
        ((c as u8) + 32) as char
    } else {
        c
    }
}

fn separator(c: char) -> (r: bool)
    ensures
        r == is_separator(c),
{
    c == '_' || c == '-' || c == ' '
}

fn first_word_len(cs: &Vec<char>) -> (k: usize)
    ensures
        k == first_word_end(cs@),
        k <= cs@.len(),
{
    let mut k: usize = 0;
    assert(cs@.skip(0) == cs@);
    while k < cs.len() && !separator(cs[k])
        invariant
            k <= cs@.len(),
            first_word_end(cs@) == k + first_word_end(cs@.skip(k as int)),
        decreases cs@.len() - k,
    {
        assert(cs@.skip(k as int).drop_first() == cs@.skip(k + 1 as int));
        k += 1;
    }
    k
}

/// Appends to `first_lower` (the first word of `name`, lowercased) the later
/// words of `name` in camel form.
pub fn camel_case_from(first_lower: &str, name: &str) -> (r: String)
    ensures
        r@ == camel_case(first_lower@, name@),
{
    let cs = chars_of(name);
    let k = first_word_len(&cs);
    let mut out = String::new();
    push_chars(&mut out, &chars_of(first_lower));
    assert(out@ == first_lower@);
    let ghost rest = after_first_word(cs@);
    let ghost goal = camel_words(rest, true);
    if k < cs.len() {
        let mut i: usize = k + 1;
        let mut at_start = true;
        assert(cs@.skip(i as int) == rest);
        while i < cs.len()
            invariant
                k < i <= cs@.len(),
                out@ + camel_words(cs@.skip(i as int), at_start) == first_lower@ + goal,
            decreases cs@.len() - i,
        {
            let c = cs[i];
            let ghost tail = cs@.skip(i as int);
            assert(tail.drop_first() == cs@.skip(i + 1 as int));
            assert(tail[0] == c);
            if separator(c) {
                at_start = true;
            } else if at_start {
                out.push(upper_ascii(c));
                at_start = false;
            } else {
                out.push(lower_ascii(c));
            }
            i += 1;
        }
        assert(cs@.skip(i as int) == Seq::<char>::empty());
    }
    out
}

/// `name` in lower camelCase: split at `_`, `-` and spaces, the first word
/// lowercased, each later word capitalized (ASCII), empty words dropped.
pub fn to_camel_case(name: &str) -> (r: String)
    ensures
        r@ == camel_case(lowercase_of(first_word(name@)), name@),
{
    let cs = chars_of(name);
    let k = first_word_len(&cs);
    let mut word: Vec<char> = Vec::new();
    let mut i: usize = 0;
    while i < k
        invariant
            i <= k <= cs@.len(),
            word@ == cs@.take(i as int),
        decreases k - i,
    {
        word.push(cs[i]);
        i += 1;
        assert(word@ == cs@.take(i as int));
    }
    let first = string_of(&word);
    let lower = lowercase(first.as_str());
    camel_case_from(lower.as_str(), name)
}

} // verus!
