//! Character-level helpers on which the flag composer, the launch plan and the
//! request builder rest. Everything here is stated over `Seq<char>`, the view
//! of `str` and `String`.

use vstd::prelude::*;
use vstd::string::StringExecFns;
use vstd::string::StringSliceAdditionalSpecFns;
use vstd::utf8::encode_utf8;

verus! {

/// The views of a list of strings, in order.
pub open spec fn texts(list: Seq<String>) -> Seq<Seq<char>> {
    Seq::new(list.len(), |i: int| list[i]@)
}

/// The number of bytes that `text` takes in UTF-8.
pub open spec fn utf8_len(text: Seq<char>) -> nat {
    encode_utf8(text).len()
}

/// `pattern` stands in `text` at position `at`.
pub open spec fn occurs_at(text: Seq<char>, pattern: Seq<char>, at: int) -> bool {
    &&& 0 <= at
    &&& at + pattern.len() <= text.len()
    &&& text.subrange(at, at + pattern.len()) == pattern
}

/// The lower-case form of an ASCII capital letter; any other character is
/// left as it is.
pub open spec fn ascii_lower(c: char) -> char {
    if 'A' <= c && c <= 'Z' {
        ((c as u8 + 32) as u8) as char
    } else {
        c
    }
}

/// Two texts are equal once ASCII capitals are folded to lower case.
pub open spec fn same_ignoring_ascii_case(a: Seq<char>, b: Seq<char>) -> bool {
    &&& a.len() == b.len()
    &&& forall|i: int| 0 <= i < a.len() ==> ascii_lower(#[trigger] a[i]) == ascii_lower(b[i])
}

/// `text` begins with `word` when the case of ASCII letters is ignored.
pub open spec fn begins_ignoring_ascii_case(text: Seq<char>, word: Seq<char>) -> bool {
    word.len() <= text.len() && same_ignoring_ascii_case(text.take(word.len() as int), word)
}

/// The bytes of two texts, one after the other, are the bytes of the texts
/// joined.
pub proof fn lemma_bytes_of_joined(a: Seq<char>, b: Seq<char>)
    ensures
        encode_utf8(a + b) == encode_utf8(a) + encode_utf8(b),
        utf8_len(a + b) == utf8_len(a) + utf8_len(b),
    decreases a.len(),
{
    if a.len() == 0 {
        assert(a + b =~= b);
        assert(encode_utf8(a) + encode_utf8(b) =~= encode_utf8(b));
    } else {
        assert((a + b).drop_first() =~= a.drop_first() + b);
        lemma_bytes_of_joined(a.drop_first(), b);
        assert(encode_utf8(a + b) =~= encode_utf8(a) + encode_utf8(b));
    }
}

/// The characters of a string, one element per `char`.
pub fn chars_of(s: &str) -> (out: Vec<char>)
    ensures
        out@ == s@,
{
    let mut out: Vec<char> = Vec::new();
    for c in it: s.chars()
        invariant
            out@ == it.seq().take(it.index()),
            it.seq() == s@,
    {
        out.push(c);
    }
    out
}

/// The number of bytes that a string takes in UTF-8.
pub fn byte_length(s: &str) -> (count: usize)
    ensures
        count == utf8_len(s@),
{
    s.as_bytes().len()
}

/// The two strings one after the other.
pub fn joined(a: &str, b: &str) -> (out: String)
    ensures
        out@ == a@ + b@,
{
    let mut out = String::from_str(a);
    out.append(b);
    out
}

/// Tells whether `pattern` stands in `text` at position `at`.
pub fn matches_at(text: &Vec<char>, pattern: &Vec<char>, at: usize) -> (found: bool)
    ensures
        found == occurs_at(text@, pattern@, at as int),
{
    if pattern.len() > text.len() || at > text.len() - pattern.len() {
        return false;
    }
    let mut k: usize = 0;
    while k < pattern.len()
        invariant
            k <= pattern.len(),
            at + pattern.len() <= text.len(),
            forall|j: int| 0 <= j < k ==> text@[at + j] == pattern@[j],
        decreases pattern.len() - k,
    {
        if text[at + k] != pattern[k] {
            proof {
                let window = text@.subrange(at as int, at + pattern.len());
                assert(window[k as int] == text@[at + k]);
            }
            return false;
        }
        k += 1;
    }
    assert(text@.subrange(at as int, at + pattern.len()) =~= pattern@);
    true
}

/// Tells whether `text` begins with `prefix`.
pub fn starts_with(text: &Vec<char>, prefix: &Vec<char>) -> (found: bool)
    ensures
        found == prefix@.is_prefix_of(text@),
{
    matches_at(text, prefix, 0)
}

/// Tells whether the two texts hold the same characters.
pub fn same_text(a: &Vec<char>, b: &Vec<char>) -> (same: bool)
    ensures
        same == (a@ == b@),
{
    if a.len() != b.len() {
        return false;
    }
    let found = matches_at(a, b, 0);
    proof {
        if found {
            assert(a@.subrange(0, b@.len() as int) =~= a@);
        } else if a@ == b@ {
            assert(a@.subrange(0, b@.len() as int) =~= b@);
        }
    }
    found
}

/// The lower-case form of an ASCII capital letter; any other character is
/// handed back unchanged.
pub fn to_ascii_lower(c: char) -> (out: char)
    ensures
        out == ascii_lower(c),
{
    if 'A' <= c && c <= 'Z' {
        ((c as u8) + 32) as char
    } else {
        c
    }
}

/// Tells whether `text` equals `word` when the case of ASCII letters is
/// ignored.
pub fn equals_ignoring_ascii_case(text: &Vec<char>, word: &Vec<char>) -> (same: bool)
    ensures
        same == same_ignoring_ascii_case(text@, word@),
{
    if text.len() != word.len() {
        return false;
    }
    let mut k: usize = 0;
    while k < text.len()
        invariant
            k <= text.len(),
            text.len() == word.len(),
            forall|j: int| 0 <= j < k ==> ascii_lower(#[trigger] text@[j]) == ascii_lower(word@[j]),
        decreases text.len() - k,
    {
        if to_ascii_lower(text[k]) != to_ascii_lower(word[k]) {
            return false;
        }
        k += 1;
    }
    true
}

/// Tells whether `text` begins with `word` when the case of ASCII letters is
/// ignored.
pub fn starts_with_ignoring_ascii_case(text: &Vec<char>, word: &Vec<char>) -> (found: bool)
    ensures
        found == begins_ignoring_ascii_case(text@, word@),
{
    if word.len() > text.len() {
        return false;
    }
    let ghost head = text@.take(word.len() as int);
    let mut k: usize = 0;
    while k < word.len()
        invariant
            k <= word.len(),
            word.len() <= text.len(),
            head == text@.take(word.len() as int),
            forall|j: int| 0 <= j < k ==> ascii_lower(#[trigger] head[j]) == ascii_lower(word@[j]),
        decreases word.len() - k,
    {
        assert(head[k as int] == text@[k as int]);
        if to_ascii_lower(text[k]) != to_ascii_lower(word[k]) {
            return false;
        }
        k += 1;
    }
    true
}

} // verus!
