//! Texts: their values, and the search for a word without regard to the case
//! of ASCII letters.

use vstd::prelude::*;
use vstd::string::*;

verus! {

/// The text of an optional string.
pub open spec fn text_of(value: Option<String>) -> Option<Seq<char>> {
    match value {
        Some(text) => Some(text@),
        None => None,
    }
}

/// An ASCII capital letter becomes its small letter; any other character stays.
pub open spec fn fold_ascii(c: char) -> char {
    if 'A' <= c && c <= 'Z' {
        ((c as u8) + 32) as char
    } else {
        c
    }
}

/// The text with each ASCII capital letter made small.
pub open spec fn folded(text: Seq<char>) -> Seq<char> {
    Seq::new(text.len(), |i: int| fold_ascii(text[i]))
}

/// `word` stands in `text` at position `at`.
pub open spec fn occurs_at(text: Seq<char>, word: Seq<char>, at: int) -> bool {
    &&& 0 <= at
    &&& at + word.len() <= text.len()
    &&& forall|j: int| 0 <= j < word.len() ==> text[at + j] == word[j]
}

/// `word` stands somewhere in `text`.
pub open spec fn contains(text: Seq<char>, word: Seq<char>) -> bool {
    exists|at: int| occurs_at(text, word, at)
}

/// `word` stands somewhere in `text` once the ASCII capital letters of `text`
/// are made small. The word itself is taken as it is.
pub open spec fn mentions(text: Seq<char>, word: Seq<char>) -> bool {
    contains(folded(text), word)
}

/// Makes an ASCII capital letter small.
pub fn fold_char(c: char) -> (folded: char)
    ensures
        folded == fold_ascii(c),
{
    if 'A' <= c && c <= 'Z' {
        ((c as u8) + 32) as char
    } else {
        c
    }
}

/// The characters of a string, in order.
pub fn chars_of(text: &str) -> (chars: Vec<char>)
    ensures
        chars@ == text@,
{
    let n: usize = text.unicode_len();
    let mut chars: Vec<char> = Vec::new();
    let mut i: usize = 0;
    while i < n
        invariant
            n == text@.len(),
            i <= n,
            chars@ == text@.subrange(0, i as int),
        decreases n - i,
    {
        chars.push(text.get_char(i));
        i += 1;
        assert(chars@ =~= text@.subrange(0, i as int));
    }
    assert(text@.subrange(0, n as int) =~= text@);
    chars
}

/// Whether `word` stands at position `at` of the folded `text`.
fn folded_occurs_at(text: &Vec<char>, word: &Vec<char>, at: usize) -> (found: bool)
    requires
        at + word@.len() <= text@.len(),
    ensures
        found == occurs_at(folded(text@), word@, at as int),
{
    let mut j: usize = 0;
    while j < word.len()
        invariant
            at + word@.len() <= text@.len() == text.len(),
            j <= word@.len(),
            forall|k: int| 0 <= k < j ==> folded(text@)[at + k] == word@[k],
        decreases word@.len() - j,
    {
        if fold_char(text[at + j]) != word[j] {
            assert(folded(text@)[at + j] != word@[j as int]);
            return false;
        }
        j += 1;
    }
    true
}

/// Whether the text mentions the word, whatever the case of the text's ASCII
/// letters.
pub fn mentions_word(text: &str, word: &str) -> (found: bool)
    ensures
        found == mentions(text@, word@),
{
    let text_chars = chars_of(text);
    let word_chars = chars_of(word);
    if word_chars.len() > text_chars.len() {
        assert(forall|at: int| !occurs_at(folded(text@), word@, at));
        return false;
    }
    let last: usize = text_chars.len() - word_chars.len();
    let mut at: usize = 0;
    while at < last
        invariant
            text_chars@ == text@,
            word_chars@ == word@,
            last + word@.len() == text@.len(),
            at <= last,
            forall|k: int| 0 <= k < at ==> !occurs_at(folded(text@), word@, k),
        decreases last - at,
    {
        if folded_occurs_at(&text_chars, &word_chars, at) {
            return true;
        }
        at += 1;
    }
    let found = folded_occurs_at(&text_chars, &word_chars, last);
    assert(forall|k: int| k != last ==> !occurs_at(folded(text@), word@, k));
    found
}

} // verus!
