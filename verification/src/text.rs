//! Text matching for the unit-description format. Lines are compared as sequences of
//! characters, after their case has been lowered.

use vstd::prelude::*;

verus! {

/// The lower-case form of `text`, as `str::to_lowercase` of the standard library gives
/// it: a matter of the Unicode tables, not of this library.
pub uninterp spec fn lowercased(text: Seq<char>) -> Seq<char>;

/// Lowers the case of `text`.
///
/// Trusted: calls `str::to_lowercase`. The contract names what it returns, and claims
/// that the same text always lowers to the same text.
#[verifier::external_body]
pub(crate) fn lowercase(text: &str) -> (lower: String)
    ensures
        lower@ == lowercased(text@),
{
    text.to_lowercase()
}

/// `word` stands at the very start of `text`.
pub open spec fn has_prefix(text: Seq<char>, word: Seq<char>) -> bool {
    occurs_at(text, word, 0)
}

/// `word` stands in `text` from position `at` on.
pub open spec fn occurs_at(text: Seq<char>, word: Seq<char>, at: int) -> bool {
    &&& 0 <= at
    &&& at + word.len() <= text.len()
    &&& text.subrange(at, at + word.len()) == word
}

/// `word` stands somewhere in `text`.
pub open spec fn has_infix(text: Seq<char>, word: Seq<char>) -> bool {
    exists|at: int| occurs_at(text, word, at)
}

/// The characters of `text`, in order.
pub fn chars_of(text: &str) -> (chars: Vec<char>)
    ensures
        chars@ == text@,
{
    let mut chars: Vec<char> = Vec::new();
    for c in it: text.chars()
        invariant
            it.seq() == text@,
            chars@ == it.seq().take(it.index() as int),
    {
        chars.push(c);
    }
    chars
}

/// Whether `word` stands in `text` from position `at` on.
fn found_at(text: &Vec<char>, word: &Vec<char>, at: usize) -> (found: bool)
    requires
        at + word.len() <= text.len(),
    ensures
        found == occurs_at(text@, word@, at as int),
{
    let mut k: usize = 0;
    while k < word.len()
        invariant
            k <= word.len(),
            at + word.len() <= text.len(),
            forall|j: int| 0 <= j < k ==> text@[at + j] == word@[j],
        decreases word.len() - k,
    {
        if text[at + k] != word[k] {
            assert(text@.subrange(at as int, at + word.len())[k as int] != word@[k as int]);
            return false;
        }
        k += 1;
    }
    assert(text@.subrange(at as int, at + word.len()) =~= word@);
    true
}

/// Whether `text` is exactly `word`.
pub fn is_exactly(text: &Vec<char>, word: &str) -> (same: bool)
    ensures
        same == (text@ == word@),
{
    let letters = chars_of(word);
    if text.len() != letters.len() {
        return false;
    }
    let same = found_at(text, &letters, 0);
    assert(text@.subrange(0, text.len() as int) =~= text@);
    same
}

/// Whether `text` begins with `word`.
pub fn starts_with(text: &Vec<char>, word: &str) -> (found: bool)
    ensures
        found == has_prefix(text@, word@),
{
    let letters = chars_of(word);
    if letters.len() > text.len() {
        return false;
    }
    found_at(text, &letters, 0)
}

/// Whether `word` stands anywhere in `text`.
pub fn contains(text: &Vec<char>, word: &str) -> (found: bool)
    ensures
        found == has_infix(text@, word@),
{
    let letters = chars_of(word);
    if letters.len() > text.len() {
        return false;
    }
    let last: usize = text.len() - letters.len();
    let mut at: usize = 0;
    loop
        invariant
            letters@ == word@,
            last + letters.len() == text.len(),
            at <= last,
            forall|earlier: int| 0 <= earlier < at ==> !occurs_at(text@, word@, earlier),
        decreases last - at,
    {
        if found_at(text, &letters, at) {
            return true;
        }
        if at == last {
            return false;
        }
        at += 1;
    }
}

} // verus!
