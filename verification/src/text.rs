//! Small tools on texts and on lists of named values.

use vstd::prelude::*;
use vstd::string::*;

verus! {

/// The value of the first member named `key`, if there is one.
pub open spec fn member<T>(fields: Seq<(Seq<char>, T)>, key: Seq<char>) -> Option<T>
    decreases fields.len(),
{
    if fields.len() == 0 {
        None
    } else if fields[0].0 == key {
        Some(fields[0].1)
    } else {
        member(fields.drop_first(), key)
    }
}

/// A list of pairs of texts, each text taken as its characters.
pub open spec fn pairs(entries: Seq<(String, String)>) -> Seq<(Seq<char>, Seq<char>)> {
    Seq::new(entries.len(), |i: int| (entries[i].0@, entries[i].1@))
}

/// `part` stands in `text` at the place `at`.
pub open spec fn occurs_at(text: Seq<char>, part: Seq<char>, at: int) -> bool {
    &&& 0 <= at
    &&& at + part.len() <= text.len()
    &&& forall|k: int| 0 <= k < part.len() ==> text[at + k] == #[trigger] part[k]
}

/// The characters of a text, one by one.
pub(crate) fn chars_of(text: &str) -> (chars: Vec<char>)
    ensures
        chars@ == text@,
{
    let mut chars: Vec<char> = Vec::new();
    for c in it: text.chars()
        invariant
            chars@ == text@.take(it.index() as int),
            it.seq() == text@,
    {
        chars.push(c);
    }
    chars
}

/// Tells whether `part` stands in `text` at `at`.
pub(crate) fn stands_at(text: &Vec<char>, part: &Vec<char>, at: usize) -> (found: bool)
    ensures
        found == occurs_at(text@, part@, at as int),
{
    if part.len() > text.len() || at > text.len() - part.len() {
        return false;
    }
    let mut k: usize = 0;
    while k < part.len()
        invariant
            k <= part.len(),
            at + part.len() <= text.len(),
            forall|j: int| 0 <= j < k ==> text@[at + j] == #[trigger] part@[j],
        decreases part.len() - k,
    {
        if text[at + k] != part[k] {
            return false;
        }
        k += 1;
    }
    true
}

} // verus!
