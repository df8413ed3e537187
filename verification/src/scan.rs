//! Finding the first occurrence of a character in a string, as a spec
//! function with a proved characterization and a matching executable search.

use vstd::prelude::*;

verus! {

/// Index of the first occurrence of `c` in `s` at position `from` or later.
pub open spec fn find_from(s: Seq<char>, from: int, c: char) -> Option<int>
    decreases s.len() - from,
{
    if from < 0 || from >= s.len() {
        None
    } else if s[from] == c {
        Some(from)
    } else {
        find_from(s, from + 1, c)
    }
}

/// What `find_from` returns: the least index of `c` in `s[from..]`, or
/// `None` when `c` does not occur there.
pub proof fn lemma_find_from(s: Seq<char>, from: int, c: char)
    requires
        0 <= from <= s.len(),
    ensures
        match find_from(s, from, c) {
            Some(i) => from <= i < s.len() && s[i] == c && (forall|j: int|
                from <= j < i ==> s[j] != c),
            None => forall|j: int| from <= j < s.len() ==> s[j] != c,
        },
    decreases s.len() - from,
{
    if from < s.len() && s[from] != c {
        lemma_find_from(s, from + 1, c);
    }
}

/// Executable search for the first occurrence of `c` at or after `from`.
pub fn find_char_from(s: &str, from: usize, c: char) -> (r: Option<usize>)
    requires
        from <= s@.len(),
    ensures
        r is Some <==> find_from(s@, from as int, c) is Some,
        r is Some ==> r->0 == find_from(s@, from as int, c)->0,
{
    let len = s.unicode_len();
    let mut i: usize = from;
    while i < len
        invariant
            from <= i <= len == s@.len(),
            forall|j: int| from <= j < i ==> s@[j] != c,
        decreases len - i,
    {
        if s.get_char(i) == c {
            proof {
                lemma_find_from(s@, from as int, c);
            }
            return Some(i);
        }
        i = i + 1;
    }
    proof {
        lemma_find_from(s@, from as int, c);
    }
    None
}

} // verus!
