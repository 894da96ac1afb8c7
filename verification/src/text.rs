//! Small operations on text, stated over the characters a string holds.

use vstd::prelude::*;
use vstd::string::StrSliceExecFns;
use vstd::string::StringExecFns;

verus! {

/// The characters of an optional string, where there is one.
pub open spec fn opt_text(o: Option<String>) -> Option<Seq<char>> {
    match o {
        Some(t) => Some(t@),
        None => None,
    }
}

/// The first `n` characters of `s`, or all of `s` where it is shorter.
pub open spec fn prefix_of(s: Seq<char>, n: nat) -> Seq<char> {
    if n <= s.len() {
        s.take(n as int)
    } else {
        s
    }
}

/// `s` with a leading `prefix` removed; `s` itself where it does not start with `prefix`.
pub open spec fn strip_prefix(s: Seq<char>, prefix: Seq<char>) -> Seq<char> {
    if prefix.is_prefix_of(s) {
        s.skip(prefix.len() as int)
    } else {
        s
    }
}

/// Whether two strings hold the same characters.
pub fn same_text(a: &str, b: &str) -> (same: bool)
    ensures
        same == (a@ == b@),
{
    let left = String::from_str(a);
    let right = String::from_str(b);
    left == right
}

/// Whether `s` begins with `prefix`.
pub fn starts_with(s: &str, prefix: &str) -> (found: bool)
    ensures
        found == prefix@.is_prefix_of(s@),
{
    let n = prefix.unicode_len();
    if n > s.unicode_len() {
        return false;
    }
    let mut i: usize = 0;
    while i < n
        invariant
            i <= n,
            n == prefix@.len(),
            n <= s@.len(),
            forall|k: int| 0 <= k < i ==> s@[k] == prefix@[k],
        decreases n - i,
    {
        if s.get_char(i) != prefix.get_char(i) {
            assert(s@.subrange(0, n as int)[i as int] != prefix@[i as int]);
            return false;
        }
        i = i + 1;
    }
    assert(prefix@ =~= s@.subrange(0, n as int));
    true
}

/// Copies the first `n` characters of `s`, or all of it where it is shorter.
pub fn first_chars(s: &str, n: usize) -> (head: String)
    ensures
        head@ == prefix_of(s@, n as nat),
{
    let len = s.unicode_len();
    if n <= len {
        String::from_str(s.substring_char(0, n))
    } else {
        String::from_str(s)
    }
}

/// Copies `s` without a leading `prefix`; copies `s` whole where it does not start with it.
pub fn without_prefix(s: &str, prefix: &str) -> (rest: String)
    ensures
        rest@ == strip_prefix(s@, prefix@),
{
    if starts_with(s, prefix) {
        let from = prefix.unicode_len();
        let to = s.unicode_len();
        String::from_str(s.substring_char(from, to))
    } else {
        String::from_str(s)
    }
}

/// A new string that holds `a` followed by `b`.
pub fn joined(a: &str, b: &str) -> (both: String)
    ensures
        both@ == a@ + b@,
{
    let mut both = String::from_str(a);
    both.append(b);
    both
}

/// A copy of an optional string.
pub fn copy_opt(o: &Option<String>) -> (copy: Option<String>)
    ensures
        opt_text(copy) == opt_text(*o),
{
    match o {
        Some(t) => Some(t.clone()),
        None => None,
    }
}

/// The string inside `o`, or the empty string.
pub fn text_or_empty(o: &Option<String>) -> (text: String)
    ensures
        text@ == (match *o {
            Some(t) => t@,
            None => Seq::<char>::empty(),
        }),
{
    match o {
        Some(t) => t.clone(),
        None => String::new(),
    }
}

} // verus!
