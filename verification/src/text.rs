//! Executable helpers on `str` whose results are stated over the `Seq<char>` a
//! string stands for.

use vstd::prelude::*;
use vstd::std_specs::iter::IteratorSpec;
use vstd::string::*;

verus! {

/// What an optional string stands for.
pub open spec fn opt_text(s: Option<String>) -> Option<Seq<char>> {
    match s {
        Some(t) => Some(t@),
        None => None,
    }
}

/// What an optional string slice stands for.
pub open spec fn opt_str(s: Option<&str>) -> Option<Seq<char>> {
    match s {
        Some(t) => Some(t@),
        None => None,
    }
}

/// The position of the first `c` in `s`, if `s` holds one.
pub open spec fn first_index_of(s: Seq<char>, c: char) -> Option<int>
    decreases s.len(),
{
    if s.len() == 0 {
        None
    } else if s[0] == c {
        Some(0)
    } else {
        match first_index_of(s.drop_first(), c) {
            Some(i) => Some(i + 1),
            None => None,
        }
    }
}

/// `first_index_of` names the least position that holds `c`, and is `None`
/// exactly when no position does.
pub proof fn lemma_first_index_of(s: Seq<char>, c: char)
    ensures
        match first_index_of(s, c) {
            Some(i) => 0 <= i < s.len() && s[i] == c && forall|j: int| 0 <= j < i ==> s[j] != c,
            None => forall|j: int| 0 <= j < s.len() ==> s[j] != c,
        },
    decreases s.len(),
{
    if s.len() > 0 && s[0] != c {
        let t = s.drop_first();
        lemma_first_index_of(t, c);
        match first_index_of(t, c) {
            Some(i) => {
                assert forall|j: int| 0 <= j < i + 1 implies s[j] != c by {
                    if j > 0 {
                        assert(s[j] == t[j - 1]);
                    }
                }
            },
            None => {
                assert forall|j: int| 0 <= j < s.len() implies s[j] != c by {
                    if j > 0 {
                        assert(s[j] == t[j - 1]);
                    }
                }
            },
        }
    }
}

/// A position that holds `c` and has no `c` before it is the first one.
pub proof fn lemma_first_index_is(s: Seq<char>, c: char, i: int)
    requires
        0 <= i < s.len(),
        s[i] == c,
        forall|j: int| 0 <= j < i ==> s[j] != c,
    ensures
        first_index_of(s, c) == Some(i),
{
    lemma_first_index_of(s, c);
}

/// Whether two strings hold the same characters.
pub fn str_eq(a: &str, b: &str) -> (same: bool)
    ensures
        same == (a@ == b@),
{
    broadcast use group_string_axioms;

    let n = a.unicode_len();
    let mut left = a.chars();
    let mut right = b.chars();
    let mut i: usize = 0;
    loop
        invariant
            n == a@.len(),
            i <= n,
            i <= b@.len(),
            left.remaining() == a@.skip(i as int),
            right.remaining() == b@.skip(i as int),
            forall|j: int| 0 <= j < i ==> a@[j] == b@[j],
        decreases n - i,
    {
        let x = left.next();
        let y = right.next();
        match (x, y) {
            (None, None) => {
                assert(a@ =~= b@);
                return true;
            },
            (Some(p), Some(q)) => {
                if p != q {
                    return false;
                }
                i += 1;
            },
            _ => {
                return false;
            },
        }
    }
}

/// The position of the first `c` in `s`.
pub fn find_char(s: &str, c: char) -> (found: Option<usize>)
    ensures
        match found {
            Some(i) => first_index_of(s@, c) == Some(i as int),
            None => first_index_of(s@, c) is None,
        },
{
    broadcast use group_string_axioms;

    let n = s.unicode_len();
    let mut it = s.chars();
    let mut i: usize = 0;
    loop
        invariant
            n == s@.len(),
            i <= n,
            it.remaining() == s@.skip(i as int),
            forall|j: int| 0 <= j < i ==> s@[j] != c,
        decreases n - i,
    {
        match it.next() {
            None => {
                proof {
                    lemma_first_index_of(s@, c);
                }
                return None;
            },
            Some(x) => {
                if x == c {
                    proof {
                        lemma_first_index_is(s@, c, i as int);
                    }
                    return Some(i);
                }
                i += 1;
            },
        }
    }
}

/// `first + second`, as a new string.
pub fn joined(first: &str, second: &str) -> (whole: String)
    ensures
        whole@ == first@ + second@,
{
    String::from_str(first).concat(second)
}

/// Whether `s` begins with `prefix`.
pub fn starts_with(s: &str, prefix: &str) -> (yes: bool)
    ensures
        yes == prefix@.is_prefix_of(s@),
{
    let n = s.unicode_len();
    let p = prefix.unicode_len();
    if p > n {
        return false;
    }
    let head = s.substring_char(0, p);
    str_eq(head, prefix)
}

/// What is left of `s` after its first `from` characters.
pub fn tail_from(s: &str, from: usize) -> (rest: &str)
    requires
        from <= s@.len(),
    ensures
        rest@ == s@.skip(from as int),
{
    let n = s.unicode_len();
    s.substring_char(from, n)
}

} // verus!
