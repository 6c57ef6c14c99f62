//! Character-level string helpers the library's logic is specified over.

use vstd::prelude::*;

verus! {

/// Equality of two string slices, by their character sequences.
pub fn str_eq(a: &str, b: &str) -> (r: bool)
    ensures
        r == (a@ == b@),
{
    let an = a.unicode_len();
    let bn = b.unicode_len();
    if an != bn {
        return false;
    }
    let mut i: usize = 0;
    while i < an
        invariant
            an == a@.len(),
            an == b@.len(),
            0 <= i <= an,
            forall|j: int| 0 <= j < i ==> a@[j] == b@[j],
        decreases an - i,
    {
        if a.get_char(i) != b.get_char(i) {
            return false;
        }
        i += 1;
    }
    proof {
        assert(a@ =~= b@);
    }
    true
}

/// Equality of optional strings, by their character sequences.
pub fn opt_string_eq(a: &Option<String>, b: &Option<String>) -> (r: bool)
    ensures
        r == (a.deep_view() == b.deep_view()),
{
    match (a, b) {
        (Some(x), Some(y)) => str_eq(x.as_str(), y.as_str()),
        (None, None) => true,
        _ => false,
    }
}

/// Equality of optional numbers.
pub fn opt_i32_eq(a: Option<i32>, b: Option<i32>) -> (r: bool)
    ensures
        r == (a == b),
{
    match (a, b) {
        (Some(x), Some(y)) => x == y,
        (None, None) => true,
        _ => false,
    }
}

/// The largest index at which this character occurs, or -1.
pub open spec fn last_index_of(s: Seq<char>, c: char) -> int
    decreases s.len(),
{
    if s.len() == 0 {
        -1
    } else if s.last() == c {
        s.len() - 1
    } else {
        last_index_of(s.drop_last(), c)
    }
}

/// What `last_index_of` means position by position.
pub proof fn lemma_last_index_of(s: Seq<char>, c: char)
    ensures
        last_index_of(s, c) >= 0 ==> last_index_of(s, c) < s.len() && s[last_index_of(s, c)] == c,
        forall|j: int| last_index_of(s, c) < j < s.len() ==> s[j] != c,
        last_index_of(s, c) >= -1,
    decreases s.len(),
{
    if s.len() > 0 && s.last() != c {
        lemma_last_index_of(s.drop_last(), c);
    }
    assert forall|j: int| last_index_of(s, c) < j < s.len() implies s[j] != c by {
        if j < s.len() - 1 {
            assert(s[j] == s.drop_last()[j]);
        }
    }
}

/// The largest index at which this character occurs.
pub fn find_last(s: &str, c: char) -> (r: Option<usize>)
    ensures
        match r {
            Some(i) => i < s@.len() && last_index_of(s@, c) == i,
            None => last_index_of(s@, c) == -1,
        },
{
    let n = s.unicode_len();
    let mut i: usize = n;
    while i > 0
        invariant
            n == s@.len(),
            0 <= i <= n,
            forall|j: int| i <= j < n ==> s@[j] != c,
        decreases i,
    {
        i -= 1;
        if s.get_char(i) == c {
            proof {
                lemma_last_index_of(s@, c);
                if last_index_of(s@, c) > i {
                    assert(s@[last_index_of(s@, c)] == c);
                    assert(false);
                }
                if last_index_of(s@, c) < i {
                    assert(s@[i as int] != c);
                    assert(false);
                }
            }
            return Some(i);
        }
    }
    proof {
        lemma_last_index_of(s@, c);
        if last_index_of(s@, c) >= 0 {
            assert(s@[last_index_of(s@, c)] == c);
            assert(false);
        }
    }
    None
}

/// The code point of a character after ASCII lowercasing.
pub open spec fn lower_code(c: char) -> int {
    if 65 <= c as int <= 90 {
        c as int + 32
    } else {
        c as int
    }
}

/// The first string equals the second after ASCII lowercasing; the second is
/// expected to be lowercase already.
pub open spec fn lower_eq(a: Seq<char>, b: Seq<char>) -> bool {
    a.len() == b.len() && forall|i: int| 0 <= i < a.len() ==> lower_code(#[trigger] a[i]) == b[i] as int
}

/// Case-insensitive (ASCII) comparison against a lowercase pattern.
pub fn ascii_lower_eq(a: &str, b: &str) -> (r: bool)
    ensures
        r == lower_eq(a@, b@),
{
    let an = a.unicode_len();
    let bn = b.unicode_len();
    if an != bn {
        return false;
    }
    let mut i: usize = 0;
    while i < an
        invariant
            an == a@.len(),
            an == b@.len(),
            0 <= i <= an,
            forall|j: int| 0 <= j < i ==> lower_code(#[trigger] a@[j]) == b@[j] as int,
        decreases an - i,
    {
        let ca = a.get_char(i) as u32;
        let lowered = if 65 <= ca && ca <= 90 {
            ca + 32
        } else {
            ca
        };
        if lowered != b.get_char(i) as u32 {
            return false;
        }
        i += 1;
    }
    true
}

/// One path lies at or under another, reading both as '/'-separated strings:
/// they are equal, or the root (with a separator after it when it does not
/// end in one) is a proper prefix.
pub open spec fn path_under(path: Seq<char>, root: Seq<char>) -> bool {
    ||| path == root
    ||| (root.len() < path.len() && path.take(root.len() as int) == root && (path[root.len() as int]
        == '/' || (root.len() > 0 && root.last() == '/')))
}

/// Whether a path lies at or under a root path.
pub fn path_starts_with(path: &str, root: &str) -> (r: bool)
    ensures
        r == path_under(path@, root@),
{
    let pn = path.unicode_len();
    let rn = root.unicode_len();
    if rn > pn {
        return false;
    }
    let mut i: usize = 0;
    while i < rn
        invariant
            pn == path@.len(),
            rn == root@.len(),
            rn <= pn,
            0 <= i <= rn,
            forall|j: int| 0 <= j < i ==> path@[j] == root@[j],
        decreases rn - i,
    {
        if path.get_char(i) != root.get_char(i) {
            proof {
                assert(path@ != root@);
                assert(path@.take(rn as int)[i as int] != root@[i as int]);
            }
            return false;
        }
        i += 1;
    }
    if rn == pn {
        proof {
            assert(path@ =~= root@);
        }
        true
    } else {
        proof {
            assert(path@.take(rn as int) =~= root@);
        }
        if path.get_char(rn) == '/' {
            true
        } else if rn > 0 {
            root.get_char(rn - 1) == '/'
        } else {
            false
        }
    }
}

} // verus!
