//! Splitting strings at a separator character, over their characters.

use vstd::prelude::*;
use vstd::string::StrSliceExecFns;

verus! {

/// The index of the first `c` in `s`, or `s.len()` when there is none.
pub open spec fn first_index(s: Seq<char>, c: char) -> int
    decreases s.len(),
{
    if s.len() == 0 {
        0
    } else if s[0] == c {
        0
    } else {
        1 + first_index(s.drop_first(), c)
    }
}

/// The index of the last `c` in `s`, or -1 when there is none.
pub open spec fn last_index(s: Seq<char>, c: char) -> int
    decreases s.len(),
{
    if s.len() == 0 {
        -1
    } else if s.last() == c {
        s.len() - 1
    } else {
        last_index(s.drop_last(), c)
    }
}

/// `s` split around its first `c`, if it has one.
pub open spec fn split_first(s: Seq<char>, c: char) -> Option<(Seq<char>, Seq<char>)> {
    let i = first_index(s, c);
    if i < s.len() {
        Some((s.take(i), s.skip(i + 1)))
    } else {
        None
    }
}

/// What follows the last `c` in `s`; all of `s` when it has none.
pub open spec fn after_last(s: Seq<char>, c: char) -> Seq<char> {
    s.skip(last_index(s, c) + 1)
}

/// The views of an optional pair of strings.
pub open spec fn pair_view(p: Option<(String, String)>) -> Option<(Seq<char>, Seq<char>)> {
    match p {
        Some((a, b)) => Some((a@, b@)),
        None => None,
    }
}

proof fn lemma_first_index(s: Seq<char>, c: char, i: int)
    requires
        0 <= i <= s.len(),
        forall|j: int| 0 <= j < i ==> s[j] != c,
        i == s.len() || s[i] == c,
    ensures
        first_index(s, c) == i,
    decreases s.len(),
{
    if s.len() > 0 && i > 0 {
        assert(s[0] != c);
        lemma_first_index(s.drop_first(), c, i - 1);
    }
}

proof fn lemma_last_index(s: Seq<char>, c: char, i: int)
    requires
        -1 <= i < s.len(),
        forall|j: int| i < j < s.len() ==> s[j] != c,
        i == -1 || s[i] == c,
    ensures
        last_index(s, c) == i,
    decreases s.len(),
{
    if s.len() > 0 && i < s.len() - 1 {
        assert(s.last() != c);
        lemma_last_index(s.drop_last(), c, i);
    }
}

/// The index of the first `c` in `s`, or its length when there is none.
pub fn find_first(s: &str, c: char) -> (r: usize)
    ensures
        r == first_index(s@, c),
{
    let n = s.unicode_len();
    let mut i: usize = 0;
    while i < n
        invariant
            n == s@.len(),
            i <= n,
            forall|j: int| 0 <= j < i ==> s@[j] != c,
        decreases n - i,
    {
        if s.get_char(i) == c {
            proof {
                lemma_first_index(s@, c, i as int);
            }
            return i;
        }
        i = i + 1;
    }
    proof {
        lemma_first_index(s@, c, i as int);
    }
    i
}

/// `s` split around its first `c`, if it has one.
pub fn split_once(s: &str, c: char) -> (r: Option<(String, String)>)
    ensures
        pair_view(r) == split_first(s@, c),
{
    let n = s.unicode_len();
    let i = find_first(s, c);
    if i < n {
        let a = s.substring_char(0, i).to_owned();
        let b = s.substring_char(i + 1, n).to_owned();
        assert(a@ == s@.take(i as int));
        assert(b@ == s@.skip(i + 1));
        Some((a, b))
    } else {
        None
    }
}

/// What follows the last `c` in `s`; all of `s` when it has none.
pub fn last_part(s: &str, c: char) -> (r: String)
    ensures
        r@ == after_last(s@, c),
{
    let n = s.unicode_len();
    let mut i: usize = n;
    while i > 0
        invariant
            n == s@.len(),
            i <= n,
            forall|j: int| i <= j < n ==> s@[j] != c,
        decreases i,
    {
        if s.get_char(i - 1) == c {
            proof {
                lemma_last_index(s@, c, i - 1);
            }
            let r = s.substring_char(i, n).to_owned();
            assert(r@ == s@.skip(i as int));
            return r;
        }
        i = i - 1;
    }
    proof {
        lemma_last_index(s@, c, -1);
    }
    let r = s.to_owned();
    assert(r@ == s@.skip(0));
    r
}

} // verus!
