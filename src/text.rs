//! Character-level text helpers with exact contracts.

use vstd::prelude::*;

verus! {

/// `p` is a prefix of `s`.
pub open spec fn has_prefix(s: Seq<char>, p: Seq<char>) -> bool {
    p.len() <= s.len() && s.take(p.len() as int) == p
}

/// `p` occurs in `s` starting at index `i`.
pub open spec fn occurs_at(s: Seq<char>, p: Seq<char>, i: int) -> bool {
    0 <= i && i + p.len() <= s.len() && s.subrange(i, i + p.len()) == p
}

/// `p` occurs somewhere in `s`.
pub open spec fn has_infix(s: Seq<char>, p: Seq<char>) -> bool {
    exists|i: int| occurs_at(s, p, i)
}

/// The characters of `s`, one by one.
pub fn chars_of(s: &str) -> (r: Vec<char>)
    ensures
        r@ == s@,
{
    let n = s.unicode_len();
    let mut out: Vec<char> = Vec::new();
    let mut i: usize = 0;
    while i < n
        invariant
            n == s@.len(),
            i <= n,
            out@ == s@.take(i as int),
        decreases n - i,
    {
        out.push(s.get_char(i));
        i = i + 1;
        assert(out@ =~= s@.take(i as int));
    }
    assert(out@ =~= s@);
    out
}

/// Whether `p` occurs in `s` at index `i`.
pub fn chars_occur_at(s: &Vec<char>, p: &Vec<char>, i: usize) -> (r: bool)
    ensures
        r == occurs_at(s@, p@, i as int),
{
    if i > s.len() || p.len() > s.len() - i {
        return false;
    }
    let sl = s.len();
    let mut j: usize = 0;
    while j < p.len()
        invariant
            sl == s@.len(),
            i + p@.len() <= s@.len(),
            j <= p@.len(),
            forall|k: int| 0 <= k < j ==> s@[i + k] == p@[k],
        decreases p@.len() - j,
    {
        if s[i + j] != p[j] {
            assert(s@.subrange(i as int, i + p@.len())[j as int] != p@[j as int]);
            return false;
        }
        j = j + 1;
    }
    assert(s@.subrange(i as int, i + p@.len()) =~= p@);
    true
}

/// Whether `p` occurs anywhere in `s`.
pub fn chars_contain(s: &Vec<char>, p: &Vec<char>) -> (r: bool)
    ensures
        r == has_infix(s@, p@),
{
    if p.len() > s.len() {
        return false;
    }
    let last = s.len() - p.len();
    let mut i: usize = 0;
    while i <= last
        invariant
            last == s@.len() - p@.len(),
            i <= last,
            forall|k: int| 0 <= k < i ==> !occurs_at(s@, p@, k),
        ensures
            forall|k: int| 0 <= k <= last ==> !occurs_at(s@, p@, k),
        decreases last - i,
    {
        if chars_occur_at(s, p, i) {
            return true;
        }
        if i == last {
            break;
        }
        i = i + 1;
    }
    false
}

/// Whether `s` starts with `p`.
pub fn starts_with(s: &str, p: &str) -> (r: bool)
    ensures
        r == has_prefix(s@, p@),
{
    let sc = chars_of(s);
    let pc = chars_of(p);
    let r = chars_occur_at(&sc, &pc, 0);
    assert(sc@.take(pc@.len() as int) =~= sc@.subrange(0, pc@.len() as int));
    r
}

/// Whether `p` occurs in `s`.
pub fn contains(s: &str, p: &str) -> (r: bool)
    ensures
        r == has_infix(s@, p@),
{
    let sc = chars_of(s);
    let pc = chars_of(p);
    chars_contain(&sc, &pc)
}

/// `s` without one trailing `"\n"` and then one trailing `"\r"`.
pub open spec fn without_line_end(s: Seq<char>) -> Seq<char> {
    let a = if s.len() > 0 && s.last() == '\n' { s.drop_last() } else { s };
    if a.len() > 0 && a.last() == '\r' { a.drop_last() } else { a }
}

/// Removes the line terminator (`"\n"` or `"\r\n"`) from the end of a line.
pub fn strip_line_end(s: &str) -> (r: &str)
    ensures
        r@ == without_line_end(s@),
{
    let n = s.unicode_len();
    let mut end = n;
    if end > 0 && s.get_char(end - 1) == '\n' {
        end = end - 1;
    }
    if end > 0 && s.get_char(end - 1) == '\r' {
        end = end - 1;
    }
    let r = s.substring_char(0, end);
    assert(r@ =~= without_line_end(s@));
    r
}

} // verus!
