//! Character-level text utilities shared by the link scanners and the
//! title normalizer: substring search and conversion between `&str`
//! and `Vec<char>`.

use vstd::prelude::*;

verus! {

/// The pattern `p` occurs in `s` starting at position `i`.
pub open spec fn matches_at(s: Seq<char>, p: Seq<char>, i: int) -> bool {
    0 <= i && i + p.len() <= s.len() && s.subrange(i, i + p.len() as int) == p
}

/// The pattern `p` occurs somewhere in `s`.
pub open spec fn contains_seq(s: Seq<char>, p: Seq<char>) -> bool {
    exists|i: int| matches_at(s, p, i)
}

/// Copies the characters of a string slice into a vector.
pub fn str_chars(s: &str) -> (r: Vec<char>)
    ensures
        r@ == s@,
{
    let n = s.unicode_len();
    let mut r: Vec<char> = Vec::new();
    let mut i: usize = 0;
    while i < n
        invariant
            n == s@.len(),
            i <= n,
            r@ == s@.take(i as int),
        decreases n - i,
    {
        r.push(s.get_char(i));
        i = i + 1;
        proof {
            assert(r@ =~= s@.take(i as int));
        }
    }
    proof {
        assert(r@ =~= s@);
    }
    r
}

/// Relies on `core::iter::Iterator::collect` to build a `String` from
/// the characters of the vector, in order.
#[verifier::external_body]
pub fn chars_to_string(v: &Vec<char>) -> (r: String)
    ensures
        r@ == v@,
{
    v.iter().collect()
}

/// Whether `p` occurs in `s` at position `i`.
pub fn starts_with_at(s: &Vec<char>, p: &Vec<char>, i: usize) -> (b: bool)
    requires
        i <= s@.len(),
    ensures
        b == matches_at(s@, p@, i as int),
{
    if p.len() > s.len() - i {
        proof {
            assert(!matches_at(s@, p@, i as int));
        }
        return false;
    }
    let mut j: usize = 0;
    while j < p.len()
        invariant
            s@.len() <= usize::MAX,
            i + p@.len() <= s@.len(),
            j <= p@.len(),
            forall|k: int| 0 <= k < j ==> s@[i + k] == p@[k],
        decreases p@.len() - j,
    {
        if s[i + j] != p[j] {
            proof {
                assert(s@.subrange(i as int, i + p@.len() as int)[j as int] != p@[j as int]);
            }
            return false;
        }
        j = j + 1;
    }
    proof {
        assert(s@.subrange(i as int, i + p@.len() as int) =~= p@);
    }
    true
}

/// Whether `p` occurs anywhere in `s`.
pub fn contains_chars(s: &Vec<char>, p: &Vec<char>) -> (b: bool)
    ensures
        b == contains_seq(s@, p@),
{
    let mut i: usize = 0;
    while i < s.len()
        invariant
            i <= s@.len(),
            forall|k: int| 0 <= k < i ==> !matches_at(s@, p@, k),
        decreases s@.len() - i,
    {
        if starts_with_at(s, p, i) {
            return true;
        }
        i = i + 1;
    }
    if p.len() == 0 {
        proof {
            assert(matches_at(s@, p@, 0)) by {
                assert(s@.subrange(0, 0) =~= p@);
            }
        }
        return true;
    }
    false
}

/// Whether `msg` (a string slice) contains the pattern `p`.
pub fn str_contains_chars(msg: &str, p: &Vec<char>) -> (b: bool)
    ensures
        b == contains_seq(msg@, p@),
{
    let s = str_chars(msg);
    contains_chars(&s, p)
}

/// An ASCII letter or digit, the alphabet of catalog-native ids.
pub open spec fn is_id_char(c: char) -> bool {
    (97 <= c as u32 <= 122) || (65 <= c as u32 <= 90) || (48 <= c as u32 <= 57)
}

/// Length of the maximal run of id characters in `s` starting at `i`.
pub open spec fn id_run_len(s: Seq<char>, i: int) -> int
    decreases s.len() - i when i <= s.len()
{
    if 0 <= i < s.len() && is_id_char(s[i]) {
        1 + id_run_len(s, i + 1)
    } else {
        0
    }
}

/// The run is non-negative and stays within the sequence.
pub proof fn lemma_id_run_len_bound(s: Seq<char>, i: int)
    requires
        0 <= i <= s.len(),
    ensures
        0 <= id_run_len(s, i) <= s.len() - i,
    decreases s.len() - i,
{
    if i < s.len() && is_id_char(s[i]) {
        lemma_id_run_len_bound(s, i + 1);
    }
}

/// Decides whether `c` is an ASCII letter or digit.
pub fn id_char(c: char) -> (b: bool)
    ensures
        b == is_id_char(c),
{
    let u = c as u32;
    (97 <= u && u <= 122) || (65 <= u && u <= 90) || (48 <= u && u <= 57)
}

/// Scans the maximal run of id characters starting at `start` and
/// returns the position just past it.
pub fn id_run_end(s: &Vec<char>, start: usize) -> (end: usize)
    requires
        start <= s@.len(),
    ensures
        end == start + id_run_len(s@, start as int),
        start <= end <= s@.len(),
{
    let mut end: usize = start;
    while end < s.len() && id_char(s[end])
        invariant
            start <= end <= s@.len(),
            id_run_len(s@, start as int) == end - start + id_run_len(s@, end as int),
        decreases s@.len() - end,
    {
        end = end + 1;
    }
    proof {
        lemma_id_run_len_bound(s@, start as int);
    }
    end
}

/// Copies `s[a..b]` into a fresh vector.
pub fn chars_range(s: &Vec<char>, a: usize, b: usize) -> (r: Vec<char>)
    requires
        a <= b <= s@.len(),
    ensures
        r@ == s@.subrange(a as int, b as int),
{
    let mut r: Vec<char> = Vec::new();
    let mut i: usize = a;
    while i < b
        invariant
            a <= i <= b <= s@.len(),
            r@ == s@.subrange(a as int, i as int),
        decreases b - i,
    {
        r.push(s[i]);
        i = i + 1;
        proof {
            assert(r@ =~= s@.subrange(a as int, i as int));
        }
    }
    r
}

/// First position `i` at which the pattern `p` occurs in `s` followed by
/// at least one id character, together with the id run's bounds; `None`
/// when no position qualifies.
pub open spec fn spec_first_capture(s: Seq<char>, p: Seq<char>, i: int) -> Option<Seq<char>>
    decreases s.len() - i when i <= s.len()
{
    if i < 0 || i >= s.len() {
        None
    } else if matches_at(s, p, i) && id_run_len(s, i + p.len()) >= 1 {
        Some(s.subrange(i + p.len(), i + p.len() + id_run_len(s, i + p.len())))
    } else {
        spec_first_capture(s, p, i + 1)
    }
}

/// Finds the first occurrence of `p` in `s` that is followed by at least
/// one id character and returns the maximal id run after it.
pub fn first_capture(s: &Vec<char>, p: &Vec<char>) -> (r: Option<Vec<char>>)
    ensures
        match r {
            Some(id) => spec_first_capture(s@, p@, 0) == Some(id@),
            None => spec_first_capture(s@, p@, 0) is None,
        },
{
    let mut i: usize = 0;
    while i < s.len()
        invariant
            i <= s@.len(),
            spec_first_capture(s@, p@, 0) == spec_first_capture(s@, p@, i as int),
        decreases s@.len() - i,
    {
        if starts_with_at(s, p, i) {
            let run_start = i + p.len();
            let end = id_run_end(s, run_start);
            if end > run_start {
                let id = chars_range(s, run_start, end);
                return Some(id);
            }
        }
        i = i + 1;
    }
    None
}

} // verus!
