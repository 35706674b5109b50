//! Title normalization for fuzzy comparison: hyphens and parentheses are
//! removed and runs of spaces are collapsed, so that titles such as
//! "Song (Remastered)" and "Song - Remastered" compare equal.

use vstd::prelude::*;

verus! {

/// Characters that disambiguate editions of a title and are dropped
/// before titles are compared.
pub open spec fn is_title_punct(c: char) -> bool {
    c == '-' || c == '(' || c == ')'
}

/// `s` with every hyphen and parenthesis removed.
pub open spec fn strip_punct(s: Seq<char>) -> Seq<char>
    decreases s.len(),
{
    if s.len() == 0 {
        Seq::empty()
    } else if is_title_punct(s.last()) {
        strip_punct(s.drop_last())
    } else {
        strip_punct(s.drop_last()).push(s.last())
    }
}

/// `s` with every run of consecutive spaces shortened to a single space.
pub open spec fn collapse_spaces(s: Seq<char>) -> Seq<char>
    decreases s.len(),
{
    if s.len() == 0 {
        Seq::empty()
    } else if s.len() >= 2 && s.last() == ' ' && s[s.len() - 2] == ' ' {
        collapse_spaces(s.drop_last())
    } else {
        collapse_spaces(s.drop_last()).push(s.last())
    }
}

/// The normalized form of a title: punctuation stripped, spaces collapsed.
pub open spec fn spec_normalize(s: Seq<char>) -> Seq<char> {
    collapse_spaces(strip_punct(s))
}

/// No hyphen or parenthesis occurs in `s`.
pub open spec fn no_punct(s: Seq<char>) -> bool {
    forall|i: int| 0 <= i < s.len() ==> !is_title_punct(s[i])
}

/// No two consecutive spaces occur in `s`.
pub open spec fn no_double_space(s: Seq<char>) -> bool {
    forall|i: int| 0 <= i < s.len() - 1 ==> !((#[trigger] s[i]) == ' ' && s[i + 1] == ' ')
}

/// Stripping punctuation leaves no punctuation behind.
proof fn lemma_strip_no_punct(s: Seq<char>)
    ensures
        no_punct(strip_punct(s)),
    decreases s.len(),
{
    if s.len() == 0 {
    } else {
        lemma_strip_no_punct(s.drop_last());
    }
}

/// Stripping punctuation from a punctuation-free sequence changes nothing.
proof fn lemma_strip_identity(s: Seq<char>)
    requires
        no_punct(s),
    ensures
        strip_punct(s) == s,
    decreases s.len(),
{
    if s.len() == 0 {
        assert(strip_punct(s) =~= s);
    } else {
        assert(!is_title_punct(s.last()));
        lemma_strip_identity(s.drop_last());
        assert(strip_punct(s.drop_last()).push(s.last()) =~= s);
    }
}

/// Collapsing spaces keeps the final character and never empties a
/// non-empty sequence.
proof fn lemma_collapse_last(s: Seq<char>)
    requires
        s.len() > 0,
    ensures
        collapse_spaces(s).len() > 0,
        collapse_spaces(s).last() == s.last(),
    decreases s.len(),
{
    if s.len() >= 2 && s.last() == ' ' && s[s.len() - 2] == ' ' {
        lemma_collapse_last(s.drop_last());
    }
}

/// Collapsing spaces leaves no two consecutive spaces.
proof fn lemma_collapse_no_double(s: Seq<char>)
    ensures
        no_double_space(collapse_spaces(s)),
    decreases s.len(),
{
    if s.len() == 0 {
    } else if s.len() >= 2 && s.last() == ' ' && s[s.len() - 2] == ' ' {
        lemma_collapse_no_double(s.drop_last());
    } else {
        lemma_collapse_no_double(s.drop_last());
        let c = collapse_spaces(s.drop_last());
        let r = collapse_spaces(s);
        assert(r == c.push(s.last()));
        if s.len() >= 2 {
            lemma_collapse_last(s.drop_last());
        }
        assert forall|i: int| 0 <= i < r.len() - 1 implies !((#[trigger] r[i]) == ' ' && r[i + 1]
            == ' ') by {
            if i < c.len() - 1 {
                assert(r[i] == c[i] && r[i + 1] == c[i + 1]);
            } else {
                // i == c.len() - 1: r[i] is c.last(), r[i+1] is s.last()
                if s.last() == ' ' {
                    assert(s.len() >= 2 ==> c.last() == s[s.len() - 2]);
                }
            }
        }
    }
}

/// Collapsing spaces in a sequence without consecutive spaces changes nothing.
proof fn lemma_collapse_identity(s: Seq<char>)
    requires
        no_double_space(s),
    ensures
        collapse_spaces(s) == s,
    decreases s.len(),
{
    if s.len() == 0 {
        assert(collapse_spaces(s) =~= s);
    } else {
        assert(!(s.len() >= 2 && s.last() == ' ' && s[s.len() - 2] == ' '));
        lemma_collapse_identity(s.drop_last());
        assert(collapse_spaces(s.drop_last()).push(s.last()) =~= s);
    }
}

/// Collapsing spaces introduces no punctuation.
proof fn lemma_collapse_keeps_no_punct(s: Seq<char>)
    requires
        no_punct(s),
    ensures
        no_punct(collapse_spaces(s)),
    decreases s.len(),
{
    if s.len() == 0 {
    } else {
        lemma_collapse_keeps_no_punct(s.drop_last());
        if !(s.len() >= 2 && s.last() == ' ' && s[s.len() - 2] == ' ') {
            let c = collapse_spaces(s.drop_last());
            assert forall|i: int| 0 <= i < c.push(s.last()).len() implies !is_title_punct(
                c.push(s.last())[i],
            ) by {
                if i < c.len() {
                    assert(c.push(s.last())[i] == c[i]);
                }
            }
        }
    }
}

/// Normalization is idempotent: normalizing a normalized title gives it back.
pub proof fn normalize_idempotent(t: Seq<char>)
    ensures
        spec_normalize(spec_normalize(t)) == spec_normalize(t),
{
    let n = spec_normalize(t);
    lemma_strip_no_punct(t);
    lemma_collapse_keeps_no_punct(strip_punct(t));
    lemma_strip_identity(n);
    lemma_collapse_no_double(strip_punct(t));
    lemma_collapse_identity(n);
}

/// Normalizes a track or album title: drops hyphens and parentheses and
/// collapses runs of spaces, the comparison form used by the matching
/// predicates.
pub fn normalize_track_name(name: String) -> (r: String)
    ensures
        r@ == spec_normalize(name@),
{
    let chars = crate::text::str_chars(name.as_str());
    let mut out: Vec<char> = Vec::new();
    let mut i: usize = 0;
    while i < chars.len()
        invariant
            chars@ == name@,
            i <= chars@.len(),
            out@ == collapse_spaces(strip_punct(chars@.take(i as int))),
        decreases chars@.len() - i,
    {
        let c = chars[i];
        proof {
            let t0 = chars@.take(i as int);
            let t1 = chars@.take(i as int + 1);
            assert(t1.drop_last() =~= t0);
            assert(t1.last() == c);
            if !is_title_punct(c) {
                let u0 = strip_punct(t0);
                assert(strip_punct(t1) == u0.push(c));
                assert(u0.push(c).drop_last() =~= u0);
                if out@.len() > 0 {
                    lemma_collapse_last_inverse(u0);
                    lemma_collapse_last(u0);
                }
            } else {
                assert(strip_punct(t1) == strip_punct(t0));
            }
        }
        if c == '-' || c == '(' || c == ')' {
            // stripped: the normalized prefix is unchanged
        } else if c == ' ' && out.len() > 0 && out[out.len() - 1] == ' ' {
            // a space after a space collapses away
        } else {
            proof {
                let u0 = strip_punct(chars@.take(i as int));
                if c == ' ' && u0.len() > 0 && u0.last() == ' ' {
                    lemma_collapse_last(u0);
                }
            }
            out.push(c);
        }
        i = i + 1;
    }
    proof {
        assert(chars@.take(chars@.len() as int) =~= chars@);
    }
    crate::text::chars_to_string(&out)
}

/// An empty collapse result comes only from an empty sequence.
proof fn lemma_collapse_last_inverse(s: Seq<char>)
    requires
        collapse_spaces(s).len() > 0,
    ensures
        s.len() > 0,
{
    if s.len() == 0 {
        assert(collapse_spaces(s) =~= Seq::<char>::empty());
    }
}

} // verus!
