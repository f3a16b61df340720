//! Laws of the wrapping operations, proved over the specification functions
//! that the public contracts use.

use vstd::prelude::*;

verus! {

use crate::boundary::{first_non_ws, last_non_ws, has_core, ws_prefix, ws_suffix, core_part,
    lemma_boundaries_joint, lemma_first_from_props, lemma_last_before_props,
    lemma_first_from_found, lemma_last_before_found};
use crate::splice::wrap_spec;
use crate::whitespace::is_whitespace_char;

/// Wrapping with an empty prefix and an empty suffix returns the string
/// unchanged.
pub proof fn lemma_wrap_empty_identity(s: Seq<char>)
    ensures
        wrap_spec(s, Seq::empty(), Seq::empty()) == s,
{
    lemma_boundaries_joint(s);
    assert(wrap_spec(s, Seq::empty(), Seq::empty()) =~= s);
}

/// On a string with a core, wrapping splits the string into its whitespace
/// prefix, its core and its whitespace suffix and puts the markers around the
/// core; on a string without one it puts them around the whole string.
pub proof fn lemma_wrap_decomposition(s: Seq<char>, p: Seq<char>, q: Seq<char>)
    ensures
        has_core(s) ==> wrap_spec(s, p, q) == ws_prefix(s) + p + core_part(s) + q + ws_suffix(s),
        !has_core(s) ==> wrap_spec(s, p, q) == p + s + q,
{
    lemma_boundaries_joint(s);
}

/// In the wrapped string the first non-whitespace character sits where the
/// original's first one sat, and the last one sits shifted by the lengths of
/// both markers, provided the string has a core, the prefix does not begin
/// with whitespace, and the suffix does not end with whitespace.
pub proof fn lemma_wrapped_boundaries(s: Seq<char>, p: Seq<char>, q: Seq<char>)
    requires
        has_core(s),
        p.len() > 0 ==> !is_whitespace_char(p[0]),
        q.len() > 0 ==> !is_whitespace_char(q[q.len() - 1]),
    ensures
        wrap_spec(s, p, q).len() == s.len() + p.len() + q.len(),
        first_non_ws(wrap_spec(s, p, q)) == Some(first_non_ws(s)->0),
        last_non_ws(wrap_spec(s, p, q)) == Some(last_non_ws(s)->0 + p.len() + q.len()),
{
    lemma_boundaries_joint(s);
    lemma_first_from_props(s, 0);
    lemma_last_before_props(s, s.len() as int);
    let i = first_non_ws(s)->0;
    let j = last_non_ws(s)->0;
    let r = wrap_spec(s, p, q);
    assert(r.len() == s.len() + p.len() + q.len());
    assert forall|k: int| 0 <= k < i implies is_whitespace_char(r[k]) by {
        assert(r[k] == s[k]);
    }
    if p.len() > 0 {
        assert(r[i] == p[0]);
    } else {
        assert(r[i] == s[i]);
    }
    lemma_first_from_found(r, 0, i);
    let t = j + p.len() + q.len();
    assert forall|k: int| t < k < r.len() implies is_whitespace_char(r[k]) by {
        assert(r[k] == s[k - p.len() - q.len()]);
    }
    if q.len() > 0 {
        assert(r[t] == q[q.len() - 1]);
    } else {
        assert(r[t] == s[j]);
    }
    lemma_last_before_found(r, r.len() as int, t);
}

/// Whitespace is never relocated: when the string has a non-whitespace core,
/// the prefix does not begin with whitespace, and the suffix does not end
/// with whitespace, the wrapped string has exactly the whitespace-only
/// prefix and the whitespace-only suffix of the original.
pub proof fn lemma_wrap_preserves_outer_whitespace(s: Seq<char>, p: Seq<char>, q: Seq<char>)
    requires
        has_core(s),
        p.len() > 0 ==> !is_whitespace_char(p[0]),
        q.len() > 0 ==> !is_whitespace_char(q[q.len() - 1]),
    ensures
        ws_prefix(wrap_spec(s, p, q)) == ws_prefix(s),
        ws_suffix(wrap_spec(s, p, q)) == ws_suffix(s),
{
    lemma_boundaries_joint(s);
    lemma_wrapped_boundaries(s, p, q);
    let i = first_non_ws(s)->0;
    let j = last_non_ws(s)->0;
    let r = wrap_spec(s, p, q);
    assert forall|k: int| 0 <= k < i implies r[k] == s[k] by {}
    assert(ws_prefix(r) =~= ws_prefix(s));
    let t = j + p.len() + q.len();
    assert forall|k: int| t < k < r.len() implies r[k] == s[k - p.len() - q.len()] by {}
    assert(ws_suffix(r) =~= ws_suffix(s));
}

/// Wrapping is not idempotent: wrapping an already wrapped string with the
/// same markers nests them around the core, and with at least one non-empty
/// marker the result differs from the singly wrapped string.
pub proof fn lemma_double_wrap_nests(s: Seq<char>, p: Seq<char>, q: Seq<char>)
    requires
        has_core(s),
        p.len() > 0 ==> !is_whitespace_char(p[0]),
        q.len() > 0 ==> !is_whitespace_char(q[q.len() - 1]),
    ensures
        wrap_spec(wrap_spec(s, p, q), p, q) == ws_prefix(s) + p + p + core_part(s) + q + q
            + ws_suffix(s),
        p.len() + q.len() > 0 ==> wrap_spec(wrap_spec(s, p, q), p, q) != wrap_spec(s, p, q),
{
    lemma_boundaries_joint(s);
    lemma_wrapped_boundaries(s, p, q);
    let r = wrap_spec(s, p, q);
    lemma_wrapped_boundaries(r, p, q);
    assert(wrap_spec(r, p, q) =~= ws_prefix(s) + p + p + core_part(s) + q + q + ws_suffix(s));
    if p.len() + q.len() > 0 {
        assert(wrap_spec(r, p, q).len() != r.len());
    }
}

/// Round trip: removing the prefix and the suffix from the wrapped string at
/// the positions where they were inserted reconstructs the original string.
pub proof fn lemma_wrap_round_trip(s: Seq<char>, p: Seq<char>, q: Seq<char>)
    ensures
        ({
            let r = wrap_spec(s, p, q);
            match (first_non_ws(s), last_non_ws(s)) {
                (Some(i), Some(j)) => r.subrange(0, i) + r.subrange(
                    i + p.len(),
                    j + 1 + p.len(),
                ) + r.subrange(j + 1 + p.len() + q.len(), r.len() as int) == s,
                _ => r.subrange(p.len() as int, (p.len() + s.len()) as int) == s,
            }
        }),
{
    lemma_boundaries_joint(s);
    let r = wrap_spec(s, p, q);
    match (first_non_ws(s), last_non_ws(s)) {
        (Some(i), Some(j)) => {
            assert(r.subrange(0, i) + r.subrange(i + p.len(), j + 1 + p.len()) + r.subrange(
                j + 1 + p.len() + q.len(),
                r.len() as int,
            ) =~= s);
        },
        _ => {
            assert(r.subrange(p.len() as int, (p.len() + s.len()) as int) =~= s);
        },
    }
}

} // verus!
