//! The whitespace-boundary finder: the position of the first and of the last
//! non-whitespace character of a string, together with the decomposition of a
//! string into its whitespace-only prefix, its core, and its whitespace-only
//! suffix that those positions induce.

use vstd::prelude::*;
use vstd::string::StrSliceExecFns;

verus! {

use crate::whitespace::{is_whitespace_char, is_non_whitespace};

/// Position of the first non-whitespace character at or after `i`, or `None`
/// if every character from `i` on is whitespace.
pub open spec fn first_non_ws_from(s: Seq<char>, i: int) -> Option<int>
    decreases s.len() - i,
{
    if i < 0 || i >= s.len() {
        None
    } else if !is_whitespace_char(s[i]) {
        Some(i)
    } else {
        first_non_ws_from(s, i + 1)
    }
}

/// Position of the first non-whitespace character of `s`, or `None` if `s`
/// is empty or all whitespace.
pub open spec fn first_non_ws(s: Seq<char>) -> Option<int> {
    first_non_ws_from(s, 0)
}

/// Position of the last non-whitespace character strictly before `i`, or
/// `None` if every character before `i` is whitespace.
pub open spec fn last_non_ws_before(s: Seq<char>, i: int) -> Option<int>
    decreases i,
{
    if i <= 0 || i > s.len() {
        None
    } else if !is_whitespace_char(s[i - 1]) {
        Some(i - 1)
    } else {
        last_non_ws_before(s, i - 1)
    }
}

/// Position of the last non-whitespace character of `s`, or `None` if `s`
/// is empty or all whitespace.
pub open spec fn last_non_ws(s: Seq<char>) -> Option<int> {
    last_non_ws_before(s, s.len() as int)
}

/// Whether `s` holds any non-whitespace character at all.
pub open spec fn has_core(s: Seq<char>) -> bool {
    first_non_ws(s) is Some
}

/// The whitespace-only prefix of `s`: everything before the first
/// non-whitespace character, or all of `s` when there is none.
pub open spec fn ws_prefix(s: Seq<char>) -> Seq<char> {
    match first_non_ws(s) {
        Some(i) => s.subrange(0, i),
        None => s,
    }
}

/// The whitespace-only suffix of `s`: everything after the last
/// non-whitespace character, or all of `s` when there is none.
pub open spec fn ws_suffix(s: Seq<char>) -> Seq<char> {
    match last_non_ws(s) {
        Some(j) => s.subrange(j + 1, s.len() as int),
        None => s,
    }
}

/// The core of `s`: the span from the first to the last non-whitespace
/// character, inclusive, or empty when there is none.
pub open spec fn core_part(s: Seq<char>) -> Seq<char> {
    match (first_non_ws(s), last_non_ws(s)) {
        (Some(i), Some(j)) => s.subrange(i, j + 1),
        _ => Seq::empty(),
    }
}

/// What a forward scan returns: a position in range that holds a
/// non-whitespace character and has only whitespace before it (down to `lo`),
/// or `None` with everything from `lo` on whitespace.
pub proof fn lemma_first_from_props(s: Seq<char>, lo: int)
    requires
        0 <= lo <= s.len(),
    ensures
        match first_non_ws_from(s, lo) {
            Some(i) => lo <= i < s.len() && !is_whitespace_char(s[i]) && (forall|k: int|
                lo <= k < i ==> is_whitespace_char(s[k])),
            None => forall|k: int| lo <= k < s.len() ==> is_whitespace_char(s[k]),
        },
    decreases s.len() - lo,
{
    if lo < s.len() && is_whitespace_char(s[lo]) {
        lemma_first_from_props(s, lo + 1);
    }
}

/// A position that holds a non-whitespace character and has only whitespace
/// before it (down to `lo`) is what the forward scan from `lo` returns.
pub proof fn lemma_first_from_found(s: Seq<char>, lo: int, i: int)
    requires
        0 <= lo <= i < s.len(),
        !is_whitespace_char(s[i]),
        forall|k: int| lo <= k < i ==> is_whitespace_char(s[k]),
    ensures
        first_non_ws_from(s, lo) == Some(i),
    decreases i - lo,
{
    if lo < i {
        lemma_first_from_found(s, lo + 1, i);
    }
}

/// What a backward scan returns: a position before `hi` that holds a
/// non-whitespace character and has only whitespace after it (up to `hi`),
/// or `None` with everything before `hi` whitespace.
pub proof fn lemma_last_before_props(s: Seq<char>, hi: int)
    requires
        0 <= hi <= s.len(),
    ensures
        match last_non_ws_before(s, hi) {
            Some(j) => 0 <= j < hi && !is_whitespace_char(s[j]) && (forall|k: int|
                j < k < hi ==> is_whitespace_char(s[k])),
            None => forall|k: int| 0 <= k < hi ==> is_whitespace_char(s[k]),
        },
    decreases hi,
{
    if 0 < hi && is_whitespace_char(s[hi - 1]) {
        lemma_last_before_props(s, hi - 1);
    }
}

/// A position that holds a non-whitespace character and has only whitespace
/// after it (up to `hi`) is what the backward scan from `hi` returns.
pub proof fn lemma_last_before_found(s: Seq<char>, hi: int, j: int)
    requires
        0 <= j < hi <= s.len(),
        !is_whitespace_char(s[j]),
        forall|k: int| j < k < hi ==> is_whitespace_char(s[k]),
    ensures
        last_non_ws_before(s, hi) == Some(j),
    decreases hi,
{
    if j < hi - 1 {
        lemma_last_before_found(s, hi - 1, j);
    }
}

/// The boundary pair is jointly present or jointly absent: the first and the
/// last non-whitespace positions exist together, and when they do, the first
/// is at most the last, both in range and both at non-whitespace characters.
pub proof fn lemma_boundaries_joint(s: Seq<char>)
    ensures
        first_non_ws(s) is Some <==> last_non_ws(s) is Some,
        first_non_ws(s) is Some ==> {
            let i = first_non_ws(s)->0;
            let j = last_non_ws(s)->0;
            0 <= i <= j < s.len() && !is_whitespace_char(s[i]) && !is_whitespace_char(s[j])
        },
{
    lemma_first_from_props(s, 0);
    lemma_last_before_props(s, s.len() as int);
    match (first_non_ws(s), last_non_ws(s)) {
        (Some(i), None) => {
            assert(is_whitespace_char(s[i]));
        },
        (None, Some(j)) => {
            assert(is_whitespace_char(s[j]));
        },
        (Some(i), Some(j)) => {
            if i > j {
                assert(is_whitespace_char(s[i]));
            }
        },
        (None, None) => {},
    }
}

/// Forward scan for the position of the first non-whitespace character.
pub fn find_first_non_whitespace(s: &str) -> (r: Option<usize>)
    ensures
        match r {
            Some(i) => i < s@.len() && first_non_ws(s@) == Some(i as int),
            None => first_non_ws(s@) is None,
        },
{
    let n = s.unicode_len();
    let mut i: usize = 0;
    while i < n
        invariant
            i <= n,
            n == s@.len(),
            first_non_ws(s@) == first_non_ws_from(s@, i as int),
        decreases n - i,
    {
        if is_non_whitespace(s.get_char(i)) {
            return Some(i);
        }
        i = i + 1;
    }
    None
}

/// Backward scan for the position of the last non-whitespace character.
pub fn find_last_non_whitespace(s: &str) -> (r: Option<usize>)
    ensures
        match r {
            Some(j) => j < s@.len() && last_non_ws(s@) == Some(j as int),
            None => last_non_ws(s@) is None,
        },
{
    let n = s.unicode_len();
    let mut i: usize = n;
    while i > 0
        invariant
            i <= n,
            n == s@.len(),
            last_non_ws(s@) == last_non_ws_before(s@, i as int),
        decreases i,
    {
        if is_non_whitespace(s.get_char(i - 1)) {
            return Some(i - 1);
        }
        i = i - 1;
    }
    None
}

} // verus!
