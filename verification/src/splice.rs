//! The splice formatter: rebuilding a string with a prefix and a suffix
//! inserted at given boundary positions, and the meaning of the three public
//! operations as functions on character sequences.

use vstd::prelude::*;
use vstd::string::{StrSliceExecFns, StringExecFns};

verus! {

use crate::boundary::{first_non_ws, last_non_ws};

/// The string rebuilt around the given boundary positions: everything before
/// `first` kept, then `prefix`, then the span up to and including `last`,
/// then `suffix`, then the remainder kept; an absent side moves its insertion
/// point to the corresponding end of the string.
pub open spec fn splice_at(
    s: Seq<char>,
    prefix: Seq<char>,
    suffix: Seq<char>,
    first: Option<int>,
    last: Option<int>,
) -> Seq<char> {
    match (first, last) {
        (Some(i), Some(j)) => s.subrange(0, i) + prefix + s.subrange(i, j + 1) + suffix
            + s.subrange(j + 1, s.len() as int),
        (Some(i), None) => s.subrange(0, i) + prefix + s.subrange(i, s.len() as int) + suffix,
        (None, Some(j)) => prefix + s.subrange(0, j + 1) + suffix + s.subrange(
            j + 1,
            s.len() as int,
        ),
        (None, None) => prefix + s + suffix,
    }
}

/// What wrapping returns: `prefix` inserted immediately before the first
/// non-whitespace character and `suffix` immediately after the last; when the
/// string has no non-whitespace character, the whole string is wrapped.
pub open spec fn wrap_spec(s: Seq<char>, prefix: Seq<char>, suffix: Seq<char>) -> Seq<char> {
    splice_at(s, prefix, suffix, first_non_ws(s), last_non_ws(s))
}

/// What prefixing alone returns: only the first boundary is used, so nothing
/// after the first non-whitespace character is touched.
pub open spec fn prefix_only_spec(s: Seq<char>, prefix: Seq<char>) -> Seq<char> {
    splice_at(s, prefix, Seq::empty(), first_non_ws(s), None)
}

/// What suffixing alone returns: only the last boundary is used, so nothing
/// before the last non-whitespace character is touched.
pub open spec fn suffix_only_spec(s: Seq<char>, suffix: Seq<char>) -> Seq<char> {
    splice_at(s, Seq::empty(), suffix, None, last_non_ws(s))
}

/// The boundary positions as the splice spec takes them.
pub open spec fn index_opt(o: Option<usize>) -> Option<int> {
    match o {
        Some(i) => Some(i as int),
        None => None,
    }
}

/// Rebuild `s` with `prefix` and `suffix` inserted at the given boundary
/// positions.
pub fn format_wrap(
    s: &str,
    prefix: &str,
    suffix: &str,
    first_non_whitespace: Option<usize>,
    last_non_whitespace: Option<usize>,
) -> (r: String)
    requires
        match (first_non_whitespace, last_non_whitespace) {
            (Some(i), Some(j)) => i <= j && j < s@.len(),
            (Some(i), None) => i <= s@.len(),
            (None, Some(j)) => j < s@.len(),
            (None, None) => true,
        },
    ensures
        r@ == splice_at(
            s@,
            prefix@,
            suffix@,
            index_opt(first_non_whitespace),
            index_opt(last_non_whitespace),
        ),
{
    let n = s.unicode_len();
    let mut r = String::new();
    match (first_non_whitespace, last_non_whitespace) {
        (Some(start), Some(end)) => {
            r.append(s.substring_char(0, start));
            r.append(prefix);
            r.append(s.substring_char(start, end + 1));
            r.append(suffix);
            r.append(s.substring_char(end + 1, n));
        },
        (Some(start), None) => {
            r.append(s.substring_char(0, start));
            r.append(prefix);
            r.append(s.substring_char(start, n));
            r.append(suffix);
        },
        (None, Some(end)) => {
            r.append(prefix);
            r.append(s.substring_char(0, end + 1));
            r.append(suffix);
            r.append(s.substring_char(end + 1, n));
        },
        (None, None) => {
            r.append(prefix);
            r.append(s);
            r.append(suffix);
        },
    }
    proof {
        assert(r@ =~= splice_at(
            s@,
            prefix@,
            suffix@,
            index_opt(first_non_whitespace),
            index_opt(last_non_whitespace),
        ));
    }
    r
}

} // verus!
