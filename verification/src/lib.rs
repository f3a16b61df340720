//! Insert a prefix and/or suffix immediately around the non-whitespace core
//! of a string, leaving its leading and trailing whitespace untouched.
//!
//! The core of a string is the span from its first to its last
//! non-whitespace character, inclusive. [`wrap_non_whitespace`] puts a prefix
//! before the core and a suffix after it; [`prefix_non_whitespace`] and
//! [`suffix_non_whitespace`] insert on one side only. A string with no
//! non-whitespace character at all is wrapped whole. All three operations
//! are total: any string, prefix and suffix, empty ones included, are
//! accepted.

use vstd::prelude::*;

pub mod boundary;
pub mod laws;
pub mod splice;
pub mod whitespace;

verus! {

use crate::boundary::{find_first_non_whitespace, find_last_non_whitespace,
    lemma_boundaries_joint};
use crate::splice::{format_wrap, wrap_spec, prefix_only_spec, suffix_only_spec};

/// Insert a prefix and a suffix into the string. The prefix is inserted
/// before the first non-whitespace character. The suffix is inserted after
/// the last non-whitespace character.
///
/// Returns a heap-allocated String.
pub fn wrap_non_whitespace(s: &str, prefix: &str, suffix: &str) -> (r: String)
    ensures
        r@ == wrap_spec(s@, prefix@, suffix@),
{
    let first_non_whitespace = find_first_non_whitespace(s);
    let last_non_whitespace = find_last_non_whitespace(s);
    proof {
        lemma_boundaries_joint(s@);
    }
    format_wrap(s, prefix, suffix, first_non_whitespace, last_non_whitespace)
}

/// Insert a prefix into the string before the first non-whitespace
/// character.
///
/// Returns a heap-allocated String.
pub fn prefix_non_whitespace(s: &str, prefix: &str) -> (r: String)
    ensures
        r@ == prefix_only_spec(s@, prefix@),
{
    let first_non_whitespace = find_first_non_whitespace(s);
    let r = format_wrap(s, prefix, "", first_non_whitespace, None);
    proof {
        reveal_strlit("");
        assert(""@ =~= Seq::<char>::empty());
        assert(r@ =~= prefix_only_spec(s@, prefix@));
    }
    r
}

/// Insert a suffix into the string after the last non-whitespace character.
///
/// Returns a heap-allocated String.
pub fn suffix_non_whitespace(s: &str, suffix: &str) -> (r: String)
    ensures
        r@ == suffix_only_spec(s@, suffix@),
{
    let last_non_whitespace = find_last_non_whitespace(s);
    let r = format_wrap(s, "", suffix, None, last_non_whitespace);
    proof {
        reveal_strlit("");
        assert(""@ =~= Seq::<char>::empty());
        assert(r@ =~= suffix_only_spec(s@, suffix@));
    }
    r
}

} // verus!
