//! Classification of whitespace characters.
//!
//! A character counts as whitespace exactly when it has the Unicode
//! `White_Space` property, the classification `char::is_whitespace` uses:
//! the ASCII whitespace controls and space, next line, no-break space, and
//! the whitespace code points of the General Punctuation and CJK blocks.

use vstd::prelude::*;

verus! {

/// Whether `c` has the Unicode `White_Space` property.
pub open spec fn is_whitespace_char(c: char) -> bool {
    let n = c as u32;
    n == 0x09 || n == 0x0A || n == 0x0B || n == 0x0C || n == 0x0D || n == 0x20 || n == 0x85
        || n == 0xA0 || n == 0x1680 || (0x2000 <= n && n <= 0x200A) || n == 0x2028 || n == 0x2029
        || n == 0x202F || n == 0x205F || n == 0x3000
}

/// Decides whether `c` is outside the Unicode `White_Space` set.
pub fn is_non_whitespace(c: char) -> (r: bool)
    ensures
        r == !is_whitespace_char(c),
{
    let n = c as u32;
    !(n == 0x09 || n == 0x0A || n == 0x0B || n == 0x0C || n == 0x0D || n == 0x20 || n == 0x85
        || n == 0xA0 || n == 0x1680 || (0x2000 <= n && n <= 0x200A) || n == 0x2028 || n == 0x2029
        || n == 0x202F || n == 0x205F || n == 0x3000)
}

} // verus!
