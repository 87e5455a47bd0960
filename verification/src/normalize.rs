//! Precision normalization of formatted numeric values.
//!
//! A floating-point value is stored only after a round trip through its
//! decimal rendering: the rendering is cut down to a fixed number of leading
//! characters and reparsed, so stored values are stable and free of trailing
//! noise. The cut itself is plain text work and lives here; rendering and
//! reparsing are the numeric formatter's business and stay with the caller.

use vstd::prelude::*;
use vstd::string::StrSliceExecFns;
use vstd::string::StringExecFns;

verus! {

/// How many leading characters of a decimal rendering are kept.
pub const DIGITS: usize = 14;

/// `s` cut down to its first `n` characters; shorter input is unchanged.
pub open spec fn spec_truncated(s: Seq<char>, n: int) -> Seq<char> {
    if s.len() <= n {
        s
    } else {
        s.subrange(0, n)
    }
}

/// Cuts a decimal rendering down to its first `DIGITS` characters.
pub fn truncate_precision(s: &str) -> (r: String)
    ensures
        r@ == spec_truncated(s@, DIGITS as int),
{
    let len = s.unicode_len();
    if len <= DIGITS {
        String::from_str(s)
    } else {
        String::from_str(s.substring_char(0, DIGITS))
    }
}

/// The cut is idempotent: a rendering already cut down is left unchanged,
/// so renormalizing a stored value's rendering cannot move it again.
pub proof fn lemma_truncate_idempotent(s: Seq<char>)
    ensures
        spec_truncated(spec_truncated(s, DIGITS as int), DIGITS as int) == spec_truncated(
            s,
            DIGITS as int,
        ),
{
}

} // verus!
