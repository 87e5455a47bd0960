//! Classification of raw display-format strings into date/time semantics.
//!
//! A variable's display format is a source-defined string such as `YYMMDD10`
//! or `DATETIME22`. A fixed table of known date, datetime and time format
//! names is consulted by prefix match; anything unrecognized classifies as
//! `None`.

use vstd::prelude::*;
use vstd::string::StrSliceExecFns;

verus! {

/// Date/time semantics carried by a display format.
#[derive(Clone, Copy, Debug, PartialEq, Eq, Structural)]
pub enum ReadStatFormatClass {
    Date,
    DateTime,
    Time,
}

/// `p` is an initial segment of `s`.
pub open spec fn seq_is_prefix_of(p: Seq<char>, s: Seq<char>) -> bool {
    p.len() <= s.len() && s.subrange(0, p.len() as int) == p
}

/// The format names (as prefixes) that denote a datetime.
pub open spec fn is_datetime_format(s: Seq<char>) -> bool {
    ||| seq_is_prefix_of("DATETIME"@, s)
    ||| seq_is_prefix_of("B8601DT"@, s)
    ||| seq_is_prefix_of("E8601DT"@, s)
}

/// The format names (as prefixes) that denote a time of day.
pub open spec fn is_time_format(s: Seq<char>) -> bool {
    ||| seq_is_prefix_of("TIME"@, s)
    ||| seq_is_prefix_of("TOD"@, s)
    ||| seq_is_prefix_of("HHMM"@, s)
    ||| seq_is_prefix_of("MMSS"@, s)
    ||| seq_is_prefix_of("HOUR"@, s)
    ||| seq_is_prefix_of("B8601TM"@, s)
    ||| seq_is_prefix_of("E8601TM"@, s)
}

/// The format names (as prefixes) that denote a calendar date.
pub open spec fn is_date_format(s: Seq<char>) -> bool {
    ||| seq_is_prefix_of("DATE"@, s)
    ||| seq_is_prefix_of("YYMMDD"@, s)
    ||| seq_is_prefix_of("MMDDYY"@, s)
    ||| seq_is_prefix_of("DDMMYY"@, s)
    ||| seq_is_prefix_of("MONYY"@, s)
    ||| seq_is_prefix_of("JULIAN"@, s)
    ||| seq_is_prefix_of("WEEKDATE"@, s)
    ||| seq_is_prefix_of("WORDDATE"@, s)
    ||| seq_is_prefix_of("B8601DA"@, s)
    ||| seq_is_prefix_of("E8601DA"@, s)
}

/// The classification of a raw display-format string. Datetime names are
/// tried first, since `DATE` is itself a prefix of `DATETIME`.
pub open spec fn spec_format_class(s: Seq<char>) -> Option<ReadStatFormatClass> {
    if is_datetime_format(s) {
        Some(ReadStatFormatClass::DateTime)
    } else if is_time_format(s) {
        Some(ReadStatFormatClass::Time)
    } else if is_date_format(s) {
        Some(ReadStatFormatClass::Date)
    } else {
        None
    }
}

/// Whether `p` is an initial segment of `s`, at the level of characters.
fn str_has_prefix(s: &str, p: &str) -> (r: bool)
    ensures
        r == seq_is_prefix_of(p@, s@),
{
    let sl = s.unicode_len();
    let pl = p.unicode_len();
    if pl > sl {
        return false;
    }
    let mut i: usize = 0;
    while i < pl
        invariant
            i <= pl,
            pl == p@.len(),
            sl == s@.len(),
            pl <= sl,
            forall|j: int| 0 <= j < i ==> s@[j] == p@[j],
        decreases pl - i,
    {
        if s.get_char(i) != p.get_char(i) {
            proof {
                assert(s@.subrange(0, p@.len() as int)[i as int] == s@[i as int]);
            }
            return false;
        }
        i += 1;
    }
    proof {
        assert(s@.subrange(0, p@.len() as int) =~= p@);
    }
    true
}

/// Maps a raw display-format string to its date/time classification.
/// Total and pure: the result is a function of the characters of `v` alone,
/// and unrecognized input always maps to `None`.
pub fn match_var_format(v: &str) -> (r: Option<ReadStatFormatClass>)
    ensures
        r == spec_format_class(v@),
{
    if str_has_prefix(v, "DATETIME") || str_has_prefix(v, "B8601DT") || str_has_prefix(v, "E8601DT") {
        Some(ReadStatFormatClass::DateTime)
    } else if str_has_prefix(v, "TIME") || str_has_prefix(v, "TOD") || str_has_prefix(v, "HHMM")
        || str_has_prefix(v, "MMSS") || str_has_prefix(v, "HOUR") || str_has_prefix(v, "B8601TM")
        || str_has_prefix(v, "E8601TM") {
        Some(ReadStatFormatClass::Time)
    } else if str_has_prefix(v, "DATE") || str_has_prefix(v, "YYMMDD") || str_has_prefix(v, "MMDDYY")
        || str_has_prefix(v, "DDMMYY") || str_has_prefix(v, "MONYY") || str_has_prefix(v, "JULIAN")
        || str_has_prefix(v, "WEEKDATE") || str_has_prefix(v, "WORDDATE")
        || str_has_prefix(v, "B8601DA") || str_has_prefix(v, "E8601DA") {
        Some(ReadStatFormatClass::Date)
    } else {
        None
    }
}

/// Classification is a pure function of the format string: two equal strings
/// always receive the same classification.
pub proof fn lemma_format_class_pure(a: Seq<char>, b: Seq<char>)
    requires
        a == b,
    ensures
        spec_format_class(a) == spec_format_class(b),
{
}

} // verus!
