//! Path matching for the Android MediaStore bridge.
use vstd::prelude::*;
use crate::text::{chars_of, string_from_chars, trim_char, trim_matches};

verus! {

/// The relative path as MediaStore stores it: without leading and trailing
/// slashes, then with exactly one trailing slash; empty when nothing is left.
pub open spec fn spec_normalize_relative_path(p: Seq<char>) -> Seq<char> {
    let t = trim_char(p, '/');
    if t.len() == 0 {
        Seq::empty()
    } else {
        t.push('/')
    }
}

/// Normalises a relative path for matching against MediaStore entries.
pub fn normalize_relative_path_for_match(relative_path: &str) -> (r: String)
    ensures
        r@ == spec_normalize_relative_path(relative_path@),
{
    let c = chars_of(relative_path);
    let mut trimmed = trim_matches(c.as_slice(), '/');
    if trimmed.len() == 0 {
        String::new()
    } else {
        trimmed.push('/');
        string_from_chars(trimmed.as_slice())
    }
}

} // verus!
