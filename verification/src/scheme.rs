//! Recognition of activation URLs by their custom-scheme prefix.
//!
//! An argument or URL is treated as an activation only when it begins with the
//! recognized scheme; anything else is ignored at every entry point.  No
//! further validation of the URL contents is performed.

use vstd::prelude::*;
use vstd::string::StrSliceExecFns;

verus! {

/// The recognized custom-scheme prefix.
pub open spec fn scheme_prefix() -> Seq<char> {
    "promptvault://"@
}

/// A string is an activation URL exactly when it begins with the recognized
/// scheme prefix.
pub open spec fn is_activation_url(s: Seq<char>) -> bool {
    s.len() >= scheme_prefix().len() && s.subrange(0, scheme_prefix().len() as int)
        == scheme_prefix()
}

/// Whether `s` begins with `p`, character by character.
pub fn str_starts_with(s: &str, p: &str) -> (r: bool)
    ensures
        r == (s@.len() >= p@.len() && s@.subrange(0, p@.len() as int) == p@),
{
    let sl: usize = s.unicode_len();
    let pl: usize = p.unicode_len();
    if sl < pl {
        return false;
    }
    let mut i: usize = 0;
    while i < pl
        invariant
            i <= pl,
            pl == p@.len(),
            sl == s@.len(),
            pl <= sl,
            forall|j: int| 0 <= j < i ==> s@[j] == p@[j],
        decreases pl - i,
    {
        if s.get_char(i) != p.get_char(i) {
            proof {
                assert(s@.subrange(0, pl as int)[i as int] == s@[i as int]);
            }
            return false;
        }
        i += 1;
    }
    proof {
        assert(s@.subrange(0, pl as int) =~= p@);
    }
    true
}

/// Whether `s` carries the recognized activation scheme.
pub fn has_activation_scheme(s: &str) -> (r: bool)
    ensures
        r == is_activation_url(s@),
{
    str_starts_with(s, "promptvault://")
}

} // verus!
