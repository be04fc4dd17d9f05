//! Character-level string helpers: equality and the bearer-scheme prefix.

use vstd::prelude::*;

verus! {

use vstd::string::StrSliceExecFns;

/// Whether two strings hold the same characters.
pub fn str_eq(a: &str, b: &str) -> (r: bool)
    ensures
        r == (a@ == b@),
{
    let la = a.unicode_len();
    let lb = b.unicode_len();
    if la != lb {
        return false;
    }
    let mut i: usize = 0;
    while i < la
        invariant
            la == a@.len(),
            la == b@.len(),
            0 <= i <= la,
            forall|j: int| 0 <= j < i ==> a@[j] == b@[j],
        decreases la - i,
    {
        if a.get_char(i) != b.get_char(i) {
            return false;
        }
        i = i + 1;
    }
    proof {
        assert(a@ =~= b@);
    }
    true
}

/// The number of characters in the scheme prefix `"Bearer "`.
pub const BEARER_PREFIX_LEN: usize = 7;

/// Whether a header value starts with the scheme prefix `"Bearer "`.
pub open spec fn spec_is_bearer(h: Seq<char>) -> bool {
    &&& h.len() >= 7
    &&& h[0] == 'B'
    &&& h[1] == 'e'
    &&& h[2] == 'a'
    &&& h[3] == 'r'
    &&& h[4] == 'e'
    &&& h[5] == 'r'
    &&& h[6] == ' '
}

/// The token part of a header value that starts with `"Bearer "`: everything
/// after the prefix.
pub open spec fn spec_bearer_token(h: Seq<char>) -> Seq<char> {
    h.skip(7)
}

/// Strips the `"Bearer "` prefix from a header value, returning the token
/// part, or nothing when the prefix is absent.
pub fn bearer_token<'a>(header: &'a str) -> (r: Option<&'a str>)
    ensures
        match r {
            Some(t) => spec_is_bearer(header@) && t@ == spec_bearer_token(header@),
            None => !spec_is_bearer(header@),
        },
{
    let len = header.unicode_len();
    if len < BEARER_PREFIX_LEN {
        return None;
    }
    if header.get_char(0) != 'B' || header.get_char(1) != 'e' || header.get_char(2) != 'a'
        || header.get_char(3) != 'r' || header.get_char(4) != 'e' || header.get_char(5) != 'r'
        || header.get_char(6) != ' ' {
        return None;
    }
    let token = header.substring_char(BEARER_PREFIX_LEN, len);
    proof {
        assert(token@ =~= spec_bearer_token(header@));
    }
    Some(token)
}

} // verus!
