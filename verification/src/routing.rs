//! Requests from the application's pages arrive as `whispy://localhost/<name>`;
//! this module finds the endpoint name in such an address.
use vstd::prelude::*;
use crate::text::chars_of;

verus! {

/// The address with `whispy://localhost/`, or failing that
/// `whispy://localhost`, removed from its front; unchanged when it starts
/// with neither.
pub open spec fn endpoint_path(uri: Seq<char>) -> Seq<char> {
    let with_slash = "whispy://localhost/"@;
    let bare = "whispy://localhost"@;
    if with_slash.is_prefix_of(uri) {
        uri.skip(with_slash.len() as int)
    } else if bare.is_prefix_of(uri) {
        uri.skip(bare.len() as int)
    } else {
        uri
    }
}

fn starts_with(s: &Vec<char>, prefix: &Vec<char>) -> (b: bool)
    ensures
        b == prefix@.is_prefix_of(s@),
{
    let m = prefix.len();
    if m > s.len() {
        return false;
    }
    let mut i: usize = 0;
    while i < m
        invariant
            i <= m,
            m == prefix@.len(),
            m <= s@.len(),
            forall|k: int| 0 <= k < i ==> s@[k] == prefix@[k],
        decreases m - i,
    {
        if s[i] != prefix[i] {
            proof {
                assert(s@.take(m as int)[i as int] == s@[i as int]);
            }
            return false;
        }
        i = i + 1;
    }
    proof {
        assert(prefix@ =~= s@.take(m as int));
    }
    true
}

/// The endpoint name of a request address.
pub fn endpoint_of(uri: &str) -> (path: String)
    ensures
        path@ == endpoint_path(uri@),
{
    let cs = chars_of(uri);
    let with_slash = chars_of("whispy://localhost/");
    let bare = chars_of("whispy://localhost");
    let n = cs.len();
    let start: usize = if starts_with(&cs, &with_slash) {
        with_slash.len()
    } else if starts_with(&cs, &bare) {
        bare.len()
    } else {
        0
    };
    proof {
        assert(uri@.skip(0) =~= uri@);
    }
    let piece: &str = uri.substring_char(start, n);
    proof {
        assert(piece@ =~= uri@.skip(start as int));
    }
    piece.to_owned()
}

} // verus!
