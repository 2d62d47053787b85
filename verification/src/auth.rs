//! The access gate: a save request must carry a credential header whose
//! value, after one leading `"Basic "` scheme prefix is removed, equals the
//! configured secret exactly.  Reads are unauthenticated by design.

use vstd::prelude::*;

verus! {

/// The view of an optional header value.
pub open spec fn text_of(o: Option<&str>) -> Option<Seq<char>> {
    match o {
        Some(s) => Some(s@),
        None => None,
    }
}

/// The credential carried by a header value: the text after one leading
/// `"Basic "` prefix, or the whole value when the prefix is absent.
pub open spec fn credential_of(header: Seq<char>) -> Seq<char> {
    if header.len() >= 6 && header.subrange(0, 6) == "Basic "@ {
        header.subrange(6, header.len() as int)
    } else {
        header
    }
}

/// A request is authorized when the header is present and its credential
/// equals the secret.
pub open spec fn auth_ok(secret: Seq<char>, header: Option<Seq<char>>) -> bool {
    match header {
        Some(h) => credential_of(h) == secret,
        None => false,
    }
}

/// Character-for-character equality of two string slices.
pub fn str_eq(a: &str, b: &str) -> (r: bool)
    ensures
        r == (a@ == b@),
{
    let alen = a.unicode_len();
    let blen = b.unicode_len();
    if alen != blen {
        return false;
    }
    let mut i: usize = 0;
    while i < alen
        invariant
            i <= alen,
            alen == a@.len(),
            alen == b@.len(),
            forall|j: int| 0 <= j < i ==> a@[j] == b@[j],
        decreases alen - i,
    {
        let ca = a.get_char(i);
        let cb = b.get_char(i);
        if ca != cb {
            return false;
        }
        i += 1;
    }
    proof {
        assert(a@ =~= b@);
    }
    true
}

/// Decide whether a caller-supplied credential header authorizes a write:
/// strip one `"Basic "` prefix and compare the remainder to the secret.
pub fn check_auth(secret: &str, header: Option<&str>) -> (ok: bool)
    ensures
        ok == auth_ok(secret@, text_of(header)),
{
    match header {
        None => false,
        Some(h) => {
            let hlen = h.unicode_len();
            if hlen >= 6 {
                let prefix = h.substring_char(0, 6);
                if str_eq(prefix, "Basic ") {
                    let rest = h.substring_char(6, hlen);
                    str_eq(rest, secret)
                } else {
                    str_eq(h, secret)
                }
            } else {
                str_eq(h, secret)
            }
        },
    }
}

} // verus!
