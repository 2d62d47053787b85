//! Parsing a display name out of a content-disposition style header: the text
//! after the first `"filename="` up to the next `';'` (or the end of the
//! header), with one pair of surrounding double quotes removed.

use vstd::prelude::*;
use crate::auth::str_eq;

verus! {

/// Index of the first occurrence of `key` in `h` at or after `from`.
pub open spec fn find_from(h: Seq<char>, key: Seq<char>, from: int) -> Option<int>
    decreases h.len() - from
        when 0 <= from && key.len() > 0
{
    if from + key.len() > h.len() {
        None
    } else if h.subrange(from, from + key.len()) == key {
        Some(from)
    } else {
        find_from(h, key, from + 1)
    }
}

/// Where `find_from` answers, the answer is a real match at or after `from`.
pub proof fn lemma_find_from_some(h: Seq<char>, key: Seq<char>, from: int, i: int)
    requires
        0 <= from,
        key.len() > 0,
        find_from(h, key, from) == Some(i),
    ensures
        from <= i,
        i + key.len() <= h.len(),
        h.subrange(i, i + key.len()) == key,
    decreases h.len() - from,
{
    if from + key.len() > h.len() {
    } else if h.subrange(from, from + key.len()) == key {
    } else {
        lemma_find_from_some(h, key, from + 1, i);
    }
}

/// `v` with one pair of surrounding double quotes removed.
pub open spec fn unquoted(v: Seq<char>) -> Seq<char> {
    if v.len() >= 2 && v[0] == '"' && v[v.len() - 1] == '"' {
        v.subrange(1, v.len() - 1)
    } else {
        v
    }
}

/// The filename a content-disposition style header carries, if any.
pub open spec fn parsed_filename(h: Seq<char>) -> Option<Seq<char>> {
    match find_from(h, "filename="@, 0) {
        None => None,
        Some(i) => {
            let start = i + "filename="@.len();
            let end = match find_from(h, ";"@, start) {
                Some(j) => j,
                None => h.len() as int,
            };
            Some(unquoted(h.subrange(start, end)))
        },
    }
}

/// Find the first occurrence of `key` in `h` at or after `from`.
pub fn find_str(h: &str, key: &str, from: usize) -> (r: Option<usize>)
    requires
        key@.len() > 0,
        from <= h@.len(),
    ensures
        (match r {
            Some(i) => find_from(h@, key@, from as int) == Some(i as int),
            None => find_from(h@, key@, from as int) == None::<int>,
        }),
{
    let hlen = h.unicode_len();
    let klen = key.unicode_len();
    if klen > hlen || from > hlen - klen {
        proof {
            assert(find_from(h@, key@, from as int) == None::<int>);
        }
        return None;
    }
    let mut i: usize = from;
    while i <= hlen - klen
        invariant
            from <= i <= hlen - klen + 1,
            hlen == h@.len(),
            klen == key@.len(),
            1 <= klen <= hlen,
            find_from(h@, key@, from as int) == find_from(h@, key@, i as int),
        decreases hlen - klen + 1 - i,
    {
        let seg = h.substring_char(i, i + klen);
        if str_eq(seg, key) {
            proof {
                assert(find_from(h@, key@, i as int) == Some(i as int));
            }
            return Some(i);
        }
        proof {
            assert(find_from(h@, key@, i as int) == find_from(h@, key@, i as int + 1));
        }
        i += 1;
    }
    proof {
        assert(find_from(h@, key@, i as int) == None::<int>);
    }
    None
}

/// Extract the filename from a content-disposition style header value.
pub fn get_filename(h: &str) -> (r: Option<String>)
    ensures
        (match r {
            Some(s) => parsed_filename(h@) == Some(s@),
            None => parsed_filename(h@) == None::<Seq<char>>,
        }),
{
    let key = "filename=";
    proof {
        reveal_strlit("filename=");
        reveal_strlit(";");
    }
    let hlen = h.unicode_len();
    match find_str(h, key, 0) {
        None => None,
        Some(i) => {
            proof {
                lemma_find_from_some(h@, key@, 0, i as int);
            }
            let start = i + 9;
            let end = match find_str(h, ";", start) {
                Some(j) => {
                    proof {
                        lemma_find_from_some(h@, ";"@, start as int, j as int);
                    }
                    j
                },
                None => hlen,
            };
            let val = h.substring_char(start, end);
            let vlen = val.unicode_len();
            if vlen >= 2 && val.get_char(0) == '"' && val.get_char(vlen - 1) == '"' {
                let inner = val.substring_char(1, vlen - 1);
                Some(String::from_str(inner))
            } else {
                Some(String::from_str(val))
            }
        },
    }
}

} // verus!
