//! Path-level helpers around pastes: splitting a requested identifier
//! into the paste id and an optional display extension, recognising the
//! explicit view path, and the page a paste lives at.

use vstd::prelude::*;

use crate::models::{Paste, PasteView};
use crate::strutil::has_substring;

verus! {

/// `i` is the position of the first occurrence of `c` in `s`.
pub open spec fn is_first_at(s: Seq<char>, c: char, i: int) -> bool {
    0 <= i < s.len() && s[i] == c && forall|j: int| 0 <= j < i ==> s[j] != c
}

/// No occurrence of `c` follows position `i` in `s`.
pub open spec fn none_after(s: Seq<char>, c: char, i: int) -> bool {
    forall|j: int| i < j < s.len() ==> s[j] != c
}

/// Split a requested paste identifier on its first dot: the part before
/// the dot names the paste, and the part after it is taken as a display
/// extension only when that dot is the only one.  Without a dot the
/// whole string names the paste and the extension is empty.
pub fn split_paste_id(raw: &str) -> (r: (String, String))
    ensures
        !raw@.contains('.') ==> r.0@ == raw@ && r.1@ == Seq::<char>::empty(),
        raw@.contains('.') ==> exists|i: int|
            #[trigger] is_first_at(raw@, '.', i) && r.0@ == raw@.subrange(0, i) && (if none_after(
                raw@,
                '.',
                i,
            ) {
                r.1@ == raw@.subrange(i + 1, raw@.len() as int)
            } else {
                r.1@ == Seq::<char>::empty()
            }),
{
    let len = raw.unicode_len();
    let mut first: Option<usize> = None;
    for k in 0..len
        invariant
            len == raw@.len(),
            match first {
                Some(i) => is_first_at(raw@, '.', i as int) && i < k,
                None => forall|j: int| 0 <= j < k ==> raw@[j] != '.',
            },
    {
        if first.is_none() && raw.get_char(k) == '.' {
            first = Some(k);
        }
    }
    match first {
        None => {
            assert(!raw@.contains('.'));
            let base = String::from_str(raw);
            (base, String::new())
        },
        Some(i) => {
            assert(raw@.contains('.')) by {
                assert(raw@[i as int] == '.');
            }
            let mut second = false;
            let mut k = i + 1;
            while k < len
                invariant
                    len == raw@.len(),
                    i < k <= len,
                    i < len,
                    second ==> exists|j: int| i < j < raw@.len() && #[trigger] raw@[j] == '.',
                    !second ==> forall|j: int| i < j < k ==> raw@[j] != '.',
                decreases len - k,
            {
                if raw.get_char(k) == '.' {
                    second = true;
                    assert(i < k < raw@.len() && raw@[k as int] == '.');
                }
                k = k + 1;
            }
            let base = String::from_str(raw.substring_char(0, i));
            if second {
                proof {
                    let j = choose|j: int| i < j < raw@.len() && raw@[j] == '.';
                    assert(!none_after(raw@, '.', i as int));
                }
                (base, String::new())
            } else {
                assert(none_after(raw@, '.', i as int));
                let ext = String::from_str(raw.substring_char(i + 1, len));
                (base, ext)
            }
        },
    }
}

/// True iff the request path asks for the explicit view of a paste
/// rather than its redirect.
pub fn uri_requests_view(uri: &str) -> (r: bool)
    ensures
        r == has_substring(uri@, "/v/"@),
{
    crate::strutil::contains_substring(uri, "/v/")
}

/// The page a paste lives at: content classified as a URL is linked
/// through the explicit view path, everything else through the plain
/// paste path.
pub open spec fn spec_paste_location(p: PasteView) -> Seq<char> {
    if p.is_url {
        "/v/"@ + p.id
    } else {
        "/"@ + p.id
    }
}

/// The location a caller is sent to after creating or editing a paste.
pub fn paste_location(paste: &Paste) -> (r: String)
    ensures
        r@ == spec_paste_location(paste@),
{
    if paste.is_url {
        let base = String::from_str("/v/");
        base.concat(paste.id.as_str())
    } else {
        let base = String::from_str("/");
        base.concat(paste.id.as_str())
    }
}

} // verus!
