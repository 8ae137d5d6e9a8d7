//! The HTTP-level reply the library computes; the embedding writes it out.

use vstd::prelude::*;

verus! {

/// The content type of a reply body.
pub enum ReplyContentType {
    Json,
    Text,
    Empty,
}

/// An HTTP reply: a status code, a content type and the body bytes.
pub struct HttpReply {
    pub status: u16,
    pub content_type: ReplyContentType,
    pub body: Vec<u8>,
}

/// ASCII lower case of one byte.
pub open spec fn spec_lower(b: u8) -> u8 {
    if 0x41 <= b && b <= 0x5a {
        (b + 0x20) as u8
    } else {
        b
    }
}

/// Case-blind equality with the `application/json` content type.
pub open spec fn spec_is_json_content_type(h: Seq<u8>) -> bool {
    let t = crate::tokens::spec_tok_ct_json();
    h.len() == t.len() && (forall|i: int| 0 <= i < h.len() ==> spec_lower(#[trigger] h[i]) == t[i])
}

/// Tests a content-type header for `application/json`, blind to letter
/// case, with no parameters accepted.
pub fn is_json_content_type(h: &Vec<u8>) -> (r: bool)
    ensures
        r == spec_is_json_content_type(h@),
{
    let t = crate::tokens::tok_ct_json();
    if h.len() != t.len() {
        return false;
    }
    let mut i: usize = 0;
    while i < h.len()
        invariant
            i <= h@.len(),
            h@.len() == t@.len(),
            t@ == crate::tokens::spec_tok_ct_json(),
            forall|j: int| 0 <= j < i ==> spec_lower(#[trigger] h@[j]) == t@[j],
        decreases h@.len() - i,
    {
        let b: u8 = h[i];
        let low: u8 = if 0x41 <= b && b <= 0x5a {
            b + 0x20
        } else {
            b
        };
        if low != t[i] {
            return false;
        }
        i = i + 1;
    }
    true
}

} // verus!
