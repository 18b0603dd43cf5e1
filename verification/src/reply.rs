//! The HTTP replies that the library decides on; the server sends them.

use vstd::prelude::*;
use crate::strmap::{owned_pairs, Pairs};

verus! {

/// The body of a reply.
#[derive(Debug)]
pub enum ReplyBody {
    Text(String),
    Bytes(Vec<u8>),
}

/// A status, header lines in order, and a body.
#[derive(Debug)]
pub struct Reply {
    pub status: u16,
    pub headers: Vec<(String, String)>,
    pub body: ReplyBody,
}

impl Reply {
    /// The header lines, taken by their views.
    pub open spec fn header_pairs(&self) -> Pairs {
        owned_pairs(self.headers@)
    }

    /// Whether the body is the text `t`.
    pub open spec fn has_text(&self, t: Seq<char>) -> bool {
        self.body matches ReplyBody::Text(b) && b@ == t
    }
}

/// A reply with a text body and the given header lines.
pub fn text_reply(status: u16, headers: Vec<(String, String)>, body: String) -> (r: Reply)
    ensures
        r.status == status,
        r.headers@ == headers@,
        r.body == ReplyBody::Text(body),
{
    Reply { status, headers, body: ReplyBody::Text(body) }
}

/// A single header line.
pub fn header_line(name: &str, value: &str) -> (h: Vec<(String, String)>)
    ensures
        owned_pairs(h@) == seq![(name@, value@)],
{
    let mut h: Vec<(String, String)> = Vec::new();
    h.push((String::from_str(name), String::from_str(value)));
    assert(owned_pairs(h@) =~= seq![(name@, value@)]);
    h
}

} // verus!
