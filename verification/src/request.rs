//! What the library reads from an incoming request: header lookups, the
//! client address behind proxies, the user agent, and header maps.

use vstd::prelude::*;
use crate::strmap::{pairs_map, Pairs, StrMap};
use crate::text::{lowercase, split, split_on, str_eq, strip_prefix, strip_prefix_spec, trim, trimmed, to_lowercase};

verus! {

/// One request header line. The name is the lowercase header name; the value
/// is `None` where it is not visible ASCII text.
#[derive(Debug)]
pub struct RequestHeader {
    pub name: String,
    pub value: Option<String>,
}

/// An incoming request to a mock API.
#[derive(Debug)]
pub struct IncomingRequest {
    pub method: String,
    pub uri: String,
    pub headers: Vec<RequestHeader>,
    pub body: String,
    pub peer_ip: String,
}

/// The view of an optional string.
pub open spec fn opt_view(o: Option<String>) -> Option<Seq<char>> {
    match o {
        Some(s) => Some(s@),
        None => None,
    }
}

/// The value of the first header line named `name`, as the header map
/// returns it: `None` where there is no such line, `Some(None)` where its
/// value is not text.
pub open spec fn first_header(hs: Seq<RequestHeader>, name: Seq<char>) -> Option<Option<Seq<char>>>
    decreases hs.len(),
{
    if hs.len() == 0 {
        None
    } else if hs[0].name@ == name {
        Some(opt_view(hs[0].value))
    } else {
        first_header(hs.drop_first(), name)
    }
}

/// The text value of the first header line named `name`, if it has one.
pub open spec fn header_text(hs: Seq<RequestHeader>, name: Seq<char>) -> Option<Seq<char>> {
    match first_header(hs, name) {
        Some(Some(v)) => Some(v),
        _ => None,
    }
}

/// The first `for=` value among the `;`-separated parts of a `Forwarded`
/// header, each part trimmed.
pub open spec fn forwarded_for(parts: Seq<Seq<char>>) -> Option<Seq<char>>
    decreases parts.len(),
{
    if parts.len() == 0 {
        None
    } else {
        match strip_prefix_spec(trimmed(parts[0]), "for="@) {
            Some(r) => Some(r),
            None => forwarded_for(parts.drop_first()),
        }
    }
}

/// The client address: the first entry of `X-Forwarded-For`, trimmed;
/// else `X-Real-IP`; else the `for=` value of `Forwarded`; else the address
/// of the connection.
pub open spec fn client_ip_of(hs: Seq<RequestHeader>, peer: Seq<char>) -> Seq<char> {
    match header_text(hs, "x-forwarded-for"@) {
        Some(v) => trimmed(split_on(v, ',')[0]),
        None => match header_text(hs, "x-real-ip"@) {
            Some(v) => v,
            None => match header_text(hs, "forwarded"@) {
                Some(v) => match forwarded_for(split_on(v, ';')) {
                    Some(f) => f,
                    None => peer,
                },
                None => peer,
            },
        },
    }
}

/// Law of client addresses: whenever the first `X-Forwarded-For` line has a
/// text value `v`, the client address is `v` up to its first comma (all of
/// `v` where it has none), trimmed, whatever the other headers and the
/// connection's address are.
pub proof fn law_forwarded_for_first_entry(
    hs: Seq<RequestHeader>,
    peer: Seq<char>,
    v: Seq<char>,
    k: int,
)
    requires
        header_text(hs, "x-forwarded-for"@) == Some(v),
        0 <= k <= v.len(),
        k == v.len() || v[k] == ',',
        forall|j: int| 0 <= j < k ==> v[j] != ',',
    ensures
        client_ip_of(hs, peer) == trimmed(v.subrange(0, k)),
{
    crate::text::lemma_split_first(v, ',', k);
}

/// The `User-Agent` header, or `Unknown`.
pub open spec fn user_agent_of(hs: Seq<RequestHeader>) -> Seq<char> {
    match header_text(hs, "user-agent"@) {
        Some(v) => v,
        None => "Unknown"@,
    }
}

/// The header lines with text values, as pairs; with `lower`, names are
/// lowercased.
pub open spec fn text_pairs(hs: Seq<RequestHeader>, lower: bool) -> Pairs
    decreases hs.len(),
{
    if hs.len() == 0 {
        Seq::empty()
    } else {
        let rest = text_pairs(hs.drop_last(), lower);
        match hs.last().value {
            Some(v) => rest.push(
                (
                    if lower {
                        lowercase(hs.last().name@)
                    } else {
                        hs.last().name@
                    },
                    v@,
                ),
            ),
            None => rest,
        }
    }
}

/// The value of the first header line named `name`, if it is text.
pub fn header_value<'a>(headers: &'a Vec<RequestHeader>, name: &str) -> (r: Option<&'a String>)
    ensures
        match r {
            Some(v) => header_text(headers@, name@) == Some(v@),
            None => header_text(headers@, name@) is None,
        },
{
    let n = headers.len();
    let mut i: usize = 0;
    assert(headers@.subrange(0, n as int) =~= headers@);
    while i < n
        invariant
            n == headers@.len(),
            i <= n,
            first_header(headers@, name@) == first_header(
                headers@.subrange(i as int, n as int),
                name@,
            ),
        decreases n - i,
    {
        let ghost rest = headers@.subrange(i as int, n as int);
        assert(rest[0] == headers@[i as int]);
        if str_eq(headers[i].name.as_str(), name) {
            return match &headers[i].value {
                Some(v) => Some(v),
                None => None,
            };
        }
        assert(rest.drop_first() =~= headers@.subrange(i + 1, n as int));
        i = i + 1;
    }
    None
}

/// The first `for=` value of a `Forwarded` header.
fn forwarded_for_value(value: &str) -> (r: Option<String>)
    ensures
        opt_view(r) == forwarded_for(split_on(value@, ';')),
{
    let parts = split(value, ';');
    let n = parts.len();
    let ghost ps = crate::text::views(parts@);
    let mut i: usize = 0;
    assert(ps.subrange(0, n as int) =~= ps);
    while i < n
        invariant
            n == parts@.len(),
            ps == crate::text::views(parts@),
            ps == split_on(value@, ';'),
            i <= n,
            forwarded_for(ps) == forwarded_for(ps.subrange(i as int, n as int)),
        decreases n - i,
    {
        let ghost rest = ps.subrange(i as int, n as int);
        assert(rest[0] == parts@[i as int]@);
        let t = trim(parts[i].as_str());
        match strip_prefix(t.as_str(), "for=") {
            Some(r) => {
                return Some(r);
            },
            None => {},
        }
        assert(rest.drop_first() =~= ps.subrange(i + 1, n as int));
        i = i + 1;
    }
    None
}

/// The client address of a request, looking through proxy headers first.
pub fn extract_client_ip(headers: &Vec<RequestHeader>, peer_ip: &str) -> (r: String)
    ensures
        r@ == client_ip_of(headers@, peer_ip@),
{
    match header_value(headers, "x-forwarded-for") {
        Some(v) => {
            let parts = split(v.as_str(), ',');
            return trim(parts[0].as_str());
        },
        None => {},
    }
    match header_value(headers, "x-real-ip") {
        Some(v) => {
            return v.clone();
        },
        None => {},
    }
    match header_value(headers, "forwarded") {
        Some(v) => match forwarded_for_value(v.as_str()) {
            Some(f) => {
                return f;
            },
            None => {},
        },
        None => {},
    }
    String::from_str(peer_ip)
}

/// The user agent of a request, or `Unknown`.
pub fn extract_user_agent(headers: &Vec<RequestHeader>) -> (r: String)
    ensures
        r@ == user_agent_of(headers@),
{
    match header_value(headers, "user-agent") {
        Some(v) => v.clone(),
        None => String::from_str("Unknown"),
    }
}

/// The map of the header lines with text values, later lines overriding
/// earlier ones; with `lower`, names are lowercased first.
pub fn header_map(headers: &Vec<RequestHeader>, lower: bool) -> (m: StrMap)
    ensures
        m@ == pairs_map(text_pairs(headers@, lower)),
{
    let mut m = StrMap::new();
    let n = headers.len();
    let mut i: usize = 0;
    while i < n
        invariant
            n == headers@.len(),
            i <= n,
            m@ == pairs_map(text_pairs(headers@.take(i as int), lower)),
        decreases n - i,
    {
        let ghost pre = headers@.take(i as int);
        assert(headers@.take(i + 1).drop_last() =~= pre);
        assert(headers@.take(i + 1).last() == headers@[i as int]);
        match &headers[i].value {
            Some(v) => {
                let key = if lower {
                    to_lowercase(headers[i].name.as_str())
                } else {
                    headers[i].name.clone()
                };
                let val = v.clone();
                assert(text_pairs(headers@.take(i + 1), lower) == text_pairs(pre, lower).push(
                    (key@, val@),
                ));
                assert(text_pairs(pre, lower).push((key@, val@)).drop_last() =~= text_pairs(
                    pre,
                    lower,
                ));
                m.insert(key, val);
            },
            None => {
                assert(text_pairs(headers@.take(i + 1), lower) == text_pairs(pre, lower));
            },
        }
        i = i + 1;
    }
    assert(headers@.take(n as int) =~= headers@);
    m
}

} // verus!
