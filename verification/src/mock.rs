//! Answering a request to a mock API: the method check, the log entry that
//! records the request, and the reply that the API's definition calls for.

use vstd::prelude::*;
use crate::models::{is_timestamp_text, local_timestamp, LogEntry, MockApi, ResponseType};
use crate::paths::{join_path, joined};
use crate::reply::{header_line, text_reply, Reply, ReplyBody};
use crate::request::{
    client_ip_of, extract_client_ip, extract_user_agent, header_map, opt_view, text_pairs,
    user_agent_of, IncomingRequest,
};
use crate::strmap::{owned_pairs, pairs_map, Pairs, StrMap};
use crate::text::{lowercase, str_eq, to_lowercase};

verus! {

/// The error message for a request whose method is not the API's.
pub open spec fn method_error_text(expected: Seq<char>, got: Seq<char>) -> Seq<char> {
    "Method not allowed. Expected "@ + expected + ", got "@ + got
}

/// A JSON object with one `error` member holding `message`.
pub open spec fn error_json(message: Seq<char>) -> Seq<char> {
    "{\"error\": \""@ + message + "\"}"@
}

/// The `Content-Type` line of a JSON reply.
pub open spec fn json_content_type() -> Pairs {
    seq![("content-type"@, "application/json"@)]
}

/// The header lines of a JSON mock reply: the API's own, then a JSON
/// content type unless the API sets `Content-Type` or `content-type`.
pub open spec fn json_reply_headers(api: MockApi) -> Pairs {
    api.headers.pairs() + if api.headers@.contains_key("Content-Type"@) || api.headers@.contains_key(
        "content-type"@,
    ) {
        Seq::empty()
    } else {
        json_content_type()
    }
}

/// Law of JSON replies: a reply with the headers `json_reply` gives carries
/// exactly the API's own header lines when the API sets a content type
/// under the key `Content-Type` or `content-type`; otherwise it carries
/// them followed by one `content-type: application/json` line.
pub proof fn law_json_content_type(api: MockApi, r: Reply)
    requires
        r.header_pairs() == json_reply_headers(api),
    ensures
        (api.headers@.contains_key("Content-Type"@) || api.headers@.contains_key("content-type"@))
            ==> r.header_pairs() == api.headers.pairs(),
        !(api.headers@.contains_key("Content-Type"@) || api.headers@.contains_key("content-type"@))
            ==> r.header_pairs() == api.headers.pairs().push(("content-type"@, "application/json"@)),
{
    assert(api.headers.pairs() + Seq::<(Seq<char>, Seq<char>)>::empty() =~= api.headers.pairs());
    assert(api.headers.pairs() + seq![("content-type"@, "application/json"@)] =~= api.headers.pairs().push(
        ("content-type"@, "application/json"@),
    ));
}

/// The pairs whose lowercased name is not `content-type`.
pub open spec fn without_content_type(p: Pairs) -> Pairs
    decreases p.len(),
{
    if p.len() == 0 {
        Seq::empty()
    } else {
        let rest = without_content_type(p.drop_last());
        if lowercase(p.last().0) == "content-type"@ {
            rest
        } else {
            rest.push(p.last())
        }
    }
}

/// The header lines of a file reply: the API's content type (or
/// `application/octet-stream`), an attachment disposition where the API
/// names the file, then the API's own headers except any content type.
pub open spec fn file_reply_headers(api: MockApi) -> Pairs {
    seq![
        ("content-type"@, match api.content_type {
            Some(c) => c@,
            None => "application/octet-stream"@,
        }),
    ] + match api.file_name {
        Some(n) => seq![("content-disposition"@, "attachment; filename=\""@ + n@ + "\""@)],
        None => Seq::empty(),
    } + without_content_type(api.headers.pairs())
}

/// What the server does next for a mock request.
#[derive(Debug)]
pub enum MockAction {
    /// Send this reply.
    Reply(Reply),
    /// Read the file at this path and answer with `file_reply`.
    ReadFile(String),
}

/// The log entry for a mock request and what to do for it.
#[derive(Debug)]
pub struct MockOutcome {
    pub log: LogEntry,
    pub action: MockAction,
}

/// The reply of an API whose response file cannot be located or read.
pub open spec fn is_error_reply(r: Reply, status: u16, message: Seq<char>) -> bool {
    &&& r.status == status
    &&& r.header_pairs() == json_content_type()
    &&& r.has_text(error_json(message))
}

/// `out` is how an API answers `req` at time `ts`, with files under `data_dir`.
/// The log entry records the status of the reply, and an error message
/// whenever the reply is an error: a wrong method gets 405; a JSON API
/// answers 200 with its body; a file API without a file path answers 500;
/// a file API with a path asks for its file to be read, and its entry,
/// still marked 200 without error, is finished by `complete_file_request`
/// once the read is done.
pub open spec fn is_planned(
    api: MockApi,
    req: IncomingRequest,
    data_dir: Seq<char>,
    ts: Seq<char>,
    out: MockOutcome,
) -> bool {
    let method_ok = req.method@ == api.method@;
    &&& out.log.timestamp@ == ts
    &&& out.log.method@ == req.method@
    &&& out.log.url@ == req.uri@
    &&& out.log.headers@ == pairs_map(text_pairs(req.headers@, false))
    &&& out.log.request_body@ == req.body@
    &&& out.log.client_ip@ == client_ip_of(req.headers@, req.peer_ip@)
    &&& out.log.user_agent@ == user_agent_of(req.headers@)
    &&& if !method_ok {
        &&& out.log.status_code == 405
        &&& out.log.error matches Some(e) && e@ == method_error_text(api.method@, req.method@)
        &&& out.action matches MockAction::Reply(r) && is_error_reply(
            r,
            405,
            method_error_text(api.method@, req.method@),
        )
    } else {
        match api.response_type {
            ResponseType::Json => {
                &&& out.log.status_code == 200
                &&& out.log.error is None
                &&& out.action matches MockAction::Reply(r) && r.status == 200
                    && r.header_pairs() == json_reply_headers(api) && r.has_text(
                    api.response_body@,
                )
            },
            ResponseType::File => match api.file_path {
                Some(fp) => {
                    &&& out.log.status_code == 200
                    &&& out.log.error is None
                    &&& out.action matches MockAction::ReadFile(p) && p@ == joined(data_dir, fp@)
                },
                None => {
                    &&& out.log.status_code == 500
                    &&& out.log.error matches Some(e) && e@ == "File path not configured for this API"@
                    &&& out.action matches MockAction::Reply(r) && is_error_reply(
                        r,
                        500,
                        "File path not configured for this API"@,
                    )
                },
            },
        }
    }
}

/// The reply `r` of a file API given the outcome `data` of reading its
/// file: the bytes with the API's headers, 404 where the file could not be
/// read, 500 where the API has no file path.
pub open spec fn is_file_reply(api: MockApi, data: Option<Vec<u8>>, r: Reply) -> bool {
    match api.file_path {
        None => is_error_reply(r, 500, "File path not configured for this API"@),
        Some(fp) => match data {
            Some(d) => r.status == 200 && r.header_pairs() == file_reply_headers(api) && r.body
                == ReplyBody::Bytes(d),
            None => is_error_reply(r, 404, "File not found or cannot be read: "@ + fp@),
        },
    }
}

/// The error message of a file API's reply, if it is an error.
pub open spec fn file_error_message(api: MockApi, data: Option<Vec<u8>>) -> Option<Seq<char>> {
    match api.file_path {
        None => Some("File path not configured for this API"@),
        Some(fp) => match data {
            Some(_) => None,
            None => Some("File not found or cannot be read: "@ + fp@),
        },
    }
}

/// The reply of a file request and its finished log entry.
#[derive(Debug)]
pub struct FileAnswer {
    pub reply: Reply,
    pub log: LogEntry,
}

/// Appends the pairs of `m` to `out`, leaving out content types if asked.
fn append_headers(m: &StrMap, out: &mut Vec<(String, String)>, skip_content_type: bool)
    ensures
        owned_pairs(final(out)@) == owned_pairs(old(out)@) + if skip_content_type {
            without_content_type(m.pairs())
        } else {
            m.pairs()
        },
{
    let n = m.len();
    let mut i: usize = 0;
    let ghost start = owned_pairs(out@);
    assert(m.pairs().take(0) =~= Seq::<(Seq<char>, Seq<char>)>::empty());
    while i < n
        invariant
            n == m.pairs().len(),
            i <= n,
            owned_pairs(out@) =~= start + if skip_content_type {
                without_content_type(m.pairs().take(i as int))
            } else {
                m.pairs().take(i as int)
            },
        decreases n - i,
    {
        let k = m.key_at(i);
        let v = m.value_at(i);
        let ghost pre = m.pairs().take(i as int);
        assert(m.pairs().take(i + 1).drop_last() =~= pre);
        assert(m.pairs().take(i + 1).last() == m.pairs()[i as int]);
        let keep = if skip_content_type {
            let lk = to_lowercase(k.as_str());
            !str_eq(lk.as_str(), "content-type")
        } else {
            true
        };
        let ghost before = owned_pairs(out@);
        if keep {
            out.push((k.clone(), v.clone()));
            assert(owned_pairs(out@) =~= before.push(m.pairs()[i as int]));
        }
        assert(m.pairs().take(i + 1) =~= pre.push(m.pairs()[i as int]));
        if skip_content_type {
            assert(without_content_type(m.pairs().take(i + 1)) == if keep {
                without_content_type(pre).push(m.pairs()[i as int])
            } else {
                without_content_type(pre)
            });
        }
        i = i + 1;
    }
    assert(m.pairs().take(n as int) =~= m.pairs());
}

/// The reply of a JSON mock API.
pub fn json_reply(api: &MockApi) -> (r: Reply)
    ensures
        r.status == 200,
        r.header_pairs() == json_reply_headers(*api),
        r.has_text(api.response_body@),
{
    let mut headers: Vec<(String, String)> = Vec::new();
    assert(owned_pairs(headers@) =~= Seq::<(Seq<char>, Seq<char>)>::empty());
    append_headers(&api.headers, &mut headers, false);
    if !api.headers.contains_key("Content-Type") && !api.headers.contains_key("content-type") {
        let mut extra = header_line("content-type", "application/json");
        headers.append(&mut extra);
    }
    assert(owned_pairs(headers@) =~= json_reply_headers(*api));
    text_reply(200, headers, api.response_body.clone())
}

/// A JSON error reply with the given status and message.
pub fn error_reply(status: u16, message: String) -> (r: Reply)
    ensures
        is_error_reply(r, status, message@),
{
    let mut body = String::from_str("{\"error\": \"");
    body.append(message.as_str());
    body.append("\"}");
    let r = text_reply(status, header_line("content-type", "application/json"), body);
    assert(r.header_pairs() =~= json_content_type());
    r
}

/// The reply of a file mock API once its file has been read: the bytes
/// with the API's headers, or 404 where the file could not be read.
pub fn file_reply(api: &MockApi, data: Option<Vec<u8>>) -> (r: Reply)
    ensures
        is_file_reply(*api, data, r),
{
    let fp = match &api.file_path {
        Some(fp) => fp,
        None => {
            return error_reply(500, String::from_str("File path not configured for this API"));
        },
    };
    match data {
        Some(d) => {
            let ct = match &api.content_type {
                Some(c) => c.clone(),
                None => String::from_str("application/octet-stream"),
            };
            let mut headers = header_line("content-type", ct.as_str());
            match &api.file_name {
                Some(n) => {
                    let mut disposition = String::from_str("attachment; filename=\"");
                    disposition.append(n.as_str());
                    disposition.append("\"");
                    let mut extra = header_line("content-disposition", disposition.as_str());
                    headers.append(&mut extra);
                },
                None => {},
            }
            append_headers(&api.headers, &mut headers, true);
            assert(owned_pairs(headers@) =~= file_reply_headers(*api));
            Reply { status: 200, headers, body: ReplyBody::Bytes(d) }
        },
        None => {
            let mut message = String::from_str("File not found or cannot be read: ");
            message.append(fp.as_str());
            error_reply(404, message)
        },
    }
}

/// Finishes the log entry of a file request once its file has been read:
/// the entry takes the status of the reply, and the reply's error message
/// where it is an error.
pub fn complete_file_request(api: &MockApi, log: LogEntry, data: Option<Vec<u8>>) -> (a: FileAnswer)
    ensures
        is_file_reply(*api, data, a.reply),
        a.log == (LogEntry { status_code: a.reply.status, error: a.log.error, ..log }),
        opt_view(a.log.error) == file_error_message(*api, data),
{
    let error = match &api.file_path {
        None => Some(String::from_str("File path not configured for this API")),
        Some(fp) => match &data {
            Some(_) => None,
            None => {
                let mut m = String::from_str("File not found or cannot be read: ");
                m.append(fp.as_str());
                Some(m)
            },
        },
    };
    let reply = file_reply(api, data);
    let mut log = log;
    log.status_code = reply.status;
    log.error = error;
    FileAnswer { reply, log }
}

/// How `api` answers `req` at time `timestamp`, with files under `data_dir`.
pub fn plan_mock_response(
    api: &MockApi,
    req: &IncomingRequest,
    data_dir: &str,
    timestamp: String,
) -> (out: MockOutcome)
    ensures
        is_planned(*api, *req, data_dir@, timestamp@, out),
{
    let client_ip = extract_client_ip(&req.headers, req.peer_ip.as_str());
    let user_agent = extract_user_agent(&req.headers);
    let request_headers = header_map(&req.headers, false);
    if !str_eq(req.method.as_str(), api.method.as_str()) {
        let mut message = String::from_str("Method not allowed. Expected ");
        message.append(api.method.as_str());
        message.append(", got ");
        message.append(req.method.as_str());
        let reply = error_reply(405, message.clone());
        let log = LogEntry::with_timestamp(
            timestamp,
            req.method.clone(),
            req.uri.clone(),
            request_headers,
            req.body.clone(),
            405,
            client_ip,
            user_agent,
            Some(message),
        );
        return MockOutcome { log, action: MockAction::Reply(reply) };
    }
    let (status, error, action) = match api.response_type {
        ResponseType::Json => (200u16, None, MockAction::Reply(json_reply(api))),
        ResponseType::File => match &api.file_path {
            Some(fp) => (200u16, None, MockAction::ReadFile(join_path(data_dir, fp.as_str()))),
            None => {
                let message = String::from_str("File path not configured for this API");
                let reply = error_reply(500, message.clone());
                (500u16, Some(message), MockAction::Reply(reply))
            },
        },
    };
    let log = LogEntry::with_timestamp(
        timestamp,
        req.method.clone(),
        req.uri.clone(),
        request_headers,
        req.body.clone(),
        status,
        client_ip,
        user_agent,
        error,
    );
    MockOutcome { log, action }
}

/// How `api` answers `req` now, with files under `data_dir`.
pub fn handle_mock_request(api: &MockApi, req: &IncomingRequest, data_dir: &str) -> (out:
    MockOutcome)
    ensures
        is_planned(*api, *req, data_dir@, out.log.timestamp@, out),
        is_timestamp_text(out.log.timestamp@),
{
    plan_mock_response(api, req, data_dir, local_timestamp())
}

} // verus!
