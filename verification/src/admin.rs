//! The management side: saving API definitions, naming uploaded files,
//! and serving the embedded pages and assets.

use vstd::prelude::*;
use crate::models::{
    is_timestamp_text, is_uuid_v4_text, local_timestamp, new_v4_id, FileUploadResponse, LogEntry,
    MockApi, ResponseType, SaveApiRequest,
};
use crate::reply::{header_line, text_reply, Reply, ReplyBody};
use crate::request::opt_view;
use crate::strmap::StrMap;
use crate::text::{starts_with_char, starts_with_spec, str_eq};

verus! {

/// A URL as stored: it begins with `/`, which is added where missing.
pub open spec fn normalized_url(u: Seq<char>) -> Seq<char> {
    if starts_with_spec(u, '/') {
        u
    } else {
        "/"@ + u
    }
}

/// The stored form of a URL.
pub fn normalize_url(url: &str) -> (r: String)
    ensures
        r@ == normalized_url(url@),
{
    if starts_with_char(url, '/') {
        String::from_str(url)
    } else {
        let mut r = String::from_str("/");
        r.append(url);
        r
    }
}

/// A stored URL begins with `/`, and storing it again changes nothing.
pub proof fn lemma_normalized_url(u: Seq<char>)
    ensures
        starts_with_spec(normalized_url(u), '/'),
        normalized_url(normalized_url(u)) == normalized_url(u),
{
    reveal_strlit("/");
    if !starts_with_spec(u, '/') {
        assert(("/"@ + u)[0] == '/');
    }
}

/// How a saved definition reaches the store.
#[derive(Debug, Clone, Copy, PartialEq, Eq, Structural)]
pub enum SaveAction {
    /// Overwrite the stored API with the same identifier.
    Update,
    /// Store a new API in front of all others.
    InsertAtTop,
}

/// A definition to store and how to store it.
#[derive(Debug)]
pub struct SavePlan {
    pub action: SaveAction,
    pub api: MockApi,
}

/// `plan` stores `req` on top of the fresh API `fresh` at time `now`: an
/// identifier that names a stored API updates it, and both timestamps
/// become `now`; otherwise the API is new and goes to the top, keeping the
/// fresh creation time. Absent optional parts take their defaults.
pub open spec fn is_saved(
    req: SaveApiRequest,
    existing: bool,
    fresh: MockApi,
    now: Seq<char>,
    plan: SavePlan,
) -> bool {
    let update = req.id is Some && existing;
    let api = plan.api;
    &&& plan.action == if update {
        SaveAction::Update
    } else {
        SaveAction::InsertAtTop
    }
    &&& api.id == match req.id {
        Some(id) => id,
        None => fresh.id,
    }
    &&& api.name == fresh.name
    &&& api.method == fresh.method
    &&& api.url == fresh.url
    &&& api.headers@ == match req.headers {
        Some(h) => h@,
        None => Map::<Seq<char>, Seq<char>>::empty(),
    }
    &&& api.response_body@ == match req.response_body {
        Some(b) => b@,
        None => Seq::<char>::empty(),
    }
    &&& api.response_type == match req.response_type {
        Some(t) => t,
        None => ResponseType::Json,
    }
    &&& api.file_name == req.file_name
    &&& api.file_path == req.file_path
    &&& api.content_type == req.content_type
    &&& api.match_headers == req.match_headers
    &&& api.logs == fresh.logs
    &&& api.created_at@ == if update {
        now
    } else {
        fresh.created_at@
    }
    &&& api.updated_at@ == now
}

/// Law of saving: the saved API carries every optional part of the request
/// unchanged (content type, file name and path, match rules), takes the
/// request's identifier where it has one, its body, headers and response
/// type where given (else none, none and JSON), and is stamped `now`.
pub proof fn law_save_carries_request(
    req: SaveApiRequest,
    existing: bool,
    fresh: MockApi,
    now: Seq<char>,
    plan: SavePlan,
)
    requires
        is_saved(req, existing, fresh, now, plan),
    ensures
        plan.api.content_type == req.content_type,
        plan.api.file_name == req.file_name,
        plan.api.file_path == req.file_path,
        plan.api.match_headers == req.match_headers,
        req.id matches Some(id) ==> plan.api.id == id,
        req.response_body matches Some(b) ==> plan.api.response_body@ == b@,
        req.headers matches Some(h) ==> plan.api.headers@ == h@,
        req.response_type matches Some(t) ==> plan.api.response_type == t,
        req.response_type is None ==> plan.api.response_type == ResponseType::Json,
        plan.api.updated_at@ == now,
        (req.id is Some && existing) <==> plan.action == SaveAction::Update,
{
}

/// Stores `req` on top of the fresh API `fresh` at time `now`.
pub fn finish_save(req: SaveApiRequest, existing: bool, fresh: MockApi, now: String) -> (plan:
    SavePlan)
    ensures
        is_saved(req, existing, fresh, now@, plan),
{
    let ghost req0 = req;
    let ghost fresh0 = fresh;
    let update = req.id.is_some() && existing;
    let mut api = fresh;
    match req.id {
        Some(id) => {
            api.id = id;
        },
        None => {},
    }
    api.headers = match req.headers {
        Some(h) => h,
        None => StrMap::new(),
    };
    api.response_body = match req.response_body {
        Some(b) => b,
        None => String::new(),
    };
    api.response_type = match req.response_type {
        Some(t) => t,
        None => ResponseType::Json,
    };
    api.file_name = req.file_name;
    api.file_path = req.file_path;
    api.content_type = req.content_type;
    api.match_headers = req.match_headers;
    if update {
        api.created_at = now.clone();
    }
    api.updated_at = now;
    let action = if update {
        SaveAction::Update
    } else {
        SaveAction::InsertAtTop
    };
    SavePlan { action, api }
}

/// Turns a save request into the definition to store, stamped now. The
/// request's URL is normalized; a new API gets a random identifier.
/// `existing` tells whether the request's identifier names a stored API.
pub fn save_api(req: SaveApiRequest, existing: bool) -> (plan: SavePlan)
    ensures
        plan.api.name == req.name,
        plan.api.method == req.method,
        plan.api.url@ == normalized_url(req.url@),
        req.id is None ==> is_uuid_v4_text(plan.api.id@),
        is_timestamp_text(plan.api.updated_at@),
        is_timestamp_text(plan.api.created_at@),
        exists|fresh: MockApi|
            #![trigger fresh.id]
            is_saved(req, existing, fresh, plan.api.updated_at@, plan) && fresh.name == req.name
                && fresh.method == req.method && fresh.url@ == normalized_url(req.url@)
                && fresh.logs@ == Seq::<LogEntry>::empty() && (req.id is None ==> is_uuid_v4_text(fresh.id@)),
{
    let url = normalize_url(req.url.as_str());
    let now = local_timestamp();
    let SaveApiRequest {
        id,
        name,
        method,
        url: raw_url,
        headers,
        response_body,
        response_type,
        file_name,
        file_path,
        content_type,
        match_headers,
    } = req;
    let fresh = MockApi::new(name, method, url);
    let ghost f = fresh;
    let rest = SaveApiRequest {
        id,
        name: String::new(),
        method: String::new(),
        url: raw_url,
        headers,
        response_body,
        response_type,
        file_name,
        file_path,
        content_type,
        match_headers,
    };
    let plan = finish_save(rest, existing, fresh, now);
    assert(is_saved(req, existing, f, plan.api.updated_at@, plan));
    plan
}

/// Whether a form field carries the uploaded file: it is named `file` and
/// has a file name.
pub fn is_file_field(name: &str, file_name: &str) -> (b: bool)
    ensures
        b == (name@ == "file"@ && file_name@.len() > 0),
{
    str_eq(name, "file") && file_name.unicode_len() > 0
}

/// The extension of a path, as `Path::extension` gives it, where it is
/// valid text.
pub uninterp spec fn path_extension(p: Seq<char>) -> Option<Seq<char>>;

/// The index of the last `c` in `s`, or -1.
pub open spec fn last_index_of(s: Seq<char>, c: char) -> int
    decreases s.len(),
{
    if s.len() == 0 {
        -1
    } else if s.last() == c {
        s.len() - 1
    } else {
        last_index_of(s.drop_last(), c)
    }
}

/// A single file name: not empty, not `.` or `..`, and without `/`, `\` or `:`.
pub open spec fn is_plain_file_name(p: Seq<char>) -> bool {
    &&& p.len() > 0
    &&& p != "."@
    &&& p != ".."@
    &&& forall|i: int| 0 <= i < p.len() ==> #[trigger] p[i] != '/' && p[i] != '\\' && p[i] != ':'
}

/// The extension of a plain file name: what follows its last `.`, where
/// that dot is not its first character.
pub open spec fn plain_extension(p: Seq<char>) -> Option<Seq<char>> {
    let i = last_index_of(p, '.');
    if i <= 0 {
        None
    } else {
        Some(p.subrange(i + 1, p.len() as int))
    }
}

/// Calls `std::path::Path::extension` on the name. The result is named
/// `path_extension`; for a plain file name the contract also states the
/// rule that the std documentation gives (the part after the final `.`,
/// none where the name has no `.` or only a leading one). Names with
/// separators are left to the name.
#[verifier::external_body]
fn file_extension(name: &str) -> (r: Option<String>)
    ensures
        opt_view(r) == path_extension(name@),
        is_plain_file_name(name@) ==> opt_view(r) == plain_extension(name@),
{
    std::path::Path::new(name).extension().and_then(|e| e.to_str()).map(|e| e.to_string())
}

/// The stored name of an uploaded file: its identifier, then `.` and the
/// extension where there is a non-empty one.
pub open spec fn stored_name(id: Seq<char>, ext: Option<Seq<char>>) -> Seq<char> {
    match ext {
        Some(e) => if e.len() > 0 {
            id + "."@ + e
        } else {
            id
        },
        None => id,
    }
}

/// The stored name of an uploaded file with identifier `file_id`.
pub fn stored_file_name(file_id: &str, file_name: &str) -> (r: String)
    ensures
        r@ == stored_name(file_id@, path_extension(file_name@)),
{
    let mut r = String::from_str(file_id);
    match file_extension(file_name) {
        Some(e) => {
            if e.as_str().unicode_len() > 0 {
                r.append(".");
                r.append(e.as_str());
            }
        },
        None => {},
    }
    r
}

/// A fresh stored name for an uploaded file: a random identifier and the
/// file's extension.
pub fn new_stored_file_name(file_name: &str) -> (r: String)
    ensures
        exists|id: Seq<char>| is_uuid_v4_text(id) && r@ == #[trigger] stored_name(id, path_extension(file_name@)),
{
    let id = new_v4_id();
    stored_file_name(id.as_str(), file_name)
}

/// The reply to an upload: the uploaded file's name, the stored file's path
/// under `uploads/`, and its content type (`application/octet-stream`
/// where the form gave none).
pub fn upload_response(file_name: String, stored: &str, content_type: Option<String>) -> (r:
    FileUploadResponse)
    ensures
        r.success,
        r.file_name == file_name,
        r.file_path@ == "uploads/"@ + stored@,
        r.content_type@ == match content_type {
            Some(c) => c@,
            None => "application/octet-stream"@,
        },
{
    let mut file_path = String::from_str("uploads/");
    file_path.append(stored);
    let content_type = match content_type {
        Some(c) => c,
        None => String::from_str("application/octet-stream"),
    };
    FileUploadResponse { success: true, file_name, file_path, content_type }
}

/// `s` without the leading `c` characters.
pub open spec fn trim_leading(s: Seq<char>, c: char) -> Seq<char>
    decreases s.len(),
{
    if s.len() > 0 && s[0] == c {
        trim_leading(s.drop_first(), c)
    } else {
        s
    }
}

/// The asset that a static path names: the path without leading `/`.
pub fn static_asset_key(path: &str) -> (r: String)
    ensures
        r@ == trim_leading(path@, '/'),
{
    let n = path.unicode_len();
    let mut i: usize = 0;
    assert(path@.subrange(0, n as int) =~= path@);
    while i < n && path.get_char(i) == '/'
        invariant
            n == path@.len(),
            i <= n,
            trim_leading(path@, '/') == trim_leading(path@.subrange(i as int, n as int), '/'),
        decreases n - i,
    {
        assert(path@.subrange(i as int, n as int).drop_first() =~= path@.subrange(i + 1, n as int));
        i = i + 1;
    }
    String::from_str(path.substring_char(i, n))
}

/// The MIME type that `mime_guess` gives a path by its extension.
pub uninterp spec fn guessed_mime(path: Seq<char>) -> Seq<char>;

/// Calls `mime_guess::from_path(path).first_or_octet_stream()`. The result
/// is named `guessed_mime`; the contract also states what mime_guess's
/// source shows: a path without an extension, or with an empty one, gets
/// `application/octet-stream`.
#[verifier::external_body]
fn guess_mime(path: &str) -> (r: String)
    ensures
        r@ == guessed_mime(path@),
        (path_extension(path@) is None || path_extension(path@) == Some(Seq::<char>::empty()))
            ==> r@ == "application/octet-stream"@,
{
    mime_guess::from_path(path).first_or_octet_stream().to_string()
}

/// The reply for a static asset: its bytes with the guessed content type,
/// or 404 with an empty body where there is no such asset.
pub fn static_reply(key: &str, content: Option<Vec<u8>>) -> (r: Reply)
    ensures
        match content {
            Some(d) => r.status == 200 && r.header_pairs() == seq![
                ("content-type"@, guessed_mime(key@)),
            ] && r.body == ReplyBody::Bytes(d),
            None => r.status == 404 && r.header_pairs() == Seq::<(Seq<char>, Seq<char>)>::empty()
                && r.has_text(Seq::empty()),
        },
{
    match content {
        Some(d) => {
            let mime = guess_mime(key);
            Reply { status: 200, headers: header_line("content-type", mime.as_str()), body: ReplyBody::Bytes(d) }
        },
        None => {
            let r = text_reply(404, Vec::new(), String::new());
            assert(r.header_pairs() =~= Seq::<(Seq<char>, Seq<char>)>::empty());
            r
        },
    }
}

/// Where a request path goes: the front page, or the mock APIs.
#[derive(Debug, Clone, Copy, PartialEq, Eq, Structural)]
pub enum Route {
    Index,
    Mock,
}

/// The route of a request path: `/` is the front page.
pub fn route_for_path(path: &str) -> (r: Route)
    ensures
        r == if path@ == "/"@ {
            Route::Index
        } else {
            Route::Mock
        },
{
    if str_eq(path, "/") {
        Route::Index
    } else {
        Route::Mock
    }
}

/// The reply for the front page: the page as HTML, or 404 `Page not found`
/// where it is missing.
pub fn index_reply(content: Option<Vec<u8>>) -> (r: Reply)
    ensures
        match content {
            Some(d) => r.status == 200 && r.header_pairs() == seq![
                ("content-type"@, "text/html; charset=utf-8"@),
            ] && r.body == ReplyBody::Bytes(d),
            None => r.status == 404 && r.header_pairs() == Seq::<(Seq<char>, Seq<char>)>::empty()
                && r.has_text("Page not found"@),
        },
{
    match content {
        Some(d) => Reply {
            status: 200,
            headers: header_line("content-type", "text/html; charset=utf-8"),
            body: ReplyBody::Bytes(d),
        },
        None => {
            let r = text_reply(404, Vec::new(), String::from_str("Page not found"));
            assert(r.header_pairs() =~= Seq::<(Seq<char>, Seq<char>)>::empty());
            r
        },
    }
}

/// The reply where no mock API answers a path: 404 `Not Found`.
pub fn not_found_reply() -> (r: Reply)
    ensures
        r.status == 404,
        r.header_pairs() == Seq::<(Seq<char>, Seq<char>)>::empty(),
        r.has_text("Not Found"@),
{
    let r = text_reply(404, Vec::new(), String::from_str("Not Found"));
    assert(r.header_pairs() =~= Seq::<(Seq<char>, Seq<char>)>::empty());
    r
}

} // verus!
