//! The data model: mock API definitions, request log entries, the shapes of
//! the management requests and replies, and the row records that the store
//! reads and writes.

use vstd::prelude::*;
use crate::numeric::is_digit;
use crate::strmap::{json_object_text, pairs_map, parsed_json_object, JsonEncodeError, StrMap};

verus! {

/// How many request log entries a mock API keeps.
pub const MAX_LOGS: usize = 100;

/// Whether `c` is a lowercase hexadecimal digit.
pub open spec fn is_lower_hex(c: char) -> bool {
    is_digit(c) || ('a' <= c && c <= 'f')
}

/// The hyphenated lowercase form of a UUID: 36 characters, hyphens at
/// positions 8, 13, 18 and 23, hexadecimal digits elsewhere.
pub open spec fn is_uuid_text(t: Seq<char>) -> bool {
    &&& t.len() == 36
    &&& forall|i: int|
        0 <= i < 36 ==> if i == 8 || i == 13 || i == 18 || i == 23 {
            #[trigger] t[i] == '-'
        } else {
            is_lower_hex(t[i])
        }
}

/// The text of a random (version 4) UUID: hyphenated lowercase, with the
/// version digit `4` at position 14 and the variant digit at position 19
/// one of `8`, `9`, `a`, `b`.
pub open spec fn is_uuid_v4_text(t: Seq<char>) -> bool {
    &&& is_uuid_text(t)
    &&& t[14] == '4'
    &&& (t[19] == '8' || t[19] == '9' || t[19] == 'a' || t[19] == 'b')
}

/// Text rendered with the pattern `%Y-%m-%d %H:%M:%S`: a year of at least
/// four characters, then `-MM-DD HH:MM:SS`.
pub open spec fn is_timestamp_text(t: Seq<char>) -> bool {
    &&& t.len() >= 19
    &&& {
        let s = t.subrange(t.len() - 15, t.len() as int);
        &&& s[0] == '-' && is_digit(s[1]) && is_digit(s[2])
        &&& s[3] == '-' && is_digit(s[4]) && is_digit(s[5])
        &&& s[6] == ' ' && is_digit(s[7]) && is_digit(s[8])
        &&& s[9] == ':' && is_digit(s[10]) && is_digit(s[11])
        &&& s[12] == ':' && is_digit(s[13]) && is_digit(s[14])
    }
}

/// Calls `uuid::Uuid::new_v4()` and renders it with `to_string`. The
/// identifier is random; the contract states only the hyphenated lowercase
/// shape that uuid's `Display` writes, with the version and variant bits
/// that `new_v4` sets.
#[verifier::external_body]
pub(crate) fn new_v4_id() -> (t: String)
    ensures
        is_uuid_v4_text(t@),
{
    uuid::Uuid::new_v4().to_string()
}

/// Calls `chrono::Local::now()` and formats it with
/// `%Y-%m-%d %H:%M:%S`. The time is the machine's; the contract states only
/// the shape of the text that chrono writes for that pattern.
#[verifier::external_body]
pub(crate) fn local_timestamp() -> (t: String)
    ensures
        is_timestamp_text(t@),
{
    chrono::Local::now().format("%Y-%m-%d %H:%M:%S").to_string()
}

/// A copy of an optional string.
pub fn clone_opt(o: &Option<String>) -> (r: Option<String>)
    ensures
        r == *o,
{
    match o {
        Some(s) => Some(s.clone()),
        None => None,
    }
}

/// What a mock API answers with.
#[derive(Debug, Clone, Copy, PartialEq, Eq, Structural)]
pub enum ResponseType {
    Json,
    File,
}

impl Default for ResponseType {
    fn default() -> (r: Self)
        ensures
            r == ResponseType::Json,
    {
        ResponseType::Json
    }
}

/// The column text of a response type.
pub open spec fn response_type_text(t: ResponseType) -> Seq<char> {
    match t {
        ResponseType::Json => "json"@,
        ResponseType::File => "file"@,
    }
}

/// The response type that a column text denotes: `file` is a file
/// response, anything else a JSON one.
pub open spec fn response_type_of(s: Seq<char>) -> ResponseType {
    if s == "file"@ {
        ResponseType::File
    } else {
        ResponseType::Json
    }
}

impl ResponseType {
    /// The text stored for this type (`json` or `file`).
    pub fn as_str(&self) -> (r: &'static str)
        ensures
            r@ == response_type_text(*self),
    {
        match self {
            ResponseType::Json => "json",
            ResponseType::File => "file",
        }
    }

    /// The type that a stored text denotes.
    pub fn from_column(s: &str) -> (r: ResponseType)
        ensures
            r == response_type_of(s@),
    {
        if crate::text::str_eq(s, "file") {
            ResponseType::File
        } else {
            ResponseType::Json
        }
    }
}

/// Reading back the stored text of a response type gives the type.
pub proof fn lemma_response_type_round_trip(t: ResponseType)
    ensures
        response_type_of(response_type_text(t)) == t,
{
    reveal_strlit("json");
    reveal_strlit("file");
    assert("json"@[0] != "file"@[0]);
}

/// One request received by a mock API.
#[derive(Debug)]
pub struct LogEntry {
    pub timestamp: String,
    pub method: String,
    pub url: String,
    pub headers: StrMap,
    pub request_body: String,
    pub status_code: u16,
    pub client_ip: String,
    pub user_agent: String,
    pub error: Option<String>,
}

impl LogEntry {
    /// An entry stamped with `timestamp`.
    pub fn with_timestamp(
        timestamp: String,
        method: String,
        url: String,
        headers: StrMap,
        request_body: String,
        status_code: u16,
        client_ip: String,
        user_agent: String,
        error: Option<String>,
    ) -> (e: Self)
        ensures
            e == (LogEntry {
                timestamp,
                method,
                url,
                headers,
                request_body,
                status_code,
                client_ip,
                user_agent,
                error,
            }),
    {
        LogEntry {
            timestamp,
            method,
            url,
            headers,
            request_body,
            status_code,
            client_ip,
            user_agent,
            error,
        }
    }

    /// An entry stamped with the current local time.
    pub fn new(
        method: String,
        url: String,
        headers: StrMap,
        request_body: String,
        status_code: u16,
        client_ip: String,
        user_agent: String,
        error: Option<String>,
    ) -> (e: Self)
        ensures
            e == (LogEntry {
                timestamp: e.timestamp,
                method,
                url,
                headers,
                request_body,
                status_code,
                client_ip,
                user_agent,
                error,
            }),
            is_timestamp_text(e.timestamp@),
    {
        let timestamp = local_timestamp();
        Self::with_timestamp(
            timestamp,
            method,
            url,
            headers,
            request_body,
            status_code,
            client_ip,
            user_agent,
            error,
        )
    }
}

/// The log a mock API keeps: the newest `MAX_LOGS` entries, oldest first.
pub open spec fn kept_logs(s: Seq<LogEntry>) -> Seq<LogEntry> {
    if s.len() > MAX_LOGS {
        s.subrange(s.len() - MAX_LOGS, s.len() as int)
    } else {
        s
    }
}

/// The log window holds at most `MAX_LOGS` entries, ends with the newest,
/// and drops nothing while there is room.
pub proof fn lemma_log_window(s: Seq<LogEntry>, log: LogEntry)
    ensures
        kept_logs(s.push(log)).len() <= MAX_LOGS,
        kept_logs(s.push(log)).last() == log,
        s.len() < MAX_LOGS ==> kept_logs(s.push(log)) == s.push(log),
        s.len() >= MAX_LOGS ==> kept_logs(s.push(log)) == s.subrange(
            s.len() + 1 - MAX_LOGS,
            s.len() as int,
        ).push(log),
{
    if s.len() >= MAX_LOGS {
        assert(kept_logs(s.push(log)) =~= s.subrange(s.len() + 1 - MAX_LOGS, s.len() as int).push(log));
    }
}

/// A mock API definition.
#[derive(Debug)]
pub struct MockApi {
    pub id: String,
    pub name: String,
    pub method: String,
    pub url: String,
    pub headers: StrMap,
    pub response_body: String,
    pub response_type: ResponseType,
    pub file_name: Option<String>,
    pub file_path: Option<String>,
    pub content_type: Option<String>,
    pub match_headers: Option<StrMap>,
    pub logs: Vec<LogEntry>,
    pub created_at: String,
    pub updated_at: String,
}

impl MockApi {
    /// Whether `api` is a new JSON API with the given name, method, URL,
    /// identifier and creation time, and nothing else set.
    pub open spec fn is_fresh(
        api: MockApi,
        name: String,
        method: String,
        url: String,
        id: String,
        now: String,
    ) -> bool {
        &&& api.id == id
        &&& api.name == name
        &&& api.method == method
        &&& api.url == url
        &&& api.headers@ == Map::<Seq<char>, Seq<char>>::empty()
        &&& api.response_body@ == Seq::<char>::empty()
        &&& api.response_type == ResponseType::Json
        &&& api.file_name is None
        &&& api.file_path is None
        &&& api.content_type is None
        &&& api.match_headers is None
        &&& api.logs@ == Seq::<LogEntry>::empty()
        &&& api.created_at@ == now@
        &&& api.updated_at@ == now@
    }

    /// A new JSON API with the given identifier, created at `now`.
    pub fn with_identity(name: String, method: String, url: String, id: String, now: String) -> (api:
        Self)
        ensures
            Self::is_fresh(api, name, method, url, id, now),
    {
        let updated_at = now.clone();
        MockApi {
            id,
            name,
            method,
            url,
            headers: StrMap::new(),
            response_body: String::new(),
            response_type: ResponseType::Json,
            file_name: None,
            file_path: None,
            content_type: None,
            match_headers: None,
            logs: Vec::new(),
            created_at: now,
            updated_at,
        }
    }

    /// A new JSON API with a random identifier, created now.
    pub fn new(name: String, method: String, url: String) -> (api: Self)
        ensures
            Self::is_fresh(api, name, method, url, api.id, api.created_at),
            is_uuid_v4_text(api.id@),
            is_timestamp_text(api.created_at@),
    {
        let id = new_v4_id();
        let now = local_timestamp();
        Self::with_identity(name, method, url, id, now)
    }

    /// Stamps the API as updated at the current local time.
    pub fn update_timestamp(&mut self)
        ensures
            *final(self) == (MockApi { updated_at: final(self).updated_at, ..*old(self) }),
            is_timestamp_text(final(self).updated_at@),
    {
        self.updated_at = local_timestamp();
    }

    /// Records a request, keeping only the newest `MAX_LOGS` entries.
    pub fn add_log(&mut self, log: LogEntry)
        ensures
            final(self).logs@ == kept_logs(old(self).logs@.push(log)),
            *final(self) == (MockApi { logs: final(self).logs, ..*old(self) }),
    {
        self.logs.push(log);
        let n = self.logs.len();
        if n > MAX_LOGS {
            let newest = self.logs.split_off(n - MAX_LOGS);
            self.logs = newest;
        }
    }
}


/// The map that a stored JSON header text denotes: the parsed object, or
/// no entries where the text does not parse.
pub open spec fn headers_or_empty(text: Seq<char>) -> Map<Seq<char>, Seq<char>> {
    match parsed_json_object(text) {
        Some(p) => pairs_map(p),
        None => Map::empty(),
    }
}

/// The columns of one stored mock API row, as plain text.
#[derive(Debug)]
pub struct ApiRecord {
    pub id: String,
    pub name: String,
    pub method: String,
    pub url: String,
    pub headers: String,
    pub response_body: String,
    pub response_type: String,
    pub file_name: Option<String>,
    pub file_path: Option<String>,
    pub content_type: Option<String>,
    pub match_headers: Option<String>,
    pub created_at: String,
    pub updated_at: String,
}

/// The columns of one stored request log row.
#[derive(Debug)]
pub struct LogRecord {
    pub timestamp: String,
    pub method: String,
    pub url: String,
    pub headers: String,
    pub request_body: String,
    pub status_code: i64,
    pub client_ip: String,
    pub user_agent: String,
    pub error: Option<String>,
}

/// `api` is what the stored row `rec` holds: the columns as they are, the
/// headers and match rules parsed from their JSON text, no logs.
pub open spec fn is_read_from(api: MockApi, rec: ApiRecord) -> bool {
    &&& api.id == rec.id
    &&& api.name == rec.name
    &&& api.method == rec.method
    &&& api.url == rec.url
    &&& api.headers@ == headers_or_empty(rec.headers@)
    &&& api.response_body == rec.response_body
    &&& api.response_type == response_type_of(rec.response_type@)
    &&& api.file_name == rec.file_name
    &&& api.file_path == rec.file_path
    &&& api.content_type == rec.content_type
    &&& match rec.match_headers {
        None => api.match_headers is None,
        Some(t) => match parsed_json_object(t@) {
            Some(p) => api.match_headers matches Some(m) && m@ == pairs_map(p),
            None => api.match_headers is None,
        },
    }
    &&& api.logs@ == Seq::<LogEntry>::empty()
    &&& api.created_at == rec.created_at
    &&& api.updated_at == rec.updated_at
}

/// `rec` is the row stored for `api`: its fields as they are, its headers
/// and match rules as JSON text, its response type as `json` or `file`.
pub open spec fn is_record_of(rec: ApiRecord, api: MockApi) -> bool {
    &&& rec.id == api.id
    &&& rec.name == api.name
    &&& rec.method == api.method
    &&& rec.url == api.url
    &&& rec.headers@ == json_object_text(api.headers.pairs())
    &&& rec.response_body == api.response_body
    &&& rec.response_type@ == response_type_text(api.response_type)
    &&& rec.file_name == api.file_name
    &&& rec.file_path == api.file_path
    &&& rec.content_type == api.content_type
    &&& match api.match_headers {
        None => rec.match_headers is None,
        Some(m) => rec.match_headers matches Some(t) && t@ == json_object_text(m.pairs()),
    }
    &&& rec.created_at == api.created_at
    &&& rec.updated_at == api.updated_at
}

/// `e` is what the stored log row `rec` holds; the status is narrowed to
/// 16 bits by truncation.
pub open spec fn is_log_read_from(e: LogEntry, rec: LogRecord) -> bool {
    &&& e.timestamp == rec.timestamp
    &&& e.method == rec.method
    &&& e.url == rec.url
    &&& e.headers@ == headers_or_empty(rec.headers@)
    &&& e.request_body == rec.request_body
    &&& e.status_code == rec.status_code as u16
    &&& e.client_ip == rec.client_ip
    &&& e.user_agent == rec.user_agent
    &&& e.error == rec.error
}

/// `rec` is the row stored for the log entry `e`.
pub open spec fn is_log_record_of(rec: LogRecord, e: LogEntry) -> bool {
    &&& rec.timestamp == e.timestamp
    &&& rec.method == e.method
    &&& rec.url == e.url
    &&& rec.headers@ == json_object_text(e.headers.pairs())
    &&& rec.request_body == e.request_body
    &&& rec.status_code == e.status_code as i64
    &&& rec.client_ip == e.client_ip
    &&& rec.user_agent == e.user_agent
    &&& rec.error == e.error
}

/// Law of reading rows: every field of the API read from a row comes from
/// the column of the same name.
pub proof fn law_read_columns(api: MockApi, rec: ApiRecord)
    requires
        is_read_from(api, rec),
    ensures
        api.id == rec.id,
        api.name == rec.name,
        api.method == rec.method,
        api.url == rec.url,
        api.response_body == rec.response_body,
        api.file_name == rec.file_name,
        api.file_path == rec.file_path,
        api.content_type == rec.content_type,
        api.created_at == rec.created_at,
        api.updated_at == rec.updated_at,
        rec.response_type@ == "file"@ ==> api.response_type == ResponseType::File,
        rec.response_type@ != "file"@ ==> api.response_type == ResponseType::Json,
{
}

/// Law of writing rows: every column of the row written for an API holds
/// the field of the same name.
pub proof fn law_write_columns(rec: ApiRecord, api: MockApi)
    requires
        is_record_of(rec, api),
    ensures
        rec.id == api.id,
        rec.name == api.name,
        rec.method == api.method,
        rec.url == api.url,
        rec.response_body == api.response_body,
        rec.file_name == api.file_name,
        rec.file_path == api.file_path,
        rec.content_type == api.content_type,
        rec.created_at == api.created_at,
        rec.updated_at == api.updated_at,
        api.response_type == ResponseType::File ==> rec.response_type@ == "file"@,
        api.response_type == ResponseType::Json ==> rec.response_type@ == "json"@,
{
}

/// Law of log rows: reading and writing a log row keep every field in the
/// column of the same name.
pub proof fn law_log_columns(e: LogEntry, rec: LogRecord, back: LogEntry)
    requires
        is_log_record_of(rec, e),
        is_log_read_from(back, rec),
    ensures
        rec.timestamp == e.timestamp && back.timestamp == rec.timestamp,
        rec.method == e.method && back.method == rec.method,
        rec.url == e.url && back.url == rec.url,
        rec.request_body == e.request_body && back.request_body == rec.request_body,
        rec.status_code == e.status_code as i64 && back.status_code == e.status_code,
        rec.client_ip == e.client_ip && back.client_ip == rec.client_ip,
        rec.user_agent == e.user_agent && back.user_agent == rec.user_agent,
        rec.error == e.error && back.error == rec.error,
{
}

/// Storing an API and reading the row back gives the same API, but for its
/// logs (not part of the row) and its headers and match rules, which come
/// back as whatever their JSON text parses to.
pub proof fn lemma_api_record_round_trip(api: MockApi, rec: ApiRecord, back: MockApi)
    requires
        is_record_of(rec, api),
        is_read_from(back, rec),
    ensures
        back.id == api.id,
        back.name == api.name,
        back.method == api.method,
        back.url == api.url,
        back.headers@ == headers_or_empty(json_object_text(api.headers.pairs())),
        back.response_body == api.response_body,
        back.response_type == api.response_type,
        back.file_name == api.file_name,
        back.file_path == api.file_path,
        back.content_type == api.content_type,
        api.match_headers is None ==> back.match_headers is None,
        back.created_at == api.created_at,
        back.updated_at == api.updated_at,
{
    lemma_response_type_round_trip(api.response_type);
}

/// Storing a log entry and reading the row back gives the same entry, its
/// headers as whatever their JSON text parses to.
pub proof fn lemma_log_record_round_trip(e: LogEntry, rec: LogRecord, back: LogEntry)
    requires
        is_log_record_of(rec, e),
        is_log_read_from(back, rec),
    ensures
        back.timestamp == e.timestamp,
        back.method == e.method,
        back.url == e.url,
        back.headers@ == headers_or_empty(json_object_text(e.headers.pairs())),
        back.request_body == e.request_body,
        back.status_code == e.status_code,
        back.client_ip == e.client_ip,
        back.user_agent == e.user_agent,
        back.error == e.error,
{
}

impl MockApi {
    /// The API that a stored row holds, without logs. Header text that does
    /// not parse gives no headers; match-rule text that does not parse
    /// gives no rules.
    pub fn from_record(rec: ApiRecord) -> (api: MockApi)
        ensures
            is_read_from(api, rec),
    {
        let headers = match StrMap::from_json(rec.headers.as_str()) {
            Some(m) => m,
            None => StrMap::new(),
        };
        let response_type = ResponseType::from_column(rec.response_type.as_str());
        let match_headers = match &rec.match_headers {
            Some(t) => StrMap::from_json(t.as_str()),
            None => None,
        };
        MockApi {
            id: rec.id,
            name: rec.name,
            method: rec.method,
            url: rec.url,
            headers,
            response_body: rec.response_body,
            response_type,
            file_name: rec.file_name,
            file_path: rec.file_path,
            content_type: rec.content_type,
            match_headers,
            logs: Vec::new(),
            created_at: rec.created_at,
            updated_at: rec.updated_at,
        }
    }

    /// The row stored for this API; writing its headers and match rules as
    /// JSON always succeeds.
    pub fn to_record(&self) -> (r: Result<ApiRecord, JsonEncodeError>)
        ensures
            r is Ok,
            r matches Ok(rec) ==> is_record_of(rec, *self),
    {
        let headers = match self.headers.to_json() {
            Ok(t) => t,
            Err(e) => return Err(e),
        };
        let match_headers = match &self.match_headers {
            Some(m) => match m.to_json() {
                Ok(t) => Some(t),
                Err(_) => Some(String::new()),
            },
            None => None,
        };
        Ok(ApiRecord {
            id: self.id.clone(),
            name: self.name.clone(),
            method: self.method.clone(),
            url: self.url.clone(),
            headers,
            response_body: self.response_body.clone(),
            response_type: String::from_str(self.response_type.as_str()),
            file_name: clone_opt(&self.file_name),
            file_path: clone_opt(&self.file_path),
            content_type: clone_opt(&self.content_type),
            match_headers,
            created_at: self.created_at.clone(),
            updated_at: self.updated_at.clone(),
        })
    }
}

impl LogEntry {
    /// The entry that a stored row holds. The status column is narrowed to
    /// 16 bits by truncation; header text that does not parse gives no
    /// headers.
    pub fn from_record(rec: LogRecord) -> (e: LogEntry)
        ensures
            is_log_read_from(e, rec),
    {
        let headers = match StrMap::from_json(rec.headers.as_str()) {
            Some(m) => m,
            None => StrMap::new(),
        };
        LogEntry {
            timestamp: rec.timestamp,
            method: rec.method,
            url: rec.url,
            headers,
            request_body: rec.request_body,
            status_code: rec.status_code as u16,
            client_ip: rec.client_ip,
            user_agent: rec.user_agent,
            error: rec.error,
        }
    }

    /// The row stored for this entry; writing its headers as JSON always
    /// succeeds.
    pub fn to_record(&self) -> (r: Result<LogRecord, JsonEncodeError>)
        ensures
            r is Ok,
            r matches Ok(rec) ==> is_log_record_of(rec, *self),
    {
        let headers = match self.headers.to_json() {
            Ok(t) => t,
            Err(e) => return Err(e),
        };
        Ok(LogRecord {
            timestamp: self.timestamp.clone(),
            method: self.method.clone(),
            url: self.url.clone(),
            headers,
            request_body: self.request_body.clone(),
            status_code: self.status_code as i64,
            client_ip: self.client_ip.clone(),
            user_agent: self.user_agent.clone(),
            error: clone_opt(&self.error),
        })
    }
}

/// A request to create or update a mock API.
#[derive(Debug)]
pub struct SaveApiRequest {
    pub id: Option<String>,
    pub name: String,
    pub method: String,
    pub url: String,
    pub headers: Option<StrMap>,
    pub response_body: Option<String>,
    pub response_type: Option<ResponseType>,
    pub file_name: Option<String>,
    pub file_path: Option<String>,
    pub content_type: Option<String>,
    pub match_headers: Option<StrMap>,
}

/// A request to delete a mock API.
#[derive(Debug)]
pub struct DeleteApiRequest {
    pub id: String,
}

/// A request to clear the log of a mock API.
#[derive(Debug)]
pub struct ClearLogsRequest {
    pub id: String,
}

/// A request to put the mock APIs in the given order.
#[derive(Debug)]
pub struct ReorderRequest {
    pub ids: Vec<String>,
}

/// The reply to a save request.
#[derive(Debug)]
pub struct SaveApiResponse {
    pub success: bool,
    pub api: Option<MockApi>,
}

/// A reply that only reports success.
#[derive(Debug)]
pub struct SuccessResponse {
    pub success: bool,
}

/// The query of a log request.
#[derive(Debug)]
pub struct LogsQuery {
    pub id: String,
}

/// The reply to a file upload.
#[derive(Debug)]
pub struct FileUploadResponse {
    pub success: bool,
    pub file_name: String,
    pub file_path: String,
    pub content_type: String,
}

} // verus!
