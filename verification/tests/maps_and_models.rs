use mockapi::store::{accepts_migration, id_list_json, migration_rows};
use mockapi::models::{
    ApiRecord, LogEntry, LogRecord, MockApi, ResponseType, MAX_LOGS,
};
use mockapi::strmap::StrMap;

fn map(pairs: &[(&str, &str)]) -> StrMap {
    let mut m = StrMap::new();
    for (k, v) in pairs {
        m.insert(k.to_string(), v.to_string());
    }
    m
}

fn entries(m: &StrMap) -> Vec<(String, String)> {
    (0..m.len()).map(|i| (m.key_at(i).clone(), m.value_at(i).clone())).collect()
}

fn log(n: usize) -> LogEntry {
    LogEntry::with_timestamp(
        format!("t{}", n),
        "GET".to_string(),
        "/x".to_string(),
        StrMap::new(),
        String::new(),
        200,
        "1.1.1.1".to_string(),
        "ua".to_string(),
        None,
    )
}

#[test]
fn strmap_insert_get_and_order() {
    let mut m = map(&[("a", "1"), ("b", "2")]);
    assert_eq!(m.get("a").map(|s| s.as_str()), Some("1"));
    assert_eq!(m.get("c"), None);
    m.insert("a".to_string(), "3".to_string());
    assert_eq!(m.len(), 2);
    assert_eq!(m.get("a").map(|s| s.as_str()), Some("3"));
    assert_eq!(entries(&m), vec![("a".to_string(), "3".to_string()), ("b".to_string(), "2".to_string())]);
    assert!(m.contains_key("b"));
    assert!(!m.is_empty());
    assert!(StrMap::new().is_empty());
}

#[test]
fn strmap_json_round_trip() {
    let m = map(&[("x-b", "2"), ("x-a", "1")]);
    let text = m.to_json().unwrap();
    assert_eq!(text, r#"{"x-a":"1","x-b":"2"}"#);
    let back = StrMap::from_json(&text).unwrap();
    assert_eq!(back.get("x-a").map(|s| s.as_str()), Some("1"));
    assert_eq!(back.get("x-b").map(|s| s.as_str()), Some("2"));
    assert!(StrMap::from_json("not json").is_none());
    assert!(StrMap::from_json("[1,2]").is_none());
    assert!(StrMap::from_json("{}").unwrap().is_empty());
}

#[test]
fn response_type_default_and_columns() {
    assert_eq!(ResponseType::default(), ResponseType::Json);
    assert_eq!(ResponseType::Json.as_str(), "json");
    assert_eq!(ResponseType::File.as_str(), "file");
    assert_eq!(ResponseType::from_column("file"), ResponseType::File);
    assert_eq!(ResponseType::from_column("json"), ResponseType::Json);
    assert_eq!(ResponseType::from_column("FILE"), ResponseType::Json);
    for t in [ResponseType::Json, ResponseType::File] {
        assert_eq!(ResponseType::from_column(t.as_str()), t);
    }
}

#[test]
fn add_log_keeps_newest_hundred() {
    let mut api = MockApi::with_identity("n".into(), "GET".into(), "/x".into(), "id".into(), "now".into());
    for i in 0..105 {
        api.add_log(log(i));
    }
    assert_eq!(api.logs.len(), MAX_LOGS);
    assert_eq!(api.logs[0].timestamp, "t5");
    assert_eq!(api.logs[99].timestamp, "t104");
    assert_eq!(api.id, "id");
}

#[test]
fn add_log_below_limit_appends() {
    let mut api = MockApi::with_identity("n".into(), "GET".into(), "/x".into(), "id".into(), "now".into());
    api.add_log(log(1));
    api.add_log(log(2));
    assert_eq!(api.logs.len(), 2);
    assert_eq!(api.logs[1].timestamp, "t2");
}

#[test]
fn new_api_has_uuid_and_timestamp() {
    let api = MockApi::new("name".into(), "POST".into(), "/p".into());
    assert_eq!(api.id.len(), 36);
    assert!(uuid_like(&api.id));
    assert_eq!(&api.id[14..15], "4");
    assert!(["8", "9", "a", "b"].contains(&&api.id[19..20]));
    assert_eq!(api.created_at, api.updated_at);
    assert_eq!(api.created_at.len(), 19);
    assert_eq!(api.response_type, ResponseType::Json);
    assert!(api.headers.is_empty());
    assert!(api.logs.is_empty());
    let other = MockApi::new("name".into(), "POST".into(), "/p".into());
    assert_ne!(api.id, other.id);
    let mut api = api;
    api.update_timestamp();
    assert_eq!(api.updated_at.as_bytes()[4], b'-');
    let e = LogEntry::new("GET".into(), "/u".into(), StrMap::new(), "b".into(), 200, "ip".into(), "ua".into(), None);
    assert_eq!(e.timestamp.as_bytes()[13], b':');
}

fn uuid_like(s: &str) -> bool {
    s.chars().enumerate().all(|(i, c)| {
        if [8, 13, 18, 23].contains(&i) {
            c == '-'
        } else {
            c.is_ascii_digit() || ('a'..='f').contains(&c)
        }
    })
}

fn record(headers: &str, match_headers: Option<&str>, rt: &str) -> ApiRecord {
    ApiRecord {
        id: "i".into(),
        name: "n".into(),
        method: "GET".into(),
        url: "/u".into(),
        headers: headers.into(),
        response_body: "{}".into(),
        response_type: rt.into(),
        file_name: None,
        file_path: Some("uploads/f.bin".into()),
        content_type: None,
        match_headers: match_headers.map(|s| s.to_string()),
        created_at: "c".into(),
        updated_at: "u".into(),
    }
}

#[test]
fn api_records_read_and_write() {
    let api = MockApi::from_record(record(r#"{"X-Token":"abc"}"#, Some(r#"{"env":"dev"}"#), "file"));
    assert_eq!(api.response_type, ResponseType::File);
    assert_eq!(api.headers.get("X-Token").map(|s| s.as_str()), Some("abc"));
    assert_eq!(api.match_headers.as_ref().unwrap().get("env").map(|s| s.as_str()), Some("dev"));
    assert_eq!(api.file_path.as_deref(), Some("uploads/f.bin"));
    let rec = api.to_record().unwrap();
    assert_eq!(rec.headers, r#"{"X-Token":"abc"}"#);
    assert_eq!(rec.match_headers.as_deref(), Some(r#"{"env":"dev"}"#));
    assert_eq!(rec.response_type, "file");
    assert_eq!(rec.created_at, "c");

    let bad = MockApi::from_record(record("oops", Some("oops"), "other"));
    assert!(bad.headers.is_empty());
    assert!(bad.match_headers.is_none());
    assert_eq!(bad.response_type, ResponseType::Json);
    let none = MockApi::from_record(record("{}", None, "json"));
    assert!(none.match_headers.is_none());
}

#[test]
fn log_records_read_and_write() {
    let rec = LogRecord {
        timestamp: "t".into(),
        method: "POST".into(),
        url: "/u?q=1".into(),
        headers: r#"{"user-agent":"curl"}"#.into(),
        request_body: "body".into(),
        status_code: 405,
        client_ip: "1.2.3.4".into(),
        user_agent: "curl".into(),
        error: Some("bad".into()),
    };
    let e = LogEntry::from_record(rec);
    assert_eq!(e.status_code, 405);
    assert_eq!(e.headers.get("user-agent").map(|s| s.as_str()), Some("curl"));
    let back = e.to_record().unwrap();
    assert_eq!(back.status_code, 405);
    assert_eq!(back.error.as_deref(), Some("bad"));
    let wide = LogRecord { status_code: 70000, headers: "x".into(), ..back };
    let e = LogEntry::from_record(wide);
    assert_eq!(e.status_code, 70000i64 as u16);
    assert!(e.headers.is_empty());
}

#[test]
fn migration_plan_numbers_apis_in_file_order() {
    assert!(accepts_migration(0));
    assert!(!accepts_migration(3));
    assert!(migration_rows(vec![]).is_none());
    let apis = vec![
        MockApi::with_identity("a".into(), "GET".into(), "/a".into(), "ia".into(), "t".into()),
        MockApi::with_identity("b".into(), "GET".into(), "/b".into(), "ib".into(), "t".into()),
    ];
    let rows = migration_rows(apis).unwrap();
    assert_eq!(rows.len(), 2);
    assert_eq!((rows[0].sort_order, rows[0].api.id.as_str()), (0, "ia"));
    assert_eq!((rows[1].sort_order, rows[1].api.id.as_str()), (1, "ib"));
    assert_eq!(id_list_json(&vec!["x".to_string(), "y\"z".to_string()]), r#"["x","y\"z"]"#);
    assert_eq!(id_list_json(&vec![]), "[]");
}
