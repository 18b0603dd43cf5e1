use mockapi::admin::{
    finish_save, index_reply, is_file_field, new_stored_file_name, normalize_url, not_found_reply,
    route_for_path, save_api, static_asset_key, static_reply, stored_file_name, upload_response,
    Route, SaveAction,
};
use mockapi::mock::{complete_file_request, file_reply, handle_mock_request, json_reply, plan_mock_response, MockAction};
use mockapi::models::{MockApi, ResponseType, SaveApiRequest};
use mockapi::reply::{Reply, ReplyBody};
use mockapi::request::{extract_client_ip, extract_user_agent, header_map, IncomingRequest, RequestHeader};
use mockapi::routing::{match_api_by_headers, select_api};
use mockapi::service::{access_host, daemon_args, stop_step, AppState, StopStep, STOP_WAIT_CHECKS};
use mockapi::strmap::StrMap;

fn map(pairs: &[(&str, &str)]) -> StrMap {
    let mut m = StrMap::new();
    for (k, v) in pairs {
        m.insert(k.to_string(), v.to_string());
    }
    m
}

fn hdr(name: &str, value: Option<&str>) -> RequestHeader {
    RequestHeader { name: name.to_string(), value: value.map(|v| v.to_string()) }
}

fn api(id: &str, rules: Option<&[(&str, &str)]>) -> MockApi {
    let mut a = MockApi::with_identity("n".into(), "GET".into(), "/u".into(), id.into(), "now".into());
    a.match_headers = rules.map(map);
    a
}

fn headers_of(r: &Reply) -> Vec<(&str, &str)> {
    r.headers.iter().map(|(k, v)| (k.as_str(), v.as_str())).collect()
}

fn text_of(r: &Reply) -> &str {
    match &r.body {
        ReplyBody::Text(t) => t.as_str(),
        ReplyBody::Bytes(_) => panic!("bytes"),
    }
}

#[test]
fn client_ip_prefers_proxy_headers() {
    let h = vec![hdr("x-forwarded-for", Some(" 10.0.0.1 , 10.0.0.2")), hdr("x-real-ip", Some("9.9.9.9"))];
    assert_eq!(extract_client_ip(&h, "127.0.0.1"), "10.0.0.1");
    let h = vec![hdr("x-real-ip", Some("9.9.9.9")), hdr("forwarded", Some("for=8.8.8.8"))];
    assert_eq!(extract_client_ip(&h, "127.0.0.1"), "9.9.9.9");
    let h = vec![hdr("forwarded", Some("proto=http; for=192.0.2.60;by=203.0.113.43"))];
    assert_eq!(extract_client_ip(&h, "127.0.0.1"), "192.0.2.60");
    let h = vec![hdr("forwarded", Some("proto=http"))];
    assert_eq!(extract_client_ip(&h, "127.0.0.1"), "127.0.0.1");
    let h = vec![hdr("x-forwarded-for", None), hdr("x-real-ip", Some("9.9.9.9"))];
    assert_eq!(extract_client_ip(&h, "127.0.0.1"), "9.9.9.9");
    assert_eq!(extract_client_ip(&vec![], "::1"), "::1");
}

#[test]
fn user_agent_or_unknown() {
    assert_eq!(extract_user_agent(&vec![hdr("user-agent", Some("curl/8"))]), "curl/8");
    assert_eq!(extract_user_agent(&vec![hdr("user-agent", None)]), "Unknown");
    assert_eq!(extract_user_agent(&vec![]), "Unknown");
}

#[test]
fn header_maps_skip_non_text_and_lowercase() {
    let h = vec![hdr("X-Env", Some("a")), hdr("bad", None), hdr("x-env", Some("b"))];
    let plain = header_map(&h, false);
    assert_eq!(plain.len(), 2);
    let lower = header_map(&h, true);
    assert_eq!(lower.len(), 1);
    assert_eq!(lower.get("x-env").map(|s| s.as_str()), Some("b"));
}

#[test]
fn exact_rules_win_over_fallback() {
    let req = map(&[("x-env", "dev")]);
    let c = vec![api("fallback", None), api("prod", Some(&[("X-Env", "prod")])), api("dev", Some(&[("X-Env", "dev")]))];
    assert_eq!(select_api(&c, &req), Some(2));
    let chosen = match_api_by_headers(c, &req).unwrap();
    assert_eq!(chosen.id, "dev");
}

#[test]
fn fallback_when_no_rules_hold() {
    let req = map(&[("x-env", "test")]);
    let c = vec![api("prod", Some(&[("x-env", "prod")])), api("empty", Some(&[])), api("none", None)];
    assert_eq!(match_api_by_headers(c, &req).unwrap().id, "empty");
    let c = vec![api("prod", Some(&[("x-env", "prod")]))];
    assert!(match_api_by_headers(c, &req).is_none());
    assert!(match_api_by_headers(vec![], &req).is_none());
}

#[test]
fn all_rules_must_hold() {
    let req = map(&[("a", "1"), ("b", "2")]);
    let c = vec![api("ab3", Some(&[("a", "1"), ("b", "3")])), api("ab", Some(&[("A", "1"), ("b", "2")]))];
    assert_eq!(match_api_by_headers(c, &req).unwrap().id, "ab");
}

fn request(method: &str) -> IncomingRequest {
    IncomingRequest {
        method: method.to_string(),
        uri: "/u?x=1".to_string(),
        headers: vec![hdr("user-agent", Some("curl")), hdr("x-real-ip", Some("5.6.7.8"))],
        body: "payload".to_string(),
        peer_ip: "127.0.0.1".to_string(),
    }
}

#[test]
fn wrong_method_is_refused_and_logged() {
    let a = api("x", None);
    let out = plan_mock_response(&a, &request("POST"), "/data", "ts".to_string());
    assert_eq!(out.log.status_code, 405);
    assert_eq!(out.log.error.as_deref(), Some("Method not allowed. Expected GET, got POST"));
    assert_eq!(out.log.client_ip, "5.6.7.8");
    assert_eq!(out.log.user_agent, "curl");
    assert_eq!(out.log.timestamp, "ts");
    match out.action {
        MockAction::Reply(r) => {
            assert_eq!(r.status, 405);
            assert_eq!(headers_of(&r), vec![("content-type", "application/json")]);
            assert_eq!(text_of(&r), r#"{"error": "Method not allowed. Expected GET, got POST"}"#);
        }
        MockAction::ReadFile(_) => panic!("read"),
    }
}

#[test]
fn json_api_answers_with_body_and_default_type() {
    let mut a = api("x", None);
    a.response_body = r#"{"ok":true}"#.to_string();
    a.headers = map(&[("X-A", "1")]);
    let out = handle_mock_request(&a, &request("GET"), "/data");
    assert_eq!(out.log.status_code, 200);
    assert!(out.log.error.is_none());
    assert_eq!(out.log.url, "/u?x=1");
    assert_eq!(out.log.request_body, "payload");
    assert_eq!(out.log.timestamp.len(), 19);
    match out.action {
        MockAction::Reply(r) => {
            assert_eq!(r.status, 200);
            assert_eq!(headers_of(&r), vec![("X-A", "1"), ("content-type", "application/json")]);
            assert_eq!(text_of(&r), r#"{"ok":true}"#);
        }
        MockAction::ReadFile(_) => panic!("read"),
    }
    a.headers = map(&[("Content-Type", "text/plain")]);
    let r = json_reply(&a);
    assert_eq!(headers_of(&r), vec![("Content-Type", "text/plain")]);
}

#[test]
fn file_api_reads_its_file() {
    let mut a = api("x", None);
    a.response_type = ResponseType::File;
    a.file_path = Some("uploads/f.pdf".to_string());
    a.file_name = Some("report.pdf".to_string());
    a.content_type = Some("application/pdf".to_string());
    a.headers = map(&[("content-type", "x/y"), ("X-B", "2")]);
    let out = plan_mock_response(&a, &request("GET"), "/data", "ts".to_string());
    match out.action {
        MockAction::ReadFile(p) => assert_eq!(p, "/data/uploads/f.pdf"),
        MockAction::Reply(_) => panic!("reply"),
    }
    let r = file_reply(&a, Some(vec![1, 2, 3]));
    assert_eq!(r.status, 200);
    assert_eq!(
        headers_of(&r),
        vec![
            ("content-type", "application/pdf"),
            ("content-disposition", "attachment; filename=\"report.pdf\""),
            ("X-B", "2")
        ]
    );
    assert!(matches!(r.body, ReplyBody::Bytes(ref b) if b == &vec![1u8, 2, 3]));
    let done = complete_file_request(&a, out.log, None);
    assert_eq!(done.reply.status, 404);
    assert_eq!(done.log.status_code, 404);
    assert_eq!(done.log.error.as_deref(), Some("File not found or cannot be read: uploads/f.pdf"));
    assert_eq!(done.log.timestamp, "ts");
    let out = plan_mock_response(&a, &request("GET"), "/data", "ts".to_string());
    let done = complete_file_request(&a, out.log, Some(vec![9]));
    assert_eq!((done.reply.status, done.log.status_code), (200, 200));
    assert!(done.log.error.is_none());
    let missing = file_reply(&a, None);
    assert_eq!(missing.status, 404);
    assert_eq!(text_of(&missing), r#"{"error": "File not found or cannot be read: uploads/f.pdf"}"#);
    a.content_type = None;
    a.file_name = None;
    let r = file_reply(&a, Some(vec![]));
    assert_eq!(headers_of(&r), vec![("content-type", "application/octet-stream"), ("X-B", "2")]);
}

#[test]
fn file_api_without_path_fails() {
    let mut a = api("x", None);
    a.response_type = ResponseType::File;
    let out = plan_mock_response(&a, &request("GET"), "/data", "ts".to_string());
    assert_eq!(out.log.status_code, 500);
    assert_eq!(out.log.error.as_deref(), Some("File path not configured for this API"));
    match out.action {
        MockAction::Reply(r) => {
            assert_eq!(r.status, 500);
            assert_eq!(text_of(&r), r#"{"error": "File path not configured for this API"}"#);
        }
        MockAction::ReadFile(_) => panic!("read"),
    }
    assert_eq!(file_reply(&a, None).status, 500);
}

fn save_request(id: Option<&str>, url: &str) -> SaveApiRequest {
    SaveApiRequest {
        id: id.map(|s| s.to_string()),
        name: "users".into(),
        method: "GET".into(),
        url: url.into(),
        headers: None,
        response_body: Some("[]".into()),
        response_type: None,
        file_name: None,
        file_path: None,
        content_type: None,
        match_headers: Some(map(&[("x-env", "dev")])),
    }
}

#[test]
fn urls_are_normalized() {
    assert_eq!(normalize_url("api/users"), "/api/users");
    assert_eq!(normalize_url("/api/users"), "/api/users");
    assert_eq!(normalize_url(""), "/");
    assert_eq!(normalize_url(&normalize_url("x")), "/x");
}

#[test]
fn saving_existing_api_updates_it() {
    let plan = save_api(save_request(Some("abc"), "users"), true);
    assert_eq!(plan.action, SaveAction::Update);
    assert_eq!(plan.api.id, "abc");
    assert_eq!(plan.api.url, "/users");
    assert_eq!(plan.api.response_body, "[]");
    assert_eq!(plan.api.response_type, ResponseType::Json);
    assert_eq!(plan.api.created_at, plan.api.updated_at);
    assert!(plan.api.headers.is_empty());
    assert!(plan.api.match_headers.is_some());
}

#[test]
fn saving_new_api_goes_on_top() {
    let plan = save_api(save_request(Some("abc"), "/users"), false);
    assert_eq!(plan.action, SaveAction::InsertAtTop);
    assert_eq!(plan.api.id, "abc");
    let plan = save_api(save_request(None, "/users"), true);
    assert_eq!(plan.action, SaveAction::InsertAtTop);
    assert_eq!(plan.api.id.len(), 36);
    let fresh = MockApi::with_identity("n".into(), "GET".into(), "/u".into(), "fresh".into(), "old".into());
    let plan = finish_save(save_request(None, "/u"), false, fresh, "new".into());
    assert_eq!(plan.api.created_at, "old");
    assert_eq!(plan.api.updated_at, "new");
    assert_eq!(plan.api.id, "fresh");
}

#[test]
fn uploaded_files_keep_their_extension() {
    assert_eq!(stored_file_name("id", "photo.jpg"), "id.jpg");
    assert_eq!(stored_file_name("id", "a.tar.gz"), "id.gz");
    assert_eq!(stored_file_name("id", ".bashrc"), "id");
    assert_eq!(stored_file_name("id", "README"), "id");
    assert_eq!(stored_file_name("id", "a."), "id");
    let name = new_stored_file_name("doc.pdf");
    assert_eq!(name.len(), 40);
    assert_eq!(&name[14..15], "4");
    assert!(["8", "9", "a", "b"].contains(&&name[19..20]));
    assert!(name.ends_with(".pdf"));
    assert!(is_file_field("file", "a.txt"));
    assert!(!is_file_field("file", ""));
    assert!(!is_file_field("other", "a.txt"));
    let r = upload_response("doc.pdf".into(), "id.pdf", None);
    assert!(r.success);
    assert_eq!(r.file_path, "uploads/id.pdf");
    assert_eq!(r.content_type, "application/octet-stream");
    let r = upload_response("doc.pdf".into(), "id.pdf", Some("application/pdf".into()));
    assert_eq!(r.content_type, "application/pdf");
}

#[test]
fn static_assets_and_pages() {
    assert_eq!(static_asset_key("//css/style.css"), "css/style.css");
    assert_eq!(static_asset_key("js/app.js"), "js/app.js");
    let r = static_reply("css/style.css", Some(vec![1]));
    assert_eq!(r.status, 200);
    assert_eq!(headers_of(&r), vec![("content-type", "text/css")]);
    let r = static_reply("noext", Some(vec![1]));
    assert_eq!(headers_of(&r), vec![("content-type", "application/octet-stream")]);
    assert_eq!(static_reply("x.css", None).status, 404);
    assert_eq!(route_for_path("/"), Route::Index);
    assert_eq!(route_for_path("/api"), Route::Mock);
    let r = index_reply(None);
    assert_eq!((r.status, text_of(&r)), (404, "Page not found"));
    let r = index_reply(Some(vec![60]));
    assert_eq!(headers_of(&r), vec![("content-type", "text/html; charset=utf-8")]);
    let r = not_found_reply();
    assert_eq!((r.status, text_of(&r)), (404, "Not Found"));
}

#[test]
fn server_state_and_process_control() {
    let s = AppState::new("/opt/mockapi");
    assert_eq!(s.data_dir, "/opt/mockapi/data");
    assert_eq!(s.data_file, "/opt/mockapi/data/mock_apis.json");
    let t = AppState::new("/opt/mockapi/");
    assert_eq!(t.data_dir, "/opt/mockapi/data");
    let std_dir = std::path::Path::new("relative").join("data");
    assert_eq!(AppState::new("relative").data_dir, std_dir.to_str().unwrap());
    assert_eq!(AppState::new("").data_dir, "data");
    assert!(s.apis.is_empty());
    assert_eq!(access_host("0.0.0.0"), "localhost");
    assert_eq!(access_host("127.0.0.1"), "127.0.0.1");
    assert_eq!(
        daemon_args(8344, "0.0.0.0", "mockapi.pid"),
        vec!["--port", "8344", "--host", "0.0.0.0", "--pid-file", "mockapi.pid"]
    );
    assert_eq!(stop_step(0, false), StopStep::Stopped);
    assert_eq!(stop_step(0, true), StopStep::KeepWaiting);
    assert_eq!(stop_step(STOP_WAIT_CHECKS - 1, true), StopStep::ForceKill);
    assert_eq!(stop_step(STOP_WAIT_CHECKS - 1, false), StopStep::Stopped);
}
