use wwsvc_rs::client::header_value;
use wwsvc_rs::decimal::parse_u32_decimal;
use wwsvc_rs::error::WWSVCError;
use wwsvc_rs::responses::{ComResult, RegisterResponse, ServicePass};
use wwsvc_rs::{Credentials, Parameters, WebwareClient};

fn unregistered() -> WebwareClient {
    WebwareClient::builder()
        .webware_url("https://example.invalid:8080")
        .vendor_hash("v")
        .app_hash("a")
        .secret("s")
        .revision(3)
        .build()
        .unwrap()
}

fn registered() -> WebwareClient {
    WebwareClient::builder()
        .webware_url("https://example.invalid:8080")
        .vendor_hash("v")
        .app_hash("a")
        .secret("s")
        .revision(3)
        .credentials(Credentials::new("p1", "a1"))
        .build()
        .unwrap()
}

fn com_result_ok() -> ComResult {
    ComResult {
        status: 200,
        code: "OK".to_string(),
        info: "".to_string(),
        info2: None,
        info3: None,
        errno: None,
    }
}

#[test]
fn build_resolves_wwsvc_root() {
    let client = unregistered();
    assert_eq!(client.webware_url, "https://example.invalid:8080/WWSVC/");
    assert_eq!(client.current_request, 0);
    assert!(!client.is_authenticated());
    assert!(!client.has_cursor());
}

#[test]
fn build_rejects_malformed_url() {
    let r = WebwareClient::builder()
        .webware_url("not a url")
        .vendor_hash("v")
        .app_hash("a")
        .secret("s")
        .revision(1)
        .build();
    assert!(matches!(r, Err(WWSVCError::UrlParseError)));
}

#[test]
fn build_registered_without_credentials_is_rejected() {
    let r = WebwareClient::builder()
        .webware_url("https://example.invalid:8080")
        .vendor_hash("v")
        .app_hash("a")
        .secret("s")
        .revision(1)
        .build_registered();
    assert!(matches!(r, Err(WWSVCError::MissingCredentials)));
}

#[test]
fn register_with_supplied_credentials_is_immediate() {
    // Pre-provisioned credentials: the session is authenticated from the
    // start, with no network exchange having taken place.
    let client = registered();
    assert!(client.is_authenticated());
    assert_eq!(client.credentials().service_pass, "p1");
    assert_eq!(client.credentials().app_id, "a1");
    assert_eq!(client.current_request, 0);
}

#[test]
fn register_response_authenticates_session() {
    let mut client = unregistered();
    let response = RegisterResponse {
        com_result: com_result_ok(),
        service_pass: ServicePass { pass_id: "p1".to_string(), app_id: "a1".to_string() },
    };
    client.apply_register_response(response);
    assert!(client.is_authenticated());
    assert_eq!(client.credentials().service_pass, "p1");
    assert_eq!(client.credentials().app_id, "a1");
}

#[test]
fn register_url_exact() {
    let client = unregistered();
    assert_eq!(
        client.register_url().unwrap(),
        "https://example.invalid:8080/WWSVC/WWSERVICE/REGISTER/v/a/s/3/"
    );
}

#[test]
fn deregister_url_exact_and_local_clears_credentials() {
    let mut client = registered();
    assert_eq!(
        client.deregister_url().unwrap(),
        "https://example.invalid:8080/WWSVC/WWSERVICE/DEREGISTER/p1/"
    );
    client.deregister_local();
    assert!(!client.is_authenticated());
    let r = client.deregister_url();
    assert!(matches!(r, Err(WWSVCError::NotAuthenticated)));
}

#[test]
fn default_headers_unauthenticated_carry_no_signature() {
    let mut client = unregistered();
    let headers = client.get_default_headers(None).unwrap();
    assert!(header_value(&headers, "WWSVC-REQID").is_none());
    assert!(header_value(&headers, "WWSVC-TS").is_none());
    assert!(header_value(&headers, "WWSVC-HASH").is_none());
    assert_eq!(header_value(&headers, "WWSVC-EXECUTE-MODE").unwrap(), "SYNCHRON");
    assert_eq!(header_value(&headers, "WWSVC-ACCEPT-RESULT-TYPE").unwrap(), "JSON");
    assert_eq!(header_value(&headers, "WWSVC-ACCEPT-RESULT-MAX-LINES").unwrap(), "1000");
    assert_eq!(client.current_request, 0);
}

#[test]
fn default_headers_authenticated_sign_and_advance() {
    let mut client = registered();
    let headers = client.get_default_headers(None).unwrap();
    assert_eq!(client.current_request, 1);
    assert_eq!(header_value(&headers, "WWSVC-REQID").unwrap(), "1");
    let ts = header_value(&headers, "WWSVC-TS").unwrap();
    assert_eq!(ts.len(), 29);
    let hash = header_value(&headers, "WWSVC-HASH").unwrap();
    assert_eq!(hash.len(), 32);
    let expected = wwsvc_rs::AppHash::from_parts(0, "a1", ts).hash;
    assert_eq!(hash, expected);
    assert!(header_value(&headers, "WWSVC-CURSOR").is_none());
    let again = client.get_default_headers(None).unwrap();
    assert_eq!(header_value(&again, "WWSVC-REQID").unwrap(), "2");
    assert_eq!(client.current_request, 2);
}

#[test]
fn bin_headers_request_binary_results() {
    let mut client = registered();
    let headers = client.get_bin_headers(None).unwrap();
    assert_eq!(header_value(&headers, "WWSVC-ACCEPT-RESULT-TYPE").unwrap(), "BIN");
    assert_eq!(header_value(&headers, "WWSVC-EXECUTE-MODE").unwrap(), "SYNCHRON");
}

#[test]
fn caller_supplied_extra_headers_win() {
    let mut client = registered();
    let extras = vec![
        ("WWSVC-ACCEPT-RESULT-TYPE".to_string(), "BIN".to_string()),
        ("X-CUSTOM".to_string(), "yes".to_string()),
    ];
    let headers = client.get_default_headers(Some(&extras)).unwrap();
    assert_eq!(header_value(&headers, "WWSVC-ACCEPT-RESULT-TYPE").unwrap(), "BIN");
    assert_eq!(header_value(&headers, "X-CUSTOM").unwrap(), "yes");
}

#[test]
fn non_ascii_extra_header_is_rejected() {
    let mut client = registered();
    let extras = vec![("X-NAME".to_string(), "b\u{e4}d".to_string())];
    let r = client.get_default_headers(Some(&extras));
    assert!(matches!(r, Err(WWSVCError::InvalidHeader)));
    assert_eq!(client.current_request, 0);
}

#[test]
fn non_ascii_cursor_id_is_rejected() {
    let mut client = registered();
    client.create_cursor(10);
    client.apply_response_cursor(Some(&"t\u{f6}k".to_string()));
    let r = client.prepare_request("PUT", "ARTIKEL.GET", 1, Parameters::new(), None);
    assert!(matches!(r, Err(WWSVCError::InvalidHeader)));
}

#[test]
fn cursor_headers_follow_cursor_state() {
    let mut client = registered();
    client.create_cursor(25);
    let headers = client.get_default_headers(None).unwrap();
    assert_eq!(header_value(&headers, "WWSVC-CURSOR").unwrap(), "CREATE");
    assert_eq!(header_value(&headers, "WWSVC-ACCEPT-RESULT-MAX-LINES").unwrap(), "25");

    client.suspend_cursor();
    let headers = client.get_default_headers(None).unwrap();
    assert!(header_value(&headers, "WWSVC-CURSOR").is_none());
    assert_eq!(header_value(&headers, "WWSVC-ACCEPT-RESULT-MAX-LINES").unwrap(), "25");

    client.resume_cursor();
    let headers = client.get_default_headers(None).unwrap();
    assert_eq!(header_value(&headers, "WWSVC-CURSOR").unwrap(), "CREATE");
}

#[test]
fn response_cursor_advances_open_cursor() {
    let mut client = registered();
    client.create_cursor(10);
    client.apply_response_cursor(Some(&"tok1".to_string()));
    assert_eq!(client.cursor.as_ref().unwrap().cursor_id, "tok1");
    assert!(!client.cursor_closed());
    client.apply_response_cursor(Some(&"CLOSED".to_string()));
    assert!(client.cursor_closed());
    // A closed cursor does not advance further.
    client.apply_response_cursor(Some(&"tok2".to_string()));
    assert_eq!(client.cursor.as_ref().unwrap().cursor_id, "CLOSED");
}

#[test]
fn suspended_cursor_does_not_advance() {
    let mut client = registered();
    client.create_cursor(10);
    client.suspend_cursor();
    client.apply_response_cursor(Some(&"tok1".to_string()));
    assert_eq!(client.cursor.as_ref().unwrap().cursor_id, "CREATE");
}

#[test]
fn cursor_closed_without_cursor_is_true() {
    let client = registered();
    assert!(client.cursor_closed());
}

#[test]
fn close_cursor_and_max_lines_setters() {
    let mut client = registered();
    client.create_cursor(10);
    assert!(client.has_cursor());
    client.close_cursor();
    assert!(!client.has_cursor());
    client.set_result_max_lines(77);
    let mut c2 = client;
    let headers = c2.get_default_headers(None).unwrap();
    assert_eq!(header_value(&headers, "WWSVC-ACCEPT-RESULT-MAX-LINES").unwrap(), "77");
}

#[test]
fn unauthenticated_signed_request_fails_before_any_exchange() {
    // The not-authenticated error comes first: no header is built, no
    // counter advances, and nothing is handed out that could be sent.
    let mut client = unregistered();
    let r = client.prepare_request("PUT", "ARTIKEL.GET", 1, Parameters::new(), None);
    assert!(matches!(r, Err(WWSVCError::NotAuthenticated)));
    assert_eq!(client.current_request, 0);
    assert!(!client.has_cursor());
}

#[test]
fn prepared_request_parses_back_to_inputs() {
    let mut client = registered();
    let params = Parameters::new().param("ARTNR", "1004");
    let req = client.prepare_request("PUT", "ARTIKEL.GET", 1, params, None).unwrap();
    assert_eq!(req.method, "PUT");
    assert_eq!(req.url, "https://example.invalid:8080/WWSVC/EXECJSON");

    // The body reproduces the supplied function, parameters and revision.
    assert_eq!(req.body.function.function_name, "ARTIKEL.GET");
    assert_eq!(req.body.function.revision, 1);
    assert_eq!(req.body.function.parameters.len(), 1);
    assert_eq!(req.body.function.parameters[0].name, "ARTNR");
    assert_eq!(req.body.function.parameters[0].content, "1004");
    assert_eq!(req.body.pass_info.service_pass, "p1");
    assert_eq!(req.body.pass_info.execute_mode, "SYNCHRON");

    // The headers parse back to the same request id, timestamp and hash
    // that the body carries.
    let reqid = header_value(&req.headers, "WWSVC-REQID").unwrap();
    assert_eq!(parse_u32_decimal(&reqid), Some(req.body.pass_info.request_id));
    assert_eq!(req.body.pass_info.request_id, 1);
    assert_eq!(client.current_request, 1);
    let ts = header_value(&req.headers, "WWSVC-TS").unwrap();
    assert_eq!(ts, req.body.pass_info.timestamp);
    let hash = header_value(&req.headers, "WWSVC-HASH").unwrap();
    assert_eq!(hash, req.body.pass_info.app_hash);
    assert_eq!(hash, wwsvc_rs::AppHash::from_parts(0, "a1", ts).hash);
}

#[test]
fn error_messages_are_nonempty() {
    let errors = vec![
        WWSVCError::NotAuthenticated,
        WWSVCError::MissingCredentials,
        WWSVCError::HeaderValueToStrError,
        WWSVCError::InvalidHeader,
        WWSVCError::ReqwestError("connection refused".to_string()),
        WWSVCError::InvalidHeaderValue("bad value".to_string()),
        WWSVCError::UrlParseError,
        WWSVCError::DecodeError("missing field".to_string()),
    ];
    for e in errors {
        assert!(!e.message().is_empty());
    }
}
