use wwsvc_rs::responses::{ComResult, GetContainer, GetResponse, HasList};
use wwsvc_rs::{Credentials, CursoredResponse, PageResponse, Parameters, WebwareClient};

fn registered() -> WebwareClient {
    WebwareClient::builder()
        .webware_url("https://example.invalid:8080")
        .vendor_hash("v")
        .app_hash("a")
        .secret("s")
        .revision(1)
        .credentials(Credentials::new("p1", "a1"))
        .build()
        .unwrap()
}

fn paginator() -> CursoredResponse<u32> {
    CursoredResponse::new("PUT", "ARTIKEL.GET", 1, Parameters::new(), 5)
}

fn page(header: Option<&str>, items: Option<Vec<u32>>) -> PageResponse<u32> {
    PageResponse { cursor_header: header.map(|h| h.to_string()), items }
}

#[test]
fn pagination_collects_all_pages_and_counts_calls() {
    // Two non-empty pages of size 5, then a closing response: three
    // requests in all, ten records collected.
    let mut client = registered();
    let mut resp = paginator();
    let pages = vec![
        page(Some("tok1"), Some(vec![1, 2, 3, 4, 5])),
        page(Some("tok2"), Some(vec![6, 7, 8, 9, 10])),
        page(Some("CLOSED"), Some(vec![])),
    ];
    let (collected, calls) = resp.collect_pages(&mut client, pages).unwrap();
    assert_eq!(collected, vec![1, 2, 3, 4, 5, 6, 7, 8, 9, 10]);
    assert_eq!(calls, 3);
    assert!(resp.is_finished());
    assert!(!client.has_cursor());
    assert_eq!(client.current_request, 3);
}

#[test]
fn finished_paginator_makes_no_further_requests() {
    let mut client = registered();
    let mut resp = paginator();
    let pages = vec![page(Some("CLOSED"), Some(vec![1, 2]))];
    let (collected, calls) = resp.collect_pages(&mut client, pages).unwrap();
    assert_eq!(collected, vec![1, 2]);
    assert_eq!(calls, 1);
    assert!(resp.is_finished());
    let before = client.current_request;
    let r = resp.next_begin(&mut client).unwrap();
    assert!(r.is_none());
    assert_eq!(client.current_request, before);
}

#[test]
fn empty_list_terminates_without_error_or_data_loss() {
    let mut client = registered();
    let mut resp = paginator();
    let pages = vec![
        page(Some("tok1"), Some(vec![1, 2, 3])),
        page(Some("tok2"), Some(vec![])),
        page(Some("tok3"), Some(vec![9])),
    ];
    let (collected, calls) = resp.collect_pages(&mut client, pages).unwrap();
    assert_eq!(collected, vec![1, 2, 3]);
    assert_eq!(calls, 2);
    assert!(resp.is_finished());
}

#[test]
fn missing_list_terminates_without_error_or_data_loss() {
    let mut client = registered();
    let mut resp = paginator();
    let pages = vec![page(Some("tok1"), Some(vec![1, 2, 3])), page(Some("tok2"), None)];
    let (collected, calls) = resp.collect_pages(&mut client, pages).unwrap();
    assert_eq!(collected, vec![1, 2, 3]);
    assert_eq!(calls, 2);
    assert!(resp.is_finished());
}

#[test]
fn pagination_creates_cursor_lazily_with_page_size() {
    let mut client = registered();
    let mut resp = paginator();
    assert!(!client.has_cursor());
    let req = resp.next_begin(&mut client).unwrap().unwrap();
    assert!(client.has_cursor());
    assert_eq!(client.cursor.as_ref().unwrap().cursor_id, "CREATE");
    assert_eq!(client.cursor.as_ref().unwrap().max_lines, 5);
    assert_eq!(
        wwsvc_rs::client::header_value(&req.headers, "WWSVC-CURSOR").unwrap(),
        "CREATE"
    );
    assert_eq!(
        wwsvc_rs::client::header_value(&req.headers, "WWSVC-ACCEPT-RESULT-MAX-LINES").unwrap(),
        "5"
    );
    assert_eq!(req.body.function.function_name, "ARTIKEL.GET");
}

#[test]
fn cursor_sequence_create_tok_tok_closed() {
    // A mock cursor sequence CREATE -> tok1 -> tok2 -> CLOSED over three
    // calls with payload sizes [5, 5, 0] yields ten records and finishes
    // after the third call.
    let mut client = registered();
    let mut resp = paginator();

    let req1 = resp.next_begin(&mut client).unwrap().unwrap();
    assert_eq!(
        wwsvc_rs::client::header_value(&req1.headers, "WWSVC-CURSOR").unwrap(),
        "CREATE"
    );
    let out1 = resp.next_finish(&mut client, Some(&"tok1".to_string()), Some(vec![1, 2, 3, 4, 5]));
    assert_eq!(out1.unwrap().len(), 5);
    assert!(!resp.is_finished());

    let req2 = resp.next_begin(&mut client).unwrap().unwrap();
    assert_eq!(wwsvc_rs::client::header_value(&req2.headers, "WWSVC-CURSOR").unwrap(), "tok1");
    let out2 = resp.next_finish(
        &mut client,
        Some(&"tok2".to_string()),
        Some(vec![6, 7, 8, 9, 10]),
    );
    assert_eq!(out2.unwrap().len(), 5);
    assert!(!resp.is_finished());

    let req3 = resp.next_begin(&mut client).unwrap().unwrap();
    assert_eq!(wwsvc_rs::client::header_value(&req3.headers, "WWSVC-CURSOR").unwrap(), "tok2");
    let out3 = resp.next_finish(&mut client, Some(&"CLOSED".to_string()), Some(vec![]));
    assert!(out3.is_none());
    assert!(resp.is_finished());
    assert_eq!(client.current_request, 3);
}

#[test]
fn unauthenticated_pagination_fails_before_any_exchange() {
    let mut client = WebwareClient::builder()
        .webware_url("https://example.invalid:8080")
        .vendor_hash("v")
        .app_hash("a")
        .secret("s")
        .revision(1)
        .build()
        .unwrap();
    let mut resp = paginator();
    let r = resp.next_begin(&mut client);
    assert!(matches!(r, Err(wwsvc_rs::WWSVCError::NotAuthenticated)));
    assert_eq!(client.current_request, 0);
    assert!(!client.has_cursor());
}

#[test]
fn get_response_hands_out_its_list() {
    let com = ComResult {
        status: 200,
        code: "OK".to_string(),
        info: "".to_string(),
        info2: None,
        info3: None,
        errno: None,
    };
    let r: GetResponse<u32> =
        GetResponse { com_result: com.clone(), container: GetContainer { list: Some(vec![1, 2]) } };
    assert_eq!(r.into_items(), Some(vec![1, 2]));
    let r: GetResponse<u32> = GetResponse { com_result: com, container: GetContainer { list: None } };
    assert_eq!(r.into_items(), None);
}
