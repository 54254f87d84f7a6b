use wwsvc_rs::decimal::{parse_u32_decimal, u32_to_decimal};
use wwsvc_rs::requests::{ExecJsonRequest, ToServiceFunctionParameters};
use wwsvc_rs::responses::{function_get_name, function_list_name};
use wwsvc_rs::Parameters;

#[test]
fn parameters_start_empty() {
    let p = Parameters::new();
    assert!(p.as_inner().is_empty());
    assert!(Parameters::default().as_inner().is_empty());
}

#[test]
fn param_appends_new_key() {
    let p = Parameters::new().param("ARTNR", "1004").param("FELDER", "ART_1_25");
    let inner = p.into_inner();
    assert_eq!(inner.len(), 2);
    assert_eq!(inner[0], ("ARTNR".to_string(), "1004".to_string()));
    assert_eq!(inner[1], ("FELDER".to_string(), "ART_1_25".to_string()));
}

#[test]
fn param_replaces_existing_key_in_place() {
    let p = Parameters::new().param("ARTNR", "1").param("FELDER", "X").param("ARTNR", "2");
    let inner = p.into_inner();
    assert_eq!(inner.len(), 2);
    assert_eq!(inner[0], ("ARTNR".to_string(), "2".to_string()));
    assert_eq!(inner[1], ("FELDER".to_string(), "X".to_string()));
}

#[test]
fn extend_adds_pairs_in_order() {
    let p = Parameters::new().param("A", "1").extend(vec![
        ("B".to_string(), "2".to_string()),
        ("A".to_string(), "3".to_string()),
    ]);
    let inner = p.into_inner();
    assert_eq!(inner.len(), 2);
    assert_eq!(inner[0], ("A".to_string(), "3".to_string()));
    assert_eq!(inner[1], ("B".to_string(), "2".to_string()));
}

#[test]
fn parameters_clone_is_equal() {
    let p = Parameters::new().param("A", "1").param("B", "2");
    let q = p.clone();
    assert_eq!(p.as_inner(), q.as_inner());
}

#[test]
fn parameters_convert_to_service_function_parameters() {
    let p = Parameters::new().param("ARTNR", "1004");
    let v = p.to_service_function_parameters();
    assert_eq!(v.len(), 1);
    assert_eq!(v[0].name, "ARTNR");
    assert_eq!(v[0].content, "1004");
}

#[test]
fn exec_json_request_carries_inputs() {
    let p = Parameters::new().param("ARTNR", "1004");
    let body = ExecJsonRequest::new(
        "ARTIKEL.GET",
        p.to_service_function_parameters(),
        1,
        "pass",
        "hash",
        "Tue, 15 Nov 1994 08:12:31 GMT",
        4,
    );
    assert_eq!(body.function.function_name, "ARTIKEL.GET");
    assert_eq!(body.function.revision, 1);
    assert_eq!(body.function.parameters.len(), 1);
    assert_eq!(body.pass_info.service_pass, "pass");
    assert_eq!(body.pass_info.app_hash, "hash");
    assert_eq!(body.pass_info.timestamp, "Tue, 15 Nov 1994 08:12:31 GMT");
    assert_eq!(body.pass_info.request_id, 4);
    assert_eq!(body.pass_info.execute_mode, "SYNCHRON");
}

#[test]
fn response_field_names_derive_from_function() {
    assert_eq!(function_list_name("ARTIKEL"), "ARTIKELLISTE");
    assert_eq!(function_get_name("ARTIKEL"), "ARTIKEL.GET");
    assert_eq!(function_list_name("IDBID0026"), "IDBID0026LISTE");
}

#[test]
fn decimal_renders_exact_values() {
    assert_eq!(u32_to_decimal(0), "0");
    assert_eq!(u32_to_decimal(7), "7");
    assert_eq!(u32_to_decimal(1000), "1000");
    assert_eq!(u32_to_decimal(4294967295), "4294967295");
}

#[test]
fn decimal_parses_back() {
    assert_eq!(parse_u32_decimal("0"), Some(0));
    assert_eq!(parse_u32_decimal("1000"), Some(1000));
    assert_eq!(parse_u32_decimal("00123"), Some(123));
    assert_eq!(parse_u32_decimal("4294967295"), Some(4294967295));
    assert_eq!(parse_u32_decimal("4294967296"), None);
    assert_eq!(parse_u32_decimal(""), None);
    assert_eq!(parse_u32_decimal("12a"), None);
    assert_eq!(parse_u32_decimal("-1"), None);
}

#[test]
fn decimal_round_trips() {
    for n in [0u32, 1, 9, 10, 99, 100, 12345, 4294967295] {
        assert_eq!(parse_u32_decimal(&u32_to_decimal(n)), Some(n));
    }
}
