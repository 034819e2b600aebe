use data_sync::payload::{
    payload_from_members, MISSING_MESSAGE, MISSING_STATUS, SERVED_MESSAGE, SERVED_STATUS,
};
use data_sync::{api_payload, decode_api_response, encode_api_response, get_data, ApiResponse};

#[test]
fn get_data_returns_identical_bytes_on_every_call() {
    let first = get_data();
    let second = get_data();
    let third = get_data();
    assert_eq!(first, second);
    assert_eq!(second, third);
}

#[test]
fn get_data_body_is_the_fixed_object() {
    assert_eq!(
        get_data(),
        "{\"message\":\"Hello from Rust backend!\",\"status\":\"success\"}"
    );
}

#[test]
fn served_body_decodes_to_the_payload() {
    let decoded = decode_api_response(&get_data()).unwrap();
    assert_eq!(decoded, api_payload());
    assert_eq!(decoded.message, SERVED_MESSAGE);
    assert_eq!(decoded.status, SERVED_STATUS);
}

#[test]
fn encode_writes_both_members() {
    let p = ApiResponse::new("a \"quoted\" text", "ok");
    let text = encode_api_response(&p);
    assert_eq!(text, "{\"message\":\"a \\\"quoted\\\" text\",\"status\":\"ok\"}");
    assert_eq!(decode_api_response(&text).unwrap(), p);
}

#[test]
fn decode_tolerates_extra_members() {
    let body = "{\"status\":\"s\",\"extra\":[1,2,{}],\"message\":\"m\"}";
    let p = decode_api_response(body).unwrap();
    assert_eq!(p, ApiResponse::new("m", "s"));
}

#[test]
fn decode_rejects_missing_message() {
    assert_eq!(
        decode_api_response("{\"status\":\"success\"}"),
        Err(MISSING_MESSAGE.to_string())
    );
}

#[test]
fn decode_rejects_non_string_status() {
    assert_eq!(
        decode_api_response("{\"message\":\"m\",\"status\":7}"),
        Err(MISSING_STATUS.to_string())
    );
}

#[test]
fn decode_rejects_non_object() {
    assert_eq!(
        decode_api_response("[\"message\"]"),
        Err(MISSING_MESSAGE.to_string())
    );
}

#[test]
fn decode_reports_syntax_errors() {
    let r = decode_api_response("not json");
    let detail = r.unwrap_err();
    assert!(!detail.is_empty());
    assert_ne!(detail, MISSING_MESSAGE);
    assert_ne!(detail, MISSING_STATUS);
}

#[test]
fn payload_from_members_builds_the_payload() {
    let r = payload_from_members(Ok(Some("m".to_string())), Ok(Some("s".to_string())));
    assert_eq!(r, Ok(ApiResponse::new("m", "s")));
}

#[test]
fn payload_from_members_reports_the_first_problem() {
    assert_eq!(
        payload_from_members(Err("bad text".to_string()), Ok(Some("s".to_string()))),
        Err("bad text".to_string())
    );
    assert_eq!(
        payload_from_members(Ok(None), Err("bad text".to_string())),
        Err(MISSING_MESSAGE.to_string())
    );
    assert_eq!(
        payload_from_members(Ok(Some("m".to_string())), Err("other".to_string())),
        Err("other".to_string())
    );
    assert_eq!(
        payload_from_members(Ok(Some("m".to_string())), Ok(None)),
        Err(MISSING_STATUS.to_string())
    );
}

#[test]
fn object_keyed_by_a_reserved_token_is_no_payload() {
    let body = "{\"$serde_json::private::RawValue\":\"x\"}";
    assert!(decode_api_response(body).is_err());
}
