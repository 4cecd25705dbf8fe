use airtable::api::{
    authorization, check_response, list_url, patch_body, record_url, ApiError, Record, RecordId,
    Timestamp,
};
use airtable::{default_status, png_data_uri};

#[test]
fn success_statuses_pass_the_body_on() {
    assert_eq!(check_response(200, "{}".to_string()).unwrap(), "{}");
    assert_eq!(check_response(299, "x".to_string()).unwrap(), "x");
}

#[test]
fn other_statuses_are_api_failures() {
    for code in [199u16, 300, 404, 422, 500] {
        match check_response(code, "body".to_string()) {
            Err(ApiError::Api { status, message }) => {
                assert_eq!(status, code);
                assert_eq!(message, "body");
            }
            other => panic!("unexpected result for {code}: {other:?}"),
        }
    }
}

#[test]
fn patch_body_carries_typecast_flag() {
    assert_eq!(
        patch_body(false, "{\"status\":\"accepted\"}"),
        "{\"typecast\":false,\"fields\":{\"status\":\"accepted\"}}"
    );
    assert_eq!(patch_body(true, "{\"n\":\"3\"}"), "{\"typecast\":true,\"fields\":{\"n\":\"3\"}}");
}

#[test]
fn patch_body_is_json() {
    let body = patch_body(true, "{\"a\":1}");
    let value: serde_json::Value = serde_json::from_str(&body).unwrap();
    assert_eq!(value["typecast"], serde_json::Value::Bool(true));
    assert_eq!(value["fields"]["a"], serde_json::Value::from(1));
}

#[test]
fn record_and_list_urls() {
    let id = RecordId::new("rec42".to_string());
    assert_eq!(record_url("appX", "Table", &id), "https://api.airtable.com/v0/appX/Table/rec42");
    assert_eq!(list_url("appX", "Table"), "https://api.airtable.com/v0/appX/Table");
}

#[test]
fn bearer_authorization() {
    assert_eq!(authorization("SECRET-REDACTED"), "Bearer SECRET-REDACTED");
}

#[test]
fn record_ids_compare_by_value() {
    let a = RecordId::new("rec1".to_string());
    assert_eq!(a.clone(), RecordId::new("rec1".to_string()));
    assert_ne!(a, RecordId::new("rec2".to_string()));
    assert_eq!(a.as_str(), "rec1");
}

#[test]
fn record_accessors() {
    let created = Timestamp { seconds: 1_700_000_000, nanos: 5 };
    let mut rec = Record::new(RecordId::new("rec9".to_string()), created, vec![1u8, 2]);
    assert_eq!(rec.id().as_str(), "rec9");
    assert_eq!(rec.created_time(), created);
    assert_eq!(rec.fields(), &vec![1, 2]);
    rec.fields_mut().push(3);
    assert_eq!(rec.id().as_str(), "rec9");
    assert_eq!(rec.into_fields(), vec![1, 2, 3]);
}

#[test]
fn json_errors_convert() {
    let e = serde_json::from_str::<serde_json::Value>("{").unwrap_err();
    assert!(matches!(ApiError::from(e), ApiError::Json(_)));
}

#[test]
fn url_errors_convert() {
    let e = url::Url::parse("no scheme").unwrap_err();
    assert!(matches!(ApiError::from(e), ApiError::Url(_)));
}

#[test]
fn new_submissions_default_to_new() {
    assert_eq!(default_status(), "new");
}

#[test]
fn png_data_uri_is_base64() {
    assert_eq!(png_data_uri(b"hi"), "data:image/png;base64,aGk=");
    assert_eq!(png_data_uri(&[]), "data:image/png;base64,");
}

#[test]
fn update_rejected_without_typecast_is_api_failure() {
    let body = patch_body(false, "{\"Hours\":\"three\"}");
    assert!(body.starts_with("{\"typecast\":false,"));
    let reply = "{\"error\":{\"type\":\"INVALID_VALUE_FOR_COLUMN\"}}".to_string();
    match check_response(422, reply.clone()) {
        Err(ApiError::Api { status, message }) => {
            assert_eq!(status, 422);
            assert_eq!(message, reply);
        }
        other => panic!("unexpected result: {other:?}"),
    }
}

#[test]
fn update_with_typecast_returns_server_record() {
    let body = patch_body(true, "{\"Hours\":\"3\"}");
    assert!(body.starts_with("{\"typecast\":true,"));
    let reply = "{\"id\":\"rec1\",\"createdTime\":\"2024-01-01T00:00:00.000Z\",\"fields\":{\"Hours\":3}}";
    let passed = check_response(200, reply.to_string()).unwrap();
    let value: serde_json::Value = serde_json::from_str(&passed).unwrap();
    assert_eq!(value["fields"]["Hours"], serde_json::Value::from(3));
}
