use stellars3::buckets::location_constraint;
use stellars3::metadata::get_object_metadata;
use stellars3::presign::{parse_presign_method, presign_plan, PresignMethod};
use stellars3::session::{connect_to_s3, session_plan, test_connection};
use stellars3::transfer::{copy_source_locator, move_advance, MoveState};
use stellars3::types::{PresignedUrlRequest, S3Config, Timestamp};

fn config(endpoint: &str, use_ssl: bool) -> S3Config {
    S3Config {
        endpoint: endpoint.to_string(),
        access_key: "ak".to_string(),
        secret_key: "sk".to_string(),
        region: "eu-west-1".to_string(),
        bucket: None,
        use_ssl,
        path_style: true,
    }
}

fn presign_request(method: &str) -> PresignedUrlRequest {
    PresignedUrlRequest {
        bucket: "b".to_string(),
        key: "k".to_string(),
        expires_in: 3600,
        method: method.to_string(),
    }
}

#[test]
fn parse_method_accepts_any_letter_case() {
    assert_eq!(parse_presign_method("GET"), Some(PresignMethod::Get));
    assert_eq!(parse_presign_method("get"), Some(PresignMethod::Get));
    assert_eq!(parse_presign_method("GeT"), Some(PresignMethod::Get));
    assert_eq!(parse_presign_method("put"), Some(PresignMethod::Put));
    assert_eq!(parse_presign_method("PUT"), Some(PresignMethod::Put));
    assert_eq!(parse_presign_method("Delete"), Some(PresignMethod::Delete));
    assert_eq!(parse_presign_method("DELETE"), Some(PresignMethod::Delete));
}

#[test]
fn parse_method_rejects_everything_else() {
    assert_eq!(parse_presign_method("POST"), None);
    assert_eq!(parse_presign_method("HEAD"), None);
    assert_eq!(parse_presign_method(""), None);
    assert_eq!(parse_presign_method("GETT"), None);
    assert_eq!(parse_presign_method("GE"), None);
    assert_eq!(parse_presign_method("G3T"), None);
}

#[test]
fn presign_plan_rejects_unsupported_method_before_any_request() {
    let err = presign_plan(&presign_request("POST")).unwrap_err();
    assert_eq!(err, "Unsupported HTTP method: POST");
    let ok = presign_plan(&presign_request("delete")).unwrap();
    assert_eq!(ok, PresignMethod::Delete);
}

#[test]
fn location_constraint_omitted_for_default_region() {
    assert_eq!(location_constraint(&"us-east-1".to_string()), None);
    assert_eq!(
        location_constraint(&"eu-west-1".to_string()),
        Some("eu-west-1".to_string())
    );
    assert_eq!(
        location_constraint(&"ap-southeast-2".to_string()),
        Some("ap-southeast-2".to_string())
    );
}

#[test]
fn session_plan_resolves_endpoint_override() {
    let plan = session_plan(&config("minio.local:9000", true));
    assert_eq!(plan.endpoint_url, Some("https://minio.local:9000".to_string()));
    assert_eq!(plan.region, "eu-west-1");
    assert!(plan.path_style);

    let plan = session_plan(&config("minio.local:9000", false));
    assert_eq!(plan.endpoint_url, Some("http://minio.local:9000".to_string()));

    let plan = session_plan(&config("", true));
    assert_eq!(plan.endpoint_url, None);

    let plan = session_plan(&config("s3.amazonaws.com", true));
    assert_eq!(plan.endpoint_url, None);
}

#[test]
fn connect_and_test_connection_agree() {
    assert_eq!(test_connection(Ok(())), Ok(true));
    assert_eq!(connect_to_s3(Ok(())), Ok(true));
    let a = test_connection(Err("boom".to_string()));
    let b = connect_to_s3(Err("boom".to_string()));
    assert_eq!(a, Err("Connection failed: boom".to_string()));
    assert_eq!(a, b);
}

#[test]
fn copy_source_is_bucket_slash_key() {
    assert_eq!(copy_source_locator("photos", "2024/a.png"), "photos/2024/a.png");
    assert_eq!(copy_source_locator("b", "k"), "b/k");
}

#[test]
fn move_protocol_copy_then_delete() {
    let after_copy = move_advance(MoveState::CopyPending, Ok(()));
    assert_eq!(after_copy, MoveState::DeletePending);
    let done = move_advance(after_copy, Ok(()));
    assert_eq!(done, MoveState::Done);
}

#[test]
fn move_protocol_stops_on_failure() {
    let failed = move_advance(MoveState::CopyPending, Err("no such key".to_string()));
    assert_eq!(failed, MoveState::Failed("no such key".to_string()));
    let failed = move_advance(MoveState::DeletePending, Err("denied".to_string()));
    assert_eq!(failed, MoveState::Failed("denied".to_string()));
}

#[test]
fn metadata_record_defaults_and_carries_fields() {
    let ts = Timestamp { secs: 1_600_000_000, nanos: 1 };
    let meta = get_object_metadata(
        "doc.txt",
        None,
        Some(ts),
        Some("\"e\"".to_string()),
        Some("text/plain".to_string()),
        vec![("owner".to_string(), "ops".to_string())],
    );
    assert_eq!(meta.key, "doc.txt");
    assert_eq!(meta.size, 0);
    assert_eq!(meta.last_modified, Some(ts));
    assert_eq!(meta.etag, Some("\"e\"".to_string()));
    assert_eq!(meta.content_type, Some("text/plain".to_string()));
    assert_eq!(meta.metadata, vec![("owner".to_string(), "ops".to_string())]);

    let meta = get_object_metadata("doc.txt", Some(42), None, None, None, vec![]);
    assert_eq!(meta.size, 42);
    assert_eq!(meta.metadata, vec![]);
}
