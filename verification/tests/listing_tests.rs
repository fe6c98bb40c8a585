use stellars3::listing::{list_buckets, merge_listing};
use stellars3::types::{BucketSummary, ObjectSummary, Timestamp};

fn summary(key: Option<&str>, size: Option<i64>) -> ObjectSummary {
    ObjectSummary {
        key: key.map(|k| k.to_string()),
        size,
        last_modified: None,
        etag: None,
        storage_class: None,
    }
}

#[test]
fn merge_keeps_order_dirs_before_files() {
    let prefixes = vec![Some("docs/".to_string()), Some("img/".to_string())];
    let contents = vec![summary(Some("a.txt"), Some(3)), summary(Some("b.gif"), Some(9))];
    let merged = merge_listing(&prefixes, &contents);
    assert_eq!(merged.len(), 4);
    assert_eq!(merged[0].key, "docs/");
    assert!(merged[0].is_dir);
    assert_eq!(merged[0].size, 0);
    assert_eq!(
        merged[0].content_type,
        Some("application/x-directory".to_string())
    );
    assert_eq!(merged[1].key, "img/");
    assert!(merged[1].is_dir);
    assert_eq!(merged[2].key, "a.txt");
    assert!(!merged[2].is_dir);
    assert_eq!(merged[2].size, 3);
    assert_eq!(merged[2].content_type, Some("text/plain".to_string()));
    assert_eq!(merged[3].key, "b.gif");
    assert_eq!(merged[3].size, 9);
    assert_eq!(merged[3].content_type, Some("image/gif".to_string()));
}

#[test]
fn merge_excludes_zero_byte_separator_keys() {
    let contents = vec![
        summary(Some("a/"), Some(0)),
        summary(Some("a/x.txt"), Some(17)),
    ];
    let merged = merge_listing(&vec![], &contents);
    assert_eq!(merged.len(), 1);
    assert_eq!(merged[0].key, "a/x.txt");
    let again = merge_listing(&vec![], &contents);
    assert_eq!(merged, again);
}

#[test]
fn merge_prefix_view_of_nested_folder() {
    // A one-level listing under prefix `a/`: the provider groups `a/` as a
    // common prefix and reports the nested object; `b.txt` is filtered out
    // by the prefix before the response is built.
    let prefixes = vec![Some("a/".to_string())];
    let contents: Vec<ObjectSummary> = vec![];
    let merged = merge_listing(&prefixes, &contents);
    assert_eq!(merged.len(), 1);
    assert_eq!(merged[0].key, "a/");
    assert!(merged[0].is_dir);

    // The same bucket read as contents: `a/` is excluded only because it is
    // zero-sized with a trailing separator; `a/x.txt` stays a file entry.
    let contents = vec![
        summary(Some("a/"), Some(0)),
        summary(Some("a/x.txt"), Some(17)),
    ];
    let merged = merge_listing(&vec![], &contents);
    assert_eq!(merged.len(), 1);
    assert_eq!(merged[0].key, "a/x.txt");
    assert_eq!(merged[0].size, 17);
    assert!(!merged[0].is_dir);
}

#[test]
fn merge_keeps_separator_key_of_unknown_size() {
    // The provider reported no size at all: the entry is not a placeholder,
    // and its size defaults to 0 in the merged record.
    let contents = vec![summary(Some("keep/"), None)];
    let merged = merge_listing(&vec![], &contents);
    assert_eq!(merged.len(), 1);
    assert_eq!(merged[0].key, "keep/");
    assert_eq!(merged[0].size, 0);
    assert!(!merged[0].is_dir);
}

#[test]
fn merge_keeps_nonzero_separator_key() {
    let contents = vec![summary(Some("data/"), Some(5))];
    let merged = merge_listing(&vec![], &contents);
    assert_eq!(merged.len(), 1);
    assert_eq!(merged[0].key, "data/");
    assert_eq!(merged[0].size, 5);
}

#[test]
fn merge_defaults_missing_key_and_skips_missing_prefix() {
    let prefixes = vec![None, Some("p/".to_string())];
    let contents = vec![summary(None, Some(4))];
    let merged = merge_listing(&prefixes, &contents);
    assert_eq!(merged.len(), 2);
    assert_eq!(merged[0].key, "p/");
    assert!(merged[0].is_dir);
    assert_eq!(merged[1].key, "");
    assert_eq!(merged[1].size, 4);
    assert_eq!(merged[1].content_type, None);
}

#[test]
fn merge_carries_object_attributes() {
    let ts = Timestamp { secs: 1_700_000_000, nanos: 250 };
    let contents = vec![ObjectSummary {
        key: Some("report.pdf".to_string()),
        size: Some(1024),
        last_modified: Some(ts),
        etag: Some("\"abc123\"".to_string()),
        storage_class: Some("STANDARD".to_string()),
    }];
    let merged = merge_listing(&vec![], &contents);
    assert_eq!(merged.len(), 1);
    assert_eq!(merged[0].last_modified, Some(ts));
    assert_eq!(merged[0].etag, Some("\"abc123\"".to_string()));
    assert_eq!(merged[0].storage_class, Some("STANDARD".to_string()));
    assert_eq!(merged[0].content_type, Some("application/pdf".to_string()));
}

#[test]
fn bucket_listing_defaults_missing_name() {
    let ts = Timestamp { secs: 86_400, nanos: 0 };
    let raw = vec![
        BucketSummary { name: Some("alpha".to_string()), creation_date: Some(ts) },
        BucketSummary { name: None, creation_date: None },
    ];
    let records = list_buckets(raw);
    assert_eq!(records.len(), 2);
    assert_eq!(records[0].name, "alpha");
    assert_eq!(records[0].creation_date, Some(ts));
    assert_eq!(records[1].name, "");
    assert_eq!(records[1].creation_date, None);
}
