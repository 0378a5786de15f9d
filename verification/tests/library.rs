use std::collections::BTreeMap;

use awrust_cli::client::Client;
use awrust_cli::error::Error;
use awrust_cli::s3::{
    bucket_line, bucket_path, create_bucket_body, create_bucket_xml, created_message,
    deleted_message, downloaded_message, list_buckets_path, list_objects_path, object_keys,
    object_line, object_path, removed_message, split_path, uploaded_message, BucketInfo,
    ObjectInfo, DEFAULT_REGION,
};
use awrust_cli::text::{decimal_string, decimal_u16};
use serde::Serialize;

#[test]
fn split_path_at_first_slash() {
    assert_eq!(split_path("bucket/key.txt"), ("bucket", "key.txt"));
    assert_eq!(split_path("a/b/c"), ("a", "b/c"));
    assert_eq!(split_path("bucket"), ("bucket", ""));
    assert_eq!(split_path("bucket/"), ("bucket", ""));
    assert_eq!(split_path("/key"), ("", "key"));
    assert_eq!(split_path(""), ("", ""));
    assert_eq!(split_path("bücket/ßchlüssel"), ("bücket", "ßchlüssel"));
}

#[test]
fn split_then_join_gives_path_back() {
    for path in ["my-bucket/reports/q1.pdf", "x/y", "é/ü/ö"] {
        let (bucket, key) = split_path(path);
        assert!(!bucket.contains('/'));
        assert_eq!(format!("{}/{}", bucket, key), path);
    }
}

#[test]
fn client_drops_trailing_slashes() {
    assert_eq!(Client::new("http://localhost:4566").endpoint(), "http://localhost:4566");
    assert_eq!(Client::new("http://localhost:4566/").endpoint(), "http://localhost:4566");
    assert_eq!(Client::new("http://localhost:4566///").endpoint(), "http://localhost:4566");
    assert_eq!(Client::new("///").endpoint(), "");
    assert_eq!(Client::new("").endpoint(), "");
}

#[test]
fn client_trailing_slash_does_not_change_urls() {
    let a = Client::new("http://awrust.dev.local:4566");
    let b = Client::new("http://awrust.dev.local:4566/");
    let c = Client::new(b.endpoint());
    assert_eq!(a.url("/health"), b.url("/health"));
    assert_eq!(c.endpoint(), b.endpoint());
    assert_eq!(a.url("/bucket/key"), "http://awrust.dev.local:4566/bucket/key");
}

#[test]
fn success_is_200_to_299() {
    assert!(!Client::is_success(199));
    assert!(Client::is_success(200));
    assert!(Client::is_success(204));
    assert!(Client::is_success(299));
    assert!(!Client::is_success(300));
    assert!(!Client::is_success(404));
    assert!(!Client::is_success(0));
}

#[test]
fn error_messages() {
    assert_eq!(Client::refusal(404, "NoSuchKey".to_string()), Error::Api(404, "NoSuchKey".to_string()));
    assert_eq!(Error::Api(404, "NoSuchKey".to_string()).message(), "404: NoSuchKey");
    assert_eq!(Error::Api(500, String::new()).message(), "500: ");
    assert_eq!(Error::Xml("missing field".to_string()).message(), "xml: missing field");
    assert_eq!(Error::Http("connection refused".to_string()).message(), "connection refused");
    assert_eq!(Error::Io("not found".to_string()).message(), "not found");
}

#[test]
fn decimal_rendering_matches_to_string() {
    for n in [0u64, 7, 9, 10, 42, 99, 100, 1024, 2048, 65535, 1_000_000, u64::MAX] {
        assert_eq!(decimal_string(n), n.to_string());
    }
    for n in [0u16, 5, 200, 404, 503, u16::MAX] {
        assert_eq!(decimal_u16(n), n.to_string());
        assert_eq!(decimal_u16(n).parse::<u16>().unwrap(), n);
    }
}

#[test]
fn request_paths() {
    assert_eq!(bucket_path("b"), "/b");
    assert_eq!(object_path("b", "k/x"), "/b/k/x");
    assert_eq!(list_objects_path("b", ""), "/b?list-type=2");
    assert_eq!(list_objects_path("b", "logs/"), "/b?list-type=2&prefix=logs/");
    assert_eq!(list_buckets_path(), "/");
}

#[test]
fn printed_messages() {
    assert_eq!(created_message("my-bucket"), "Bucket created: my-bucket");
    assert_eq!(removed_message("my-bucket"), "Bucket removed: my-bucket");
    assert_eq!(
        uploaded_message("report.pdf", "my-bucket", "reports/q1.pdf"),
        "Uploaded: report.pdf -> my-bucket/reports/q1.pdf"
    );
    assert_eq!(
        downloaded_message("my-bucket", "reports/q1.pdf", "local-copy.pdf"),
        "Downloaded: my-bucket/reports/q1.pdf -> local-copy.pdf"
    );
    assert_eq!(deleted_message("my-bucket", "old-file.txt"), "Deleted: my-bucket/old-file.txt");
}

#[test]
fn listing_lines() {
    let bucket = BucketInfo { name: "my-bucket".to_string(), creation_date: "2025-01-01T00:00:00.000Z".to_string() };
    assert_eq!(bucket_line(&bucket), "2025-01-01T00:00:00.000Z\tmy-bucket");
    let object = ObjectInfo {
        key: "file.txt".to_string(),
        size: 1024,
        last_modified: "2025-03-01T10:00:00.000Z".to_string(),
    };
    assert_eq!(object_line(&object), "2025-03-01T10:00:00.000Z\t1024\tfile.txt");
    let empty = ObjectInfo { key: String::new(), size: 0, last_modified: String::new() };
    assert_eq!(object_line(&empty), "\t0\t");
}

#[test]
fn keys_keep_listing_order() {
    let objects = vec![
        ObjectInfo { key: "b".to_string(), size: 1, last_modified: "t".to_string() },
        ObjectInfo { key: "a".to_string(), size: 2, last_modified: "t".to_string() },
    ];
    assert_eq!(object_keys(&objects), vec!["b".to_string(), "a".to_string()]);
    assert!(object_keys(&vec![]).is_empty());
}

#[test]
fn bucket_body_is_empty_only_for_default_region() {
    assert_eq!(DEFAULT_REGION, "us-east-1");
    assert!(create_bucket_body("us-east-1").is_empty());
    assert_eq!(
        create_bucket_body("eu-west-1"),
        b"<CreateBucketConfiguration><LocationConstraint>eu-west-1</LocationConstraint></CreateBucketConfiguration>".to_vec()
    );
    assert!(!create_bucket_body("US-EAST-1").is_empty());
}

#[test]
fn bucket_xml_escapes_text() {
    assert_eq!(
        create_bucket_xml("a<b>&c\"d'e"),
        "<CreateBucketConfiguration><LocationConstraint>a&lt;b&gt;&amp;c\"d'e</LocationConstraint></CreateBucketConfiguration>"
    );
}

fn serialized_by_quick_xml(region: &str) -> String {
    let mut fields = BTreeMap::new();
    fields.insert("LocationConstraint", region);
    let mut out = String::new();
    let ser = quick_xml::se::Serializer::with_root(&mut out, Some("CreateBucketConfiguration")).unwrap();
    fields.serialize(ser).unwrap();
    out
}

#[test]
fn bucket_xml_matches_quick_xml_serializer() {
    for region in ["eu-west-1", "ap-south-1", "a<b>&c", "", "x y\tz", "ümlaut"] {
        assert_eq!(create_bucket_xml(region), serialized_by_quick_xml(region), "region {:?}", region);
    }
}
