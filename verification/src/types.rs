//! Data model of the backend: connection configuration, listing records,
//! metadata records, and the request shapes of copy, move and presign.
//!
//! Timestamps are carried as the provider reports them, as whole seconds
//! and a nanosecond remainder; rendering them as calendar dates is the
//! caller's concern.

use vstd::prelude::*;

verus! {

/// A provider timestamp: seconds since the epoch and a nanosecond remainder.
#[derive(Debug, Clone, Copy, PartialEq, Eq, Structural)]
pub struct Timestamp {
    pub secs: i64,
    pub nanos: u32,
}

/// Connection parameters, supplied fresh on every call.
#[derive(Debug, Clone)]
pub struct S3Config {
    pub endpoint: String,
    pub access_key: String,
    pub secret_key: String,
    pub region: String,
    pub bucket: Option<String>,
    pub use_ssl: bool,
    pub path_style: bool,
}

/// One bucket of the account listing.
#[derive(Debug, Clone, PartialEq)]
pub struct S3Bucket {
    pub name: String,
    pub creation_date: Option<Timestamp>,
}

/// One entry of the merged object listing: either a synthetic directory
/// entry made from a common prefix, or a real object.
#[derive(Debug, Clone, PartialEq)]
pub struct S3Object {
    pub key: String,
    pub size: i64,
    pub last_modified: Option<Timestamp>,
    pub etag: Option<String>,
    pub storage_class: Option<String>,
    pub is_dir: bool,
    pub content_type: Option<String>,
}

/// Head-object result: the object's own attributes and the open mapping
/// of user-defined metadata pairs, kept in provider order.
#[derive(Debug, Clone, PartialEq)]
pub struct ObjectMetadata {
    pub key: String,
    pub size: i64,
    pub last_modified: Option<Timestamp>,
    pub etag: Option<String>,
    pub content_type: Option<String>,
    pub metadata: Vec<(String, String)>,
}

/// A presigned-URL request; `method` is matched case-insensitively
/// against GET, PUT and DELETE.
#[derive(Debug, Clone, PartialEq)]
pub struct PresignedUrlRequest {
    pub bucket: String,
    pub key: String,
    pub expires_in: u64,
    pub method: String,
}

/// A server-side copy request.
#[derive(Debug, Clone, PartialEq)]
pub struct CopyObjectRequest {
    pub source_bucket: String,
    pub source_key: String,
    pub dest_bucket: String,
    pub dest_key: String,
}

/// A move request: copy, then delete the source.
#[derive(Debug, Clone, PartialEq)]
pub struct MoveObjectRequest {
    pub source_bucket: String,
    pub source_key: String,
    pub dest_bucket: String,
    pub dest_key: String,
}

/// One entry of the provider's raw object listing, before merging.
/// Every field is optional exactly as in the provider's response shape.
#[derive(Debug, Clone, PartialEq)]
pub struct ObjectSummary {
    pub key: Option<String>,
    pub size: Option<i64>,
    pub last_modified: Option<Timestamp>,
    pub etag: Option<String>,
    pub storage_class: Option<String>,
}

/// One entry of the provider's raw bucket listing.
#[derive(Debug, Clone, PartialEq)]
pub struct BucketSummary {
    pub name: Option<String>,
    pub creation_date: Option<Timestamp>,
}

/// The view of an optional string as an optional character sequence.
pub open spec fn opt_seq(o: Option<String>) -> Option<Seq<char>> {
    match o {
        Option::Some(s) => Option::Some(s@),
        Option::None => Option::None,
    }
}

/// Mathematical model of one merged listing entry.
pub ghost struct ObjectModel {
    pub key: Seq<char>,
    pub size: i64,
    pub last_modified: Option<Timestamp>,
    pub etag: Option<Seq<char>>,
    pub storage_class: Option<Seq<char>>,
    pub is_dir: bool,
    pub content_type: Option<Seq<char>>,
}

impl View for S3Object {
    type V = ObjectModel;

    open spec fn view(&self) -> ObjectModel {
        ObjectModel {
            key: self.key@,
            size: self.size,
            last_modified: self.last_modified,
            etag: opt_seq(self.etag),
            storage_class: opt_seq(self.storage_class),
            is_dir: self.is_dir,
            content_type: opt_seq(self.content_type),
        }
    }
}

/// Mathematical model of one raw listing entry.
pub ghost struct SummaryModel {
    pub key: Option<Seq<char>>,
    pub size: Option<i64>,
    pub last_modified: Option<Timestamp>,
    pub etag: Option<Seq<char>>,
    pub storage_class: Option<Seq<char>>,
}

impl View for ObjectSummary {
    type V = SummaryModel;

    open spec fn view(&self) -> SummaryModel {
        SummaryModel {
            key: opt_seq(self.key),
            size: self.size,
            last_modified: self.last_modified,
            etag: opt_seq(self.etag),
            storage_class: opt_seq(self.storage_class),
        }
    }
}

/// Mathematical model of one bucket record.
pub ghost struct BucketModel {
    pub name: Seq<char>,
    pub creation_date: Option<Timestamp>,
}

impl View for S3Bucket {
    type V = BucketModel;

    open spec fn view(&self) -> BucketModel {
        BucketModel { name: self.name@, creation_date: self.creation_date }
    }
}

} // verus!
