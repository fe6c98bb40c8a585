//! Verified core of an S3-compatible object-storage backend.
//!
//! The library holds the logic of the backend: configuration records,
//! the merge of a provider listing response into a flat entry list,
//! presigned-URL method validation, the bucket-location-constraint rule,
//! and the copy-then-delete model behind `move`. Network transport lives
//! outside the library; every function here works on plain values.

pub mod buckets;
pub mod listing;
pub mod metadata;
pub mod presign;
pub mod session;
pub mod transfer;
pub mod types;
