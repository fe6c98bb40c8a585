//! The head-object response mapping: the object's attributes with a
//! missing size defaulted to 0, and the user metadata pairs carried
//! through in provider order.

use vstd::prelude::*;
use vstd::string::*;
use crate::types::{opt_seq, ObjectMetadata, Timestamp};
use crate::listing::size_or_zero;

verus! {

/// Build the metadata record of one head-object response. The key is
/// the one the caller asked about; every other field comes from the
/// response, with a missing size read as 0.
pub fn get_object_metadata(
    key: &str,
    size: Option<i64>,
    last_modified: Option<Timestamp>,
    etag: Option<String>,
    content_type: Option<String>,
    user_metadata: Vec<(String, String)>,
) -> (r: ObjectMetadata)
    ensures
        r.key@ == key@,
        r.size == size_or_zero(size),
        r.last_modified == last_modified,
        opt_seq(r.etag) == opt_seq(etag),
        opt_seq(r.content_type) == opt_seq(content_type),
        r.metadata == user_metadata,
{
    ObjectMetadata {
        key: String::from_str(key),
        size: match size {
            Some(s) => s,
            None => 0,
        },
        last_modified,
        etag,
        content_type,
        metadata: user_metadata,
    }
}

} // verus!
