//! Bucket creation: the provider's legacy default region must not carry
//! a location constraint, every other region must carry its own name.

use vstd::prelude::*;
use vstd::string::*;

verus! {

/// The provider's legacy default region.
pub open spec fn default_region() -> Seq<char> {
    "us-east-1"@
}

/// The location constraint a bucket-creation request must carry for a
/// region: none for the provider's default region, the region's own
/// name for any other.
pub fn location_constraint(region: &String) -> (r: Option<String>)
    ensures
        region@ == default_region() ==> r is None,
        region@ != default_region() ==> (r matches Some(c) && c@ == region@),
{
    let default = String::from_str("us-east-1");
    if *region == default {
        None
    } else {
        Some(region.clone())
    }
}

} // verus!
