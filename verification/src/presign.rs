//! Presigned-URL request validation: the HTTP method must be GET, PUT
//! or DELETE, matched without regard to letter case. An unsupported
//! method is rejected here, before any request is built or sent.

use vstd::prelude::*;
use vstd::string::*;
use crate::types::PresignedUrlRequest;

verus! {

/// The HTTP methods a presigned URL can carry.
#[derive(Debug, Clone, Copy, PartialEq, Eq, Structural)]
pub enum PresignMethod {
    Get,
    Put,
    Delete,
}

/// Two characters are equal up to ASCII letter case.
pub open spec fn char_eq_ci(a: char, b: char) -> bool {
    ||| a == b
    ||| (97 <= a as int <= 122 && b as int == a as int - 32)
    ||| (97 <= b as int <= 122 && a as int == b as int - 32)
}

/// Two character sequences are equal up to ASCII letter case.
pub open spec fn seq_eq_ci(s: Seq<char>, t: Seq<char>) -> bool {
    s.len() == t.len() && forall|i: int| 0 <= i < s.len() ==> char_eq_ci(s[i], t[i])
}

/// The method a request string names, if any.
pub open spec fn spec_parse_method(m: Seq<char>) -> Option<PresignMethod> {
    if seq_eq_ci(m, "GET"@) {
        Option::Some(PresignMethod::Get)
    } else if seq_eq_ci(m, "PUT"@) {
        Option::Some(PresignMethod::Put)
    } else if seq_eq_ci(m, "DELETE"@) {
        Option::Some(PresignMethod::Delete)
    } else {
        Option::None
    }
}

/// Compare two characters up to ASCII letter case.
fn char_eq_ci_exec(a: char, b: char) -> (r: bool)
    ensures
        r == char_eq_ci(a, b),
{
    let au = a as u32;
    let bu = b as u32;
    au == bu || (97 <= au && au <= 122 && bu + 32 == au) || (97 <= bu && bu <= 122 && au + 32
        == bu)
}

/// Compare two strings up to ASCII letter case.
fn str_eq_ci(a: &str, b: &str) -> (r: bool)
    ensures
        r == seq_eq_ci(a@, b@),
{
    let n = a.unicode_len();
    if n != b.unicode_len() {
        return false;
    }
    let mut i: usize = 0;
    while i < n
        invariant
            0 <= i <= n,
            n == a@.len(),
            n == b@.len(),
            forall|k: int| 0 <= k < i ==> char_eq_ci(a@[k], b@[k]),
        decreases n - i,
    {
        if !char_eq_ci_exec(a.get_char(i), b.get_char(i)) {
            return false;
        }
        i = i + 1;
    }
    true
}

/// Parse a presign method string: GET, PUT or DELETE in any letter case.
pub fn parse_presign_method(m: &str) -> (r: Option<PresignMethod>)
    ensures
        r == spec_parse_method(m@),
{
    if str_eq_ci(m, "GET") {
        Some(PresignMethod::Get)
    } else if str_eq_ci(m, "PUT") {
        Some(PresignMethod::Put)
    } else if str_eq_ci(m, "DELETE") {
        Some(PresignMethod::Delete)
    } else {
        None
    }
}

/// Validate a presign request: the supported method it names, or the
/// error message for an unsupported one. Rejection happens here, on the
/// request alone — nothing has been built or sent yet.
pub fn presign_plan(req: &PresignedUrlRequest) -> (r: Result<PresignMethod, String>)
    ensures
        r is Ok <==> spec_parse_method(req.method@) is Some,
        r matches Ok(m) ==> Option::Some(m) == spec_parse_method(req.method@),
        r matches Err(e) ==> e@ == "Unsupported HTTP method: "@ + req.method@,
{
    match parse_presign_method(req.method.as_str()) {
        Some(m) => Ok(m),
        None => Err(String::from_str("Unsupported HTTP method: ").concat(req.method.as_str())),
    }
}

} // verus!
