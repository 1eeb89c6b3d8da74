//! Giving a request target an explicit scheme.

use vstd::prelude::*;
use crate::search::starts_with;

verus! {

/// The target already names one of the two schemes the downloader speaks.
pub open spec fn has_scheme(uri: Seq<char>) -> bool {
    "http://"@.is_prefix_of(uri) || "https://"@.is_prefix_of(uri)
}

/// The target with `http://` put in front, unless it already names a scheme.
pub open spec fn normalized(uri: Seq<char>) -> Seq<char> {
    if has_scheme(uri) {
        uri
    } else {
        "http://"@ + uri
    }
}

/// Returns `uri` unchanged when it begins with `http://` or `https://`, and
/// `http://` followed by `uri` otherwise.
pub fn normalize_uri(uri: &str) -> (r: String)
    ensures
        r@ == normalized(uri@),
        has_scheme(uri@) ==> r@ == uri@,
        !has_scheme(uri@) ==> r@ == "http://"@ + uri@,
{
    if starts_with(uri, "http://") || starts_with(uri, "https://") {
        String::from_str(uri)
    } else {
        String::from_str("http://").concat(uri)
    }
}

} // verus!
