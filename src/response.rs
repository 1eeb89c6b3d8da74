//! What the downloader reads of a received response.

use vstd::prelude::*;

verus! {

/// A received response, as far as choosing a file name and sizing the
/// transfer depend on it.
pub struct Response {
    /// The raw bytes of the `Content-Disposition` header, when the response
    /// carries one.
    pub content_disposition: Option<Vec<u8>>,
    /// The final URL of the response, after any redirects.
    pub url: String,
    /// The body length that the response declares, if any.
    pub content_length: Option<u64>,
}

/// The bytes of an optional header value.
pub open spec fn header_view(h: Option<Vec<u8>>) -> Option<Seq<u8>> {
    match h {
        Some(v) => Some(v@),
        None => None,
    }
}

impl Response {
    /// The declared body length, or zero when none is declared (size unknown).
    pub fn declared_size(&self) -> (r: u64)
        ensures
            r == match self.content_length {
                Some(n) => n,
                None => 0,
            },
    {
        match self.content_length {
            Some(n) => n,
            None => 0,
        }
    }
}

/// A header byte that may stand in header text: a visible ASCII character,
/// a space or a tab.
pub open spec fn is_visible_ascii(b: u8) -> bool {
    (32 <= b && b < 127) || b == 9
}

/// Every byte of a header value may stand in header text.
pub open spec fn is_header_text(v: Seq<u8>) -> bool {
    forall|i: int| 0 <= i < v.len() ==> is_visible_ascii(#[trigger] v[i])
}

/// The characters that ASCII bytes stand for.
pub open spec fn ascii_chars(v: Seq<u8>) -> Seq<char> {
    v.map_values(|b: u8| b as char)
}

/// Relies on `String::from_utf8`: bytes below 128 are valid UTF-8, and each
/// decodes to the character of the same code.
#[verifier::external_body]
fn string_from_ascii(bytes: Vec<u8>) -> (r: String)
    requires
        forall|i: int| 0 <= i < bytes@.len() ==> #[trigger] bytes@[i] < 128,
    ensures
        r@ == ascii_chars(bytes@),
{
    String::from_utf8(bytes).unwrap_or_default()
}

/// A header value as text: `None` unless every byte is visible ASCII, a
/// space or a tab.
pub fn header_text(v: &Vec<u8>) -> (r: Option<String>)
    ensures
        r is Some <==> is_header_text(v@),
        r matches Some(t) ==> t@ == ascii_chars(v@),
{
    let mut i: usize = 0;
    while i < v.len()
        invariant
            i <= v@.len(),
            forall|k: int| 0 <= k < i ==> is_visible_ascii(#[trigger] v@[k]),
        decreases v@.len() - i,
    {
        let b = v[i];
        if !((32 <= b && b < 127) || b == 9) {
            return None;
        }
        i += 1;
    }
    let bytes = v.clone();
    assert(bytes@ =~= v@);
    Some(string_from_ascii(bytes))
}

} // verus!
