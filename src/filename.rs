//! Choosing the name of the file that receives a response body.
//!
//! Strategies are tried in order, and the first that succeeds gives the name:
//! a name the caller gave, the `filename=` part of the `Content-Disposition`
//! header, the last path segment of the final URL, and a fixed default. Each
//! strategy that is tried and fails leaves a diagnostic line.

use vstd::prelude::*;
use crate::response::{Response, header_view, header_text, is_header_text, ascii_chars};
use crate::search::{rfind, last_occurrence, lemma_found_occurs};

verus! {

/// The name used when no strategy gives one.
pub open spec fn default_filename() -> Seq<char> {
    "index.html"@
}

/// A `Result` of strings, as sequences of characters.
pub open spec fn result_view(r: Result<String, String>) -> Result<Seq<char>, Seq<char>> {
    match r {
        Ok(s) => Ok(s@),
        Err(e) => Err(e@),
    }
}

/// An optional string, as a sequence of characters.
pub open spec fn option_view(o: Option<String>) -> Option<Seq<char>> {
    match o {
        Some(s) => Some(s@),
        None => None,
    }
}

/// The diagnostic for a header that holds no usable file name.
pub open spec fn no_header_filename_message(text: Seq<char>) -> Seq<char> {
    "Couldn't read filename from Content-Disposition: "@ + text
}

/// What the header strategy gives for an optional `Content-Disposition`
/// value: everything after its last `filename=`, or the diagnostic for why
/// there is no name.
pub open spec fn header_outcome(header: Option<Seq<u8>>) -> Result<Seq<char>, Seq<char>> {
    match header {
        None => Err("No Content-Disposition Header"@),
        Some(v) => if !is_header_text(v) {
            Err("failed to convert header to a str"@)
        } else {
            let t = ascii_chars(v);
            match last_occurrence(t, "filename="@) {
                Some(i) => if i + "filename="@.len() < t.len() {
                    Ok(t.subrange(i + "filename="@.len(), t.len() as int))
                } else {
                    Err(no_header_filename_message(t))
                },
                None => Err(no_header_filename_message(t)),
            }
        },
    }
}

/// The diagnostic for a URL without a trailing file name.
pub open spec fn no_trailing_filename_message(url: Seq<char>) -> Seq<char> {
    "URI has no trailing filename '"@ + url + "'"@
}

/// What the URL strategy gives for a final URL: everything after its last
/// `/`, or the diagnostic when that is empty or there is no `/`.
pub open spec fn uri_outcome(url: Seq<char>) -> Result<Seq<char>, Seq<char>> {
    match last_occurrence(url, "/"@) {
        Some(i) => if i + 1 < url.len() {
            Ok(url.subrange(i + 1, url.len() as int))
        } else {
            Err(no_trailing_filename_message(url))
        },
        None => Err(no_trailing_filename_message(url)),
    }
}

/// A strategy that succeeds never gives an empty name: an empty value after
/// `filename=` or after the last `/` counts as a failure of that strategy.
pub proof fn lemma_strategy_names_nonempty(header: Option<Seq<u8>>, url: Seq<char>)
    ensures
        header_outcome(header) matches Ok(f) ==> f.len() > 0,
        uri_outcome(url) matches Ok(f) ==> f.len() > 0,
{
    if let Some(v) = header {
        let t = ascii_chars(v);
        lemma_found_occurs(t, "filename="@, t.len() + 1 as int);
    }
    lemma_found_occurs(url, "/"@, url.len() + 1 as int);
}

/// The file name from the `Content-Disposition` header: everything after the
/// last `filename=` in it, taken literally. Fails, with a diagnostic, when the
/// header is absent, is not text, holds no `filename=`, or nothing follows it.
pub fn filename_from_headers(resp: &Response) -> (r: Result<String, String>)
    ensures
        result_view(r) == header_outcome(header_view(resp.content_disposition)),
{
    match &resp.content_disposition {
        None => Err(String::from_str("No Content-Disposition Header")),
        Some(v) => match header_text(v) {
            None => Err(String::from_str("failed to convert header to a str")),
            Some(t) => {
                let key = "filename=";
                let n = t.as_str().unicode_len();
                let k = key.unicode_len();
                match rfind(t.as_str(), key) {
                    Some(i) => {
                        if i + k < n {
                            Ok(String::from_str(t.as_str().substring_char(i + k, n)))
                        } else {
                            Err(String::from_str("Couldn't read filename from Content-Disposition: ").concat(t.as_str()))
                        }
                    },
                    None => Err(String::from_str("Couldn't read filename from Content-Disposition: ").concat(t.as_str())),
                }
            },
        },
    }
}

/// The file name from the final URL: everything after its last `/`. Fails,
/// with a diagnostic, when the URL holds no `/` or nothing follows the last.
pub fn filename_from_uri(resp: &Response) -> (r: Result<String, String>)
    ensures
        result_view(r) == uri_outcome(resp.url@),
{
    let uri = resp.url.as_str();
    let n = uri.unicode_len();
    let slash = "/";
    proof {
        reveal_strlit("/");
    }
    match rfind(uri, slash) {
        Some(i) => {
            if i + 1 < n {
                Ok(String::from_str(uri.substring_char(i + 1, n)))
            } else {
                Err(no_trailing_filename(uri))
            }
        },
        None => Err(no_trailing_filename(uri)),
    }
}

fn no_trailing_filename(uri: &str) -> (r: String)
    ensures
        r@ == no_trailing_filename_message(uri@),
{
    String::from_str("URI has no trailing filename '").concat(uri).concat("'")
}

/// The chosen file name, with the diagnostics of the strategies that were
/// tried and failed, in the order they were tried.
pub struct Resolution {
    pub filename: String,
    pub diagnostics: Vec<String>,
}

/// The name that the strategies give, tried in order.
pub open spec fn resolved_filename(
    explicit: Option<Seq<char>>,
    header: Option<Seq<u8>>,
    url: Seq<char>,
) -> Seq<char> {
    match explicit {
        Some(f) => f,
        None => match header_outcome(header) {
            Ok(f) => f,
            Err(_) => match uri_outcome(url) {
                Ok(f) => f,
                Err(_) => default_filename(),
            },
        },
    }
}

/// The diagnostics of the strategies that are tried and fail.
pub open spec fn resolution_diagnostics(
    explicit: Option<Seq<char>>,
    header: Option<Seq<u8>>,
    url: Seq<char>,
) -> Seq<Seq<char>> {
    match explicit {
        Some(_) => seq![],
        None => match header_outcome(header) {
            Ok(_) => seq![],
            Err(e1) => match uri_outcome(url) {
                Ok(_) => seq![e1],
                Err(e2) => seq![e1, e2],
            },
        },
    }
}

/// Chooses the name of the output file: `explicit` when given, else the name
/// from the `Content-Disposition` header, else the last segment of the final
/// URL, else `index.html`. Only the strategies before the one that succeeds
/// are tried, and each leaves its diagnostic.
pub fn resolve_filename(explicit: Option<String>, resp: &Response) -> (r: Resolution)
    ensures
        r.filename@ == resolved_filename(
            option_view(explicit),
            header_view(resp.content_disposition),
            resp.url@,
        ),
        r.diagnostics.deep_view() == resolution_diagnostics(
            option_view(explicit),
            header_view(resp.content_disposition),
            resp.url@,
        ),
        explicit matches Some(f) ==> r.filename@ == f@,
        explicit is None ==> r.filename@.len() > 0,
{
    let mut diagnostics: Vec<String> = Vec::new();
    let filename = match explicit {
        Some(f) => f,
        None => match filename_from_headers(resp) {
            Ok(f) => f,
            Err(e1) => {
                diagnostics.push(e1);
                match filename_from_uri(resp) {
                    Ok(f) => f,
                    Err(e2) => {
                        diagnostics.push(e2);
                        String::from_str("index.html")
                    },
                }
            },
        },
    };
    proof {
        reveal_strlit("index.html");
        lemma_strategy_names_nonempty(header_view(resp.content_disposition), resp.url@);
    }
    assert(diagnostics.deep_view() =~= resolution_diagnostics(
        option_view(explicit),
        header_view(resp.content_disposition),
        resp.url@,
    ));
    Resolution { filename, diagnostics }
}

} // verus!
