use fetch::filename::{filename_from_headers, filename_from_uri, resolve_filename};
use fetch::response::Response;

fn response(header: Option<&[u8]>, url: &str) -> Response {
    Response {
        content_disposition: header.map(|h| h.to_vec()),
        url: url.to_string(),
        content_length: None,
    }
}

#[test]
fn header_gives_filename() {
    let resp = response(
        Some(b"attachment; filename=report.pdf"),
        "https://example.com/download",
    );
    assert_eq!(filename_from_headers(&resp), Ok("report.pdf".to_string()));
    let r = resolve_filename(None, &resp);
    assert_eq!(r.filename, "report.pdf");
    assert!(r.diagnostics.is_empty());
}

#[test]
fn header_value_taken_literally() {
    let resp = response(
        Some(b"attachment; filename=\"a.txt\"; filename*=UTF-8''b.txt"),
        "https://example.com/x",
    );
    assert_eq!(
        filename_from_headers(&resp),
        Ok("\"a.txt\"; filename*=UTF-8''b.txt".to_string())
    );
    let resp = response(Some(b"attachment; filename=\"a.txt\""), "https://example.com/x");
    assert_eq!(filename_from_headers(&resp), Ok("\"a.txt\"".to_string()));
}

#[test]
fn header_is_case_sensitive() {
    let resp = response(Some(b"attachment; FILENAME=x.bin"), "https://example.com/y.bin");
    assert_eq!(
        filename_from_headers(&resp),
        Err("Couldn't read filename from Content-Disposition: attachment; FILENAME=x.bin".to_string())
    );
    assert_eq!(resolve_filename(None, &resp).filename, "y.bin");
}

#[test]
fn missing_header() {
    let resp = response(None, "https://example.com/path/data.csv");
    assert_eq!(
        filename_from_headers(&resp),
        Err("No Content-Disposition Header".to_string())
    );
}

#[test]
fn header_not_text() {
    let resp = response(Some(b"attachment; filename=caf\xc3\xa9.txt"), "https://example.com/a");
    assert_eq!(
        filename_from_headers(&resp),
        Err("failed to convert header to a str".to_string())
    );
    let r = resolve_filename(None, &resp);
    assert_eq!(r.filename, "a");
    assert_eq!(r.diagnostics, vec!["failed to convert header to a str".to_string()]);
}

#[test]
fn header_tab_is_text() {
    let resp = response(Some(b"attachment;\tfilename=t.txt"), "https://example.com/a");
    assert_eq!(filename_from_headers(&resp), Ok("t.txt".to_string()));
}

#[test]
fn empty_header_filename_falls_through() {
    let resp = response(Some(b"attachment; filename="), "https://example.com/path/data.csv");
    assert_eq!(
        filename_from_headers(&resp),
        Err("Couldn't read filename from Content-Disposition: attachment; filename=".to_string())
    );
    let r = resolve_filename(None, &resp);
    assert_eq!(r.filename, "data.csv");
    assert_eq!(r.diagnostics.len(), 1);
}

#[test]
fn last_filename_key_wins() {
    let resp = response(Some(b"filename=a; filename=b"), "https://example.com/");
    assert_eq!(filename_from_headers(&resp), Ok("b".to_string()));
}

#[test]
fn url_gives_filename() {
    let resp = response(None, "https://example.com/path/data.csv");
    assert_eq!(filename_from_uri(&resp), Ok("data.csv".to_string()));
    let r = resolve_filename(None, &resp);
    assert_eq!(r.filename, "data.csv");
    assert_eq!(r.diagnostics, vec!["No Content-Disposition Header".to_string()]);
}

#[test]
fn trailing_slash_falls_back_to_default() {
    let resp = response(None, "https://example.com/path/");
    assert_eq!(
        filename_from_uri(&resp),
        Err("URI has no trailing filename 'https://example.com/path/'".to_string())
    );
    let r = resolve_filename(None, &resp);
    assert_eq!(r.filename, "index.html");
    assert_eq!(
        r.diagnostics,
        vec![
            "No Content-Disposition Header".to_string(),
            "URI has no trailing filename 'https://example.com/path/'".to_string(),
        ]
    );
}

#[test]
fn unusable_header_and_trailing_slash_default() {
    let resp = response(Some(b"inline"), "https://example.com/path/");
    assert_eq!(resolve_filename(None, &resp).filename, "index.html");
}

#[test]
fn url_without_slash() {
    let resp = response(None, "example");
    assert_eq!(
        filename_from_uri(&resp),
        Err("URI has no trailing filename 'example'".to_string())
    );
    assert_eq!(resolve_filename(None, &resp).filename, "index.html");
}

#[test]
fn url_with_non_ascii_segment() {
    let resp = response(None, "http://example.com/dir/caf\u{e9}.txt");
    assert_eq!(filename_from_uri(&resp), Ok("caf\u{e9}.txt".to_string()));
}

#[test]
fn explicit_filename_wins() {
    for (header, url) in [
        (Some(&b"attachment; filename=report.pdf"[..]), "https://example.com/path/data.csv"),
        (None, "https://example.com/path/data.csv"),
        (None, "https://example.com/path/"),
        (Some(&b"\xff"[..]), "nothing"),
    ] {
        let resp = response(header, url);
        let r = resolve_filename(Some("custom.bin".to_string()), &resp);
        assert_eq!(r.filename, "custom.bin");
        assert!(r.diagnostics.is_empty());
    }
}
