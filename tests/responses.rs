use imagekit::response::{
    api_error, found_by_filename, found_by_format, found_by_formats, payload_message,
    read_delete, read_record, read_records,
};
use imagekit::{Error, Filename, FormatOpts};

fn record(id: &str) -> serde_json::Value {
    serde_json::from_str(&format!("{{\"fileId\":\"{}\",\"name\":\"ferris\"}}", id)).unwrap()
}

#[test]
fn classifies_documented_statuses() {
    assert!(matches!(Error::from_error_code(400, "r"), Error::BadRequest(m) if m == "r"));
    assert!(matches!(Error::from_error_code(401, "r"), Error::Unauthorized(m) if m == "r"));
    assert!(matches!(Error::from_error_code(403, "r"), Error::Forbidden(m) if m == "r"));
    assert!(matches!(Error::from_error_code(429, "r"), Error::TooManyRequests(m) if m == "r"));
    for code in [500u16, 502, 503, 504] {
        assert!(matches!(Error::from_error_code(code, "r"), Error::InternalServerError(m) if m == "r"));
    }
}

#[test]
fn other_statuses_are_unknown_with_reason_kept() {
    for code in [404u16, 200, 418, 501, 599] {
        let e = Error::from_error_code(code, "  odd reason \"x\" ");
        assert!(matches!(e, Error::UnknownAPIError(m) if m == "  odd reason \"x\" "));
    }
}

#[test]
fn raw_search_returns_empty_without_error() {
    let r = read_records(200, "[]").unwrap();
    assert!(r.is_empty());
}

#[test]
fn raw_search_reads_records() {
    let r = read_records(200, "[{\"fileId\":\"a\"},{\"fileId\":\"b\"}]").unwrap();
    assert_eq!(r.len(), 2);
    assert_eq!(r[1]["fileId"], "b");
}

#[test]
fn malformed_search_body_is_a_parsing_error() {
    assert!(matches!(read_records(200, "[{\"fileId\":"), Err(Error::Json(_))));
    assert!(matches!(read_records(200, "{\"fileId\":\"a\"}"), Err(Error::Json(_))));
}

#[test]
fn search_by_format_empty_is_search_error() {
    let records = read_records(200, "[]").unwrap();
    let r = found_by_format(&FormatOpts::Jpg, records);
    assert!(matches!(r, Err(Error::SearchError(m)) if m == "No files were found by the given format: jpg"));
}

#[test]
fn search_by_format_one_record() {
    let records = read_records(200, "[{\"fileId\":\"a\"}]").unwrap();
    let r = found_by_format(&FormatOpts::Jpg, records).unwrap();
    assert_eq!(r.len(), 1);
    assert_eq!(r[0]["fileId"], "a");
}

#[test]
fn search_by_formats_empty_names_the_list() {
    let r = found_by_formats(&[FormatOpts::Jpg, FormatOpts::Png], Vec::new());
    assert!(matches!(r, Err(Error::SearchError(m)) if m == "No files were found by the given formats: 'jpg','png'"));
    let kept = found_by_formats(&[FormatOpts::Jpg], vec![record("a"), record("b")]).unwrap();
    assert_eq!(kept.len(), 2);
}

#[test]
fn filename_search_returns_first_of_two() {
    let records = vec![record("first"), record("second")];
    let r = found_by_filename(&Filename::new("ferris"), records).unwrap();
    assert_eq!(r["fileId"], "first");
}

#[test]
fn filename_search_empty_is_search_error() {
    let r = found_by_filename(&Filename::new("ferris.jpeg"), Vec::new());
    assert!(matches!(r, Err(Error::SearchError(m)) if m == "No files were found by the given name: ferris.jpeg"));
}

#[test]
fn delete_succeeds_only_on_no_content() {
    assert!(read_delete(204, "").is_ok());
    let r = read_delete(200, "{\"message\":\"not deleted\"}");
    assert!(matches!(r, Err(Error::UnknownAPIError(m)) if m == "not deleted"));
    let r = read_delete(404, "{\"message\":\"The requested file does not exist.\"}");
    assert!(matches!(r, Err(Error::UnknownAPIError(m)) if m == "The requested file does not exist."));
}

#[test]
fn error_body_without_message_is_kept_whole() {
    assert!(payload_message("{\"help\":\"x\"}").is_none());
    assert!(matches!(api_error(500, "gateway down"), Error::InternalServerError(m) if m == "gateway down"));
    assert_eq!(payload_message("{\"message\":\"m\"}").unwrap(), "m");
}

#[test]
fn details_reads_one_record() {
    let r = read_record(200, "{\"fileId\":\"a\",\"width\":640}").unwrap();
    assert_eq!(r["width"], 640);
    assert!(matches!(read_record(200, "not json"), Err(Error::Json(_))));
    assert!(matches!(read_record(401, "{\"message\":\"no key\"}"), Err(Error::Unauthorized(m)) if m == "no key"));
}

#[test]
fn rate_limit_reaches_every_operation() {
    let body = "{\"message\":\"rate limited\"}";
    assert!(matches!(read_records(429, body), Err(Error::TooManyRequests(m)) if m == "rate limited"));
    assert!(matches!(read_record(429, body), Err(Error::TooManyRequests(m)) if m == "rate limited"));
    assert!(matches!(read_delete(429, body), Err(Error::TooManyRequests(m)) if m == "rate limited"));
}

#[test]
fn delete_with_body_that_is_no_payload_is_a_parsing_error() {
    assert!(matches!(read_delete(500, "gateway down"), Err(Error::Json(_))));
    assert!(matches!(read_delete(200, "{\"help\":\"x\"}"), Err(Error::Json(_))));
    assert!(matches!(read_delete(404, "{\"message\":7}"), Err(Error::Json(_))));
}

#[test]
fn raw_search_error_carries_server_message() {
    let r = read_records(404, "{\"message\":\"no such folder\"}");
    assert!(matches!(r, Err(Error::UnknownAPIError(m)) if m == "no such folder"));
    let raw = read_records(502, "<html>bad gateway</html>");
    assert!(matches!(raw, Err(Error::InternalServerError(m)) if m == "<html>bad gateway</html>"));
}
