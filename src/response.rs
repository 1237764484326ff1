use vstd::prelude::*;

use crate::error::classified;
use crate::search_file::{joined, Filename, FormatOpts};

verus! {

#[verifier::external_type_specification]
#[verifier::external_body]
pub struct ExValue(serde_json::Value);

/// Whether `s` is one JSON document that serde_json accepts (it refuses,
/// among others, nesting deeper than its recursion limit).
pub uninterp spec fn json_parses(s: Seq<char>) -> bool;

/// The `message` string of `s` where `s` is a JSON object whose `message`
/// field is a string, else `None`.
pub uninterp spec fn json_message(s: Seq<char>) -> Option<Seq<char>>;

/// The number of elements of `s` where `s` is one JSON array, else `None`.
pub uninterp spec fn json_array_len(s: Seq<char>) -> Option<nat>;

/// Relies on `serde_json::from_str` at `Value`: it succeeds exactly on one
/// JSON document, which depends on the text alone; a failure is described
/// by the error's `Display`.
#[verifier::external_body]
fn parse_value(body: &str) -> (r: Result<serde_json::Value, String>)
    ensures
        r is Ok == json_parses(body@),
{
    serde_json::from_str::<serde_json::Value>(body).map_err(|e| e.to_string())
}

/// Relies on `serde_json::from_str` at `Vec<Value>`: it succeeds exactly on
/// one JSON array, with one value for each of its elements, and `[]` gives
/// no value; a failure is described by the error's `Display`.
#[verifier::external_body]
fn parse_array(body: &str) -> (r: Result<Vec<serde_json::Value>, String>)
    ensures
        json_array_len(body@) == (if r is Ok {
            Some(r->Ok_0@.len())
        } else {
            None::<nat>
        }),
        body@ == "[]"@ ==> (r is Ok && r->Ok_0@.len() == 0),
{
    serde_json::from_str::<Vec<serde_json::Value>>(body).map_err(|e| e.to_string())
}

/// Relies on `serde_json::from_str` at `Value`, then `Value::pointer` and
/// `Value::as_str`, to read the `message` string of an error payload; what
/// it gives depends on the text alone.
#[verifier::external_body]
fn message_field(body: &str) -> (r: Option<String>)
    ensures
        json_message(body@) == (match r {
            Some(m) => Some(m@),
            None => None::<Seq<char>>,
        }),
        r is Some ==> json_parses(body@),
{
    serde_json::from_str::<serde_json::Value>(body).ok().and_then(
        |v| v.pointer("/message").and_then(|m| m.as_str()).map(|m| m.to_owned()),
    )
}

/// Whether a status code reports success.
pub open spec fn is_success(code: u16) -> bool {
    200 <= code < 300
}

/// `e` is the error for an unsuccessful response of status `code` and body
/// `body`. It carries the `message` of the body where the body is such a
/// payload, and the body as it came where it is not.
pub open spec fn api_error_of(code: u16, body: Seq<char>, e: crate::error::Error) -> bool {
    match json_message(body) {
        Some(m) => classified(code, m, e),
        None => classified(code, body, e),
    }
}

/// The `message` string of an error payload `{"message": ...}`, if the body
/// is one.
pub fn payload_message(body: &str) -> (r: Option<String>)
    ensures
        json_message(body@) == (match r {
            Some(m) => Some(m@),
            None => None::<Seq<char>>,
        }),
        r is Some ==> json_parses(body@),
{
    message_field(body)
}

/// The error for an unsuccessful response of status `status` and body `body`.
pub fn api_error(status: u16, body: &str) -> (r: crate::error::Error)
    ensures
        api_error_of(status, body@, r),
{
    match payload_message(body) {
        Some(m) => crate::error::Error::from_error_code(status, m.as_str()),
        None => crate::error::Error::from_error_code(status, body),
    }
}

/// Reads the response to a search: on success, the JSON array of file
/// records that the body holds, which may be empty; else the classified
/// error.
pub fn read_records(status: u16, body: &str) -> (r: Result<Vec<serde_json::Value>, crate::error::Error>)
    ensures
        is_success(status) ==> (match r {
            Ok(v) => json_array_len(body@) == Some(v@.len()),
            Err(e) => json_array_len(body@) is None && e is Json,
        }),
        is_success(status) && body@ == "[]"@ ==> (r matches Ok(v) && v@.len() == 0),
        !is_success(status) ==> (r matches Err(e) && api_error_of(status, body@, e)),
{
    if 200 <= status && status < 300 {
        match parse_array(body) {
            Ok(v) => Ok(v),
            Err(e) => Err(crate::error::Error::Json(e)),
        }
    } else {
        Err(api_error(status, body))
    }
}

/// Reads a response that carries one file record (details, upload): on
/// success, the JSON document of the body; else the classified error.
pub fn read_record(status: u16, body: &str) -> (r: Result<serde_json::Value, crate::error::Error>)
    ensures
        is_success(status) ==> (r is Ok == json_parses(body@)),
        is_success(status) ==> (r matches Err(e) ==> e is Json),
        !is_success(status) ==> (r matches Err(e) && api_error_of(status, body@, e)),
{
    if 200 <= status && status < 300 {
        match parse_value(body) {
            Ok(v) => Ok(v),
            Err(e) => Err(crate::error::Error::Json(e)),
        }
    } else {
        Err(api_error(status, body))
    }
}

/// Reads the response to a delete: only status 204 reports success. Any
/// other status, a success with a body included, is an error: the one that
/// the status gives, carrying the body's `message`, or a parsing error where
/// the body is no error payload.
pub fn read_delete(status: u16, body: &str) -> (r: Result<(), crate::error::Error>)
    ensures
        status == 204 ==> r is Ok,
        status != 204 ==> (match json_message(body@) {
            Some(m) => r matches Err(e) && classified(status, m, e),
            None => r matches Err(crate::error::Error::Json(_)),
        }),
{
    if status == 204 {
        return Ok(());
    }
    match payload_message(body) {
        Some(m) => Err(crate::error::Error::from_error_code(status, m.as_str())),
        None => Err(crate::error::Error::Json(String::from_str(
            "the body is no error payload with a message string",
        ))),
    }
}

/// The records of a search, or a search error with `message` where there is
/// none.
fn found(records: Vec<serde_json::Value>, message: String) -> (r: Result<
    Vec<serde_json::Value>,
    crate::error::Error,
>)
    ensures
        records@.len() > 0 ==> (r matches Ok(v) && v@ == records@),
        records@.len() == 0 ==> (r matches Err(crate::error::Error::SearchError(m)) && m@ == message@),
{
    if records.len() > 0 {
        Ok(records)
    } else {
        Err(crate::error::Error::SearchError(message))
    }
}

/// The message of a search by one format that found nothing.
pub open spec fn no_format_message(f: FormatOpts) -> Seq<char> {
    "No files were found by the given format: "@ + f.name()
}

/// The message of a search by a list of formats that found nothing.
pub open spec fn no_formats_message(s: Seq<FormatOpts>) -> Seq<char> {
    "No files were found by the given formats: "@ + joined(s, ","@)
}

/// The message of a search by name that found nothing.
pub open spec fn no_name_message(name: Seq<char>) -> Seq<char> {
    "No files were found by the given name: "@ + name
}

/// The outcome of a search by the format `criteria` that returned `records`:
/// the records, or a search error where there is none.
pub fn found_by_format(criteria: &FormatOpts, records: Vec<serde_json::Value>) -> (r: Result<
    Vec<serde_json::Value>,
    crate::error::Error,
>)
    ensures
        records@.len() > 0 ==> (r matches Ok(v) && v@ == records@),
        records@.len() == 0 ==> (r matches Err(crate::error::Error::SearchError(m)) && m@ == no_format_message(
            *criteria,
        )),
{
    let mut m = String::from_str("No files were found by the given format: ");
    m.append(criteria.as_str());
    found(records, m)
}

/// The outcome of a search in or outside the formats `criteria` that returned
/// `records`: the records, or a search error where there is none.
pub fn found_by_formats(criteria: &[FormatOpts], records: Vec<serde_json::Value>) -> (r: Result<
    Vec<serde_json::Value>,
    crate::error::Error,
>)
    ensures
        records@.len() > 0 ==> (r matches Ok(v) && v@ == records@),
        records@.len() == 0 ==> (r matches Err(crate::error::Error::SearchError(m)) && m@ == no_formats_message(
            criteria@,
        )),
{
    let mut m = String::from_str("No files were found by the given formats: ");
    let list = crate::search_file::join(criteria, ",");
    m.append(list.as_str());
    found(records, m)
}

/// The outcome of a search by the name `criteria` that returned `records`:
/// the first record only, or a search error where there is none.
pub fn found_by_filename(criteria: &Filename, records: Vec<serde_json::Value>) -> (r: Result<
    serde_json::Value,
    crate::error::Error,
>)
    ensures
        records@.len() > 0 ==> r == Ok::<serde_json::Value, crate::error::Error>(records@[0]),
        records@.len() == 0 ==> (r matches Err(crate::error::Error::SearchError(m)) && m@ == no_name_message(
            criteria@,
        )),
{
    let mut records = records;
    if records.len() > 0 {
        Ok(records.remove(0))
    } else {
        let mut m = String::from_str("No files were found by the given name: ");
        m.append(criteria.as_str());
        Err(crate::error::Error::SearchError(m))
    }
}

} // verus!
