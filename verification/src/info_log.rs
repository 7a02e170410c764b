//! Turning an OpenGL info log into the error text that a failed compile or
//! link reports.

use vstd::prelude::*;
use vstd::string::*;
use vstd::utf8::*;

verus! {

/// The text that `String::from_utf8` reports, through its `Display`, for a
/// byte sequence that is not valid UTF-8 (it depends on the bytes alone).
pub uninterp spec fn from_utf8_error_text(bytes: Seq<u8>) -> Seq<char>;

/// Calls `String::from_utf8` on `bytes`.
///
/// Trusted: the result is `Ok` exactly when the bytes are valid UTF-8, and
/// then the string holds the characters the bytes encode; otherwise the error
/// is rendered with `Display`, whose text is named by
/// `from_utf8_error_text`.
#[verifier::external_body]
fn string_from_utf8(bytes: Vec<u8>) -> (res: Result<String, String>)
    ensures
        res is Ok <==> valid_utf8(bytes@),
        res matches Ok(s) ==> s@ == decode_utf8(bytes@),
        res matches Err(text) ==> text@ == from_utf8_error_text(bytes@),
{
    match String::from_utf8(bytes) {
        Ok(s) => Ok(s),
        Err(e) => Err(format!("{}", e)),
    }
}

/// The error text of a shader whose compile failed and whose info log is
/// `log`.
pub open spec fn compile_failure_text(log: Seq<u8>) -> Seq<char> {
    if valid_utf8(log) {
        "COMPILEFAIL: "@ + decode_utf8(log)
    } else {
        "Could not convert compilation log from buffer: "@ + from_utf8_error_text(log)
    }
}

/// The error text of a program whose link failed and whose info log is
/// `log`.
pub open spec fn link_failure_text(log: Seq<u8>) -> Seq<char> {
    if valid_utf8(log) {
        "LINKFAIL: "@ + decode_utf8(log)
    } else {
        "Could not decode shader log "@ + from_utf8_error_text(log)
    }
}

/// The error text of a shader whose compile failed without an info log.
pub open spec fn missing_compile_log_text() -> Seq<char> {
    "No shader info log?"@
}

/// The error text of a program whose link failed without an info log.
pub open spec fn missing_link_log_text() -> Seq<char> {
    "No program link log :|"@
}

/// Prefixes `text` with `prefix`.
fn prefixed(prefix: &str, text: String) -> (res: String)
    ensures
        res@ == prefix@ + text@,
{
    let mut res = String::from_str(prefix);
    res.append(text.as_str());
    res
}

/// The error text of a failed compile whose info log is `log`.
pub fn compile_failure_message(log: Vec<u8>) -> (msg: String)
    ensures
        msg@ == compile_failure_text(log@),
        valid_utf8(log@) ==> msg@ == "COMPILEFAIL: "@ + decode_utf8(log@),
        !valid_utf8(log@) ==> msg@ == "Could not convert compilation log from buffer: "@
            + from_utf8_error_text(log@),
{
    match string_from_utf8(log) {
        Ok(text) => prefixed("COMPILEFAIL: ", text),
        Err(err) => prefixed("Could not convert compilation log from buffer: ", err),
    }
}

/// The error text of a failed link whose info log is `log`.
pub fn link_failure_message(log: Vec<u8>) -> (msg: String)
    ensures
        msg@ == link_failure_text(log@),
        valid_utf8(log@) ==> msg@ == "LINKFAIL: "@ + decode_utf8(log@),
        !valid_utf8(log@) ==> msg@ == "Could not decode shader log "@ + from_utf8_error_text(
            log@,
        ),
{
    match string_from_utf8(log) {
        Ok(text) => prefixed("LINKFAIL: ", text),
        Err(err) => prefixed("Could not decode shader log ", err),
    }
}

/// The error text of a failed compile without an info log.
pub fn missing_compile_log_message() -> (msg: String)
    ensures
        msg@ == missing_compile_log_text(),
        msg@ == "No shader info log?"@,
{
    String::from_str("No shader info log?")
}

/// The error text of a failed link without an info log.
pub fn missing_link_log_message() -> (msg: String)
    ensures
        msg@ == missing_link_log_text(),
        msg@ == "No program link log :|"@,
{
    String::from_str("No program link log :|")
}

} // verus!
