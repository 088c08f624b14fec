//! Turns the helper's captured output into a variable map.
use std::collections::HashMap;
use vstd::prelude::*;
use vstd::utf8::{decode_utf8, valid_utf8};

use crate::error::EnvError;

verus! {

/// The flat string-to-string object that `serde_json` reads from `text`,
/// or `None` where it rejects the text.
pub uninterp spec fn parsed_vars(text: Seq<char>) -> Option<Map<Seq<char>, Seq<char>>>;

/// Relies on `serde_json::from_str` into a `HashMap<String, String>`: it
/// succeeds or fails on the text alone, and yields the object it read.
#[verifier::external_body]
fn json_object(text: &str) -> (r: Result<HashMap<String, String>, serde_json::Error>)
    ensures
        r is Ok <==> parsed_vars(text@) is Some,
        r matches Ok(m) ==> parsed_vars(text@) == Some(m.deep_view()),
{
    serde_json::from_str::<HashMap<String, String>>(text)
}

/// Relies on `std::str::from_utf8`: it accepts exactly the valid UTF-8
/// byte sequences and yields the characters they encode.
#[verifier::external_body]
fn utf8_text(bytes: &[u8]) -> (r: Result<&str, std::str::Utf8Error>)
    ensures
        r is Ok <==> valid_utf8(bytes@),
        r matches Ok(s) ==> s@ == decode_utf8(bytes@),
{
    std::str::from_utf8(bytes)
}

/// What one run of a process wrote to its two output streams.
pub struct Captured {
    pub stdout: Vec<u8>,
    pub stderr: Vec<u8>,
}

/// `r` is what `parse_output` owes for these two streams.
pub open spec fn parses_to(
    stdout: Seq<u8>,
    stderr: Seq<u8>,
    r: Result<HashMap<String, String>, EnvError>,
) -> bool {
    if !valid_utf8(stdout) || !valid_utf8(stderr) {
        r matches Err(EnvError::Decoding(_))
    } else {
        match parsed_vars(decode_utf8(stdout)) {
            Some(vars) => r matches Ok(m) && m.deep_view() == vars,
            None => r matches Err(EnvError::Parsing(_, out, err)) && out@ == decode_utf8(stdout)
                && err@ == decode_utf8(stderr),
        }
    }
}

/// Maps the JSON parser's outcome on `stdout` to the library's result: the
/// map unchanged, or a parsing error carrying both streams.
pub fn into_variables(
    parsed: Result<HashMap<String, String>, serde_json::Error>,
    stdout: &str,
    stderr: &str,
) -> (r: Result<HashMap<String, String>, EnvError>)
    ensures
        match parsed {
            Ok(m) => r == Ok::<HashMap<String, String>, EnvError>(m),
            Err(e) => r matches Err(EnvError::Parsing(e2, out, err)) && e2 == e && out@ == stdout@
                && err@ == stderr@,
        },
{
    match parsed {
        Ok(m) => Ok(m),
        Err(e) => Err(EnvError::Parsing(e, stdout.to_owned(), stderr.to_owned())),
    }
}

/// Decodes both streams as UTF-8 and reads standard output as a flat JSON
/// object of strings. The map comes back as the parser produced it: no
/// entry is filtered or renamed.
pub fn parse_output(stdout: &[u8], stderr: &[u8]) -> (r: Result<HashMap<String, String>, EnvError>)
    ensures
        parses_to(stdout@, stderr@, r),
{
    let out = match utf8_text(stdout) {
        Ok(s) => s,
        Err(e) => return Err(EnvError::Decoding(e)),
    };
    let err = match utf8_text(stderr) {
        Ok(s) => s,
        Err(e) => return Err(EnvError::Decoding(e)),
    };
    into_variables(json_object(out), out, err)
}

/// The variables of one extraction: the helper's captured output parsed,
/// or the error that stopped the extraction before any output, unchanged.
pub fn read_output(output: Result<Captured, EnvError>) -> (r: Result<
    HashMap<String, String>,
    EnvError,
>)
    ensures
        match output {
            Ok(c) => parses_to(c.stdout@, c.stderr@, r),
            Err(e) => r == Err::<HashMap<String, String>, EnvError>(e),
        },
{
    match output {
        Ok(c) => parse_output(c.stdout.as_slice(), c.stderr.as_slice()),
        Err(e) => Err(e),
    }
}

} // verus!
