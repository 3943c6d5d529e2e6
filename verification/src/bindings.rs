//! Contracts for the standard-library and outside-crate functions that the
//! verified code calls. Each item here is trusted: its contract is read from
//! the called function's documentation and source, not proved.

use base64::Engine;
use vstd::prelude::*;

use crate::handlers::auth::DecodeFailure;

verus! {

/// `String::push` appends one character at the end of the string (std documents
/// exactly this).
pub assume_specification[ String::push ](s: &mut String, ch: char)
    ensures
        final(s)@ == old(s)@.push(ch),
;

/// `anyhow::Error`, carried through the library without being inspected.
#[verifier::external_type_specification]
#[verifier::external_body]
pub struct ExAnyhowError(anyhow::Error);

/// `serde_json::Value`, a parsed JSON document carried through the library.
#[verifier::external_type_specification]
#[verifier::external_body]
pub struct ExJsonValue(serde_json::Value);

/// `serde_json::Error`, the error of a failed JSON parse.
#[verifier::external_type_specification]
#[verifier::external_body]
pub struct ExJsonError(serde_json::Error);

/// What `url::Url::parse` makes of a string: `None` when it is no absolute
/// URL, else the parsed URL's scheme and authority (`Url::scheme`,
/// `Url::authority`).
pub uninterp spec fn parsed_url_parts(input: Seq<char>) -> Option<(Seq<char>, Seq<char>)>;

/// Calls `url::Url::parse` and, on success, reads the scheme and the authority
/// of the parsed URL. The contract claims only that the outcome is the one named
/// by `parsed_url_parts` for this input; which strings parse, and to what,
/// is left to the `url` crate.
#[verifier::external_body]
pub(crate) fn url_origin_parts(input: &str) -> (res: Option<(String, String)>)
    ensures
        match res {
            Some((scheme, authority)) => parsed_url_parts(input@) == Some((scheme@, authority@)),
            None => parsed_url_parts(input@) is None,
        },
{
    match url::Url::parse(input) {
        Ok(parsed) => Some((parsed.scheme().to_string(), parsed.authority().to_string())),
        Err(_) => None,
    }
}

/// What `urlencoding::decode` makes of a string: the percent-decoded text, or
/// `None` when the decoded bytes are not UTF-8.
pub uninterp spec fn percent_decoded(input: Seq<char>) -> Option<Seq<char>>;

/// Calls `urlencoding::decode`. The contract claims that the outcome is the one
/// named by `percent_decoded`, and the one fact that the crate's source shows
/// plainly: text without a `%` comes back unchanged (`decode_binary` borrows its
/// input when it finds no `%`, and `decode` then returns that input).
#[verifier::external_body]
pub(crate) fn percent_decode(input: &str) -> (res: Option<String>)
    ensures
        match res {
            Some(s) => percent_decoded(input@) == Some(s@),
            None => percent_decoded(input@) is None,
        },
        match res {
            Some(s) => s@ == input@ || input@.contains('%'),
            None => input@.contains('%'),
        },
{
    match urlencoding::decode(input) {
        Ok(decoded) => Some(decoded.into_owned()),
        Err(_) => None,
    }
}

/// What the URL-safe, unpadded base64 engine of the `base64` crate
/// (`general_purpose::URL_SAFE_NO_PAD`) makes of a string: the decoded bytes,
/// or the error it reports.
pub uninterp spec fn base64_url_decoded(input: Seq<char>) -> Result<Seq<u8>, DecodeFailure>;

/// Calls `Engine::decode` of `base64::engine::general_purpose::URL_SAFE_NO_PAD`
/// and hands its `DecodeError` over as the library's `DecodeFailure`, variant by
/// variant with the same fields. The contract claims only that the outcome is
/// the one named by `base64_url_decoded` for this input.
#[verifier::external_body]
pub(crate) fn base64_url_decode(input: &str) -> (res: Result<Vec<u8>, DecodeFailure>)
    ensures
        match res {
            Ok(bytes) => base64_url_decoded(input@) == Ok::<Seq<u8>, DecodeFailure>(bytes@),
            Err(e) => base64_url_decoded(input@) == Err::<Seq<u8>, DecodeFailure>(e),
        },
{
    match base64::engine::general_purpose::URL_SAFE_NO_PAD.decode(input) {
        Ok(bytes) => Ok(bytes),
        Err(base64::DecodeError::InvalidByte(offset, byte)) => Err(DecodeFailure::InvalidByte(offset, byte)),
        Err(base64::DecodeError::InvalidLength(len)) => Err(DecodeFailure::InvalidLength(len)),
        Err(base64::DecodeError::InvalidLastSymbol(offset, byte)) => Err(DecodeFailure::InvalidLastSymbol(offset, byte)),
        Err(base64::DecodeError::InvalidPadding) => Err(DecodeFailure::InvalidPadding),
    }
}

/// What `serde_json::from_slice::<serde_json::Value>` makes of these bytes: the
/// JSON document they hold, or the parse error.
pub uninterp spec fn json_parsed(bytes: Seq<u8>) -> Result<serde_json::Value, serde_json::Error>;

/// Calls `serde_json::from_slice::<serde_json::Value>`. The contract claims that
/// the outcome (document or error) is the one named by `json_parsed` for these
/// bytes; which bytes parse, and to what, is left to `serde_json`.
#[verifier::external_body]
pub(crate) fn parse_json(bytes: &[u8]) -> (res: Result<serde_json::Value, serde_json::Error>)
    ensures
        res == json_parsed(bytes@),
{
    serde_json::from_slice(bytes)
}

/// What `serde_json::Value::get` with a string key gives: the member of that name
/// of a JSON object (`None` for a missing member or a non-object).
pub uninterp spec fn json_member(doc: serde_json::Value, key: Seq<char>) -> Option<serde_json::Value>;

/// Calls `serde_json::Value::get` with a string key and hands out a copy of the
/// member. The contract claims only that the outcome is the one named by
/// `json_member`.
#[verifier::external_body]
pub(crate) fn json_get(doc: &serde_json::Value, key: &str) -> (r: Option<serde_json::Value>)
    ensures
        r == json_member(*doc, key@),
{
    doc.get(key).cloned()
}

/// What `serde_json::Value::pointer` gives: the value that a JSON pointer (such
/// as `/data/session`) designates, if any.
pub uninterp spec fn json_pointer(doc: serde_json::Value, pointer: Seq<char>) -> Option<serde_json::Value>;

/// Calls `serde_json::Value::pointer` and hands out a copy of the value found.
/// The contract claims only that the outcome is the one named by
/// `json_pointer`.
#[verifier::external_body]
pub(crate) fn json_pointer_get(doc: &serde_json::Value, pointer: &str) -> (r: Option<serde_json::Value>)
    ensures
        r == json_pointer(*doc, pointer@),
{
    doc.pointer(pointer).cloned()
}

/// What `serde_json::Value::as_array` gives, as a length: the number of
/// elements of a JSON array, `None` for any other document.
pub uninterp spec fn json_array_length(doc: serde_json::Value) -> Option<nat>;

/// Calls `serde_json::Value::as_array` and hands out the array's length. The
/// contract claims only that the outcome is the one named by
/// `json_array_length`.
#[verifier::external_body]
pub(crate) fn json_array_len(doc: &serde_json::Value) -> (r: Option<usize>)
    ensures
        match r {
            Some(n) => json_array_length(*doc) == Some(n as nat),
            None => json_array_length(*doc) is None,
        },
{
    match doc.as_array() {
        Some(elements) => Some(elements.len()),
        None => None,
    }
}

/// The `Display` text of a `serde_json::Error` (cause, line and column).
pub uninterp spec fn json_error_display(err: serde_json::Error) -> Seq<char>;

/// Calls `to_string` on a `serde_json::Error`. The contract claims only that the
/// text is the one named by `json_error_display` for this error.
#[verifier::external_body]
pub(crate) fn json_error_text(err: &serde_json::Error) -> (r: String)
    ensures
        r@ == json_error_display(*err),
{
    err.to_string()
}

/// The `Display` text of an `anyhow::Error`: the message of its outermost error.
pub uninterp spec fn error_message(err: anyhow::Error) -> Seq<char>;

/// Calls `to_string` on an `anyhow::Error`. The contract claims that the text is
/// the one named by `error_message` for this error.
#[verifier::external_body]
pub(crate) fn error_text(err: &anyhow::Error) -> (r: String)
    ensures
        r@ == error_message(*err),
{
    err.to_string()
}

/// Calls `anyhow::Error::msg` with a `String`. The contract claims the fact that
/// anyhow's source shows: the error wraps the message in `MessageError`, whose
/// `Display` writes the message itself, and the error's `Display` (without the
/// alternate flag) writes that of its outermost error; so the error displays as
/// the message.
#[verifier::external_body]
pub(crate) fn error_from_message(message: String) -> (e: anyhow::Error)
    ensures
        error_message(e) == message@,
{
    anyhow::Error::msg(message)
}

} // verus!
