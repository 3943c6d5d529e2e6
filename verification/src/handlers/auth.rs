//! Authentication handlers: mapping Neon Auth failures to API errors, and
//! reading the current user from a JWT.

use vstd::prelude::*;

use crate::bindings::{
    base64_url_decode, base64_url_decoded, error_message, error_text, json_error_display,
    json_error_text, json_parsed, parse_json,
};
use crate::config::client::{auth_failure_text, NeonClient};
use crate::response::{error_code, error_status, AppError};
use crate::text::{
    chars_of, contains_exec, decimal_digits, decimal_u64, first_occurrence, has_occurrence, is_digit,
    joined, lemma_decimal_digits_shape, lemma_first_char_occurrence, lemma_first_occurrence_found,
    lemma_first_occurrence_shift, lemma_occurrence_is_found, lemma_port_text_round_trip, lemma_skip_non_occurrences, occurs_at,
    parse_u16, parse_u16_spec, split_first, split_first_exec, split_second, split_second_exec,
};

verus! {

// ── Neon Auth failures ──

/// How a failed sign-up or sign-in is answered.
#[derive(Debug, Clone, Copy, PartialEq, Eq)]
pub enum AuthFailureKind {
    BadRequest,
    Unauthorized,
    Internal,
}

/// The HTTP status named in an error message: the first word after the first
/// `": "`, read as a number.
pub open spec fn auth_status_code(msg: Seq<char>) -> Option<u16> {
    match split_second(msg, ": "@) {
        None => None,
        Some(after) => parse_u16_spec(split_first(after, " "@)),
    }
}

/// The body named in an error message: the text after the first `" - "` (up to
/// a second one), or the whole message.
pub open spec fn auth_error_body(msg: Seq<char>) -> Seq<char> {
    match split_second(msg, " - "@) {
        Some(body) => body,
        None => msg,
    }
}

/// A 400 or 422 status, or a body saying that the user already exists, is the
/// client's fault; a 401 is a failed authentication; anything else is internal.
pub open spec fn auth_failure_kind(msg: Seq<char>) -> AuthFailureKind {
    let code = auth_status_code(msg);
    if code == Some(400u16) || code == Some(422u16) || has_occurrence(
        auth_error_body(msg),
        "already exists"@,
    ) {
        AuthFailureKind::BadRequest
    } else if code == Some(401u16) {
        AuthFailureKind::Unauthorized
    } else {
        AuthFailureKind::Internal
    }
}

/// `r` is the answer to the failure `err` whose message is `msg`.
pub open spec fn is_auth_error_for(msg: Seq<char>, err: anyhow::Error, r: AppError) -> bool {
    match auth_failure_kind(msg) {
        AuthFailureKind::BadRequest => r matches AppError::BadRequest(b) && b@ == auth_error_body(msg),
        AuthFailureKind::Unauthorized => r matches AppError::Unauthorized(b) && b@
            == auth_error_body(msg),
        AuthFailureKind::Internal => r == AppError::Internal(err),
    }
}

/// Classifies a failure by its message (see `auth_failure_kind`).
pub fn auth_failure_kind_of(msg: &str) -> (k: AuthFailureKind)
    ensures
        k == auth_failure_kind(msg@),
{
    let chars = chars_of(msg);
    let code = match split_second_exec(&chars, &chars_of(": ")) {
        None => None,
        Some(after) => {
            let word = split_first_exec(&chars_of(after.as_str()), &chars_of(" "));
            parse_u16(&chars_of(word.as_str()))
        },
    };
    let body = match split_second_exec(&chars, &chars_of(" - ")) {
        Some(b) => b,
        None => String::from_str(msg),
    };
    let user_exists = contains_exec(&chars_of(body.as_str()), &chars_of("already exists"));
    if code == Some(400u16) || code == Some(422u16) || user_exists {
        AuthFailureKind::BadRequest
    } else if code == Some(401u16) {
        AuthFailureKind::Unauthorized
    } else {
        AuthFailureKind::Internal
    }
}

/// The body named in an error message (see `auth_error_body`).
pub fn auth_error_body_of(msg: &str) -> (b: String)
    ensures
        b@ == auth_error_body(msg@),
{
    let chars = chars_of(msg);
    match split_second_exec(&chars, &chars_of(" - ")) {
        Some(b) => b,
        None => String::from_str(msg),
    }
}

/// The answer to the failure `err` whose message is `msg`.
pub fn auth_error_from_message(msg: &str, err: anyhow::Error) -> (r: AppError)
    ensures
        is_auth_error_for(msg@, err, r),
{
    match auth_failure_kind_of(msg) {
        AuthFailureKind::BadRequest => AppError::BadRequest(auth_error_body_of(msg)),
        AuthFailureKind::Unauthorized => AppError::Unauthorized(auth_error_body_of(msg)),
        AuthFailureKind::Internal => AppError::Internal(err),
    }
}

/// Maps a failed sign-up or sign-in to an API error, by the failure's message.
pub fn map_auth_error(err: anyhow::Error) -> (r: AppError)
    ensures
        is_auth_error_for(error_message(err), err, r),
{
    let msg = error_text(&err);
    auth_error_from_message(msg.as_str(), err)
}

/// The answer to a sign-up: the token, or the mapped failure.
pub fn sign_up(outcome: Result<String, anyhow::Error>) -> (r: Result<String, AppError>)
    ensures
        match outcome {
            Ok(token) => r matches Ok(t) && t@ == token@,
            Err(err) => r matches Err(e) && is_auth_error_for(error_message(err), err, e),
        },
{
    match outcome {
        Ok(token) => Ok(token),
        Err(err) => Err(map_auth_error(err)),
    }
}

/// The answer to a sign-in: the token, or the mapped failure.
pub fn sign_in(outcome: Result<String, anyhow::Error>) -> (r: Result<String, AppError>)
    ensures
        match outcome {
            Ok(token) => r matches Ok(t) && t@ == token@,
            Err(err) => r matches Err(e) && is_auth_error_for(error_message(err), err, e),
        },
{
    match outcome {
        Ok(token) => Ok(token),
        Err(err) => Err(map_auth_error(err)),
    }
}

/// How a refused answer with this status and body is classified: 400 and 422,
/// or a body saying that the user already exists, are the client's fault; 401
/// is a failed authentication; anything else is internal.
pub open spec fn status_failure_kind(status: u16, body: Seq<char>) -> AuthFailureKind {
    if status == 400 || status == 422 || has_occurrence(split_first(body, " - "@), "already exists"@) {
        AuthFailureKind::BadRequest
    } else if status == 401 {
        AuthFailureKind::Unauthorized
    } else {
        AuthFailureKind::Internal
    }
}

/// A refused sign-up or sign-in is answered as its status calls for: the
/// failure message that `auth_failure_message` builds is read back by
/// `map_auth_error` with the same status and with the answer's body (up to a
/// first `" - "` in it). So a wrong password (401) becomes `Unauthorized`, and an
/// invalid sign-up (400, 422) or an existing user becomes `BadRequest`. This
/// holds whenever the separators cannot be mistaken: the operation's name holds
/// neither `": "` nor `" - "`, and the reason phrase, between the spaces that
/// surround it in the message, holds no `" - "`.
pub proof fn lemma_refused_auth_round_trip(
    operation: Seq<char>,
    status: u16,
    reason: Seq<char>,
    body: Seq<char>,
)
    requires
        !has_occurrence(operation, ": "@),
        !has_occurrence(operation, " - "@),
        !has_occurrence(" "@ + reason + " "@, " - "@),
    ensures
        auth_status_code(auth_failure_text(operation, status, reason, body)) == Some(status),
        auth_error_body(auth_failure_text(operation, status, reason, body)) == split_first(
            body,
            " - "@,
        ),
        auth_failure_kind(auth_failure_text(operation, status, reason, body))
            == status_failure_kind(status, body),
{
    reveal_strlit(": ");
    reveal_strlit(" ");
    reveal_strlit(" - ");
    let colon = ": "@;
    let space = " "@;
    let dash = " - "@;
    assert(colon =~= seq![':', ' ']);
    assert(space =~= seq![' ']);
    assert(dash =~= seq![' ', '-', ' ']);
    let digits = decimal_digits(status as nat);
    lemma_decimal_digits_shape(status as nat);
    lemma_port_text_round_trip(status);
    let msg = auth_failure_text(operation, status, reason, body);
    let o: int = operation.len() as int;
    let d: int = digits.len() as int;
    let start: int = o + 2;
    let space_at: int = start + d;
    let sep: int = space_at + 1 + reason.len();
    let pre = operation + colon + digits + space + reason + dash;
    let around = space + reason + space;
    assert(msg =~= pre + body);
    assert(pre.len() == sep + 3);
    // The characters of the message, region by region.
    assert(msg.subrange(0, o) =~= operation);
    assert forall|i: int| 0 <= i < o implies msg[i] == operation[i] by {
        assert(msg[i] == pre[i]);
    }
    assert(msg[o] == ':' && msg[o + 1] == ' ');
    assert forall|k: int| 0 <= k < d implies msg[start + k] == digits[k] by {
        assert(msg[start + k] == pre[start + k]);
    }
    assert(msg[space_at] == ' ');
    assert(msg.subrange(space_at, sep + 1) =~= around);
    assert(msg[sep] == ' ' && msg[sep + 1] == '-' && msg[sep + 2] == ' ');

    // The first ": " is the one after the operation's name.
    assert forall|i: int| 0 <= i < o implies !occurs_at(msg, colon, i) by {
        if occurs_at(msg, colon, i) {
            if i + 2 <= o {
                assert(operation.subrange(i, i + 2) =~= msg.subrange(i, i + 2));
                lemma_occurrence_is_found(operation, colon, 0, i);
            } else {
                assert(msg.subrange(i, i + 2)[1] == msg[o]);
            }
        }
    }
    lemma_skip_non_occurrences(msg, colon, 0, o);
    assert(msg.subrange(o, o + 2) =~= colon);
    assert(first_occurrence(msg, colon, 0) == Some(o));
    // The piece after it starts with the digits and a space.
    assert forall|i: int| start <= i < space_at + 1 implies !occurs_at(msg, colon, i) by {
        if occurs_at(msg, colon, i) {
            assert(msg.subrange(i, i + 2)[0] == msg[i]);
            if i < space_at {
                assert(is_digit(digits[i - start]));
            }
        }
    }
    lemma_skip_non_occurrences(msg, colon, start, space_at + 1);
    lemma_first_occurrence_found(msg, colon, space_at + 1);
    let piece = match first_occurrence(msg, colon, start) {
        Some(j) => msg.subrange(start, j),
        None => msg.subrange(start, msg.len() as int),
    };
    assert(split_second(msg, colon) == Some(piece));
    assert(piece.len() >= d + 1);
    assert forall|k: int| 0 <= k < d implies piece[k] != ' ' && piece[k] == digits[k] by {
        assert(piece[k] == msg[start + k]);
        assert(is_digit(digits[k]));
    }
    assert(piece[d] == msg[space_at]);
    lemma_first_char_occurrence(piece, ' ', 0, d);
    assert(split_first(piece, space) =~= digits);

    // The first " - " is the separator before the body.
    assert forall|i: int| 0 <= i < sep implies !occurs_at(msg, dash, i) by {
        if occurs_at(msg, dash, i) {
            assert(msg.subrange(i, i + 3)[0] == msg[i]);
            assert(msg.subrange(i, i + 3)[1] == msg[i + 1]);
            assert(msg.subrange(i, i + 3)[2] == msg[i + 2]);
            if i + 3 <= o {
                assert(operation.subrange(i, i + 3) =~= msg.subrange(i, i + 3));
                lemma_occurrence_is_found(operation, dash, 0, i);
            } else if i < o {
                // The third or second character would be the ':' after the name.
                assert(msg[o] == ':');
            } else if i < space_at {
                if i > o + 1 {
                    assert(is_digit(digits[i - start]));
                } else if i == o + 1 {
                    assert(is_digit(digits[0]));
                }
            } else if i + 3 <= sep + 1 {
                assert(around.subrange(i - space_at, i - space_at + 3) =~= msg.subrange(i, i + 3));
                lemma_occurrence_is_found(around, dash, 0, i - space_at);
            } else {
                assert(msg[sep] == ' ');
            }
        }
    }
    lemma_skip_non_occurrences(msg, dash, 0, sep);
    assert(msg.subrange(sep, sep + 3) =~= dash);
    assert(first_occurrence(msg, dash, 0) == Some(sep));
    lemma_first_occurrence_shift(pre, body, dash, 0);
    lemma_first_occurrence_found(body, dash, 0);
    match first_occurrence(body, dash, 0) {
        Some(k) => {
            assert(msg.subrange(sep + 3, sep + 3 + k) =~= body.subrange(0, k));
        },
        None => {
            assert(msg.subrange(sep + 3, msg.len() as int) =~= body);
        },
    }
}

/// A wrong password is answered 401 `UNAUTHORIZED`: when sign-in fails with the
/// error that `on_auth_answer` builds for a 401 answer (whose body does not say
/// that the user already exists), the sign-in handler answers `Unauthorized`
/// with the answer's body, which the envelope sends as status 401 and code
/// `UNAUTHORIZED`.
pub proof fn lemma_wrong_password_unauthorized(
    operation: Seq<char>,
    reason: Seq<char>,
    body: Seq<char>,
    err: anyhow::Error,
    r: AppError,
)
    requires
        !has_occurrence(operation, ": "@),
        !has_occurrence(operation, " - "@),
        !has_occurrence(" "@ + reason + " "@, " - "@),
        !has_occurrence(split_first(body, " - "@), "already exists"@),
        error_message(err) == auth_failure_text(operation, 401, reason, body),
        is_auth_error_for(error_message(err), err, r),
    ensures
        r matches AppError::Unauthorized(m) && m@ == split_first(body, " - "@),
        error_status(r) == 401,
        error_code(r) == "UNAUTHORIZED"@,
{
    lemma_refused_auth_round_trip(operation, 401, reason, body);
}

// ── JWT payload ──

/// Why base64 decoding failed (the variants of `base64::DecodeError`).
#[derive(Debug, Clone, Copy, PartialEq, Eq)]
pub enum DecodeFailure {
    /// An invalid symbol: offset and byte.
    InvalidByte(usize, u8),
    /// An invalid number of symbols.
    InvalidLength(usize),
    /// A last symbol with nonzero discarded bits: offset and byte.
    InvalidLastSymbol(usize, u8),
    /// Padding where none belongs, or wrong padding.
    InvalidPadding,
}

/// The text of a decoding failure, as `base64::DecodeError` displays it.
pub open spec fn decode_failure_text(e: DecodeFailure) -> Seq<char> {
    match e {
        DecodeFailure::InvalidByte(offset, byte) => "Invalid symbol "@ + decimal_digits(byte as nat)
            + ", offset "@ + decimal_digits(offset as nat) + "."@,
        DecodeFailure::InvalidLength(len) => "Invalid input length: "@ + decimal_digits(len as nat),
        DecodeFailure::InvalidLastSymbol(offset, byte) => "Invalid last symbol "@ + decimal_digits(
            byte as nat,
        ) + ", offset "@ + decimal_digits(offset as nat) + "."@,
        DecodeFailure::InvalidPadding => "Invalid padding"@,
    }
}

impl DecodeFailure {
    /// The text of the failure.
    pub fn message(&self) -> (r: String)
        ensures
            r@ == decode_failure_text(*self),
    {
        match self {
            DecodeFailure::InvalidByte(offset, byte) => {
                let mut r = String::from_str("Invalid symbol ");
                r.append(decimal_u64(*byte as u64).as_str());
                r.append(", offset ");
                r.append(decimal_u64(*offset as u64).as_str());
                r.append(".");
                r
            },
            DecodeFailure::InvalidLength(len) => {
                let mut r = String::from_str("Invalid input length: ");
                r.append(decimal_u64(*len as u64).as_str());
                r
            },
            DecodeFailure::InvalidLastSymbol(offset, byte) => {
                let mut r = String::from_str("Invalid last symbol ");
                r.append(decimal_u64(*byte as u64).as_str());
                r.append(", offset ");
                r.append(decimal_u64(*offset as u64).as_str());
                r.append(".");
                r
            },
            DecodeFailure::InvalidPadding => String::from_str("Invalid padding"),
        }
    }
}

/// The outcome of decoding a token's payload: the JSON document held by the
/// base64 (URL-safe, unpadded) of the second `.`-separated segment, or the text
/// of the failure (no payload segment, bad base64, or bad JSON).
pub open spec fn jwt_payload_outcome(token: Seq<char>) -> Result<serde_json::Value, Seq<char>> {
    match split_second(token, "."@) {
        None => Err("missing payload segment"@),
        Some(segment) => match base64_url_decoded(segment) {
            Err(e) => Err("base64 decode failed: "@ + decode_failure_text(e)),
            Ok(bytes) => match json_parsed(bytes) {
                Ok(v) => Ok(v),
                Err(e) => Err("json decode failed: "@ + json_error_display(e)),
            },
        },
    }
}

/// Decodes the payload segment of a JWT, without verifying its signature: the
/// token was issued by Neon Auth (taken from its `set-auth-jwt` header), so the
/// trust in it comes from there.
pub fn decode_jwt_payload(token: &str) -> (r: Result<serde_json::Value, String>)
    ensures
        match r {
            Ok(v) => jwt_payload_outcome(token@) == Ok::<serde_json::Value, Seq<char>>(v),
            Err(m) => jwt_payload_outcome(token@) == Err::<serde_json::Value, Seq<char>>(m@),
        },
        match split_second(token@, "."@) {
            None => r is Err,
            Some(segment) => match base64_url_decoded(segment) {
                Err(_) => r is Err,
                Ok(bytes) => match json_parsed(bytes) {
                    Ok(v) => r == Ok::<serde_json::Value, String>(v),
                    Err(_) => r is Err,
                },
            },
        },
{
    let chars = chars_of(token);
    let segment = match split_second_exec(&chars, &chars_of(".")) {
        Some(s) => s,
        None => {
            return Err(String::from_str("missing payload segment"));
        },
    };
    let bytes = match base64_url_decode(segment.as_str()) {
        Ok(b) => b,
        Err(e) => {
            return Err(joined("base64 decode failed: ", e.message().as_str()));
        },
    };
    match parse_json(bytes.as_slice()) {
        Ok(v) => Ok(v),
        Err(e) => {
            let detail = json_error_text(&e);
            Err(joined("json decode failed: ", detail.as_str()))
        },
    }
}

/// Only the payload segment of a token decides what it decodes to: the header
/// and the signature are not read. (The header and the payload hold no `.`.)
pub proof fn lemma_payload_segment_decides(
    header1: Seq<char>,
    header2: Seq<char>,
    payload: Seq<char>,
    signature1: Seq<char>,
    signature2: Seq<char>,
)
    requires
        !header1.contains('.'),
        !header2.contains('.'),
        !payload.contains('.'),
    ensures
        jwt_payload_outcome(header1 + "."@ + payload + "."@ + signature1) == jwt_payload_outcome(
            header2 + "."@ + payload + "."@ + signature2,
        ),
{
    lemma_payload_segment(header1, payload, signature1);
    lemma_payload_segment(header2, payload, signature2);
}

/// The payload segment is decoded as it stands: for a token
/// `header.payload.signature`, the outcome is the JSON document of the bytes
/// that URL-safe unpadded base64 gives for `payload` itself, or the failure of
/// that decoding or of that JSON parse. (The header and the payload hold no `.`.)
pub proof fn lemma_payload_decoded_as_is(header: Seq<char>, payload: Seq<char>, signature: Seq<char>)
    requires
        !header.contains('.'),
        !payload.contains('.'),
    ensures
        jwt_payload_outcome(header + "."@ + payload + "."@ + signature) == match base64_url_decoded(
            payload,
        ) {
            Err(e) => Err("base64 decode failed: "@ + decode_failure_text(e)),
            Ok(bytes) => match json_parsed(bytes) {
                Ok(v) => Ok(v),
                Err(e) => Err("json decode failed: "@ + json_error_display(e)),
            },
        },
{
    lemma_payload_segment(header, payload, signature);
}

/// The payload segment of `header.payload.signature`.
proof fn lemma_payload_segment(header: Seq<char>, payload: Seq<char>, signature: Seq<char>)
    requires
        !header.contains('.'),
        !payload.contains('.'),
    ensures
        split_second(header + "."@ + payload + "."@ + signature, "."@) == Some(payload),
{
    reveal_strlit(".");
    let dot = "."@;
    assert(dot =~= seq!['.']);
    let t = header + dot + payload + dot + signature;
    let h: int = header.len() as int;
    let p: int = payload.len() as int;
    assert forall|i: int| 0 <= i < h implies t[i] != '.' by {
        assert(t[i] == header[i]);
    }
    assert(t[h] == '.');
    lemma_first_char_occurrence(t, '.', 0, h);
    assert forall|i: int| h + 1 <= i < h + 1 + p implies t[i] != '.' by {
        assert(t[i] == payload[i - h - 1]);
    }
    assert(t[h + 1 + p] == '.');
    lemma_first_char_occurrence(t, '.', h + 1, h + 1 + p);
    assert(t.subrange(h + 1, h + 1 + p) =~= payload);
}

/// The currently authenticated user: the payload of the client's JWT.
/// `Unauthorized` without a token, or with the decoding failure's text when the
/// payload does not decode.
pub fn get_me(client: &NeonClient) -> (r: Result<serde_json::Value, AppError>)
    ensures
        match client.token_view() {
            None => r matches Err(AppError::Unauthorized(m)) && m@ == "not authenticated"@,
            Some(t) => match jwt_payload_outcome(t) {
                Ok(v) => r == Ok::<serde_json::Value, AppError>(v),
                Err(text) => r matches Err(AppError::Unauthorized(m)) && m@ == "invalid token: "@
                    + text,
            },
        },
{
    let token = match client.token() {
        Some(t) => t,
        None => {
            return Err(AppError::Unauthorized(String::from_str("not authenticated")));
        },
    };
    match decode_jwt_payload(token) {
        Ok(user) => Ok(user),
        Err(e) => Err(AppError::Unauthorized(joined("invalid token: ", e.as_str()))),
    }
}

} // verus!
