//! The Neon client: its token lifecycle and the requests it sends to Neon Auth
//! and the Neon Data API.
//!
//! Each network exchange is split in two: a method that says which request to
//! send (method, URL, headers), and a method that takes what came back and
//! updates the client. The exchange itself is done by the caller.

use vstd::prelude::*;

use super::Config;
use crate::bindings::{
    error_from_message, error_message, json_array_len, json_array_length, json_get, json_member, json_pointer, json_pointer_get,
    json_parsed, parse_json, parsed_url_parts, percent_decode, percent_decoded, url_origin_parts,
};
use crate::response::AppError;
use crate::text::{
    chars_of, decimal_digits, decimal_i32, decimal_int, decimal_u64, joined,
    lemma_first_char_occurrence, lemma_no_char_occurrence, split_first, split_first_exec,
    strip_prefix_exec, strip_prefix_spec,
};

verus! {

// ── Auth request / response types ──

/// Body of a sign-up request.
#[derive(Debug, Clone, PartialEq, Eq)]
pub struct SignUpRequest {
    pub email: String,
    pub name: String,
    pub password: String,
}

/// Body of a sign-in request: a sign-up request without the name.
#[derive(Debug, Clone, PartialEq, Eq)]
pub struct SignInRequest {
    pub email: String,
    pub password: String,
}

/// A session as Neon Auth reports it.
#[derive(Debug, Clone, PartialEq, Eq)]
pub struct Session {
    pub access_token: String,
    pub expires_at: Option<u64>,
}

// ── Requests ──

/// HTTP methods used by the client.
#[derive(Debug, Clone, Copy, PartialEq, Eq)]
pub enum HttpMethod {
    Get,
    Post,
    Patch,
    Delete,
}

/// One request header.
#[derive(Debug, Clone, PartialEq, Eq)]
pub struct HttpHeader {
    pub name: String,
    pub value: String,
}

/// A request to send: method, URL and headers (a JSON body, where there is one,
/// is added by the caller).
#[derive(Debug, Clone, PartialEq, Eq)]
pub struct ApiRequest {
    pub method: HttpMethod,
    pub url: String,
    pub headers: Vec<HttpHeader>,
}

/// A request as plain values.
pub struct RequestView {
    pub method: HttpMethod,
    pub url: Seq<char>,
    pub headers: Seq<(Seq<char>, Seq<char>)>,
}

impl View for ApiRequest {
    type V = RequestView;

    open spec fn view(&self) -> RequestView {
        RequestView {
            method: self.method,
            url: self.url@,
            headers: self.headers@.map_values(|h: HttpHeader| (h.name@, h.value@)),
        }
    }
}

fn header(name: &str, value: String) -> (h: HttpHeader)
    ensures
        h.name@ == name@,
        h.value@ == value@,
{
    HttpHeader { name: String::from_str(name), value }
}

fn request_with(method: HttpMethod, url: String, headers: Vec<HttpHeader>) -> (r: ApiRequest)
    ensures
        r.method == method,
        r.url@ == url@,
        r.headers@ == headers@,
{
    ApiRequest { method, url, headers }
}

// ── Specifications ──

/// The origin (`scheme://authority`) of a URL, or the empty string when it does
/// not parse.
pub open spec fn origin_of(url: Seq<char>) -> Seq<char> {
    match parsed_url_parts(url) {
        Some((scheme, authority)) => scheme + "://"@ + authority,
        None => Seq::empty(),
    }
}

/// The value of the session cookie at the start of a `Set-Cookie` header.
pub open spec fn session_cookie_value(set_cookie: Seq<char>) -> Option<Seq<char>> {
    strip_prefix_spec(split_first(set_cookie, ";"@), "__Secure-neon-auth.session_token="@)
}

/// The JWT carried by a `Set-Cookie` header: the URL-decoded value of the session
/// cookie.
pub open spec fn jwt_from_set_cookie(set_cookie: Option<Seq<char>>) -> Option<Seq<char>> {
    match set_cookie {
        None => None,
        Some(c) => match session_cookie_value(c) {
            None => None,
            Some(v) => percent_decoded(v),
        },
    }
}

/// The value of an `Authorization` header that carries `token`.
pub open spec fn bearer(token: Seq<char>) -> Seq<char> {
    "Bearer "@ + token
}

/// The token that an `Authorization` header carries, if it is a bearer header.
pub open spec fn authorization_token(header: Option<Seq<char>>) -> Option<Seq<char>> {
    match header {
        None => None,
        Some(h) => strip_prefix_spec(h, "Bearer "@),
    }
}

/// The view of an optional string slice.
pub open spec fn opt_str_view(s: Option<&str>) -> Option<Seq<char>> {
    match s {
        Some(t) => Some(t@),
        None => None,
    }
}

/// The `Cookie` header value that presents a session token.
pub open spec fn session_cookie(token: Seq<char>) -> Seq<char> {
    "__Secure-neon-auth.session_token="@ + token
}

/// The `Prefer` header that asks the Data API to return the affected rows.
pub open spec fn prefer_representation() -> (Seq<char>, Seq<char>) {
    ("Prefer"@, "return=representation"@)
}

/// What to do next in a sign-up or sign-in, after the answer of Neon Auth.
#[derive(Debug)]
pub enum AuthStep {
    /// The answer refused the request: fail with this error, whose message is
    /// the one of `auth_failure_message`.
    Failed(anyhow::Error),
    /// Exchange the session token for a JWT with this session request.
    FetchSession(ApiRequest),
    /// Done: hand out this token (empty when no session was set).
    Done(String),
}

/// The client lacks a token for a Data API call.
#[derive(Debug, Clone, Copy, PartialEq, Eq)]
pub struct NotAuthenticated;

impl NotAuthenticated {
    /// The text of the error: `not authenticated`.
    pub fn message(&self) -> (r: String)
        ensures
            r@ == "not authenticated"@,
    {
        String::from_str("not authenticated")
    }
}

/// Where a session answer holds the session: its top-level `session` member,
/// else the value at `/data/session`.
pub open spec fn session_in_answer(doc: serde_json::Value) -> Option<serde_json::Value> {
    match json_member(doc, "session"@) {
        Some(s) => Some(s),
        None => json_pointer(doc, "/data/session"@),
    }
}

/// The session held by the body of a session answer: none when the body is no
/// JSON, else the one that `session_member` finds.
pub fn session_of_answer(body: &[u8]) -> (r: Option<serde_json::Value>)
    ensures
        r == match json_parsed(body@) {
            Ok(doc) => session_in_answer(doc),
            Err(_) => None::<serde_json::Value>,
        },
{
    match parse_json(body) {
        Ok(doc) => session_member(&doc),
        Err(_) => None,
    }
}

/// Whether a header byte is visible ASCII (or a tab).
pub open spec fn is_visible_header_byte(b: u8) -> bool {
    (32 <= b < 127) || b == 9
}

/// The text of a header value, as `HeaderValue::to_str` gives it: the bytes as
/// characters when they are all visible ASCII (or tabs), else none.
pub fn header_text(bytes: &[u8]) -> (r: Option<String>)
    ensures
        (forall|i: int| 0 <= i < bytes@.len() ==> is_visible_header_byte(#[trigger] bytes@[i])) ==> (
        r matches Some(s) && s@ == bytes@.map_values(|b: u8| b as char)),
        !(forall|i: int| 0 <= i < bytes@.len() ==> is_visible_header_byte(#[trigger] bytes@[i]))
            ==> r is None,
{
    let mut s = String::new();
    let mut i: usize = 0;
    while i < bytes.len()
        invariant
            i <= bytes@.len(),
            forall|k: int| 0 <= k < i ==> is_visible_header_byte(#[trigger] bytes@[k]),
            s@ == bytes@.subrange(0, i as int).map_values(|b: u8| b as char),
        decreases bytes@.len() - i,
    {
        let b = bytes[i];
        if !((32 <= b && b < 127) || b == 9) {
            return None;
        }
        s.push(b as char);
        i = i + 1;
        assert(s@ =~= bytes@.subrange(0, i as int).map_values(|b: u8| b as char));
    }
    assert(bytes@.subrange(0, bytes@.len() as int) =~= bytes@);
    Some(s)
}

/// The session held by a session answer (parsed as JSON): its top-level
/// `session` member, else the value at `/data/session`.
pub fn session_member(doc: &serde_json::Value) -> (r: Option<serde_json::Value>)
    ensures
        r == session_in_answer(*doc),
{
    match json_get(doc, "session") {
        Some(s) => Some(s),
        None => json_pointer_get(doc, "/data/session"),
    }
}

// ── Neon client ──

/// Client state for Neon Auth and the Neon Data API.
#[derive(Debug, Clone)]
pub struct NeonClient {
    pub auth_url: String,
    pub data_api_url: String,
    pub jwt_token: Option<String>,
}

impl NeonClient {
    /// The token as plain text, if the client holds one.
    pub open spec fn token_view(self) -> Option<Seq<char>> {
        match self.jwt_token {
            Some(t) => Some(t@),
            None => None,
        }
    }

    /// The URL of a Data API resource.
    pub open spec fn resource_url_spec(self, resource: Seq<char>) -> Seq<char> {
        self.data_api_url@ + "/"@ + resource
    }

    /// The URL of one record (by id) of a Data API resource.
    pub open spec fn record_url_spec(self, resource: Seq<char>, id: i32) -> Seq<char> {
        self.resource_url_spec(resource) + "?id=eq."@ + decimal_int(id as int)
    }

    /// The request of a Data API call: the bearer header, then `Prefer` when the
    /// affected rows are wanted back.
    pub open spec fn data_request(self, method: HttpMethod, url: Seq<char>, prefer: bool) -> RequestView
        recommends
            self.jwt_token is Some,
    {
        RequestView {
            method,
            url,
            headers: if prefer {
                seq![("Authorization"@, bearer(self.token_view()->0)), prefer_representation()]
            } else {
                seq![("Authorization"@, bearer(self.token_view()->0))]
            },
        }
    }

    /// The endpoints of both services are those of the other client.
    pub open spec fn same_endpoints(self, other: NeonClient) -> bool {
        self.auth_url@ == other.auth_url@ && self.data_api_url@ == other.data_api_url@
    }

    /// A client without a token.
    pub fn new(config: &Config) -> (c: Self)
        ensures
            c.auth_url@ == config.auth_url@,
            c.data_api_url@ == config.data_api_url@,
            c.jwt_token is None,
    {
        NeonClient {
            auth_url: config.auth_url.clone(),
            data_api_url: config.data_api_url.clone(),
            jwt_token: None,
        }
    }

    /// A client holding `token` (a JWT taken from a request).
    pub fn with_token(config: &Config, token: String) -> (c: Self)
        ensures
            c.auth_url@ == config.auth_url@,
            c.data_api_url@ == config.data_api_url@,
            c.token_view() == Some(token@),
    {
        NeonClient {
            auth_url: config.auth_url.clone(),
            data_api_url: config.data_api_url.clone(),
            jwt_token: Some(token),
        }
    }

    /// The token, if the client holds one.
    pub fn token(&self) -> (r: Option<&str>)
        ensures
            opt_str_view(r) == self.token_view(),
    {
        match &self.jwt_token {
            Some(t) => Some(t.as_str()),
            None => None,
        }
    }

    // ── Auth ──

    /// The sign-up request: `POST {auth_url}/sign-up/email` with the `Origin`
    /// of the auth URL; its JSON body is a `SignUpRequest`.
    pub fn sign_up_request(&self) -> (r: ApiRequest)
        ensures
            r@ == (RequestView {
                method: HttpMethod::Post,
                url: self.auth_url@ + "/sign-up/email"@,
                headers: seq![("Origin"@, origin_of(self.auth_url@))],
            }),
    {
        self.auth_post("/sign-up/email")
    }

    /// The sign-in request: `POST {auth_url}/sign-in/email` with the `Origin`
    /// of the auth URL; its JSON body is a `SignInRequest`.
    pub fn sign_in_request(&self) -> (r: ApiRequest)
        ensures
            r@ == (RequestView {
                method: HttpMethod::Post,
                url: self.auth_url@ + "/sign-in/email"@,
                headers: seq![("Origin"@, origin_of(self.auth_url@))],
            }),
    {
        self.auth_post("/sign-in/email")
    }

    fn auth_post(&self, path: &str) -> (r: ApiRequest)
        ensures
            r@ == (RequestView {
                method: HttpMethod::Post,
                url: self.auth_url@ + path@,
                headers: seq![("Origin"@, origin_of(self.auth_url@))],
            }),
    {
        let url = joined(self.auth_url.as_str(), path);
        let origin = origin_from_url(self.auth_url.as_str());
        let mut headers: Vec<HttpHeader> = Vec::new();
        headers.push(header("Origin", origin));
        let r = request_with(HttpMethod::Post, url, headers);
        assert(r@.headers =~= seq![("Origin"@, origin_of(self.auth_url@))]);
        r
    }

    /// Takes in the `Set-Cookie` header of a sign-up or sign-in response: the
    /// client now holds the JWT that it carries, or no token.
    pub fn record_sign_in_response(&mut self, set_cookie: Option<&str>)
        ensures
            final(self).token_view() == jwt_from_set_cookie(opt_str_view(set_cookie)),
            final(self).same_endpoints(*old(self)),
    {
        self.jwt_token = extract_jwt_from_response(set_cookie);
    }

    /// Takes in the answer to a sign-up or sign-in (`operation` names which):
    /// a refused answer (non-2xx status) fails with the message of
    /// `auth_failure_message` and leaves the client as it was; an accepted one
    /// makes the client hold the JWT of its `Set-Cookie` header, then asks for
    /// the session (or, without a token, is done with the empty token).
    pub fn on_auth_answer(
        &mut self,
        operation: &str,
        status: u16,
        reason: &str,
        body: &str,
        set_cookie: Option<&str>,
    ) -> (step: AuthStep)
        ensures
            !(200 <= status < 300) ==> {
                &&& step matches AuthStep::Failed(e) && error_message(e) == auth_failure_text(
                    operation@,
                    status,
                    reason@,
                    body@,
                )
                &&& final(self).token_view() == old(self).token_view()
            },
            200 <= status < 300 ==> {
                &&& final(self).token_view() == jwt_from_set_cookie(opt_str_view(set_cookie))
                &&& match final(self).jwt_token {
                    Some(t) => step matches AuthStep::FetchSession(q) && q@ == (RequestView {
                        method: HttpMethod::Get,
                        url: old(self).auth_url@ + "/get-session"@,
                        headers: seq![("Cookie"@, session_cookie(t@))],
                    }),
                    None => step matches AuthStep::Done(t) && t@ == Seq::<char>::empty(),
                }
            },
            final(self).same_endpoints(*old(self)),
    {
        if let Some(message) = auth_failure_message(operation, status, reason, body) {
            return AuthStep::Failed(error_from_message(message));
        }
        self.record_sign_in_response(set_cookie);
        match self.session_request() {
            Some(request) => AuthStep::FetchSession(request),
            None => AuthStep::Done(String::new()),
        }
    }

    /// Takes in the answer to the session request of a sign-up or sign-in: its
    /// `set-auth-jwt` header (if any) becomes the token, which is handed out.
    pub fn on_session_answer(&mut self, set_auth_jwt: Option<String>) -> (token: String)
        ensures
            final(self).token_view() == match set_auth_jwt {
                Some(j) => Some(j@),
                None => old(self).token_view(),
            },
            final(self).same_endpoints(*old(self)),
            token@ == match final(self).token_view() {
                Some(t) => t,
                None => Seq::empty(),
            },
    {
        self.record_session_response(set_auth_jwt);
        self.issued_token()
    }

    /// The session request, `GET {auth_url}/get-session` presenting the token as
    /// the session cookie; none without a token.
    pub fn session_request(&self) -> (r: Option<ApiRequest>)
        ensures
            match self.jwt_token {
                None => r is None,
                Some(t) => r matches Some(q) && q@ == (RequestView {
                    method: HttpMethod::Get,
                    url: self.auth_url@ + "/get-session"@,
                    headers: seq![("Cookie"@, session_cookie(t@))],
                }),
            },
    {
        match &self.jwt_token {
            None => None,
            Some(t) => {
                let url = joined(self.auth_url.as_str(), "/get-session");
                let cookie = joined("__Secure-neon-auth.session_token=", t.as_str());
                let mut headers: Vec<HttpHeader> = Vec::new();
                headers.push(header("Cookie", cookie));
                let r = request_with(HttpMethod::Get, url, headers);
                assert(r@.headers =~= seq![("Cookie"@, session_cookie(t@))]);
                Some(r)
            },
        }
    }

    /// Takes in the `set-auth-jwt` header of a session response: a JWT there
    /// replaces the token; without one the token stays.
    pub fn record_session_response(&mut self, set_auth_jwt: Option<String>)
        ensures
            final(self).token_view() == match set_auth_jwt {
                Some(j) => Some(j@),
                None => old(self).token_view(),
            },
            final(self).same_endpoints(*old(self)),
    {
        if let Some(jwt) = set_auth_jwt {
            self.jwt_token = Some(jwt);
        }
    }

    /// The token handed to the user after sign-up or sign-in: the one held, or
    /// the empty string.
    pub fn issued_token(&self) -> (r: String)
        ensures
            r@ == match self.token_view() {
                Some(t) => t,
                None => Seq::empty(),
            },
    {
        match &self.jwt_token {
            Some(t) => t.clone(),
            None => String::new(),
        }
    }

    /// The sign-out request, `POST {auth_url}/sign-out` with the token as bearer;
    /// none without a token.
    pub fn sign_out_request(&self) -> (r: Option<ApiRequest>)
        ensures
            match self.jwt_token {
                None => r is None,
                Some(t) => r matches Some(q) && q@ == (RequestView {
                    method: HttpMethod::Post,
                    url: self.auth_url@ + "/sign-out"@,
                    headers: seq![("Authorization"@, bearer(t@))],
                }),
            },
    {
        match &self.jwt_token {
            None => None,
            Some(t) => {
                let url = joined(self.auth_url.as_str(), "/sign-out");
                let mut headers: Vec<HttpHeader> = Vec::new();
                headers.push(header("Authorization", joined("Bearer ", t.as_str())));
                let r = request_with(HttpMethod::Post, url, headers);
                assert(r@.headers =~= seq![("Authorization"@, bearer(t@))]);
                Some(r)
            },
        }
    }

    /// After a sign-out the client holds no token.
    pub fn finish_sign_out(&mut self)
        ensures
            final(self).jwt_token is None,
            final(self).same_endpoints(*old(self)),
    {
        self.jwt_token = None;
    }

    // ── Generic Data API CRUD ──

    /// The token for a Data API call; an error without one.
    pub fn bearer_token(&self) -> (r: Result<&str, NotAuthenticated>)
        ensures
            match r {
                Ok(t) => self.token_view() == Some(t@),
                Err(_) => self.jwt_token is None,
            },
    {
        match &self.jwt_token {
            Some(t) => Ok(t.as_str()),
            None => Err(NotAuthenticated),
        }
    }

    /// `{data_api_url}/{resource}`.
    pub fn resource_url(&self, resource: &str) -> (r: String)
        ensures
            r@ == self.resource_url_spec(resource@),
    {
        let mut r = joined(self.data_api_url.as_str(), "/");
        r.append(resource);
        r
    }

    /// `{data_api_url}/{resource}?id=eq.{id}`.
    pub fn record_url(&self, resource: &str, id: i32) -> (r: String)
        ensures
            r@ == self.record_url_spec(resource@, id),
    {
        let mut r = self.resource_url(resource);
        r.append("?id=eq.");
        let digits = decimal_i32(id);
        r.append(digits.as_str());
        r
    }

    fn data_call(&self, method: HttpMethod, url: String, prefer: bool) -> (r: Result<ApiRequest, NotAuthenticated>)
        ensures
            match r {
                Ok(q) => self.jwt_token is Some && q@ == self.data_request(method, url@, prefer),
                Err(_) => self.jwt_token is None,
            },
    {
        let token = self.bearer_token()?;
        let mut headers: Vec<HttpHeader> = Vec::new();
        headers.push(header("Authorization", joined("Bearer ", token)));
        if prefer {
            headers.push(header("Prefer", String::from_str("return=representation")));
        }
        let r = request_with(method, url, headers);
        assert(r@.headers =~= self.data_request(method, url@, prefer).headers);
        Ok(r)
    }

    /// Creating a record: `POST {data_api_url}/{resource}`, asking for the
    /// created rows back; its JSON body is the record.
    pub fn create_request(&self, resource: &str) -> (r: Result<ApiRequest, NotAuthenticated>)
        ensures
            match r {
                Ok(q) => self.jwt_token is Some && q@ == self.data_request(
                    HttpMethod::Post,
                    self.resource_url_spec(resource@),
                    true,
                ),
                Err(_) => self.jwt_token is None,
            },
    {
        let url = self.resource_url(resource);
        self.data_call(HttpMethod::Post, url, true)
    }

    /// Listing a resource: `GET {data_api_url}/{resource}`.
    pub fn get_all_request(&self, resource: &str) -> (r: Result<ApiRequest, NotAuthenticated>)
        ensures
            match r {
                Ok(q) => self.jwt_token is Some && q@ == self.data_request(
                    HttpMethod::Get,
                    self.resource_url_spec(resource@),
                    false,
                ),
                Err(_) => self.jwt_token is None,
            },
    {
        let url = self.resource_url(resource);
        self.data_call(HttpMethod::Get, url, false)
    }

    /// Reading one record: `GET {data_api_url}/{resource}?id=eq.{id}`.
    pub fn get_one_request(&self, resource: &str, id: i32) -> (r: Result<ApiRequest, NotAuthenticated>)
        ensures
            match r {
                Ok(q) => self.jwt_token is Some && q@ == self.data_request(
                    HttpMethod::Get,
                    self.record_url_spec(resource@, id),
                    false,
                ),
                Err(_) => self.jwt_token is None,
            },
    {
        let url = self.record_url(resource, id);
        self.data_call(HttpMethod::Get, url, false)
    }

    /// Updating one record: `PATCH {data_api_url}/{resource}?id=eq.{id}`, asking
    /// for the updated rows back; its JSON body holds the new fields.
    pub fn update_request(&self, resource: &str, id: i32) -> (r: Result<ApiRequest, NotAuthenticated>)
        ensures
            match r {
                Ok(q) => self.jwt_token is Some && q@ == self.data_request(
                    HttpMethod::Patch,
                    self.record_url_spec(resource@, id),
                    true,
                ),
                Err(_) => self.jwt_token is None,
            },
    {
        let url = self.record_url(resource, id);
        self.data_call(HttpMethod::Patch, url, true)
    }

    /// Deleting one record: `DELETE {data_api_url}/{resource}?id=eq.{id}`,
    /// asking for the deleted rows back so that a missing record shows.
    pub fn delete_request(&self, resource: &str, id: i32) -> (r: Result<ApiRequest, NotAuthenticated>)
        ensures
            match r {
                Ok(q) => self.jwt_token is Some && q@ == self.data_request(
                    HttpMethod::Delete,
                    self.record_url_spec(resource@, id),
                    true,
                ),
                Err(_) => self.jwt_token is None,
            },
    {
        let url = self.record_url(resource, id);
        self.data_call(HttpMethod::Delete, url, true)
    }

    // ── Request extractor ──

    /// The client of an incoming request: one holding the bearer token of its
    /// `Authorization` header (given here as text, when it is valid text), or
    /// `Unauthorized` when there is no bearer token.
    pub fn from_authorization(config: &Config, authorization: Option<&str>) -> (r: Result<NeonClient, AppError>)
        ensures
            match authorization_token(opt_str_view(authorization)) {
                Some(t) => r matches Ok(c) && c.token_view() == Some(t)
                    && c.auth_url@ == config.auth_url@ && c.data_api_url@ == config.data_api_url@,
                None => r matches Err(AppError::Unauthorized(m))
                    && m@ == "missing or invalid Authorization header"@,
            },
    {
        let stripped = match authorization {
            Some(h) => {
                let chars = chars_of(h);
                let prefix = chars_of("Bearer ");
                strip_prefix_exec(&chars, &prefix)
            },
            None => None,
        };
        match stripped {
            Some(token) => Ok(NeonClient::with_token(config, token)),
            None => Err(AppError::Unauthorized(String::from_str("missing or invalid Authorization header"))),
        }
    }
}

/// The message of a refused sign-up or sign-in: `"{operation}: {status}
/// {reason} - {body}"`, the shape that `map_auth_error` reads back.
pub open spec fn auth_failure_text(operation: Seq<char>, status: u16, reason: Seq<char>, body: Seq<char>) -> Seq<char> {
    operation + ": "@ + decimal_digits(status as nat) + " "@ + reason + " - "@ + body
}

/// The outcome of a sign-up or sign-in answer with this status: nothing for a
/// 2xx status, else the failure message built from the operation's name, the
/// status, its reason phrase and the answer's body.
pub fn auth_failure_message(operation: &str, status: u16, reason: &str, body: &str) -> (r: Option<String>)
    ensures
        200 <= status < 300 ==> r is None,
        !(200 <= status < 300) ==> (r matches Some(m) && m@ == auth_failure_text(
            operation@,
            status,
            reason@,
            body@,
        )),
{
    if 200 <= status && status < 300 {
        return None;
    }
    let mut m = joined(operation, ": ");
    m.append(decimal_u64(status as u64).as_str());
    m.append(" ");
    m.append(reason);
    m.append(" - ");
    m.append(body);
    Some(m)
}

/// The records of a `get_one` call come back as a list; the call yields its
/// last record, if any.
pub fn get_one_result<T>(records: Vec<T>) -> (r: Option<T>)
    ensures
        r == if records@.len() == 0 { None } else { Some(records@.last()) },
{
    let mut records = records;
    records.pop()
}

/// Whether a delete call removed anything, from the body of its answer (the
/// deleted rows, as a JSON array): `None` when the body is no JSON array.
pub fn deleted_any(body: &[u8]) -> (r: Option<bool>)
    ensures
        r == match json_parsed(body@) {
            Ok(doc) => match json_array_length(doc) {
                Some(n) => Some(n > 0),
                None => None,
            },
            Err(_) => None::<bool>,
        },
{
    match parse_json(body) {
        Ok(doc) => match json_array_len(&doc) {
            Some(n) => Some(n > 0),
            None => None,
        },
        Err(_) => None,
    }
}

/// The origin of a URL given as scheme and authority: `scheme://authority`,
/// or the empty string when the URL did not parse.
pub fn origin_from_parts(parts: Option<(String, String)>) -> (r: String)
    ensures
        r@ == match parts {
            Some((scheme, authority)) => scheme@ + "://"@ + authority@,
            None => Seq::empty(),
        },
{
    match parts {
        Some((scheme, authority)) => {
            let mut r = joined(scheme.as_str(), "://");
            r.append(authority.as_str());
            r
        },
        None => String::new(),
    }
}

/// Extracts the origin (scheme + authority) from a URL string.
pub fn origin_from_url(url: &str) -> (r: String)
    ensures
        r@ == origin_of(url@),
{
    origin_from_parts(url_origin_parts(url))
}

/// The raw value of the session cookie `__Secure-neon-auth.session_token` when
/// it is the first cookie of a `Set-Cookie` header.
pub fn session_cookie_value_exec(set_cookie: &str) -> (r: Option<String>)
    ensures
        match r {
            Some(v) => session_cookie_value(set_cookie@) == Some(v@),
            None => session_cookie_value(set_cookie@) is None,
        },
{
    let chars = chars_of(set_cookie);
    let first = split_first_exec(&chars, &chars_of(";"));
    let first_chars = chars_of(first.as_str());
    strip_prefix_exec(&first_chars, &chars_of("__Secure-neon-auth.session_token="))
}

/// Extracts the full JWT from the `Set-Cookie` header of a sign-in or sign-up
/// response (given here as text): the URL-decoded value of the session cookie.
/// The cookie holds the real JWT (`session_id.signature`), while the response
/// body's `token` is only the session id.
pub fn extract_jwt_from_response(set_cookie: Option<&str>) -> (r: Option<String>)
    ensures
        match r {
            Some(j) => jwt_from_set_cookie(opt_str_view(set_cookie)) == Some(j@),
            None => jwt_from_set_cookie(opt_str_view(set_cookie)) is None,
        },
        match set_cookie {
            Some(c) => match session_cookie_value(c@) {
                Some(v) => !v.contains('%') ==> (r matches Some(j) && j@ == v),
                None => true,
            },
            None => true,
        },
{
    let cookie = set_cookie?;
    let value = session_cookie_value_exec(cookie)?;
    percent_decode(value.as_str())
}

/// A bearer header carrying a token is accepted by the request extractor,
/// which recovers the same token: what the client sends as `Authorization`,
/// the server takes back unchanged.
pub proof fn lemma_bearer_round_trip(token: Seq<char>)
    ensures
        authorization_token(Some(bearer(token))) == Some(token),
{
    assert(bearer(token).skip("Bearer "@.len() as int) =~= token);
    assert(bearer(token).subrange(0, "Bearer "@.len() as int) =~= "Bearer "@);
}

/// A client made from a request's bearer header forwards that very header to
/// the Data API: the `Authorization` value of its Data API calls is the one the
/// request carried.
pub proof fn lemma_bearer_forwarded(header: Seq<char>)
    requires
        authorization_token(Some(header)) is Some,
    ensures
        bearer(authorization_token(Some(header))->0) == header,
{
    let t = header.skip("Bearer "@.len() as int);
    assert(bearer(t) =~= header);
}

/// The session cookie that the client presents is read back as the same
/// token: a `Set-Cookie` header that starts with `session_cookie(token)`, with
/// further attributes after a `;` or none, yields `token` as the cookie value
/// (for a token without `;`).
pub proof fn lemma_session_cookie_round_trip(token: Seq<char>, rest: Seq<char>)
    requires
        !token.contains(';'),
        rest.len() == 0 || rest[0] == ';',
    ensures
        session_cookie_value(session_cookie(token) + rest) == Some(token),
{
    reveal_strlit("__Secure-neon-auth.session_token=");
    reveal_strlit(";");
    let prefix = "__Secure-neon-auth.session_token="@;
    let cookie = session_cookie(token);
    let s = cookie + rest;
    assert(";"@ =~= seq![';']);
    assert forall|i: int| 0 <= i < cookie.len() implies s[i] != ';' by {
        if i < prefix.len() {
            assert(s[i] == prefix[i]);
        } else {
            assert(s[i] == token[i - prefix.len()]);
        }
    }
    if rest.len() == 0 {
        assert(s =~= cookie);
        lemma_no_char_occurrence(s, ';', 0);
        assert(split_first(s, ";"@) == s);
    } else {
        assert(s[cookie.len() as int] == ';');
        lemma_first_char_occurrence(s, ';', 0, cookie.len() as int);
        assert(split_first(s, ";"@) =~= cookie);
    }
    assert(cookie.subrange(0, prefix.len() as int) =~= prefix);
    assert(cookie.skip(prefix.len() as int) =~= token);
}

} // verus!
