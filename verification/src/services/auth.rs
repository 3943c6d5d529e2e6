//! Client state for the Neon Auth API: the JWT it holds and the requests of the
//! standard flow (sign-up, sign-in, session, sign-out). Each exchange is split
//! into the request to send and the update made from the answer.

use vstd::prelude::*;

use crate::config::client::{bearer, ApiRequest, HttpHeader, HttpMethod, RequestView};
use crate::config::Config;
use crate::models::auth::{AuthResponse, SessionResponse};
use crate::text::joined;

verus! {

/// Client for the Neon Auth API.
#[derive(Debug, Clone)]
pub struct NeonAuthClient {
    pub auth_url: String,
    pub jwt_token: Option<String>,
}

impl NeonAuthClient {
    /// The token as plain text, if the client holds one.
    pub open spec fn token_view(self) -> Option<Seq<char>> {
        match self.jwt_token {
            Some(t) => Some(t@),
            None => None,
        }
    }

    /// A client without a token.
    pub fn new(config: &Config) -> (c: Self)
        ensures
            c.auth_url@ == config.auth_url@,
            c.jwt_token is None,
    {
        NeonAuthClient { auth_url: config.auth_url.clone(), jwt_token: None }
    }

    /// A client with a token taken from elsewhere (e.g. a request header).
    pub fn with_token(config: &Config, token: String) -> (c: Self)
        ensures
            c.auth_url@ == config.auth_url@,
            c.token_view() == Some(token@),
    {
        NeonAuthClient { auth_url: config.auth_url.clone(), jwt_token: Some(token) }
    }

    /// The current token, if any.
    pub fn token(&self) -> (r: Option<&str>)
        ensures
            crate::config::client::opt_str_view(r) == self.token_view(),
    {
        match &self.jwt_token {
            Some(t) => Some(t.as_str()),
            None => None,
        }
    }

    fn plain_post(&self, path: &str) -> (r: ApiRequest)
        ensures
            r@ == (RequestView {
                method: HttpMethod::Post,
                url: self.auth_url@ + path@,
                headers: Seq::empty(),
            }),
    {
        let r = ApiRequest {
            method: HttpMethod::Post,
            url: joined(self.auth_url.as_str(), path),
            headers: Vec::new(),
        };
        assert(r@.headers =~= Seq::<(Seq<char>, Seq<char>)>::empty());
        r
    }

    /// The sign-up request, `POST {auth_url}/api/auth/sign-up/email`; its JSON
    /// body is a `SignUpRequest`.
    pub fn sign_up_request(&self) -> (r: ApiRequest)
        ensures
            r@ == (RequestView {
                method: HttpMethod::Post,
                url: self.auth_url@ + "/api/auth/sign-up/email"@,
                headers: Seq::empty(),
            }),
    {
        self.plain_post("/api/auth/sign-up/email")
    }

    /// The sign-in request, `POST {auth_url}/api/auth/sign-in/email`; its JSON
    /// body is a `SignInRequest`.
    pub fn sign_in_request(&self) -> (r: ApiRequest)
        ensures
            r@ == (RequestView {
                method: HttpMethod::Post,
                url: self.auth_url@ + "/api/auth/sign-in/email"@,
                headers: Seq::empty(),
            }),
    {
        self.plain_post("/api/auth/sign-in/email")
    }

    /// After a sign-up or sign-in the client holds the session token that came
    /// back.
    pub fn record_auth_response(&mut self, response: &AuthResponse)
        ensures
            final(self).token_view() == Some(response.session.token@),
            final(self).auth_url@ == old(self).auth_url@,
    {
        self.jwt_token = Some(response.session.token.clone());
    }

    fn bearer_request(&self, method: HttpMethod, path: &str, token: &str) -> (r: ApiRequest)
        ensures
            r@ == (RequestView {
                method,
                url: self.auth_url@ + path@,
                headers: seq![("Authorization"@, bearer(token@))],
            }),
    {
        let mut headers: Vec<HttpHeader> = Vec::new();
        headers.push(
            HttpHeader { name: String::from_str("Authorization"), value: joined("Bearer ", token) },
        );
        let r = ApiRequest { method, url: joined(self.auth_url.as_str(), path), headers };
        assert(r@.headers =~= seq![("Authorization"@, bearer(token@))]);
        r
    }

    /// The session request, `GET {auth_url}/api/auth/get-session` with the token
    /// as bearer; none without a token.
    pub fn session_request(&self) -> (r: Option<ApiRequest>)
        ensures
            match self.jwt_token {
                None => r is None,
                Some(t) => r matches Some(q) && q@ == (RequestView {
                    method: HttpMethod::Get,
                    url: self.auth_url@ + "/api/auth/get-session"@,
                    headers: seq![("Authorization"@, bearer(t@))],
                }),
            },
    {
        match &self.jwt_token {
            None => None,
            Some(t) => Some(self.bearer_request(HttpMethod::Get, "/api/auth/get-session", t.as_str())),
        }
    }

    /// Takes in a session answer: a session there refreshes the token; without
    /// one the token stays.
    pub fn record_session_response(&mut self, response: &SessionResponse)
        ensures
            final(self).token_view() == match response.session {
                Some(s) => Some(s.token@),
                None => old(self).token_view(),
            },
            final(self).auth_url@ == old(self).auth_url@,
    {
        if let Some(session) = &response.session {
            self.jwt_token = Some(session.token.clone());
        }
    }

    /// The sign-out request, `POST {auth_url}/api/auth/sign-out` with the token
    /// as bearer; none without a token.
    pub fn sign_out_request(&self) -> (r: Option<ApiRequest>)
        ensures
            match self.jwt_token {
                None => r is None,
                Some(t) => r matches Some(q) && q@ == (RequestView {
                    method: HttpMethod::Post,
                    url: self.auth_url@ + "/api/auth/sign-out"@,
                    headers: seq![("Authorization"@, bearer(t@))],
                }),
            },
    {
        match &self.jwt_token {
            None => None,
            Some(t) => Some(self.bearer_request(HttpMethod::Post, "/api/auth/sign-out", t.as_str())),
        }
    }

    /// After a sign-out the client holds no token.
    pub fn finish_sign_out(&mut self)
        ensures
            final(self).jwt_token is None,
            final(self).auth_url@ == old(self).auth_url@,
    {
        self.jwt_token = None;
    }
}

} // verus!
