//! The health check: whether Neon Auth and the Neon Data API answer.

use vstd::prelude::*;

use crate::config::Config;
use crate::text::joined;

verus! {

/// The health report: overall status and one status per service.
#[derive(Debug, Clone, PartialEq, Eq)]
pub struct HealthReport {
    pub status: String,
    pub auth: String,
    pub data_api: String,
}

/// Neon Auth counts as up when its JWKS endpoint answered with a 2xx status.
pub open spec fn auth_up(status: Option<u16>) -> bool {
    status matches Some(code) && 200 <= code < 300
}

/// The Data API counts as up when it answered with anything but a 5xx status.
pub open spec fn data_api_up(status: Option<u16>) -> bool {
    status matches Some(code) && !(500 <= code < 600)
}

/// The JWKS endpoint of Neon Auth, probed by the health check.
pub fn jwks_url(config: &Config) -> (r: String)
    ensures
        r@ == config.auth_url@ + "/.well-known/jwks.json"@,
{
    joined(config.auth_url.as_str(), "/.well-known/jwks.json")
}

fn check_text(up: bool) -> (r: String)
    ensures
        r@ == if up { "ok"@ } else { "unreachable"@ },
{
    if up {
        String::from_str("ok")
    } else {
        String::from_str("unreachable")
    }
}

/// The health report from the statuses of the two probes (`None` where a probe
/// got no answer): `ok` when both services are up, else `degraded`.
pub fn health_check(auth_status: Option<u16>, data_api_status: Option<u16>) -> (r: HealthReport)
    ensures
        r.status@ == if auth_up(auth_status) && data_api_up(data_api_status) {
            "ok"@
        } else {
            "degraded"@
        },
        r.auth@ == if auth_up(auth_status) { "ok"@ } else { "unreachable"@ },
        r.data_api@ == if data_api_up(data_api_status) { "ok"@ } else { "unreachable"@ },
        match auth_status {
            Some(code) => r.auth@ == (if 200 <= code < 300 { "ok"@ } else { "unreachable"@ }),
            None => r.auth@ == "unreachable"@,
        },
        match data_api_status {
            Some(code) => r.data_api@ == (if 500 <= code < 600 { "unreachable"@ } else { "ok"@ }),
            None => r.data_api@ == "unreachable"@,
        },
        r.status@ == (if r.auth@ == "ok"@ && r.data_api@ == "ok"@ { "ok"@ } else { "degraded"@ }),
{
    proof {
        reveal_strlit("ok");
        reveal_strlit("unreachable");
    }
    let auth_ok = match auth_status {
        Some(code) => 200 <= code && code < 300,
        None => false,
    };
    let data_api_ok = match data_api_status {
        Some(code) => !(500 <= code && code < 600),
        None => false,
    };
    let overall = auth_ok && data_api_ok;
    HealthReport {
        status: if overall { String::from_str("ok") } else { String::from_str("degraded") },
        auth: check_text(auth_ok),
        data_api: check_text(data_api_ok),
    }
}

/// Neon Auth counts as up exactly when its probe got a 2xx answer: any other
/// status, or no answer, reports it unreachable.
pub proof fn lemma_auth_up_exactly_on_success(code: u16)
    ensures
        auth_up(Some(code)) <==> 200 <= code < 300,
        !auth_up(None),
{
}

/// The Data API counts as down exactly on a server error (any 5xx) or when its
/// probe got no answer: every other status, 4xx included, reports it up.
pub proof fn lemma_data_api_down_exactly_on_server_error(code: u16)
    ensures
        data_api_up(Some(code)) <==> !(500 <= code < 600),
        !data_api_up(None),
{
}

} // verus!
