//! What each endpoint of the service answers.
//!
//! Every handler's decision and body live here; the HTTP framework around the
//! library only routes requests to these functions and writes their
//! [`HttpReply`] out. The one outbound probe (the secrets-store health check)
//! is performed by that outer layer too: [`vault_reply`] classifies its
//! outcome, whatever it was.

use vstd::prelude::*;
use vstd::string::*;

use crate::json::json_quoted;
use crate::json::quote_json;

verus! {

/// The service-info document: five fixed fields.
pub struct ApiInfo {
    pub name: String,
    pub version: String,
    pub language: String,
    pub framework: String,
    pub description: String,
}

/// A liveness report: a status word and the instant it was produced.
pub struct HealthResponse {
    pub status: String,
    pub timestamp: String,
}

/// Everything a handler decides about its answer: the HTTP status code, the
/// content type, and the body.
pub struct HttpReply {
    pub status: u16,
    pub content_type: String,
    pub body: String,
}

/// The JSON object for an [`ApiInfo`], field by field.
pub open spec fn api_info_json(
    name: Seq<char>,
    version: Seq<char>,
    language: Seq<char>,
    framework: Seq<char>,
    description: Seq<char>,
) -> Seq<char> {
    "{\"name\":"@ + json_quoted(name) + ",\"version\":"@ + json_quoted(version) + ",\"language\":"@
        + json_quoted(language) + ",\"framework\":"@ + json_quoted(framework) + ",\"description\":"@
        + json_quoted(description) + "}"@
}

/// The JSON object for a [`HealthResponse`].
pub open spec fn health_json(status: Seq<char>, timestamp: Seq<char>) -> Seq<char> {
    "{\"status\":"@ + json_quoted(status) + ",\"timestamp\":"@ + json_quoted(timestamp) + "}"@
}

impl ApiInfo {
    /// The document as JSON text.
    pub fn to_json(&self) -> (r: String)
        ensures
            r@ == api_info_json(
                self.name@,
                self.version@,
                self.language@,
                self.framework@,
                self.description@,
            ),
    {
        let mut out = String::from_str("{\"name\":");
        out.append(quote_json(self.name.as_str()).as_str());
        out.append(",\"version\":");
        out.append(quote_json(self.version.as_str()).as_str());
        out.append(",\"language\":");
        out.append(quote_json(self.language.as_str()).as_str());
        out.append(",\"framework\":");
        out.append(quote_json(self.framework.as_str()).as_str());
        out.append(",\"description\":");
        out.append(quote_json(self.description.as_str()).as_str());
        out.append("}");
        proof {
            assert(out@ =~= api_info_json(
                self.name@,
                self.version@,
                self.language@,
                self.framework@,
                self.description@,
            ));
        }
        out
    }
}

impl HealthResponse {
    /// The report as JSON text.
    pub fn to_json(&self) -> (r: String)
        ensures
            r@ == health_json(self.status@, self.timestamp@),
    {
        let mut out = String::from_str("{\"status\":");
        out.append(quote_json(self.status.as_str()).as_str());
        out.append(",\"timestamp\":");
        out.append(quote_json(self.timestamp.as_str()).as_str());
        out.append("}");
        proof {
            assert(out@ =~= health_json(self.status@, self.timestamp@));
        }
        out
    }
}

/// The constant service-info document.
pub fn api_info() -> (r: ApiInfo)
    ensures
        r.name@ == "DevStack Core Rust Reference API"@,
        r.version@ == "1.0.0"@,
        r.language@ == "Rust"@,
        r.framework@ == "Actix-web"@,
        r.description@ == "Rust reference implementation for infrastructure integration"@,
{
    ApiInfo {
        name: String::from_str("DevStack Core Rust Reference API"),
        version: String::from_str("1.0.0"),
        language: String::from_str("Rust"),
        framework: String::from_str("Actix-web"),
        description: String::from_str("Rust reference implementation for infrastructure integration"),
    }
}

/// The answer to `GET /`: the constant document, as JSON, with HTTP 200.
pub fn reply_of_info(info: &ApiInfo) -> (r: HttpReply)
    ensures
        r.status == 200,
        r.content_type@ == "application/json"@,
        r.body@ == api_info_json(
            info.name@,
            info.version@,
            info.language@,
            info.framework@,
            info.description@,
        ),
{
    HttpReply {
        status: 200,
        content_type: String::from_str("application/json"),
        body: info.to_json(),
    }
}

/// A fresh liveness report: always `healthy`, stamped with the current
/// instant.
pub fn health_response() -> (r: HealthResponse)
    ensures
        r.status@ == "healthy"@,
        r.timestamp@.len() > 0,
{
    HealthResponse {
        status: String::from_str("healthy"),
        timestamp: crate::clock::now_rfc3339(),
    }
}

/// The answer to `GET /health/`: the given report, as JSON, with HTTP 200.
pub fn reply_of_health(report: &HealthResponse) -> (r: HttpReply)
    ensures
        r.status == 200,
        r.content_type@ == "application/json"@,
        r.body@ == health_json(report.status@, report.timestamp@),
{
    HttpReply {
        status: 200,
        content_type: String::from_str("application/json"),
        body: report.to_json(),
    }
}

/// Whether one probe of the secrets store counts as healthy: it answered at
/// all, with a success status code.
pub open spec fn probe_healthy(probe: Option<u16>) -> bool {
    match probe {
        Option::Some(code) => 200 <= code < 300,
        Option::None => false,
    }
}

/// The body reported when the secrets store is healthy.
pub open spec fn vault_healthy_json() -> Seq<char> {
    "{\"status\":\"healthy\"}"@
}

/// The body reported when the secrets store is not: the status and a fixed,
/// non-empty error message.
pub open spec fn vault_unhealthy_json() -> Seq<char> {
    "{\"status\":\"unhealthy\",\"error\":\"Vault unavailable\"}"@
}

/// The URL probed for the secrets store's own health: its base address — the
/// configured one, or `http://vault:8200` when none is configured — with the
/// store's health path appended.
pub fn vault_health_url(addr: Option<&str>) -> (r: String)
    ensures
        addr matches Some(a) ==> r@ == a@ + "/v1/sys/health"@,
        addr is None ==> r@ == "http://vault:8200"@ + "/v1/sys/health"@,
{
    let base = match addr {
        Some(a) => String::from_str(a),
        None => String::from_str("http://vault:8200"),
    };
    base.concat("/v1/sys/health")
}

/// The answer to `GET /health/vault`, for every outcome of the probe:
/// HTTP 200 and `healthy` exactly when the probe succeeded with a 2xx status;
/// HTTP 503, `unhealthy` and the error message on any failure — no answer
/// (connection refused, timeout) or a non-2xx status.
pub fn vault_reply(probe: Option<u16>) -> (r: HttpReply)
    ensures
        r.content_type@ == "application/json"@,
        probe_healthy(probe) ==> r.status == 200 && r.body@ == vault_healthy_json(),
        !probe_healthy(probe) ==> r.status == 503 && r.body@ == vault_unhealthy_json(),
{
    let healthy = match probe {
        Some(code) => 200 <= code && code < 300,
        None => false,
    };
    if healthy {
        HttpReply {
            status: 200,
            content_type: String::from_str("application/json"),
            body: String::from_str("{\"status\":\"healthy\"}"),
        }
    } else {
        HttpReply {
            status: 503,
            content_type: String::from_str("application/json"),
            body: String::from_str("{\"status\":\"unhealthy\",\"error\":\"Vault unavailable\"}"),
        }
    }
}

/// The answer to `GET /metrics`: a fixed plain-text placeholder, HTTP 200.
pub fn metrics_reply() -> (r: HttpReply)
    ensures
        r.status == 200,
        r.content_type@ == "text/plain"@,
        r.body@ == "# Rust API metrics placeholder\n"@,
{
    HttpReply {
        status: 200,
        content_type: String::from_str("text/plain"),
        body: String::from_str("# Rust API metrics placeholder\n"),
    }
}

} // verus!
