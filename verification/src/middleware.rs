//! The middleware chain, as the observable effect it must have on every
//! completed request: cross-origin headers (when a policy is configured) are
//! attached to every response, success or error envelope alike, and the
//! logging layer records exactly one line pairing the request's method and
//! URI with the final status — after that status is final, so a handler
//! failure that fell back to the generic 500 is logged as 500.

use vstd::prelude::*;

use crate::response::MakeResponse;
use crate::response::Response;
use crate::response::internal_error_text;
use crate::response::is_envelope_status;
use crate::response::json_text;

verus! {

/// A cross-origin policy: the header values to attach to every response.
/// `permissive` grants everything; a caller may supply its own values.
pub struct CorsPolicy {
    pub allow_origin: String,
    pub allow_methods: String,
    pub allow_headers: String,
}

impl CorsPolicy {
    /// The permissive policy: every origin, method and header is allowed.
    pub fn permissive() -> (p: CorsPolicy)
        ensures
            p.allow_origin@ == "*"@,
            p.allow_methods@ == "*"@,
            p.allow_headers@ == "*"@,
    {
        CorsPolicy {
            allow_origin: String::from_str("*"),
            allow_methods: String::from_str("*"),
            allow_headers: String::from_str("*"),
        }
    }
}

/// The access-control headers that a configured policy stamps on a response:
/// exactly three, in a fixed order.
pub open spec fn carries_cors_headers(hs: Seq<(String, String)>, p: CorsPolicy) -> bool {
    &&& hs.len() == 3
    &&& hs[0].0@ == "access-control-allow-origin"@
    &&& hs[0].1@ == p.allow_origin@
    &&& hs[1].0@ == "access-control-allow-methods"@
    &&& hs[1].1@ == p.allow_methods@
    &&& hs[2].0@ == "access-control-allow-headers"@
    &&& hs[2].1@ == p.allow_headers@
}

/// Build the header list a policy attaches.
pub fn cors_headers(p: &CorsPolicy) -> (hs: Vec<(String, String)>)
    ensures
        carries_cors_headers(hs@, *p),
{
    let mut hs: Vec<(String, String)> = Vec::new();
    hs.push((String::from_str("access-control-allow-origin"), p.allow_origin.clone()));
    hs.push((String::from_str("access-control-allow-methods"), p.allow_methods.clone()));
    hs.push((String::from_str("access-control-allow-headers"), p.allow_headers.clone()));
    hs
}

/// One line of the request log: a tag pairing the method with the URI, and
/// the final status as the message.
pub struct LogLine {
    pub tag: String,
    pub message: String,
}

/// The tag a request is logged under: `<METHOD> <URI>`.
pub open spec fn request_tag(method: Seq<char>, uri: Seq<char>) -> Seq<char> {
    method + " "@ + uri
}

/// The textual form of each sanctioned status, as it appears in the log.
pub open spec fn status_message(status: u16) -> Seq<char>
    recommends
        is_envelope_status(status),
{
    if status == 200 {
        "200 OK"@
    } else if status == 400 {
        "400 Bad Request"@
    } else if status == 401 {
        "401 Unauthorized"@
    } else {
        "500 Internal Server Error"@
    }
}

/// Render a sanctioned status for the log.
pub fn status_line(status: u16) -> (line: String)
    requires
        is_envelope_status(status),
    ensures
        line@ == status_message(status),
{
    if status == 200 {
        String::from_str("200 OK")
    } else if status == 400 {
        String::from_str("400 Bad Request")
    } else if status == 401 {
        String::from_str("401 Unauthorized")
    } else {
        String::from_str("500 Internal Server Error")
    }
}

/// The single line the logging layer emits for a completed request.
pub fn log_line(method: &String, uri: &String, status: u16) -> (line: LogLine)
    requires
        is_envelope_status(status),
    ensures
        line.tag@ == request_tag(method@, uri@),
        line.message@ == status_message(status),
{
    let mut tag = method.clone();
    tag.append(" ");
    tag.append(uri.as_str());
    LogLine { tag, message: status_line(status) }
}

/// What a route handler reported for one request: a completed envelope
/// response, or an internal failure that must not leak any detail.
pub enum HandlerOutcome {
    Completed(Response),
    Failed,
}

/// A response as it leaves the process: the envelope plus the headers the
/// middleware attached.
pub struct WireResponse {
    pub status: u16,
    pub body: serde_json::Value,
    pub headers: Vec<(String, String)>,
}

/// Run one completed request through the middleware chain, innermost effect
/// first:
/// - a handler failure falls back to the generic internal-error envelope;
/// - a configured cross-origin policy stamps its headers on the response,
///   whether it is a success or an error envelope, and no headers appear
///   without one;
/// - when logging is configured, exactly one log line pairs the request's
///   method and URI with the final status — the logged status is the one
///   the wire response carries, also on the fallback path.
pub fn complete_request(
    method: &String,
    uri: &String,
    outcome: HandlerOutcome,
    cors: Option<&CorsPolicy>,
    logging: bool,
) -> (r: (WireResponse, Option<LogLine>))
    requires
        outcome matches HandlerOutcome::Completed(resp) ==> resp.well_formed(),
    ensures
        is_envelope_status(r.0.status),
        outcome matches HandlerOutcome::Completed(resp) ==> r.0.status == resp.status && r.0.body
            == resp.body,
        outcome is Failed ==> r.0.status == 500 && json_text(r.0.body) == internal_error_text(),
        match cors {
            Some(p) => carries_cors_headers(r.0.headers@, *p),
            None => r.0.headers@.len() == 0,
        },
        logging <==> r.1 is Some,
        r.1 matches Some(line) ==> line.tag@ == request_tag(method@, uri@) && line.message@
            == status_message(r.0.status),
{
    let response = match outcome {
        HandlerOutcome::Completed(resp) => resp,
        HandlerOutcome::Failed => MakeResponse::internal_server_error(),
    };
    let headers = match cors {
        Some(p) => cors_headers(p),
        None => Vec::new(),
    };
    let status = response.status;
    let wire = WireResponse { status, body: response.body, headers };
    let line = if logging {
        Some(log_line(method, uri, status))
    } else {
        None
    };
    (wire, line)
}

} // verus!
