//! The forwarding pipeline: one inbound request in, exactly one response
//! out. Translation failures never unwind past this module; each becomes
//! the synthetic response of the stage that failed.

use vstd::prelude::*;
use vstd::string::StringExecFns;
use vstd::string::StrSliceExecFns;
use vstd::utf8::encode_utf8;
use crate::message::BodyOutcome;
use crate::message::InboundRequest;
use crate::message::InboundView;
use crate::message::OutboundRequest;
use crate::message::OutboundView;
use crate::message::OutcomeView;
use crate::message::PipelineError;
use crate::message::ProxyResponse;
use crate::message::ResponseView;
use crate::message::UpstreamOutcome;
use crate::message::headers_view;
use crate::uri::parse_uri;
use crate::uri::raw_uri;
use crate::uri::uri_parse;

verus! {

/// The port the proxy listens on.
pub const LISTEN_PORT: u16 = 8080;

/// The upstream used when none is configured.
pub open spec fn default_upstream() -> Seq<char> {
    "127.0.0.1:8000"@
}

/// The exact body text of the synthetic response for each failed stage.
pub open spec fn error_text(e: PipelineError) -> Seq<char> {
    match e {
        PipelineError::InvalidUri => "Invalid URI"@,
        PipelineError::ReadRequestBody => "Failed to read request body"@,
        PipelineError::BuildRequest => "Failed to build request"@,
        PipelineError::ExecuteRequest => "Failed to execute request"@,
        PipelineError::ReadResponseBody => "Failed to read response body"@,
    }
}

/// The status of the synthetic response: 400 for a malformed target,
/// 500 for every other failed stage.
pub open spec fn error_status(e: PipelineError) -> u16 {
    match e {
        PipelineError::InvalidUri => 400u16,
        _ => 500u16,
    }
}

/// The synthetic response for a failed stage: its status, no headers, and
/// the stage's text as the body.
pub open spec fn error_spec(e: PipelineError) -> ResponseView {
    ResponseView {
        status: error_status(e),
        headers: Seq::empty(),
        body: encode_utf8(error_text(e)),
    }
}

/// The translation step as a function: either the outbound request — same
/// method, headers and body, URI re-targeted at the configured upstream —
/// or the first stage that failed. A malformed target is reported before
/// a failed body read, as the stages run in that order.
pub open spec fn plan_spec(req: InboundView, target: Seq<char>) -> Result<
    OutboundView,
    PipelineError,
> {
    let parsed = uri_parse(raw_uri(target, req.path_and_query));
    if parsed is None {
        Err(PipelineError::InvalidUri)
    } else if req.body is None {
        Err(PipelineError::ReadRequestBody)
    } else {
        Ok(
            OutboundView {
                method: req.method,
                uri: parsed->Some_0,
                headers: req.headers,
                body: req.body->Some_0,
            },
        )
    }
}

/// The response the caller gets once the outbound request has left the
/// translation step: the upstream response relayed verbatim, or the
/// synthetic response of the stage that failed.
pub open spec fn finish_spec(o: OutcomeView) -> ResponseView {
    match o {
        OutcomeView::Delivered(u) => u,
        OutcomeView::BuildFailed => error_spec(PipelineError::BuildRequest),
        OutcomeView::ExecuteFailed => error_spec(PipelineError::ExecuteRequest),
        OutcomeView::ReadBodyFailed => error_spec(PipelineError::ReadResponseBody),
    }
}

/// One whole pipeline invocation as a function of the inbound request, the
/// configured target, and what the upstream leg did.
pub open spec fn pipeline_spec(
    req: InboundView,
    target: Seq<char>,
    upstream: OutcomeView,
) -> ResponseView {
    match plan_spec(req, target) {
        Ok(_) => finish_spec(upstream),
        Err(e) => error_spec(e),
    }
}

/// The one cross-origin header the decorator adds: allow any origin.
pub open spec fn cors_allow_origin() -> (Seq<char>, Seq<char>) {
    ("access-control-allow-origin"@, "*"@)
}

/// The decorated response: same status and body, with the permissive
/// cross-origin header appended after the existing headers.
pub open spec fn cors_spec(r: ResponseView) -> ResponseView {
    ResponseView { status: r.status, headers: r.headers.push(cors_allow_origin()), body: r.body }
}

/// The upstream target for a request: the configured value when one is
/// set, the default otherwise.
pub fn upstream_or_default(configured: Option<String>) -> (r: String)
    ensures
        match configured {
            Some(s) => r@ == s@,
            None => r@ == default_upstream(),
        },
{
    match configured {
        Some(s) => s,
        None => "127.0.0.1:8000".to_owned(),
    }
}

/// The synthetic response for a failed stage, exactly as `error_spec`
/// states it.
pub fn error_response(e: PipelineError) -> (r: ProxyResponse)
    ensures
        r@ == error_spec(e),
{
    let status: u16 = match e {
        PipelineError::InvalidUri => 400,
        _ => 500,
    };
    let text: &str = match e {
        PipelineError::InvalidUri => "Invalid URI",
        PipelineError::ReadRequestBody => "Failed to read request body",
        PipelineError::BuildRequest => "Failed to build request",
        PipelineError::ExecuteRequest => "Failed to execute request",
        PipelineError::ReadResponseBody => "Failed to read response body",
    };
    let body = text.as_bytes_vec();
    let r = ProxyResponse { status, headers: Vec::new(), body };
    proof {
        assert(text@ == error_text(e));
        assert(r@.headers =~= error_spec(e).headers);
        assert(r@ =~= error_spec(e));
    }
    r
}

/// Translate one inbound request: resolve the target into an outbound URI
/// and carry method, headers and body over verbatim, or report the first
/// stage that failed, exactly as `plan_spec` states it.
pub fn plan_request(req: InboundRequest, target: &String) -> (r: Result<
    OutboundRequest,
    PipelineError,
>)
    ensures
        match r {
            Ok(out) => plan_spec(req@, target@) == Ok::<OutboundView, PipelineError>(out@),
            Err(e) => plan_spec(req@, target@) == Err::<OutboundView, PipelineError>(e),
        },
{
    let mut uri_string = "http://".to_owned();
    uri_string.append(target.as_str());
    uri_string.append(req.path_and_query.as_str());
    proof {
        assert(uri_string@ =~= raw_uri(target@, req.path_and_query@));
    }
    match parse_uri(&uri_string) {
        None => Err(PipelineError::InvalidUri),
        Some(parsed) => match req.body {
            BodyOutcome::ReadFailed => Err(PipelineError::ReadRequestBody),
            BodyOutcome::Buffered(bytes) => {
                let out = OutboundRequest {
                    method: req.method,
                    uri: parsed,
                    headers: req.headers,
                    body: bytes,
                };
                proof {
                    assert(plan_spec(req@, target@) matches Ok(v) && v =~= out@);
                }
                Ok(out)
            },
        },
    }
}

/// Assemble the response the caller gets after the upstream leg: relay a
/// delivered upstream response verbatim — status, headers and body — or
/// answer with the synthetic response of the stage that failed, exactly
/// as `finish_spec` states it.
pub fn finish_request(outcome: UpstreamOutcome) -> (r: ProxyResponse)
    ensures
        r@ == finish_spec(outcome@),
{
    match outcome {
        UpstreamOutcome::Delivered(u) => ProxyResponse {
            status: u.status,
            headers: u.headers,
            body: u.body,
        },
        UpstreamOutcome::BuildFailed => error_response(PipelineError::BuildRequest),
        UpstreamOutcome::ExecuteFailed => error_response(PipelineError::ExecuteRequest),
        UpstreamOutcome::ReadBodyFailed => error_response(PipelineError::ReadResponseBody),
    }
}

/// Decorate a response with the permissive cross-origin header. Status,
/// body and the existing headers are untouched; the one header is
/// appended, exactly as `cors_spec` states it.
pub fn apply_cors(resp: ProxyResponse) -> (r: ProxyResponse)
    ensures
        r@ == cors_spec(resp@),
{
    let mut headers = resp.headers;
    headers.push(("access-control-allow-origin".to_owned(), "*".to_owned()));
    let r = ProxyResponse { status: resp.status, headers, body: resp.body };
    proof {
        assert(headers_view(r.headers@) =~= cors_spec(resp@).headers);
        assert(r@ =~= cors_spec(resp@));
    }
    r
}

} // verus!
