//! The data carried through one pipeline invocation: the inbound request,
//! the outbound request derived from it, and the responses on both legs.

use vstd::prelude::*;

verus! {

/// The stage at which one pipeline invocation failed. Every failure is
/// scoped to its own request and is answered with a synthetic response;
/// none unwinds past the pipeline boundary.
#[derive(Clone, Copy, PartialEq, Eq, Structural, Debug)]
pub enum PipelineError {
    /// The upstream target and the inbound path do not combine into a
    /// parsable URI.
    InvalidUri,
    /// Reading the caller's request body failed.
    ReadRequestBody,
    /// Assembling the outbound request failed (invalid header bytes, etc.).
    BuildRequest,
    /// Sending to or receiving from the upstream failed.
    ExecuteRequest,
    /// Draining the upstream's response body failed.
    ReadResponseBody,
}

/// The outcome of buffering the inbound body: either the whole body, or the
/// record that reading it failed (an event the transport reports; the
/// pipeline turns it into its synthetic response at the right precedence).
#[derive(Debug)]
pub enum BodyOutcome {
    Buffered(Vec<u8>),
    ReadFailed,
}

/// One decoded inbound request, fully buffered. Immutable once decoded;
/// owned by one pipeline invocation during translation.
#[derive(Debug)]
pub struct InboundRequest {
    pub method: String,
    pub path_and_query: String,
    pub headers: Vec<(String, String)>,
    pub body: BodyOutcome,
}

/// The outbound request derived from an inbound one: same method, headers
/// and body, with the authority substituted by the configured target.
#[derive(Debug)]
pub struct OutboundRequest {
    pub method: String,
    pub uri: String,
    pub headers: Vec<(String, String)>,
    pub body: Vec<u8>,
}

/// A fully buffered response from the upstream.
#[derive(Debug)]
pub struct UpstreamResponse {
    pub status: u16,
    pub headers: Vec<(String, String)>,
    pub body: Vec<u8>,
}

/// What became of the outbound request once it left the translation step:
/// either a fully read upstream response, or the stage that failed.
#[derive(Debug)]
pub enum UpstreamOutcome {
    Delivered(UpstreamResponse),
    BuildFailed,
    ExecuteFailed,
    ReadBodyFailed,
}

/// The one response returned to the original caller.
#[derive(Debug)]
pub struct ProxyResponse {
    pub status: u16,
    pub headers: Vec<(String, String)>,
    pub body: Vec<u8>,
}

/// The mathematical image of a header list: each name/value pair as a pair
/// of character sequences, order and duplicates kept.
pub open spec fn headers_view(hs: Seq<(String, String)>) -> Seq<(Seq<char>, Seq<char>)> {
    hs.map_values(|p: (String, String)| (p.0@, p.1@))
}

#[verifier::ext_equal]
pub struct InboundView {
    pub method: Seq<char>,
    pub path_and_query: Seq<char>,
    pub headers: Seq<(Seq<char>, Seq<char>)>,
    /// `None` when reading the body failed.
    pub body: Option<Seq<u8>>,
}

#[verifier::ext_equal]
pub struct OutboundView {
    pub method: Seq<char>,
    pub uri: Seq<char>,
    pub headers: Seq<(Seq<char>, Seq<char>)>,
    pub body: Seq<u8>,
}

#[verifier::ext_equal]
pub struct ResponseView {
    pub status: u16,
    pub headers: Seq<(Seq<char>, Seq<char>)>,
    pub body: Seq<u8>,
}

#[verifier::ext_equal]
pub enum OutcomeView {
    Delivered(ResponseView),
    BuildFailed,
    ExecuteFailed,
    ReadBodyFailed,
}

impl View for BodyOutcome {
    type V = Option<Seq<u8>>;

    open spec fn view(&self) -> Option<Seq<u8>> {
        match self {
            BodyOutcome::Buffered(b) => Some(b@),
            BodyOutcome::ReadFailed => None,
        }
    }
}

impl View for InboundRequest {
    type V = InboundView;

    open spec fn view(&self) -> InboundView {
        InboundView {
            method: self.method@,
            path_and_query: self.path_and_query@,
            headers: headers_view(self.headers@),
            body: self.body@,
        }
    }
}

impl View for OutboundRequest {
    type V = OutboundView;

    open spec fn view(&self) -> OutboundView {
        OutboundView {
            method: self.method@,
            uri: self.uri@,
            headers: headers_view(self.headers@),
            body: self.body@,
        }
    }
}

impl View for UpstreamResponse {
    type V = ResponseView;

    open spec fn view(&self) -> ResponseView {
        ResponseView { status: self.status, headers: headers_view(self.headers@), body: self.body@ }
    }
}

impl View for UpstreamOutcome {
    type V = OutcomeView;

    open spec fn view(&self) -> OutcomeView {
        match self {
            UpstreamOutcome::Delivered(u) => OutcomeView::Delivered(u@),
            UpstreamOutcome::BuildFailed => OutcomeView::BuildFailed,
            UpstreamOutcome::ExecuteFailed => OutcomeView::ExecuteFailed,
            UpstreamOutcome::ReadBodyFailed => OutcomeView::ReadBodyFailed,
        }
    }
}

impl View for ProxyResponse {
    type V = ResponseView;

    open spec fn view(&self) -> ResponseView {
        ResponseView { status: self.status, headers: headers_view(self.headers@), body: self.body@ }
    }
}

} // verus!
