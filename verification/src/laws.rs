//! What holds of every pipeline invocation, stated and proved over the
//! same spec functions the executable contracts use.

use vstd::prelude::*;
use crate::message::InboundView;
use crate::message::OutcomeView;
use crate::message::PipelineError;
use crate::message::ResponseView;
use crate::pipeline::error_spec;
use crate::pipeline::pipeline_spec;
use crate::pipeline::plan_spec;
use crate::uri::raw_uri;

verus! {

/// A response is one of the five synthetic error responses.
pub open spec fn is_synthetic_error(r: ResponseView) -> bool {
    exists|e: PipelineError| r == error_spec(e)
}

/// Every pipeline invocation yields exactly one response: when translation
/// succeeded and the upstream delivered, it is that upstream response
/// relayed verbatim; in every other case it is one of the five synthetic
/// error responses. No invocation yields nothing, and none yields more
/// than one response, since the pipeline is a function.
pub proof fn lemma_exactly_one_response(req: InboundView, target: Seq<char>, upstream: OutcomeView)
    ensures
        plan_spec(req, target) is Ok && upstream is Delivered ==> pipeline_spec(
            req,
            target,
            upstream,
        ) == upstream->Delivered_0,
        !(plan_spec(req, target) is Ok && upstream is Delivered) ==> is_synthetic_error(
            pipeline_spec(req, target, upstream),
        ),
{
    let r = pipeline_spec(req, target, upstream);
    match plan_spec(req, target) {
        Ok(_) => {
            match upstream {
                OutcomeView::Delivered(_) => {},
                OutcomeView::BuildFailed => {
                    assert(r == error_spec(PipelineError::BuildRequest));
                },
                OutcomeView::ExecuteFailed => {
                    assert(r == error_spec(PipelineError::ExecuteRequest));
                },
                OutcomeView::ReadBodyFailed => {
                    assert(r == error_spec(PipelineError::ReadResponseBody));
                },
            }
        },
        Err(e) => {
            assert(r == error_spec(e));
        },
    }
}

/// The pipeline retains no state between invocations: the whole translation
/// is a function of the inbound request and the configured target alone,
/// so forwarding the same request twice yields the same translation both
/// times, and nothing of one request can leak into another.
pub proof fn lemma_translation_stateless(
    req1: InboundView,
    req2: InboundView,
    target1: Seq<char>,
    target2: Seq<char>,
    upstream1: OutcomeView,
    upstream2: OutcomeView,
)
    requires
        req1 == req2,
        target1 == target2,
        upstream1 == upstream2,
    ensures
        plan_spec(req1, target1) == plan_spec(req2, target2),
        pipeline_spec(req1, target1, upstream1) == pipeline_spec(req2, target2, upstream2),
{
}

/// Header fidelity: when translation succeeds, every header pair of the
/// inbound request stands on the outbound request at the same position —
/// order preserved, duplicates preserved, nothing filtered.
pub proof fn lemma_header_fidelity(req: InboundView, target: Seq<char>)
    requires
        plan_spec(req, target) is Ok,
    ensures
        plan_spec(req, target)->Ok_0.headers == req.headers,
        plan_spec(req, target)->Ok_0.headers.len() == req.headers.len(),
        forall|i: int|
            0 <= i < req.headers.len() ==> plan_spec(req, target)->Ok_0.headers[i]
                == req.headers[i],
{
}

/// Authority substitution: the URI resolved for the outbound request is
/// built from the configured target alone — its scheme is the fixed
/// `http://`, the characters that follow are exactly the target, and the
/// rest is the inbound path and query unchanged. Nothing of the inbound
/// request other than its path and query reaches the outbound URI.
pub proof fn lemma_authority_substitution(target: Seq<char>, path_and_query: Seq<char>)
    ensures
        raw_uri(target, path_and_query).len() == 7 + target.len() + path_and_query.len(),
        raw_uri(target, path_and_query).subrange(0, 7) == "http://"@,
        raw_uri(target, path_and_query).subrange(7, 7 + target.len() as int) == target,
        raw_uri(target, path_and_query).subrange(
            7 + target.len() as int,
            raw_uri(target, path_and_query).len() as int,
        ) == path_and_query,
{
    reveal_strlit("http://");
    let raw = raw_uri(target, path_and_query);
    assert(raw.subrange(0, 7) =~= "http://"@);
    assert(raw.subrange(7, 7 + target.len() as int) =~= target);
    assert(raw.subrange(7 + target.len() as int, raw.len() as int) =~= path_and_query);
}

} // verus!
