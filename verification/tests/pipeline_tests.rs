use reverse_proxy::message::BodyOutcome;
use reverse_proxy::message::InboundRequest;
use reverse_proxy::message::PipelineError;
use reverse_proxy::message::UpstreamOutcome;
use reverse_proxy::message::UpstreamResponse;
use reverse_proxy::pipeline::apply_cors;
use reverse_proxy::pipeline::error_response;
use reverse_proxy::pipeline::finish_request;
use reverse_proxy::pipeline::plan_request;
use reverse_proxy::pipeline::upstream_or_default;

fn get_request(path: &str, headers: Vec<(String, String)>, body: &[u8]) -> InboundRequest {
    InboundRequest {
        method: "GET".to_string(),
        path_and_query: path.to_string(),
        headers,
        body: BodyOutcome::Buffered(body.to_vec()),
    }
}

#[test]
fn scenario_relay_with_cors() {
    let target = "127.0.0.1:9001".to_string();
    let req = get_request("/status?x=1", Vec::new(), b"");
    let out = plan_request(req, &target).expect("valid path must translate");
    assert_eq!(out.method, "GET");
    assert_eq!(out.uri, "http://127.0.0.1:9001/status?x=1");

    let upstream = UpstreamResponse { status: 200, headers: Vec::new(), body: b"ok".to_vec() };
    let resp = apply_cors(finish_request(UpstreamOutcome::Delivered(upstream)));
    assert_eq!(resp.status, 200);
    assert_eq!(resp.body, b"ok".to_vec());
    assert!(resp
        .headers
        .iter()
        .any(|(k, v)| k == "access-control-allow-origin" && v == "*"));
}

#[test]
fn scenario_upstream_unreachable() {
    let resp = finish_request(UpstreamOutcome::ExecuteFailed);
    assert_eq!(resp.status, 500);
    assert_eq!(resp.body, b"Failed to execute request".to_vec());
}

#[test]
fn scenario_concurrent_tokens_independent() {
    let target = "127.0.0.1:9001".to_string();
    let req_a = get_request("/echo?token=a", Vec::new(), b"token-a");
    let req_b = get_request("/echo?token=b", Vec::new(), b"token-b");
    let out_a = plan_request(req_a, &target).unwrap();
    let out_b = plan_request(req_b, &target).unwrap();
    assert_eq!(out_a.body, b"token-a".to_vec());
    assert_eq!(out_b.body, b"token-b".to_vec());

    let up_a = UpstreamResponse { status: 200, headers: Vec::new(), body: b"token-a".to_vec() };
    let up_b = UpstreamResponse { status: 200, headers: Vec::new(), body: b"token-b".to_vec() };
    let resp_a = finish_request(UpstreamOutcome::Delivered(up_a));
    let resp_b = finish_request(UpstreamOutcome::Delivered(up_b));
    assert_eq!(resp_a.body, b"token-a".to_vec());
    assert_eq!(resp_b.body, b"token-b".to_vec());
}

#[test]
fn scenario_invalid_uri_path() {
    let target = "127.0.0.1:8000".to_string();
    let req = get_request("/sta tus", Vec::new(), b"");
    let err = plan_request(req, &target).expect_err("a space cannot stand in a URI");
    assert_eq!(err, PipelineError::InvalidUri);
    let resp = error_response(err);
    assert_eq!(resp.status, 400);
    assert_eq!(resp.body, b"Invalid URI".to_vec());
    assert!(resp.headers.is_empty());
}

#[test]
fn one_response_for_every_outcome() {
    let statuses = [
        finish_request(UpstreamOutcome::Delivered(UpstreamResponse {
            status: 204,
            headers: Vec::new(),
            body: Vec::new(),
        }))
        .status,
        finish_request(UpstreamOutcome::BuildFailed).status,
        finish_request(UpstreamOutcome::ExecuteFailed).status,
        finish_request(UpstreamOutcome::ReadBodyFailed).status,
    ];
    assert_eq!(statuses, [204, 500, 500, 500]);
}

#[test]
fn forwarding_twice_yields_same_translation() {
    let target = "10.0.0.1:80".to_string();
    let headers = vec![("x-token".to_string(), "t".to_string())];
    let req1 = get_request("/a?b=c", headers.clone(), b"payload");
    let req2 = get_request("/a?b=c", headers, b"payload");
    let out1 = plan_request(req1, &target).unwrap();
    let out2 = plan_request(req2, &target).unwrap();
    assert_eq!(out1.method, out2.method);
    assert_eq!(out1.uri, out2.uri);
    assert_eq!(out1.headers, out2.headers);
    assert_eq!(out1.body, out2.body);
}

#[test]
fn header_fidelity_order_and_duplicates() {
    let target = "127.0.0.1:8000".to_string();
    let headers = vec![
        ("x-a".to_string(), "1".to_string()),
        ("x-b".to_string(), "2".to_string()),
        ("x-a".to_string(), "3".to_string()),
        ("host".to_string(), "caller.example".to_string()),
    ];
    let req = get_request("/", headers.clone(), b"");
    let out = plan_request(req, &target).unwrap();
    assert_eq!(out.headers, headers);
}

#[test]
fn authority_substituted_regardless_of_inbound_host() {
    let target = "upstream.example:7000".to_string();
    let headers = vec![("host".to_string(), "original.example:1234".to_string())];
    let req = get_request("/x", headers, b"");
    let out = plan_request(req, &target).unwrap();
    assert_eq!(out.uri, "http://upstream.example:7000/x");
}

#[test]
fn error_response_exact_bodies() {
    let cases = [
        (PipelineError::InvalidUri, 400, &b"Invalid URI"[..]),
        (PipelineError::ReadRequestBody, 500, &b"Failed to read request body"[..]),
        (PipelineError::BuildRequest, 500, &b"Failed to build request"[..]),
        (PipelineError::ExecuteRequest, 500, &b"Failed to execute request"[..]),
        (PipelineError::ReadResponseBody, 500, &b"Failed to read response body"[..]),
    ];
    for (err, status, body) in cases {
        let resp = error_response(err);
        assert_eq!(resp.status, status);
        assert_eq!(resp.body, body.to_vec());
        assert!(resp.headers.is_empty());
    }
}

#[test]
fn empty_path_gets_canonical_slash() {
    let target = "127.0.0.1:8000".to_string();
    let req = get_request("", Vec::new(), b"");
    let out = plan_request(req, &target).unwrap();
    assert_eq!(out.uri, "http://127.0.0.1:8000/");
}

#[test]
fn upstream_default_when_unset() {
    assert_eq!(upstream_or_default(None), "127.0.0.1:8000");
    assert_eq!(upstream_or_default(Some("10.1.2.3:9999".to_string())), "10.1.2.3:9999");
}

#[test]
fn cors_appends_one_header_and_changes_nothing_else() {
    let upstream = UpstreamResponse {
        status: 201,
        headers: vec![("content-type".to_string(), "text/plain".to_string())],
        body: b"created".to_vec(),
    };
    let resp = apply_cors(finish_request(UpstreamOutcome::Delivered(upstream)));
    assert_eq!(resp.status, 201);
    assert_eq!(resp.body, b"created".to_vec());
    assert_eq!(
        resp.headers,
        vec![
            ("content-type".to_string(), "text/plain".to_string()),
            ("access-control-allow-origin".to_string(), "*".to_string()),
        ]
    );
}

#[test]
fn unreadable_body_reports_read_request_body() {
    let target = "127.0.0.1:8000".to_string();
    let req = InboundRequest {
        method: "POST".to_string(),
        path_and_query: "/upload".to_string(),
        headers: Vec::new(),
        body: BodyOutcome::ReadFailed,
    };
    let err = plan_request(req, &target).expect_err("an unreadable body must be reported");
    assert_eq!(err, PipelineError::ReadRequestBody);
    let resp = error_response(err);
    assert_eq!(resp.status, 500);
    assert_eq!(resp.body, b"Failed to read request body".to_vec());
}

#[test]
fn invalid_uri_takes_precedence_over_unreadable_body() {
    let target = "127.0.0.1:8000".to_string();
    let req = InboundRequest {
        method: "POST".to_string(),
        path_and_query: "/bad path".to_string(),
        headers: Vec::new(),
        body: BodyOutcome::ReadFailed,
    };
    let err = plan_request(req, &target).expect_err("the path cannot parse");
    assert_eq!(err, PipelineError::InvalidUri);
}

#[test]
fn relay_keeps_upstream_status_headers_body() {
    let upstream = UpstreamResponse {
        status: 418,
        headers: vec![
            ("x-one".to_string(), "1".to_string()),
            ("x-two".to_string(), "2".to_string()),
        ],
        body: b"short and stout".to_vec(),
    };
    let resp = finish_request(UpstreamOutcome::Delivered(upstream));
    assert_eq!(resp.status, 418);
    assert_eq!(
        resp.headers,
        vec![("x-one".to_string(), "1".to_string()), ("x-two".to_string(), "2".to_string())]
    );
    assert_eq!(resp.body, b"short and stout".to_vec());
}

#[test]
fn build_and_response_read_failures_get_their_own_bodies() {
    let build = finish_request(UpstreamOutcome::BuildFailed);
    assert_eq!(build.status, 500);
    assert_eq!(build.body, b"Failed to build request".to_vec());
    let read = finish_request(UpstreamOutcome::ReadBodyFailed);
    assert_eq!(read.status, 500);
    assert_eq!(read.body, b"Failed to read response body".to_vec());
}
