use axum::http::{HeaderMap, HeaderValue};
use lmstudio_proxy::headers::{
    forward_request_header, is_event_stream, is_json_request, is_json_response,
    sanitize_response_headers,
};
use lmstudio_proxy::patch::{
    fix_request_body, fix_response_body, patch_event, patch_request, patch_response, FixError,
};
use lmstudio_proxy::proxy::{
    request_body_to_forward, response_body_to_send, upstream_url, ProxyError,
};
use lmstudio_proxy::sse::{filter_chunk, fix_streaming_chunk};
use serde_json::Value;

fn doc(text: &str) -> Value {
    serde_json::from_str(text).unwrap()
}

fn json_headers(content_type: &'static str) -> HeaderMap {
    let mut headers = HeaderMap::new();
    headers.insert("content-type", HeaderValue::from_static(content_type));
    headers
}

#[test]
fn fixes_missing_tool_parameter_schema() {
    let input = doc(
        r#"{"tools": [
            {"function": {"parameters": {}}},
            {"parameters": {}},
            {"function": {"parameters": {"type": "object", "properties": {"foo": {"type": "string"}}}}}
        ]}"#,
    );

    let bytes = serde_json::to_vec(&input).unwrap();
    let fixed = fix_request_body(&bytes).expect("request body fix should succeed");
    let fixed_json: Value = serde_json::from_slice(&fixed).unwrap();
    let tools = fixed_json["tools"]
        .as_array()
        .expect("tools should remain an array");

    let first_params = tools[0]["function"]["parameters"].as_object().unwrap();
    assert_eq!(first_params["type"], "object");
    assert!(first_params["properties"].as_object().unwrap().is_empty());

    let second_params = tools[1]["parameters"].as_object().unwrap();
    assert_eq!(second_params["type"], "object");
    assert!(second_params["properties"].as_object().unwrap().is_empty());

    let third_params = tools[2]["function"]["parameters"].as_object().unwrap();
    assert_eq!(third_params["type"], "object");
    assert_eq!(
        third_params["properties"].as_object().unwrap()["foo"],
        doc(r#"{"type": "string"}"#)
    );
}

#[test]
fn adds_missing_usage_details() {
    let input = doc(r#"{"usage": {}}"#);

    let bytes = serde_json::to_vec(&input).unwrap();
    let fixed = fix_response_body(&bytes).expect("response body fix should succeed");
    let fixed_json: Value = serde_json::from_slice(&fixed).unwrap();
    let usage = fixed_json["usage"].as_object().unwrap();

    assert_eq!(usage["input_tokens_details"], doc(r#"{"cached_tokens": 0}"#));
    assert_eq!(
        usage["output_tokens_details"],
        doc(r#"{"reasoning_tokens": 0}"#)
    );
}

#[test]
fn fixes_streaming_usage_chunks() {
    let chunk = b"data: {\"response\":{\"usage\":{}}}\n\n".to_vec();
    let fixed = fix_streaming_chunk(&chunk).expect("stream chunk fix should succeed");
    assert_ne!(fixed, chunk);

    let fixed_str = std::str::from_utf8(&fixed).unwrap();
    assert!(fixed_str.contains("input_tokens_details"));
    assert!(fixed_str.contains("output_tokens_details"));
}

#[test]
fn leaves_done_streaming_marker_untouched() {
    let chunk = b"data: [DONE]\n\n".to_vec();
    let fixed = fix_streaming_chunk(&chunk).expect("[DONE] chunk fix should succeed");
    assert_eq!(fixed, chunk);
}

#[test]
fn sanitizes_decompressed_headers() {
    let mut headers = HeaderMap::new();
    headers.insert("content-encoding", HeaderValue::from_static("gzip"));
    headers.insert("transfer-encoding", HeaderValue::from_static("chunked"));
    headers.insert("content-length", HeaderValue::from_static("42"));
    headers.insert("content-type", HeaderValue::from_static("application/json"));

    sanitize_response_headers(&mut headers);

    assert!(headers.get("content-encoding").is_none());
    assert!(headers.get("transfer-encoding").is_none());
    assert!(headers.get("content-length").is_none());
    assert_eq!(headers.get("content-type").unwrap(), "application/json");
}

#[test]
fn patch_request_counts_completed_schemas() {
    let input = doc(
        r#"{"tools": [
            {"function": {"parameters": {"properties": {"a": {"type": "number"}}}}},
            {"parameters": {"type": "object"}},
            {"parameters": []},
            {"function": {}},
            "plain"
        ], "model": "m"}"#,
    );
    let (out, count) = patch_request(input);
    assert_eq!(count, 1);
    let expected = doc(
        r#"{"tools": [
            {"function": {"parameters": {"type": "object", "properties": {"a": {"type": "number"}}}}},
            {"parameters": {"type": "object"}},
            {"parameters": []},
            {"function": {}},
            "plain"
        ], "model": "m"}"#,
    );
    assert_eq!(out, expected);
}

#[test]
fn patch_request_prefers_nested_function_parameters() {
    let input = doc(r#"{"tools": [{"function": {"name": "f"}, "parameters": {}}]}"#);
    let (out, count) = patch_request(input.clone());
    assert_eq!(count, 0);
    assert_eq!(out, input);
}

#[test]
fn patch_request_without_tools_array_is_identity() {
    for text in [r#"{"tools": {}}"#, r#"{"messages": []}"#, "[1, 2]", "null"] {
        let input = doc(text);
        let (out, count) = patch_request(input.clone());
        assert_eq!(count, 0);
        assert_eq!(out, input);
    }
}

#[test]
fn patch_request_is_idempotent_on_example() {
    let input = doc(r#"{"tools": [{"parameters": {}}, {"function": {"parameters": {"required": []}}}]}"#);
    let (once, first) = patch_request(input);
    assert_eq!(first, 2);
    let (twice, second) = patch_request(once.clone());
    assert_eq!(second, 0);
    assert_eq!(twice, once);
}

#[test]
fn patch_response_keeps_present_details() {
    let input = doc(r#"{"usage": {"input_tokens_details": {"cached_tokens": 7}, "total_tokens": 3}}"#);
    let (out, fixed) = patch_response(input);
    assert!(fixed);
    let expected = doc(
        r#"{"usage": {"input_tokens_details": {"cached_tokens": 7}, "total_tokens": 3,
            "output_tokens_details": {"reasoning_tokens": 0}}}"#,
    );
    assert_eq!(out, expected);
    let (again, fixed_again) = patch_response(out.clone());
    assert!(!fixed_again);
    assert_eq!(again, out);
}

#[test]
fn patch_response_ignores_non_object_usage() {
    let input = doc(r#"{"usage": 5}"#);
    let (out, fixed) = patch_response(input.clone());
    assert!(!fixed);
    assert_eq!(out, input);
}

#[test]
fn patch_event_uses_nested_usage_only() {
    let flat = doc(r#"{"usage": {}}"#);
    let (out, fixed) = patch_event(flat.clone());
    assert!(!fixed);
    assert_eq!(out, flat);

    let nested = doc(r#"{"type": "done", "response": {"usage": {"output_tokens_details": {"reasoning_tokens": 2}}}}"#);
    let (out, fixed) = patch_event(nested);
    assert!(fixed);
    let expected = doc(
        r#"{"type": "done", "response": {"usage": {"output_tokens_details": {"reasoning_tokens": 2},
            "input_tokens_details": {"cached_tokens": 0}}}}"#,
    );
    assert_eq!(out, expected);
}

#[test]
fn fix_bodies_report_parse_errors() {
    assert_eq!(fix_request_body(b"{not json"), Err(FixError::Parse));
    assert_eq!(fix_response_body(b""), Err(FixError::Parse));
}

#[test]
fn fix_response_body_writes_compact_json() {
    let fixed = fix_response_body(br#"{ "usage" : { } }"#).unwrap();
    assert_eq!(
        fixed,
        br#"{"usage":{"input_tokens_details":{"cached_tokens":0},"output_tokens_details":{"reasoning_tokens":0}}}"#.to_vec()
    );
}

#[test]
fn streaming_frame_is_rewritten_exactly() {
    let chunk = b"data: {\"response\":{\"usage\":{}}}\n\n".to_vec();
    let fixed = filter_chunk(&chunk);
    assert_eq!(
        fixed,
        b"data: {\"response\":{\"usage\":{\"input_tokens_details\":{\"cached_tokens\":0},\"output_tokens_details\":{\"reasoning_tokens\":0}}}}\n\n".to_vec()
    );
    assert!(fixed.starts_with(b"data: "));
    assert!(fixed.ends_with(b"\n\n"));
}

#[test]
fn streaming_chunks_pass_through() {
    let cases: Vec<Vec<u8>> = vec![
        b"data: [DONE]\n\n".to_vec(),
        b"data:   [DONE]  \n\n".to_vec(),
        b": keep-alive\n\n".to_vec(),
        b"event: ping\n\n".to_vec(),
        b"data: {broken\n\n".to_vec(),
        b"data: {\"response\":{\"usage\":{\"input_tokens_details\":1,\"output_tokens_details\":2}}}\n\n".to_vec(),
        b"data: {\"usage\":{}}\n\n".to_vec(),
        b"".to_vec(),
    ];
    for chunk in cases {
        assert_eq!(filter_chunk(&chunk), chunk);
        assert_eq!(fix_streaming_chunk(&chunk), Ok(chunk.clone()));
    }
}

#[test]
fn undecodable_chunk_passes_through() {
    let chunk = vec![b'd', b'a', b't', b'a', b':', b' ', 0xff, 0xfe, b'\n', b'\n'];
    assert_eq!(fix_streaming_chunk(&chunk), Err(FixError::Decode));
    assert_eq!(filter_chunk(&chunk), chunk);
}

#[test]
fn content_type_checks() {
    assert!(is_json_request(&json_headers("application/json; charset=utf-8")));
    assert!(is_json_response(&json_headers("application/json")));
    assert!(!is_json_request(&json_headers("text/plain")));
    assert!(!is_json_request(&HeaderMap::new()));
    assert!(is_event_stream(&json_headers("text/event-stream")));
    assert!(!is_event_stream(&json_headers("application/json")));
}

#[test]
fn sanitize_keeps_other_headers_and_values() {
    let mut headers = HeaderMap::new();
    headers.insert("content-length", HeaderValue::from_static("10"));
    headers.append("set-cookie", HeaderValue::from_static("a=1"));
    headers.append("set-cookie", HeaderValue::from_static("b=2"));
    headers.insert("x-request-id", HeaderValue::from_static("abc"));
    sanitize_response_headers(&mut headers);
    assert_eq!(headers.len(), 3);
    let cookies: Vec<&HeaderValue> = headers.get_all("set-cookie").iter().collect();
    assert_eq!(cookies, vec!["a=1", "b=2"]);
    assert_eq!(headers.get("x-request-id").unwrap(), "abc");
}

#[test]
fn request_headers_to_forward() {
    for name in ["host", "connection", "accept-encoding", "content-length"] {
        assert!(!forward_request_header(name));
    }
    for name in ["content-type", "authorization", "accept", "sec-fetch-mode", "x-sec"] {
        assert!(forward_request_header(name));
    }
}

#[test]
fn invalid_json_request_is_forwarded_unchanged() {
    let body = b"{\"tools\": [".to_vec();
    let (out, failed) = request_body_to_forward(&json_headers("application/json"), body.clone());
    assert_eq!(out, body);
    assert!(failed);
}

#[test]
fn request_body_rewritten_only_for_json() {
    let body = br#"{"tools":[{"parameters":{}}]}"#.to_vec();
    let (out, failed) = request_body_to_forward(&json_headers("application/json"), body.clone());
    assert!(!failed);
    assert_eq!(out, br#"{"tools":[{"parameters":{"properties":{},"type":"object"}}]}"#.to_vec());

    let (plain, failed) = request_body_to_forward(&json_headers("text/plain"), body.clone());
    assert!(!failed);
    assert_eq!(plain, body);

    let (empty, failed) = request_body_to_forward(&json_headers("application/json"), Vec::new());
    assert!(!failed);
    assert!(empty.is_empty());
}

#[test]
fn response_body_rewritten_only_for_json() {
    let body = br#"{"usage":{}}"#.to_vec();
    let out = response_body_to_send(&json_headers("text/html"), body.clone());
    assert_eq!(out, body);
    let out = response_body_to_send(&json_headers("application/json"), b"oops".to_vec());
    assert_eq!(out, b"oops".to_vec());
    let out = response_body_to_send(&json_headers("application/json"), body);
    assert_ne!(out, br#"{"usage":{}}"#.to_vec());
}

#[test]
fn builds_upstream_urls() {
    assert_eq!(
        upstream_url("http://localhost:1234/", "/v1/models", ""),
        "http://localhost:1234/v1/models"
    );
    assert_eq!(
        upstream_url("http://host//", "/v1/chat", "a=1&b=2"),
        "http://host/v1/chat?a=1&b=2"
    );
}

#[test]
fn transport_failures_map_to_statuses() {
    assert_eq!(ProxyError::ClientBodyRead.status_code(), 400);
    assert_eq!(ProxyError::UpstreamSend.status_code(), 502);
    assert_eq!(ProxyError::UpstreamBodyRead.status_code(), 502);
}
