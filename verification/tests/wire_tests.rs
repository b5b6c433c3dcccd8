use rpc_tui::rpc::JsonRpcRequest;
use rpc_tui::wire::request_body;

#[test]
fn request_body_has_the_exact_wire_form() {
    let req = JsonRpcRequest::new(
        "eth_getBalance".to_string(),
        vec!["0xABC".to_string(), "latest".to_string()],
        42,
    );
    assert_eq!(
        request_body(&req),
        "{\"jsonrpc\":\"2.0\",\"method\":\"eth_getBalance\",\"params\":[\"0xABC\",\"latest\"],\"id\":42}"
    );
}

#[test]
fn request_body_with_no_params_and_small_id() {
    let req = JsonRpcRequest::new("eth_blockNumber".to_string(), vec![], 0);
    assert_eq!(
        request_body(&req),
        "{\"jsonrpc\":\"2.0\",\"method\":\"eth_blockNumber\",\"params\":[],\"id\":0}"
    );
}

#[test]
fn request_body_escapes_special_characters() {
    let req = JsonRpcRequest::new(
        "m".to_string(),
        vec!["a\"b".to_string(), "c\\d".to_string(), "e\nf".to_string(), "\u{1}".to_string()],
        7,
    );
    assert_eq!(
        request_body(&req),
        "{\"jsonrpc\":\"2.0\",\"method\":\"m\",\"params\":[\"a\\\"b\",\"c\\\\d\",\"e\\nf\",\"\\u0001\"],\"id\":7}"
    );
}

#[test]
fn request_body_parses_back_to_the_same_request() {
    let req = JsonRpcRequest::new(
        "eth_getBalance".to_string(),
        vec!["0xABC".to_string(), "latest".to_string()],
        42,
    );
    let body = request_body(&req);
    let parsed: serde_json::Value = serde_json::from_str(&body).unwrap();
    assert_eq!(parsed["jsonrpc"].as_str(), Some("2.0"));
    assert_eq!(parsed["method"].as_str(), Some("eth_getBalance"));
    assert_eq!(parsed["id"].as_u64(), Some(42));
    let params = parsed["params"].as_array().unwrap();
    assert_eq!(params.len(), 2);
    assert_eq!(params[0].as_str(), Some("0xABC"));
    assert_eq!(params[1].as_str(), Some("latest"));
}

#[test]
fn request_body_renders_multi_digit_ids() {
    let req = JsonRpcRequest::new("m".to_string(), vec![], 120450);
    let body = request_body(&req);
    assert!(body.ends_with("\"id\":120450}"));
}
