use node_health::errors::UpstreamError;
use node_health::execution_node::decode_peer_count_response;
use node_health::execution_node::decode_syncing_response;
use node_health::execution_node::peer_count_request_body;
use node_health::execution_node::ping_request_body;
use node_health::execution_node::syncing_request_body;
use node_health::lighthouse::decode_peer_counts as decode_peer_counts_body;
use node_health::lighthouse::decode_syncing as decode_syncing_body;

#[test]
fn decode_peer_counts() {
    let json = r#"{
        "data": {
            "connected": "87",
            "connecting": "0",
            "disconnected": "719",
            "disconnecting": "0"
        }
    }"#;
    let health = decode_peer_counts_body(json).unwrap();
    assert_eq!(health.peer_count(), 87);
}

#[test]
fn decode_syncing() {
    let json = r#"{
        "data": {
            "el_offline": false,
            "head_slot": "5478944",
            "is_optimistic": false,
            "is_syncing": false,
            "sync_distance": "0"
        }
    }"#;
    let health = decode_syncing_body(json).unwrap();
    assert!(!health.is_syncing());
    assert!(!health.is_optimistic());
    assert!(!health.is_el_offline());
}

#[test]
fn decode_syncing_reads_distance() {
    let json = r#"{
        "data": {
            "el_offline": false,
            "head_slot": "5478944",
            "is_optimistic": false,
            "is_syncing": false,
            "sync_distance": "3"
        }
    }"#;
    let health = decode_syncing_body(json).unwrap();
    assert_eq!(health.sync_distance(), 3);
}

#[test]
fn decode_syncing_rejects_bad_distance() {
    let json = r#"{"data":{"el_offline":false,"is_optimistic":false,"is_syncing":false,"sync_distance":"soon"}}"#;
    assert_eq!(decode_syncing_body(json), Err(UpstreamError::Protocol));
}

#[test]
fn decode_syncing_rejects_missing_field() {
    let json = r#"{"data":{"el_offline":false,"is_optimistic":false,"sync_distance":"0"}}"#;
    assert_eq!(decode_syncing_body(json), Err(UpstreamError::Protocol));
}

#[test]
fn decode_peer_counts_rejects_numeric_field() {
    // The consensus client reports counts as strings; a bare number is a
    // protocol error.
    let json = r#"{"data":{"connected":87}}"#;
    assert_eq!(decode_peer_counts_body(json), Err(UpstreamError::Protocol));
}

#[test]
fn test_peer_count() {
    let body = r#"{"jsonrpc":"2.0","id":1,"result":"0x10"}"#;
    assert_eq!(decode_peer_count_response(body), Ok(16));
}

#[test]
fn test_syncing() {
    let body = r#"{"jsonrpc":"2.0","id":1,"result":false}"#;
    assert_eq!(decode_syncing_response(body), Ok(false));
}

#[test]
fn execution_decode_rejects_bad_bodies() {
    assert_eq!(
        decode_syncing_response("not json"),
        Err(UpstreamError::Protocol)
    );
    assert_eq!(
        decode_syncing_response(r#"{"jsonrpc":"2.0","id":1}"#),
        Err(UpstreamError::Protocol)
    );
    assert_eq!(
        decode_syncing_response(r#"{"jsonrpc":"2.0","id":1,"result":"false"}"#),
        Err(UpstreamError::Protocol)
    );
    assert_eq!(
        decode_peer_count_response(r#"{"jsonrpc":"2.0","id":1,"result":16}"#),
        Err(UpstreamError::Protocol)
    );
    assert_eq!(
        decode_peer_count_response(r#"{"jsonrpc":"2.0","id":1,"result":"0xzz"}"#),
        Err(UpstreamError::Protocol)
    );
}

#[test]
fn request_bodies_are_wellformed_json_rpc() {
    let syncing: serde_json::Value = serde_json::from_str(&syncing_request_body()).unwrap();
    assert_eq!(syncing["method"].as_str(), Some("eth_syncing"));
    let peers: serde_json::Value = serde_json::from_str(&peer_count_request_body()).unwrap();
    assert_eq!(peers["method"].as_str(), Some("net_peerCount"));
    let ping: serde_json::Value = serde_json::from_str(&ping_request_body()).unwrap();
    assert_eq!(ping["method"].as_str(), Some("net_version"));
    assert_eq!(ping["jsonrpc"].as_str(), Some("2.0"));
    assert_eq!(ping["id"].as_i64(), Some(1));
}
