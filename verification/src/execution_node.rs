//! The execution client's JSON-RPC exchange.
//!
//! The execution client speaks JSON-RPC over HTTP POST: `eth_syncing`
//! answers with a boolean result, `net_peerCount` with a hex string such
//! as `"0x1a"`, and `net_version` serves as the liveness probe. The
//! request bodies and the decoding of the response bodies live here; the
//! HTTP transport lives in the binary.

use vstd::prelude::*;

use crate::codec::parse_u64_hex_prefixed;
use crate::codec::remove_hex_prefixes;
use crate::codec::spec_parse_u64_result;
use crate::errors::UpstreamError;
use crate::json::json_bool_member;
use crate::json::json_bool_member_of;
use crate::json::json_str_member;
use crate::json::json_str_member_of;

verus! {

/// The `eth_syncing` request body, in `serde_json`'s canonical key order.
pub fn syncing_request_body() -> (body: String)
    ensures
        body@ == "{\"id\":1,\"jsonrpc\":\"2.0\",\"method\":\"eth_syncing\",\"params\":[]}"@,
{
    String::from_str("{\"id\":1,\"jsonrpc\":\"2.0\",\"method\":\"eth_syncing\",\"params\":[]}")
}

/// The `net_peerCount` request body.
pub fn peer_count_request_body() -> (body: String)
    ensures
        body@ == "{\"id\":1,\"jsonrpc\":\"2.0\",\"method\":\"net_peerCount\",\"params\":[]}"@,
{
    String::from_str("{\"id\":1,\"jsonrpc\":\"2.0\",\"method\":\"net_peerCount\",\"params\":[]}")
}

/// The `net_version` request body, used as the liveness probe.
pub fn ping_request_body() -> (body: String)
    ensures
        body@ == "{\"id\":1,\"jsonrpc\":\"2.0\",\"method\":\"net_version\",\"params\":[]}"@,
{
    String::from_str("{\"id\":1,\"jsonrpc\":\"2.0\",\"method\":\"net_version\",\"params\":[]}")
}

/// What decoding an `eth_syncing` response body must return: the boolean
/// `result` member when there is one, a protocol error otherwise.
pub open spec fn spec_decode_syncing_response(body: Seq<char>) -> Result<bool, UpstreamError> {
    match json_bool_member_of(body, "result"@) {
        Some(b) => Ok(b),
        None => Err(UpstreamError::Protocol),
    }
}

/// Decodes an `eth_syncing` response body: the `result` member must be a
/// boolean. Anything else — unparseable JSON, a missing `result`, a
/// non-boolean — is a protocol error; transport errors never reach this
/// function.
pub fn decode_syncing_response(body: &str) -> (r: Result<bool, UpstreamError>)
    ensures
        r == spec_decode_syncing_response(body@),
{
    match json_bool_member(body, "result") {
        Some(b) => Ok(b),
        None => Err(UpstreamError::Protocol),
    }
}

/// What decoding a `net_peerCount` response body must return: the string
/// `result` member read as a `0x`-prefixed hex count when there is one, a
/// protocol error otherwise.
pub open spec fn spec_decode_peer_count_response(body: Seq<char>) -> Result<u64, UpstreamError> {
    match json_str_member_of(body, "result"@) {
        Some(s) => spec_parse_u64_result(remove_hex_prefixes(s), 16),
        None => Err(UpstreamError::Protocol),
    }
}

/// Decodes a `net_peerCount` response body: the `result` member must be a
/// string, which is then read as a `0x`-prefixed hex count by the verified
/// parser. A malformed body or an unparseable count is a protocol error.
pub fn decode_peer_count_response(body: &str) -> (r: Result<u64, UpstreamError>)
    ensures
        r == spec_decode_peer_count_response(body@),
{
    match json_str_member(body, "result") {
        Some(raw) => parse_u64_hex_prefixed(raw.as_str()),
        None => Err(UpstreamError::Protocol),
    }
}

} // verus!
