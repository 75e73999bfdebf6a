//! The consensus (beacon) client's health reports.
//!
//! The consensus client answers `/eth/v1/node/syncing` with a sync-status
//! object and `/eth/v1/node/peer_count` with peer tallies; numeric fields
//! arrive as decimal strings. These two standard endpoints are the one
//! canonical source of consensus health here; client-specific combined
//! payloads are deliberately not decoded. The types below hold the decoded
//! values the readiness evaluator reads.

use vstd::prelude::*;

use crate::codec::parse_u64_decimal;
use crate::codec::spec_parse_u64_result;
use crate::errors::UpstreamError;
use crate::json::json_nested_bool_member;
use crate::json::json_nested_bool_member_of;
use crate::json::json_nested_str_member;
use crate::json::json_nested_str_member_of;

verus! {

/// The consensus client's sync status, fresh on every poll.
#[derive(Debug, Clone, Copy, PartialEq, Eq, Structural)]
pub struct Syncing {
    pub el_offline: bool,
    pub is_optimistic: bool,
    pub is_syncing: bool,
    pub sync_distance: u64,
}

impl Syncing {
    pub fn new(el_offline: bool, is_optimistic: bool, is_syncing: bool, sync_distance: u64) -> (s:
        Syncing)
        ensures
            s == (Syncing { el_offline, is_optimistic, is_syncing, sync_distance }),
    {
        Syncing { el_offline, is_optimistic, is_syncing, sync_distance }
    }

    pub fn is_syncing(&self) -> (b: bool)
        ensures
            b == self.is_syncing,
    {
        self.is_syncing
    }

    pub fn is_optimistic(&self) -> (b: bool)
        ensures
            b == self.is_optimistic,
    {
        self.is_optimistic
    }

    pub fn is_el_offline(&self) -> (b: bool)
        ensures
            b == self.el_offline,
    {
        self.el_offline
    }

    /// Sync distance will be above 0 when a node restarts and is catching
    /// up, even if it is not syncing.
    pub fn sync_distance(&self) -> (d: u64)
        ensures
            d == self.sync_distance,
    {
        self.sync_distance
    }
}

/// The consensus client's peer tally, fresh on every poll.
#[derive(Debug, Clone, Copy, PartialEq, Eq, Structural)]
pub struct PeerCounts {
    pub connected: u64,
}

impl PeerCounts {
    pub fn new(connected: u64) -> (p: PeerCounts)
        ensures
            p == (PeerCounts { connected }),
    {
        PeerCounts { connected }
    }

    pub fn peer_count(&self) -> (c: u64)
        ensures
            c == self.connected,
    {
        self.connected
    }
}

/// What decoding a `/eth/v1/node/peer_count` response body must return:
/// the `data.connected` string member read as a decimal count when there
/// is one, a protocol error otherwise.
pub open spec fn spec_decode_peer_counts(body: Seq<char>) -> Result<PeerCounts, UpstreamError> {
    match json_nested_str_member_of(body, "data"@, "connected"@) {
        Some(s) => match spec_parse_u64_result(s, 10) {
            Ok(connected) => Ok((PeerCounts { connected })),
            Err(e) => Err(e),
        },
        None => Err(UpstreamError::Protocol),
    }
}

/// Decodes a `/eth/v1/node/peer_count` response body: `data.connected`
/// must be a decimal string, read by the verified parser. A malformed
/// body or an unparseable count is a protocol error; transport errors
/// never reach this function.
pub fn decode_peer_counts(body: &str) -> (r: Result<PeerCounts, UpstreamError>)
    ensures
        r == spec_decode_peer_counts(body@),
{
    match json_nested_str_member(body, "data", "connected") {
        Some(raw) => match parse_u64_decimal(raw.as_str()) {
            Ok(count) => Ok(PeerCounts::new(count)),
            Err(e) => Err(e),
        },
        None => Err(UpstreamError::Protocol),
    }
}

/// What decoding a `/eth/v1/node/syncing` response body must return: a
/// `Syncing` carrying the three boolean members of `data` and its
/// `sync_distance` string member read as a decimal count, when all four
/// are there; a protocol error otherwise.
pub open spec fn spec_decode_syncing(body: Seq<char>) -> Result<Syncing, UpstreamError> {
    match json_nested_bool_member_of(body, "data"@, "el_offline"@) {
        Some(el_offline) => match json_nested_bool_member_of(body, "data"@, "is_optimistic"@) {
            Some(is_optimistic) => match json_nested_bool_member_of(body, "data"@, "is_syncing"@) {
                Some(is_syncing) => match json_nested_str_member_of(
                    body,
                    "data"@,
                    "sync_distance"@,
                ) {
                    Some(s) => match spec_parse_u64_result(s, 10) {
                        Ok(sync_distance) => Ok(
                            (Syncing { el_offline, is_optimistic, is_syncing, sync_distance }),
                        ),
                        Err(e) => Err(e),
                    },
                    None => Err(UpstreamError::Protocol),
                },
                None => Err(UpstreamError::Protocol),
            },
            None => Err(UpstreamError::Protocol),
        },
        None => Err(UpstreamError::Protocol),
    }
}

/// Decodes a `/eth/v1/node/syncing` response body: `data` must carry the
/// three boolean flags and `sync_distance` as a decimal string. Any other
/// shape is a protocol error.
pub fn decode_syncing(body: &str) -> (r: Result<Syncing, UpstreamError>)
    ensures
        r == spec_decode_syncing(body@),
{
    let el_offline = match json_nested_bool_member(body, "data", "el_offline") {
        Some(b) => b,
        None => {
            return Err(UpstreamError::Protocol);
        },
    };
    let is_optimistic = match json_nested_bool_member(body, "data", "is_optimistic") {
        Some(b) => b,
        None => {
            return Err(UpstreamError::Protocol);
        },
    };
    let is_syncing = match json_nested_bool_member(body, "data", "is_syncing") {
        Some(b) => b,
        None => {
            return Err(UpstreamError::Protocol);
        },
    };
    let raw_distance = match json_nested_str_member(body, "data", "sync_distance") {
        Some(s) => s,
        None => {
            return Err(UpstreamError::Protocol);
        },
    };
    match parse_u64_decimal(raw_distance.as_str()) {
        Ok(sync_distance) => Ok(Syncing::new(el_offline, is_optimistic, is_syncing, sync_distance)),
        Err(e) => Err(e),
    }
}

} // verus!
