//! The readiness evaluator: the ordered check policy that collapses the
//! upstream health signals into one verdict.
//!
//! One evaluation pass is a strict pipeline of four checks; the first
//! failing check settles the pass and the remaining upstream calls are
//! never made:
//!
//! 1. execution sync status — an error or `true` means not ready;
//! 2. execution peer count — skipped entirely on networks whose profile
//!    disables peer checks, otherwise an error or a count below the
//!    profile's minimum means not ready;
//! 3. consensus peer count — an error or a count below the fixed minimum
//!    means not ready;
//! 4. consensus sync detail — syncing, optimistic sync, an offline
//!    execution layer, or a sync distance above the configured tolerance
//!    means not ready.
//!
//! The pipeline is pure: the caller performs the upstream calls one at a
//! time, hands each outcome to the matching transition, and only a settled
//! verdict is ever published.

use vstd::prelude::*;

use crate::codec::spec_decimal;
use crate::codec::u64_to_decimal_string;
use crate::env::Network;
use crate::errors::UpstreamError;
use crate::lighthouse::Syncing;

verus! {

/// Peers the consensus client must have, on every network.
pub const MIN_CONSENSUS_PEER_COUNT: u64 = 10;

/// Slots of consensus lag tolerated by default: a single slot of lag is
/// normal jitter.
pub const DEFAULT_SYNC_DISTANCE_TOLERANCE: u64 = 1;

impl Network {
    /// Whether execution peer-count checks apply on this network. Goerli's
    /// execution clients do not answer the peer-count call, so the check is
    /// skipped there.
    pub open spec fn spec_peer_checks_apply(self) -> bool {
        self != Network::Goerli
    }

    pub fn peer_checks_apply(&self) -> (b: bool)
        ensures
            b == self.spec_peer_checks_apply(),
    {
        match self {
            Network::Goerli => false,
            _ => true,
        }
    }

    /// Peers the execution client must have on this network.
    pub open spec fn spec_min_execution_peers(self) -> u64 {
        if self == Network::Mainnet {
            5u64
        } else {
            2u64
        }
    }

    pub fn min_execution_peers(&self) -> (m: u64)
        ensures
            m == self.spec_min_execution_peers(),
    {
        match self {
            Network::Mainnet => 5,
            _ => 2,
        }
    }
}

/// Why an evaluation pass settled on "not ready". Each variant names the
/// failing check and carries the offending value, so a failing pass is
/// diagnosable from logs.
#[derive(Debug, Clone, Copy, PartialEq, Eq, Structural)]
pub enum Reason {
    ExecutionSyncCheckFailed(UpstreamError),
    ExecutionSyncing,
    ExecutionPeerCheckFailed(UpstreamError),
    ExecutionPeersBelowMinimum { count: u64, minimum: u64 },
    ConsensusPeerCheckFailed(UpstreamError),
    ConsensusPeersBelowMinimum { count: u64, minimum: u64 },
    ConsensusSyncCheckFailed(UpstreamError),
    ConsensusSyncing,
    ConsensusOptimistic,
    ExecutionLayerOffline,
    SyncDistanceExceedsTolerance { distance: u64, tolerance: u64 },
}

impl Reason {
    /// The log line for this reason.
    pub open spec fn spec_describe(self) -> Seq<char> {
        match self {
            Reason::ExecutionSyncCheckFailed(e) => "execution sync check failed: "@
                + e.spec_describe(),
            Reason::ExecutionSyncing => "execution node is syncing"@,
            Reason::ExecutionPeerCheckFailed(e) => "execution peer count check failed: "@
                + e.spec_describe(),
            Reason::ExecutionPeersBelowMinimum { count, minimum } => (
            "execution peer count below minimum, "@ + spec_decimal(count as int) + " < "@
                + spec_decimal(minimum as int)),
            Reason::ConsensusPeerCheckFailed(e) => "consensus peer count check failed: "@
                + e.spec_describe(),
            Reason::ConsensusPeersBelowMinimum { count, minimum } => (
            "consensus peer count below minimum, "@ + spec_decimal(count as int) + " < "@
                + spec_decimal(minimum as int)),
            Reason::ConsensusSyncCheckFailed(e) => "consensus sync check failed: "@
                + e.spec_describe(),
            Reason::ConsensusSyncing => "consensus node is syncing"@,
            Reason::ConsensusOptimistic => "consensus sync is optimistic"@,
            Reason::ExecutionLayerOffline => "consensus node reports execution layer offline"@,
            Reason::SyncDistanceExceedsTolerance { .. } => "sync distance exceeds tolerance"@,
        }
    }

    pub fn describe(&self) -> (s: String)
        ensures
            s@ == self.spec_describe(),
    {
        match self {
            Reason::ExecutionSyncCheckFailed(e) => String::from_str(
                "execution sync check failed: ",
            ).concat(e.describe()),
            Reason::ExecutionSyncing => String::from_str("execution node is syncing"),
            Reason::ExecutionPeerCheckFailed(e) => String::from_str(
                "execution peer count check failed: ",
            ).concat(e.describe()),
            Reason::ExecutionPeersBelowMinimum { count, minimum } => {
                let shown: String = u64_to_decimal_string(*count);
                let wanted: String = u64_to_decimal_string(*minimum);
                String::from_str("execution peer count below minimum, ").concat(
                    shown.as_str(),
                ).concat(" < ").concat(wanted.as_str())
            },
            Reason::ConsensusPeerCheckFailed(e) => String::from_str(
                "consensus peer count check failed: ",
            ).concat(e.describe()),
            Reason::ConsensusPeersBelowMinimum { count, minimum } => {
                let shown: String = u64_to_decimal_string(*count);
                let wanted: String = u64_to_decimal_string(*minimum);
                String::from_str("consensus peer count below minimum, ").concat(
                    shown.as_str(),
                ).concat(" < ").concat(wanted.as_str())
            },
            Reason::ConsensusSyncCheckFailed(e) => String::from_str(
                "consensus sync check failed: ",
            ).concat(e.describe()),
            Reason::ConsensusSyncing => String::from_str("consensus node is syncing"),
            Reason::ConsensusOptimistic => String::from_str("consensus sync is optimistic"),
            Reason::ExecutionLayerOffline => String::from_str(
                "consensus node reports execution layer offline",
            ),
            Reason::SyncDistanceExceedsTolerance { .. } => String::from_str(
                "sync distance exceeds tolerance",
            ),
        }
    }
}

/// The outcome of one evaluation pass.
#[derive(Debug, Clone, Copy, PartialEq, Eq, Structural)]
pub enum Verdict {
    Ready,
    NotReady(Reason),
}

impl Verdict {
    pub fn is_ready(&self) -> (b: bool)
        ensures
            b == (*self is Ready),
    {
        match self {
            Verdict::Ready => true,
            Verdict::NotReady(_) => false,
        }
    }
}

/// Where an evaluation pass stands: which upstream outcome it awaits next,
/// or the verdict it settled on.
#[derive(Debug, Clone, Copy, PartialEq, Eq, Structural)]
pub enum PassState {
    AwaitExecutionSyncing,
    AwaitExecutionPeerCount,
    AwaitConsensusPeerCount,
    AwaitConsensusSyncStatus,
    Settled(Verdict),
}

/// The per-network check policy: which chain is served and how much
/// consensus lag is tolerated.
#[derive(Debug, Clone, Copy, PartialEq, Eq, Structural)]
pub struct CheckPolicy {
    pub network: Network,
    pub sync_distance_tolerance: u64,
}

impl CheckPolicy {
    /// The standard policy for a network: one slot of consensus lag is
    /// tolerated.
    pub fn standard(network: Network) -> (p: CheckPolicy)
        ensures
            p == (CheckPolicy { network, sync_distance_tolerance: DEFAULT_SYNC_DISTANCE_TOLERANCE }),
    {
        CheckPolicy { network, sync_distance_tolerance: DEFAULT_SYNC_DISTANCE_TOLERANCE }
    }

    /// Every pass begins by asking for the execution client's sync status.
    pub fn start_pass(&self) -> (s: PassState)
        ensures
            s == PassState::AwaitExecutionSyncing,
    {
        PassState::AwaitExecutionSyncing
    }

    pub open spec fn spec_on_execution_syncing(self, r: Result<bool, UpstreamError>) -> PassState {
        match r {
            Err(e) => PassState::Settled(Verdict::NotReady(Reason::ExecutionSyncCheckFailed(e))),
            Ok(true) => PassState::Settled(Verdict::NotReady(Reason::ExecutionSyncing)),
            Ok(false) => if self.network.spec_peer_checks_apply() {
                PassState::AwaitExecutionPeerCount
            } else {
                PassState::AwaitConsensusPeerCount
            },
        }
    }

    /// First check: the execution client's sync status. Any error or an
    /// ongoing sync settles the pass; otherwise the pass moves to the
    /// execution peer-count check, or straight past it on networks whose
    /// profile disables peer checks.
    pub fn on_execution_syncing(&self, r: Result<bool, UpstreamError>) -> (s: PassState)
        ensures
            s == self.spec_on_execution_syncing(r),
    {
        match r {
            Err(e) => PassState::Settled(Verdict::NotReady(Reason::ExecutionSyncCheckFailed(e))),
            Ok(true) => PassState::Settled(Verdict::NotReady(Reason::ExecutionSyncing)),
            Ok(false) => {
                if self.network.peer_checks_apply() {
                    PassState::AwaitExecutionPeerCount
                } else {
                    PassState::AwaitConsensusPeerCount
                }
            },
        }
    }

    pub open spec fn spec_on_execution_peer_count(self, r: Result<u64, UpstreamError>) -> PassState {
        match r {
            Err(e) => PassState::Settled(Verdict::NotReady(Reason::ExecutionPeerCheckFailed(e))),
            Ok(count) => if count < self.network.spec_min_execution_peers() {
                PassState::Settled(
                    Verdict::NotReady(
                        Reason::ExecutionPeersBelowMinimum {
                            count,
                            minimum: self.network.spec_min_execution_peers(),
                        },
                    ),
                )
            } else {
                PassState::AwaitConsensusPeerCount
            },
        }
    }

    /// Second check: the execution client's peer count against the
    /// network profile's minimum.
    pub fn on_execution_peer_count(&self, r: Result<u64, UpstreamError>) -> (s: PassState)
        ensures
            s == self.spec_on_execution_peer_count(r),
    {
        match r {
            Err(e) => PassState::Settled(Verdict::NotReady(Reason::ExecutionPeerCheckFailed(e))),
            Ok(count) => {
                let minimum = self.network.min_execution_peers();
                if count < minimum {
                    PassState::Settled(
                        Verdict::NotReady(Reason::ExecutionPeersBelowMinimum { count, minimum }),
                    )
                } else {
                    PassState::AwaitConsensusPeerCount
                }
            },
        }
    }

    pub open spec fn spec_on_consensus_peer_count(self, r: Result<u64, UpstreamError>) -> PassState {
        match r {
            Err(e) => PassState::Settled(Verdict::NotReady(Reason::ConsensusPeerCheckFailed(e))),
            Ok(count) => if count < MIN_CONSENSUS_PEER_COUNT {
                PassState::Settled(
                    Verdict::NotReady(
                        Reason::ConsensusPeersBelowMinimum {
                            count,
                            minimum: MIN_CONSENSUS_PEER_COUNT,
                        },
                    ),
                )
            } else {
                PassState::AwaitConsensusSyncStatus
            },
        }
    }

    /// Third check: the consensus client's connected peers against the
    /// fixed minimum.
    pub fn on_consensus_peer_count(&self, r: Result<u64, UpstreamError>) -> (s: PassState)
        ensures
            s == self.spec_on_consensus_peer_count(r),
    {
        match r {
            Err(e) => PassState::Settled(Verdict::NotReady(Reason::ConsensusPeerCheckFailed(e))),
            Ok(count) => {
                if count < MIN_CONSENSUS_PEER_COUNT {
                    PassState::Settled(
                        Verdict::NotReady(
                            Reason::ConsensusPeersBelowMinimum {
                                count,
                                minimum: MIN_CONSENSUS_PEER_COUNT,
                            },
                        ),
                    )
                } else {
                    PassState::AwaitConsensusSyncStatus
                }
            },
        }
    }

    pub open spec fn spec_on_consensus_sync_status(
        self,
        r: Result<Syncing, UpstreamError>,
    ) -> PassState {
        match r {
            Err(e) => PassState::Settled(Verdict::NotReady(Reason::ConsensusSyncCheckFailed(e))),
            Ok(sync) => if sync.is_syncing {
                PassState::Settled(Verdict::NotReady(Reason::ConsensusSyncing))
            } else if sync.is_optimistic {
                PassState::Settled(Verdict::NotReady(Reason::ConsensusOptimistic))
            } else if sync.el_offline {
                PassState::Settled(Verdict::NotReady(Reason::ExecutionLayerOffline))
            } else if sync.sync_distance > self.sync_distance_tolerance {
                PassState::Settled(
                    Verdict::NotReady(
                        Reason::SyncDistanceExceedsTolerance {
                            distance: sync.sync_distance,
                            tolerance: self.sync_distance_tolerance,
                        },
                    ),
                )
            } else {
                PassState::Settled(Verdict::Ready)
            },
        }
    }

    /// Fourth and last check: the consensus client's sync detail, examined
    /// in order — syncing, optimistic, execution layer offline, sync
    /// distance. A distance up to the tolerance is accepted; anything
    /// above it is not. This transition always settles the pass.
    pub fn on_consensus_sync_status(&self, r: Result<Syncing, UpstreamError>) -> (s: PassState)
        ensures
            s == self.spec_on_consensus_sync_status(r),
            s is Settled,
    {
        match r {
            Err(e) => PassState::Settled(Verdict::NotReady(Reason::ConsensusSyncCheckFailed(e))),
            Ok(sync) => {
                if sync.is_syncing() {
                    PassState::Settled(Verdict::NotReady(Reason::ConsensusSyncing))
                } else if sync.is_optimistic() {
                    PassState::Settled(Verdict::NotReady(Reason::ConsensusOptimistic))
                } else if sync.is_el_offline() {
                    PassState::Settled(Verdict::NotReady(Reason::ExecutionLayerOffline))
                } else {
                    let distance = sync.sync_distance();
                    if distance > self.sync_distance_tolerance {
                        PassState::Settled(
                            Verdict::NotReady(
                                Reason::SyncDistanceExceedsTolerance {
                                    distance,
                                    tolerance: self.sync_distance_tolerance,
                                },
                            ),
                        )
                    } else {
                        PassState::Settled(Verdict::Ready)
                    }
                }
            },
        }
    }

    /// The verdict of the two consensus checks, given both outcomes.
    pub open spec fn spec_consensus_verdict(
        self,
        cp: Result<u64, UpstreamError>,
        cs: Result<Syncing, UpstreamError>,
    ) -> Verdict {
        match cp {
            Err(e) => Verdict::NotReady(Reason::ConsensusPeerCheckFailed(e)),
            Ok(count) => if count < MIN_CONSENSUS_PEER_COUNT {
                Verdict::NotReady(
                    Reason::ConsensusPeersBelowMinimum { count, minimum: MIN_CONSENSUS_PEER_COUNT },
                )
            } else {
                match cs {
                    Err(e) => Verdict::NotReady(Reason::ConsensusSyncCheckFailed(e)),
                    Ok(sync) => if sync.is_syncing {
                        Verdict::NotReady(Reason::ConsensusSyncing)
                    } else if sync.is_optimistic {
                        Verdict::NotReady(Reason::ConsensusOptimistic)
                    } else if sync.el_offline {
                        Verdict::NotReady(Reason::ExecutionLayerOffline)
                    } else if sync.sync_distance > self.sync_distance_tolerance {
                        Verdict::NotReady(
                            Reason::SyncDistanceExceedsTolerance {
                                distance: sync.sync_distance,
                                tolerance: self.sync_distance_tolerance,
                            },
                        )
                    } else {
                        Verdict::Ready
                    },
                }
            },
        }
    }

    /// The verdict of a whole pass, given the outcome each check would
    /// see. Outcomes past the first failing check are never reached by the
    /// pipeline; here they are simply ignored.
    pub open spec fn spec_pass_verdict(
        self,
        es: Result<bool, UpstreamError>,
        ep: Result<u64, UpstreamError>,
        cp: Result<u64, UpstreamError>,
        cs: Result<Syncing, UpstreamError>,
    ) -> Verdict {
        match es {
            Err(e) => Verdict::NotReady(Reason::ExecutionSyncCheckFailed(e)),
            Ok(true) => Verdict::NotReady(Reason::ExecutionSyncing),
            Ok(false) => if self.network.spec_peer_checks_apply() {
                match ep {
                    Err(e) => Verdict::NotReady(Reason::ExecutionPeerCheckFailed(e)),
                    Ok(count) => if count < self.network.spec_min_execution_peers() {
                        Verdict::NotReady(
                            Reason::ExecutionPeersBelowMinimum {
                                count,
                                minimum: self.network.spec_min_execution_peers(),
                            },
                        )
                    } else {
                        self.spec_consensus_verdict(cp, cs)
                    },
                }
            } else {
                self.spec_consensus_verdict(cp, cs)
            },
        }
    }

    /// The state the pipeline reaches when driven, in order, with the
    /// outcome each awaited check sees.
    pub open spec fn spec_run_pass(
        self,
        es: Result<bool, UpstreamError>,
        ep: Result<u64, UpstreamError>,
        cp: Result<u64, UpstreamError>,
        cs: Result<Syncing, UpstreamError>,
    ) -> PassState {
        let s1 = self.spec_on_execution_syncing(es);
        let s2 = if s1 == PassState::AwaitExecutionPeerCount {
            self.spec_on_execution_peer_count(ep)
        } else {
            s1
        };
        let s3 = if s2 == PassState::AwaitConsensusPeerCount {
            self.spec_on_consensus_peer_count(cp)
        } else {
            s2
        };
        if s3 == PassState::AwaitConsensusSyncStatus {
            self.spec_on_consensus_sync_status(cs)
        } else {
            s3
        }
    }

    /// Whether every applicable check passes: the execution client reports
    /// it is not syncing; where the profile applies peer checks, the
    /// execution peer count arrived and meets the minimum; the consensus
    /// peer count arrived and meets the minimum; and the consensus sync
    /// detail arrived showing no sync in progress, no optimistic sync, the
    /// execution layer online, and a sync distance within tolerance.
    pub open spec fn spec_all_checks_pass(
        self,
        es: Result<bool, UpstreamError>,
        ep: Result<u64, UpstreamError>,
        cp: Result<u64, UpstreamError>,
        cs: Result<Syncing, UpstreamError>,
    ) -> bool {
        &&& es == Ok::<bool, UpstreamError>(false)
        &&& self.network.spec_peer_checks_apply() ==> (ep matches Ok(count)
            && count >= self.network.spec_min_execution_peers())
        &&& cp matches Ok(count) && count >= MIN_CONSENSUS_PEER_COUNT
        &&& cs matches Ok(sync) && !sync.is_syncing && !sync.is_optimistic && !sync.el_offline
            && sync.sync_distance <= self.sync_distance_tolerance
    }
}

/// Driving the pipeline in order settles it on the pass verdict. The
/// transition functions, composed as the caller is meant to call them,
/// never leave a pass unsettled and never disagree with the pass policy.
pub proof fn lemma_run_pass_settles(
    p: CheckPolicy,
    es: Result<bool, UpstreamError>,
    ep: Result<u64, UpstreamError>,
    cp: Result<u64, UpstreamError>,
    cs: Result<Syncing, UpstreamError>,
)
    ensures
        p.spec_run_pass(es, ep, cp, cs) == PassState::Settled(p.spec_pass_verdict(es, ep, cp, cs)),
{
}

/// Short-circuit correctness: a pass is ready exactly when every
/// applicable check in pipeline order passes; any single failing check
/// yields "not ready" regardless of the other outcomes.
pub proof fn lemma_ready_iff_all_checks_pass(
    p: CheckPolicy,
    es: Result<bool, UpstreamError>,
    ep: Result<u64, UpstreamError>,
    cp: Result<u64, UpstreamError>,
    cs: Result<Syncing, UpstreamError>,
)
    ensures
        p.spec_pass_verdict(es, ep, cp, cs) is Ready <==> p.spec_all_checks_pass(es, ep, cp, cs),
{
}

/// Threshold boundary: under the standard tolerance of one slot, and with
/// no other sync-detail condition failing, a sync distance of exactly 1
/// still leaves the node ready-eligible, while a distance of 2 or more
/// settles on "not ready".
pub proof fn lemma_sync_distance_boundary(p: CheckPolicy, sync: Syncing)
    requires
        p.sync_distance_tolerance == DEFAULT_SYNC_DISTANCE_TOLERANCE,
        !sync.is_syncing,
        !sync.is_optimistic,
        !sync.el_offline,
    ensures
        sync.sync_distance <= 1 ==> p.spec_on_consensus_sync_status(Ok(sync)) == PassState::Settled(
            Verdict::Ready,
        ),
        sync.sync_distance >= 2 ==> p.spec_on_consensus_sync_status(Ok(sync)) == PassState::Settled(
            Verdict::NotReady(
                Reason::SyncDistanceExceedsTolerance {
                    distance: sync.sync_distance,
                    tolerance: DEFAULT_SYNC_DISTANCE_TOLERANCE,
                },
            ),
        ),
{
}

/// Network-conditional skip: when the profile disables peer checks, the
/// verdict does not depend on the execution peer-count outcome at all —
/// not even on its errors.
pub proof fn lemma_verdict_independent_of_skipped_peer_check(
    p: CheckPolicy,
    es: Result<bool, UpstreamError>,
    ep1: Result<u64, UpstreamError>,
    ep2: Result<u64, UpstreamError>,
    cp: Result<u64, UpstreamError>,
    cs: Result<Syncing, UpstreamError>,
)
    requires
        !p.network.spec_peer_checks_apply(),
    ensures
        p.spec_pass_verdict(es, ep1, cp, cs) == p.spec_pass_verdict(es, ep2, cp, cs),
{
}

} // verus!
