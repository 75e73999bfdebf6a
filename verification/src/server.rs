//! The readiness publisher and the HTTP layer's view of it.
//!
//! `ReadinessState` is the one value whose lifetime spans the whole
//! process: a concurrency-safe boolean with a single writer (the poll
//! loop) and arbitrarily many readers (HTTP handlers). It starts out "not
//! ready" and is overwritten on every tick — never left at a stale "last
//! known good" value. The HTTP layer itself lives in the binary; it reads
//! `is_ready` and maps the answer to a status code with `readyz_status`.

use std::sync::atomic::AtomicBool;
use std::sync::atomic::Ordering;
use std::sync::Arc;

use vstd::prelude::*;

use crate::readiness::Verdict;

verus! {

/// The shared readiness flag: written by the scheduler once per tick, read
/// by every readiness request.
pub struct ReadinessState {
    flag: AtomicBool,
}

impl ReadinessState {
    /// A fresh flag reports "not ready" until the first pass settles.
    pub fn new() -> ReadinessState {
        ReadinessState { flag: AtomicBool::new(false) }
    }

    pub fn set_ready(&self, ready: bool) {
        self.flag.store(ready, Ordering::Relaxed);
    }

    pub fn is_ready(&self) -> bool {
        self.flag.load(Ordering::Relaxed)
    }

    /// Publishes a settled verdict. The flag becomes true exactly for a
    /// ready verdict.
    pub fn publish(&self, verdict: &Verdict) {
        self.set_ready(verdict.is_ready());
    }
}

/// What the HTTP handlers share: the readiness flag.
#[derive(Clone)]
pub struct AppState {
    pub is_ready: Arc<ReadinessState>,
}

impl AppState {
    pub fn new() -> AppState {
        AppState { is_ready: Arc::new(ReadinessState::new()) }
    }
}

/// HTTP status for the readiness endpoint: 200 when the last evaluation
/// pass found the node ready, 503 otherwise.
pub fn readyz_status(ready: bool) -> (code: u16)
    ensures
        ready ==> code == 200,
        !ready ==> code == 503,
{
    if ready {
        200
    } else {
        503
    }
}

/// HTTP status for the liveness endpoint: always 200 once the process is
/// up.
pub fn livez_status() -> (code: u16)
    ensures
        code == 200,
{
    200
}

} // verus!
