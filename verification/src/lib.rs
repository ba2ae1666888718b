//! The decision core of a concurrent TCP port scanner.
//!
//! A scan probes every port of an inclusive range on one target, records
//! which ports accepted a connection within a fixed per-probe timeout, and
//! appends the findings to durable, append-only records. This crate holds
//! everything the scanner decides or computes: which ports to probe
//! ([`dispatch`]), how one connection attempt settles into an outcome
//! ([`outcome`]), how outcomes are gathered and filtered as concurrent
//! probes complete ([`collector`]), how long the run took ([`session`]),
//! and the exact text of every record the run persists ([`report`],
//! [`timestamp`], [`digits`], [`tokens`]). The network and file work around
//! it — connecting, sleeping out the global wait window, appending to the
//! log files — stays in the driver, which feeds its events through these
//! functions.

pub mod collector;
pub mod digits;
pub mod dispatch;
pub mod outcome;
pub mod report;
pub mod session;
pub mod timestamp;
pub mod tokens;

use vstd::prelude::*;

verus! {

/// The phases a scan run moves through, in order; `Done` is terminal.
#[derive(Clone, Copy, PartialEq, Eq, Structural, Debug)]
pub enum ScanPhase {
    Init,
    Dispatching,
    Waiting,
    Draining,
    Reporting,
    Done,
}

/// Advances the scan driver to its next phase; there are no retries and no
/// branch back, so `Done` stays `Done`.
pub fn advance_phase(p: ScanPhase) -> (r: ScanPhase)
    ensures
        p == ScanPhase::Init ==> r == ScanPhase::Dispatching,
        p == ScanPhase::Dispatching ==> r == ScanPhase::Waiting,
        p == ScanPhase::Waiting ==> r == ScanPhase::Draining,
        p == ScanPhase::Draining ==> r == ScanPhase::Reporting,
        p == ScanPhase::Reporting ==> r == ScanPhase::Done,
        p == ScanPhase::Done ==> r == ScanPhase::Done,
{
    match p {
        ScanPhase::Init => ScanPhase::Dispatching,
        ScanPhase::Dispatching => ScanPhase::Waiting,
        ScanPhase::Waiting => ScanPhase::Draining,
        ScanPhase::Draining => ScanPhase::Reporting,
        ScanPhase::Reporting => ScanPhase::Done,
        ScanPhase::Done => ScanPhase::Done,
    }
}

} // verus!
