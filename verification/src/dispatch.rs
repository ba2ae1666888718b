use vstd::prelude::*;

verus! {

/// What one scan run is told to do: the inclusive port range to probe on the
/// configured target, the per-probe timeout, and the global wait window the
/// driver sleeps for after launching every probe, before it reports.
#[derive(Clone, Copy, PartialEq, Eq, Structural, Debug)]
pub struct ScanConfig {
    pub start_port: u16,
    pub end_port: u16,
    pub timeout_ms: u64,
    pub wait_ms: u64,
}

impl ScanConfig {
    /// A usable configuration: a non-empty port range and running clocks.
    pub open spec fn wf(self) -> bool {
        self.start_port <= self.end_port && self.timeout_ms > 0 && self.wait_ms > 0
    }

    /// The default run: every port, a two-second per-probe timeout, a
    /// five-second global wait window.
    pub fn new_default() -> (r: ScanConfig)
        ensures
            r == (ScanConfig { start_port: 1u16, end_port: 65535u16, timeout_ms: 2000u64, wait_ms: 5000u64 }),
            r.wf(),
    {
        ScanConfig { start_port: 1, end_port: 65535, timeout_ms: 2000, wait_ms: 5000 }
    }

    /// Checks a configuration before the dispatcher runs with it.
    pub fn validate(&self) -> (r: bool)
        ensures
            r == self.wf(),
    {
        self.start_port <= self.end_port && self.timeout_ms > 0 && self.wait_ms > 0
    }
}

/// Enumerates the ports a scan probes: every port of the inclusive range, in
/// order, each exactly once. The scan driver launches one concurrent probe
/// per entry.
pub fn ports_to_scan(cfg: &ScanConfig) -> (r: Vec<u16>)
    ensures
        cfg.start_port <= cfg.end_port ==> r@.len() == cfg.end_port - cfg.start_port + 1,
        cfg.start_port > cfg.end_port ==> r@.len() == 0,
        forall|i: int| 0 <= i < r@.len() ==> #[trigger] r@[i] == cfg.start_port + i,
{
    let mut r: Vec<u16> = Vec::new();
    if cfg.start_port > cfg.end_port {
        return r;
    }
    let mut p: u32 = cfg.start_port as u32;
    let end: u32 = cfg.end_port as u32;
    while p <= end
        invariant
            cfg.start_port <= p <= end + 1,
            end == cfg.end_port,
            r@.len() == p - cfg.start_port,
            forall|i: int| 0 <= i < r@.len() ==> #[trigger] r@[i] == cfg.start_port + i,
        decreases end + 1 - p,
    {
        r.push(p as u16);
        p = p + 1;
    }
    r
}

/// Every port of the range appears in the scan list exactly once: the list
/// neither omits nor repeats a port.
pub proof fn lemma_each_port_probed_once(cfg: ScanConfig, r: Seq<u16>, p: u16)
    requires
        cfg.start_port <= cfg.end_port ==> r.len() == cfg.end_port - cfg.start_port + 1,
        cfg.start_port > cfg.end_port ==> r.len() == 0,
        forall|i: int| 0 <= i < r.len() ==> #[trigger] r[i] == cfg.start_port + i,
        cfg.start_port <= p <= cfg.end_port,
    ensures
        exists|i: int| 0 <= i < r.len() && r[i] == p,
        forall|i: int, j: int|
            0 <= i < r.len() && 0 <= j < r.len() && r[i] == r[j] ==> i == j,
{
    let w = p - cfg.start_port;
    assert(0 <= w < r.len() && r[w] == p);
}

} // verus!
