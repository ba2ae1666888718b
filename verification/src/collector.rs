use vstd::prelude::*;

use crate::outcome::ProbeOutcome;

verus! {

/// Gathers probe outcomes as probes complete. Only open-port outcomes are
/// retained; closed and timed-out probes are a caller's transient news.
/// Once closed, the collector drops everything still in flight: an outcome
/// recorded after `close` leaves no trace.
///
/// The collector itself is single-threaded data; a concurrent scan driver
/// guards it with one lock, so exactly one writer completes a mutation at
/// a time and the final drain sees every write that completed before it.
pub struct Collector {
    accepting: bool,
    results: Vec<ProbeOutcome>,
}

/// The ports of a sequence of outcomes, in the same order.
pub open spec fn ports_of(results: Seq<ProbeOutcome>) -> Seq<u16> {
    results.map_values(|o: ProbeOutcome| o.spec_port())
}

impl Collector {
    /// The outcomes retained so far, in completion order.
    pub closed spec fn results_seq(self) -> Seq<ProbeOutcome> {
        self.results@
    }

    /// Whether the collector still accepts outcomes.
    pub closed spec fn is_accepting(self) -> bool {
        self.accepting
    }

    /// The retained ports, in completion order.
    pub open spec fn open_ports(self) -> Seq<u16> {
        ports_of(self.results_seq())
    }

    /// Everything retained is an open-port outcome.
    pub open spec fn wf(self) -> bool {
        forall|i: int|
            0 <= i < self.results_seq().len() ==> #[trigger] self.results_seq()[i] is Open
    }

    /// A fresh collector: empty, and accepting outcomes.
    pub fn new() -> (r: Collector)
        ensures
            r.is_accepting(),
            r.results_seq() == Seq::<ProbeOutcome>::empty(),
            r.wf(),
    {
        Collector { accepting: true, results: Vec::new() }
    }

    /// Takes one probe's outcome. While the collector accepts, an open-port
    /// outcome is appended and any other outcome is filtered away; once the
    /// collector is closed, every outcome is dropped unrecorded.
    pub fn record(&mut self, outcome: ProbeOutcome)
        ensures
            final(self).is_accepting() == old(self).is_accepting(),
            old(self).is_accepting() && outcome is Open ==> final(self).results_seq() == old(
                self,
            ).results_seq().push(outcome),
            !(old(self).is_accepting() && outcome is Open) ==> final(self).results_seq() == old(
                self,
            ).results_seq(),
            old(self).wf() ==> final(self).wf(),
    {
        if self.accepting {
            match outcome {
                ProbeOutcome::Open { .. } => {
                    self.results.push(outcome);
                },
                _ => {},
            }
        }
    }

    /// Stops accepting outcomes: whatever has not resolved by now is lost.
    pub fn close(&mut self)
        ensures
            !final(self).is_accepting(),
            final(self).results_seq() == old(self).results_seq(),
    {
        self.accepting = false;
    }

    /// A consistent snapshot of everything retained, in completion order.
    pub fn snapshot(&self) -> (r: &Vec<ProbeOutcome>)
        ensures
            r@ == self.results_seq(),
    {
        &self.results
    }
}

/// Recording an open-port outcome while the collector accepts puts its port
/// into the collector's open-port sequence.
pub proof fn lemma_recorded_open_port_is_kept(
    pre: Collector,
    post: Collector,
    outcome: ProbeOutcome,
)
    requires
        pre.is_accepting(),
        outcome is Open,
        post.results_seq() == pre.results_seq().push(outcome),
    ensures
        post.open_ports().contains(outcome.spec_port()),
{
    let n = pre.results_seq().len() as int;
    assert(post.open_ports()[n] == outcome.spec_port());
}

/// An outcome that resolves only after the collector is closed leaves no
/// trace: a port that was absent stays absent.
pub proof fn lemma_late_outcome_leaves_no_trace(
    pre: Collector,
    post: Collector,
    p: u16,
)
    requires
        !pre.is_accepting(),
        post.results_seq() == pre.results_seq(),
        !pre.open_ports().contains(p),
    ensures
        !post.open_ports().contains(p),
{
}

} // verus!
