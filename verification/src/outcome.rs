use vstd::prelude::*;

use crate::timestamp::Timestamp;

verus! {

/// What one connection attempt came back with, as the probe driver saw it:
/// the attempt succeeded, failed with a diagnostic, or nothing arrived
/// before the per-probe timeout.
pub enum ConnectEvent {
    Connected,
    Failed(String),
    NoReply,
}

/// The settled outcome of probing one port. A port is open when the
/// connection completed in time; closed when the attempt failed, keeping the
/// underlying error as a diagnostic; timed out when no answer arrived.
pub enum ProbeOutcome {
    Open { port: u16, stamp: Timestamp },
    Closed { port: u16, error: String },
    TimedOut { port: u16 },
}

impl ProbeOutcome {
    /// The port the outcome speaks of, whatever its kind.
    pub open spec fn spec_port(self) -> u16 {
        match self {
            ProbeOutcome::Open { port, .. } => port,
            ProbeOutcome::Closed { port, .. } => port,
            ProbeOutcome::TimedOut { port } => port,
        }
    }

    /// The port the outcome speaks of.
    pub fn port(&self) -> (r: u16)
        ensures
            r == self.spec_port(),
    {
        match self {
            ProbeOutcome::Open { port, .. } => *port,
            ProbeOutcome::Closed { port, .. } => *port,
            ProbeOutcome::TimedOut { port } => *port,
        }
    }

    /// The instant an open port was found at.
    pub fn stamp(&self) -> (r: Timestamp)
        requires
            self is Open,
        ensures
            r == self->stamp,
    {
        match self {
            ProbeOutcome::Open { stamp, .. } => *stamp,
            _ => Timestamp { year: 0, month: 1, day: 1, hour: 0, minute: 0, second: 0, epoch: 0 },
        }
    }
}

/// Settles one probe: maps what the connection attempt came back with to the
/// port's outcome. A completed connection means open; a failed attempt means
/// closed, carrying the error; no reply within the timeout means timed out.
pub fn outcome_of_event(port: u16, event: ConnectEvent, stamp: Timestamp) -> (r: ProbeOutcome)
    ensures
        r.spec_port() == port,
        r is Open <==> event is Connected,
        r is Closed <==> event is Failed,
        r is TimedOut <==> event is NoReply,
        event is Connected ==> r == (ProbeOutcome::Open { port, stamp }),
        event matches ConnectEvent::Failed(e) ==> r == (ProbeOutcome::Closed { port, error: e }),
        event is NoReply ==> r == (ProbeOutcome::TimedOut { port }),
{
    match event {
        ConnectEvent::Connected => ProbeOutcome::Open { port, stamp },
        ConnectEvent::Failed(error) => ProbeOutcome::Closed { port, error },
        ConnectEvent::NoReply => ProbeOutcome::TimedOut { port },
    }
}

/// Every probe outcome is exactly one of open, closed, or timed out.
pub proof fn lemma_outcome_is_exactly_one_kind(o: ProbeOutcome)
    ensures
        o is Open || o is Closed || o is TimedOut,
        o is Open ==> !(o is Closed) && !(o is TimedOut),
        o is Closed ==> !(o is Open) && !(o is TimedOut),
        o is TimedOut ==> !(o is Open) && !(o is Closed),
{
}

} // verus!
