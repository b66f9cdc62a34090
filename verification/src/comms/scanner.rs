//! Discovery of fader devices among the serial ports.
//!
//! Ports are probed one at a time, in the order listed. The caller lists the
//! ports, runs one probe per port and tells the run how each ended; the run
//! answers with the events to publish.

use vstd::prelude::*;
use vstd::string::*;

verus! {

/// Seconds between the loss of a device and the automatic rescan.
pub const RESCAN_DELAY_SECS: u64 = 3;

/// How a probe ended: the device's UUID and firmware version, or the reason
/// for which the port was given up.
pub type ProbeOutcome = Result<([u8; 16], (u8, u8)), String>;

/// What a scan or a watchdog reports.
#[derive(Debug, PartialEq, Eq)]
pub enum ScanEvent {
    Started { total_ports: usize },
    CheckingPort { name: String, index: usize, total: usize },
    PortFailed { name: String, reason: String },
    /// Sent once per device found; the open port stays with the scanner's
    /// owner under the port's name.
    DeviceFound { port_name: String, uuid: [u8; 16], version: (u8, u8) },
    ScanComplete { found: usize },
    DeviceLost { port_name: String },
    ScanFailed(String),
}

/// A scan in progress.
#[derive(Debug, PartialEq, Eq)]
pub struct ScanRun {
    /// The ports to probe, in order.
    pub ports: Vec<String>,
    /// Index of the port under probe; the number of ports once all are done.
    pub next: usize,
    /// Devices found so far.
    pub found: usize,
}

/// The announcement that port `at` is under probe: ports count from 1.
pub open spec fn checking(ports: Seq<String>, at: int) -> ScanEvent {
    ScanEvent::CheckingPort { name: ports[at], index: (at + 1) as usize, total: ports.len() as usize }
}

/// The report of how the probe of a port ended.
pub open spec fn reported(port: String, outcome: ProbeOutcome) -> ScanEvent {
    match outcome {
        Ok((uuid, version)) => ScanEvent::DeviceFound { port_name: port, uuid, version },
        Err(reason) => ScanEvent::PortFailed { name: port, reason },
    }
}

/// The events that open a scan of `ports`.
pub open spec fn opening_events(ports: Seq<String>) -> Seq<ScanEvent> {
    if ports.len() == 0 {
        seq![ScanEvent::Started { total_ports: 0 }, ScanEvent::ScanComplete { found: 0 }]
    } else {
        seq![ScanEvent::Started { total_ports: ports.len() as usize }, checking(ports, 0)]
    }
}

/// The number of devices found after one more outcome.
pub open spec fn found_after(found: int, outcome: ProbeOutcome) -> int {
    if outcome is Ok {
        found + 1
    } else {
        found
    }
}

/// The events that follow the outcome of the probe of port `at`, with `found`
/// devices found before it.
pub open spec fn outcome_events(
    ports: Seq<String>,
    at: int,
    found: int,
    outcome: ProbeOutcome,
) -> Seq<ScanEvent> {
    if at + 1 < ports.len() {
        seq![reported(ports[at], outcome), checking(ports, at + 1)]
    } else {
        seq![
            reported(ports[at], outcome),
            ScanEvent::ScanComplete { found: found_after(found, outcome) as usize },
        ]
    }
}

/// The devices found among the outcomes.
pub open spec fn found_among(outcomes: Seq<ProbeOutcome>) -> int
    decreases outcomes.len(),
{
    if outcomes.len() == 0 {
        0
    } else {
        found_after(found_among(outcomes.drop_last()), outcomes.last())
    }
}

/// All events of a scan up to and with the outcome of the last probe made,
/// in the order in which the run gives them out.
pub open spec fn emitted(ports: Seq<String>, outcomes: Seq<ProbeOutcome>) -> Seq<ScanEvent>
    decreases outcomes.len(),
{
    if outcomes.len() == 0 {
        opening_events(ports)
    } else {
        let before = outcomes.drop_last();
        emitted(ports, before) + outcome_events(
            ports,
            before.len() as int,
            found_among(before),
            outcomes.last(),
        )
    }
}

/// The events of a whole scan, by position: the start, then for each port its
/// announcement followed by its report, and the completion last.
pub open spec fn scan_trace(ports: Seq<String>, outcomes: Seq<ProbeOutcome>) -> Seq<ScanEvent> {
    Seq::new(
        2 * ports.len() + 2,
        |k: int|
            if k == 0 {
                ScanEvent::Started { total_ports: ports.len() as usize }
            } else if k == 2 * ports.len() + 1 {
                ScanEvent::ScanComplete { found: found_among(outcomes) as usize }
            } else if k % 2 == 1 {
                checking(ports, (k - 1) / 2)
            } else {
                reported(ports[(k - 2) / 2], outcomes[(k - 2) / 2])
            },
    )
}

/// The event that reports that the ports could not be listed.
pub fn listing_failed(error: &str) -> (event: ScanEvent)
    ensures
        event matches ScanEvent::ScanFailed(text) && text@ == "Cannot list ports: "@ + error@,
{
    ScanEvent::ScanFailed(String::from_str("Cannot list ports: ").concat(error))
}

impl ScanRun {
    /// Whether the run's counters fit its ports.
    pub open spec fn wf(self) -> bool {
        self.found <= self.next <= self.ports@.len()
    }

    /// Starts a scan of `ports`. With no port the scan is complete at once,
    /// with nothing found and no port announced.
    pub fn begin(ports: Vec<String>) -> (started: (ScanRun, Vec<ScanEvent>))
        ensures
            started.0 == (ScanRun { ports, next: 0, found: 0 }),
            started.0.wf(),
            started.1@ == opening_events(ports@),
    {
        let total = ports.len();
        let mut events: Vec<ScanEvent> = Vec::new();
        events.push(ScanEvent::Started { total_ports: total });
        if total == 0 {
            events.push(ScanEvent::ScanComplete { found: 0 });
        } else {
            events.push(ScanEvent::CheckingPort { name: ports[0].clone(), index: 1, total });
        }
        (ScanRun { ports, next: 0, found: 0 }, events)
    }

    /// The port to probe now, if the scan is not over.
    pub fn current_port(&self) -> (port: Option<&String>)
        ensures
            port == if self.next < self.ports@.len() {
                Some(&self.ports@[self.next as int])
            } else {
                None
            },
    {
        if self.next < self.ports.len() {
            Some(&self.ports[self.next])
        } else {
            None
        }
    }

    /// Whether every port has been probed.
    pub fn is_complete(&self) -> (complete: bool)
        ensures
            complete == (self.next >= self.ports@.len()),
    {
        self.next >= self.ports.len()
    }

    /// Takes in how the probe of the current port ended and gives the events
    /// to publish: the port's report, then the next port's announcement or, after
    /// the last port, the completion with the number of devices found. A run
    /// that is over takes nothing in and publishes nothing.
    pub fn record(&mut self, outcome: ProbeOutcome) -> (events: Vec<ScanEvent>)
        requires
            old(self).wf(),
        ensures
            final(self).wf(),
            final(self).ports == old(self).ports,
            old(self).next >= old(self).ports@.len() ==> *final(self) == *old(self) && events@.len()
                == 0,
            old(self).next < old(self).ports@.len() ==> {
                &&& final(self).next == old(self).next + 1
                &&& final(self).found == found_after(old(self).found as int, outcome)
                &&& events@ == outcome_events(
                    old(self).ports@,
                    old(self).next as int,
                    old(self).found as int,
                    outcome,
                )
            },
    {
        let mut events: Vec<ScanEvent> = Vec::new();
        if self.next >= self.ports.len() {
            return events;
        }
        let at = self.next;
        let name = self.ports[at].clone();
        match outcome {
            Ok((uuid, version)) => {
                self.found = self.found + 1;
                events.push(ScanEvent::DeviceFound { port_name: name, uuid, version });
            },
            Err(reason) => {
                events.push(ScanEvent::PortFailed { name, reason });
            },
        }
        self.next = at + 1;
        if self.next < self.ports.len() {
            events.push(
                ScanEvent::CheckingPort {
                    name: self.ports[at + 1].clone(),
                    index: at + 2,
                    total: self.ports.len(),
                },
            );
        } else {
            events.push(ScanEvent::ScanComplete { found: self.found });
        }
        events
    }
}

/// No more devices are found than probes have ended.
pub proof fn lemma_found_bounded(outcomes: Seq<ProbeOutcome>)
    ensures
        0 <= found_among(outcomes) <= outcomes.len(),
    decreases outcomes.len(),
{
    if outcomes.len() > 0 {
        lemma_found_bounded(outcomes.drop_last());
    }
}

/// What a run has given out after some of its probes: the start, then
/// announcement and report by turns, and the announcement of the port under
/// probe last.
proof fn lemma_emitted_prefix(ports: Seq<String>, outcomes: Seq<ProbeOutcome>)
    requires
        outcomes.len() < ports.len(),
    ensures
        emitted(ports, outcomes).len() == 2 * outcomes.len() + 2,
        forall|k: int|
            0 <= k < 2 * outcomes.len() + 2 ==> #[trigger] emitted(ports, outcomes)[k] == if k
                == 0 {
                ScanEvent::Started { total_ports: ports.len() as usize }
            } else if k % 2 == 1 {
                checking(ports, (k - 1) / 2)
            } else {
                reported(ports[(k - 2) / 2], outcomes[(k - 2) / 2])
            },
    decreases outcomes.len(),
{
    if outcomes.len() > 0 {
        let before = outcomes.drop_last();
        lemma_emitted_prefix(ports, before);
        let head = emitted(ports, before);
        let tail = outcome_events(ports, before.len() as int, found_among(before), outcomes.last());
        assert forall|k: int| 0 <= k < 2 * outcomes.len() + 2 implies #[trigger] emitted(
            ports,
            outcomes,
        )[k] == if k == 0 {
            ScanEvent::Started { total_ports: ports.len() as usize }
        } else if k % 2 == 1 {
            checking(ports, (k - 1) / 2)
        } else {
            reported(ports[(k - 2) / 2], outcomes[(k - 2) / 2])
        } by {
            if k < head.len() {
                assert(emitted(ports, outcomes)[k] == head[k]);
                if k != 0 && k % 2 == 0 {
                    assert(before[(k - 2) / 2] == outcomes[(k - 2) / 2]);
                }
            } else {
                assert(emitted(ports, outcomes)[k] == tail[k - head.len()]);
            }
        }
    }
}

/// The events that a run gives out over a whole scan are the start, then for
/// each port in turn its announcement and its report, and the completion
/// last, with the number of devices found.
pub proof fn lemma_emitted_is_trace(ports: Seq<String>, outcomes: Seq<ProbeOutcome>)
    requires
        outcomes.len() == ports.len(),
    ensures
        emitted(ports, outcomes) == scan_trace(ports, outcomes),
{
    if outcomes.len() == 0 {
        assert(emitted(ports, outcomes) =~= scan_trace(ports, outcomes));
    } else {
        let before = outcomes.drop_last();
        lemma_emitted_prefix(ports, before);
        let head = emitted(ports, before);
        let tail = outcome_events(ports, before.len() as int, found_among(before), outcomes.last());
        assert forall|k: int| 0 <= k < 2 * ports.len() + 2 implies emitted(ports, outcomes)[k]
            == scan_trace(ports, outcomes)[k] by {
            if k < head.len() {
                assert(emitted(ports, outcomes)[k] == head[k]);
                if k != 0 && k % 2 == 0 {
                    assert(before[(k - 2) / 2] == outcomes[(k - 2) / 2]);
                }
            } else {
                assert(emitted(ports, outcomes)[k] == tail[k - head.len()]);
            }
        }
        assert(emitted(ports, outcomes) =~= scan_trace(ports, outcomes));
    }
}

/// A scan of no ports gives out the start and the completion, both with a
/// count of zero, and nothing else.
pub proof fn lemma_empty_scan()
    ensures
        emitted(Seq::<String>::empty(), Seq::<ProbeOutcome>::empty()) == seq![
            ScanEvent::Started { total_ports: 0 },
            ScanEvent::ScanComplete { found: 0 },
        ],
{
}

} // verus!
