//! The scan orchestrator: a two-phase sweep over every port, first TCP and then,
//! if enabled, UDP, with a bounded number of probes in flight.
//!
//! The sweep only decides. Its driver asks `next_step` what to do, runs the probe
//! that a `Dispatch` names, waits for some probe to finish on `Await`, and hands each
//! finished probe's outcome back through `complete_tcp` or `complete_udp`.
use vstd::prelude::*;
use vstd::set_lib::lemma_set_empty_equivalency_len;
use crate::address::normalize_target;
use crate::address::normalized_host;
use crate::report::classify_tcp;
use crate::report::classify_udp;
use crate::report::format_result;
use crate::report::header_line;
use crate::report::is_reported;
use crate::report::result_line;
use crate::report::sink_line;
use crate::report::tcp_banner;
use crate::report::tcp_status;
use crate::report::PortStatus;
use crate::report::Protocol;
use crate::report::TcpOutcome;
use crate::settings::ScanSettings;

verus! {

broadcast use lemma_set_empty_equivalency_len;

/// The highest port number; every sweep covers ports `1..=LAST_PORT`.
pub const LAST_PORT: u16 = 65535;

#[derive(Clone, Copy, Debug, PartialEq, Eq, Structural)]
pub enum Phase {
    Tcp,
    Udp,
    Finished,
}

/// One probe to run: a port and the protocol to probe it with.
#[derive(Clone, Copy, Debug, PartialEq, Eq, Structural)]
pub struct ScanJob {
    pub port: u16,
    pub protocol: Protocol,
}

/// What the driver does next.
#[derive(Clone, Copy, Debug, PartialEq, Eq, Structural)]
pub enum Step {
    /// Start this probe; it now holds one of the concurrency permits.
    Dispatch(ScanJob),
    /// Wait for some running probe to finish and report it.
    Await,
    /// Every enabled phase is complete.
    Finish,
}

/// Counts reported when the sweep is over.
#[derive(Clone, Copy, Debug, PartialEq, Eq, Structural)]
pub struct ScanSummary {
    pub open: u32,
    pub closed: u32,
    pub timed_out: u32,
    pub write_failures: u64,
}

/// Every port of a sweep.
pub open spec fn port_range() -> Set<int> {
    Set::new(|p: int| 1 <= p <= LAST_PORT)
}

pub struct Sweep {
    /// The normalized target host.
    pub host: String,
    pub concurrency: usize,
    pub show_only_open: bool,
    pub udp_enabled: bool,
    pub phase: Phase,
    /// The next port to dispatch in the current phase (`LAST_PORT + 1` when all are).
    pub next_port: u32,
    /// Probes dispatched and not yet completed.
    pub in_flight: usize,
    /// Probes dispatched over both phases.
    pub dispatched: u32,
    pub open: u32,
    pub closed: u32,
    pub timed_out: u32,
    pub write_failures: u64,
    /// Ports of the current phase whose probe is running.
    pub pending: Ghost<Set<int>>,
    /// Ports whose TCP result has been recorded.
    pub tcp_reported: Ghost<Set<int>>,
    /// Ports whose UDP probe has completed, with a result or without.
    pub udp_done: Ghost<Set<int>>,
    /// The ports of the TCP results, in the order they were recorded.
    pub tcp_log: Ghost<Seq<int>>,
}

/// Phase and next port once the barrier at the end of a drained phase is crossed.
pub open spec fn barrier_phase(s: Sweep) -> Phase {
    if s.next_port > LAST_PORT && s.in_flight == 0 {
        match s.phase {
            Phase::Tcp => if s.udp_enabled { Phase::Udp } else { Phase::Finished },
            _ => Phase::Finished,
        }
    } else {
        s.phase
    }
}

pub open spec fn barrier_port(s: Sweep) -> u32 {
    if barrier_phase(s) != s.phase { 1 } else { s.next_port }
}

pub open spec fn phase_protocol(p: Phase) -> Protocol {
    if p == Phase::Udp { Protocol::Udp } else { Protocol::Tcp }
}

/// The settings and counts that only completions change.
pub open spec fn same_tallies(a: Sweep, b: Sweep) -> bool {
    &&& a.host@ == b.host@
    &&& a.concurrency == b.concurrency
    &&& a.show_only_open == b.show_only_open
    &&& a.udp_enabled == b.udp_enabled
    &&& a.open == b.open
    &&& a.closed == b.closed
    &&& a.timed_out == b.timed_out
    &&& a.write_failures == b.write_failures
    &&& a.tcp_reported@ == b.tcp_reported@
    &&& a.udp_done@ == b.udp_done@
    &&& a.tcp_log@ == b.tcp_log@
}

impl Sweep {
    pub open spec fn wf(&self) -> bool {
        &&& self.concurrency > 0
        &&& self.pending@.finite()
        &&& self.in_flight == self.pending@.len()
        &&& self.in_flight <= self.concurrency
        &&& 1 <= self.next_port <= LAST_PORT + 1
        &&& forall|p: int| #[trigger] self.pending@.contains(p) ==> 1 <= p < self.next_port
        &&& self.open + self.closed + self.timed_out + self.in_flight <= self.dispatched
        &&& self.dispatched <= 2 * LAST_PORT
        &&& self.tcp_log@.no_duplicates()
        &&& forall|i: int| 0 <= i < self.tcp_log@.len() ==> self.tcp_reported@.contains(#[trigger] self.tcp_log@[i])
        &&& forall|p: int| #[trigger] self.tcp_reported@.contains(p) ==> self.tcp_log@.contains(p)
        &&& match self.phase {
            Phase::Tcp => {
                &&& self.dispatched == self.next_port - 1
                &&& forall|p: int| #[trigger]
                    self.tcp_reported@.contains(p) <==> (1 <= p < self.next_port
                        && !self.pending@.contains(p))
                &&& self.udp_done@ == Set::<int>::empty()
            },
            Phase::Udp => {
                &&& self.udp_enabled
                &&& self.dispatched == LAST_PORT + self.next_port - 1
                &&& self.tcp_reported@ == port_range()
                &&& forall|p: int| #[trigger]
                    self.udp_done@.contains(p) <==> (1 <= p < self.next_port
                        && !self.pending@.contains(p))
            },
            Phase::Finished => {
                &&& self.pending@ == Set::<int>::empty()
                &&& self.tcp_reported@ == port_range()
                &&& self.udp_done@ == (if self.udp_enabled {
                    port_range()
                } else {
                    Set::<int>::empty()
                })
            },
        }
    }

    /// A sweep of `target` (normalized here, once) under validated settings.
    pub fn new(target: &str, settings: &ScanSettings) -> (r: Sweep)
        requires
            settings.wf(),
        ensures
            r.wf(),
            r.host@ == normalized_host(target@),
            r.concurrency == settings.concurrency,
            r.show_only_open == settings.show_only_open,
            r.udp_enabled == settings.scan_udp_enabled,
            r.phase == Phase::Tcp,
            r.next_port == 1,
            r.pending@ == Set::<int>::empty(),
            r.tcp_reported@ == Set::<int>::empty(),
            r.tcp_log@ == Seq::<int>::empty(),
            r.open == 0 && r.closed == 0 && r.timed_out == 0 && r.write_failures == 0,
    {
        let r = Sweep {
            host: normalize_target(target),
            concurrency: settings.concurrency,
            show_only_open: settings.show_only_open,
            udp_enabled: settings.scan_udp_enabled,
            phase: Phase::Tcp,
            next_port: 1,
            in_flight: 0,
            dispatched: 0,
            open: 0,
            closed: 0,
            timed_out: 0,
            write_failures: 0,
            pending: Ghost(Set::empty()),
            tcp_reported: Ghost(Set::empty()),
            udp_done: Ghost(Set::empty()),
            tcp_log: Ghost(Seq::empty()),
        };
        assert(r.tcp_reported@ =~= Set::<int>::empty());
        r
    }

    /// The header line of the output.
    pub fn header(&self) -> (r: String)
        ensures
            r@ == "Scan Results for "@ + self.host@,
    {
        header_line(self.host.as_str())
    }

    /// Decides the next step. Within a phase ports are dispatched in ascending
    /// order while fewer than `concurrency` probes run; a phase's last probe must
    /// complete before the next phase dispatches anything.
    pub fn next_step(&mut self) -> (r: Step)
        requires
            old(self).wf(),
        ensures
            final(self).wf(),
            same_tallies(*final(self), *old(self)),
            barrier_phase(*old(self)) == Phase::Finished ==> r == Step::Finish && final(self).phase
                == Phase::Finished,
            barrier_phase(*old(self)) != Phase::Finished && barrier_port(*old(self)) <= LAST_PORT
                && old(self).in_flight < old(self).concurrency ==> {
                &&& r == Step::Dispatch(
                    ScanJob {
                        port: barrier_port(*old(self)) as u16,
                        protocol: phase_protocol(barrier_phase(*old(self))),
                    },
                )
                &&& final(self).phase == barrier_phase(*old(self))
                &&& final(self).next_port == barrier_port(*old(self)) + 1
                &&& final(self).in_flight == old(self).in_flight + 1
                &&& final(self).pending@ == old(self).pending@.insert(barrier_port(*old(self)) as int)
            },
            barrier_phase(*old(self)) != Phase::Finished && (barrier_port(*old(self)) > LAST_PORT
                || old(self).in_flight >= old(self).concurrency) ==> r == Step::Await && *final(self)
                == *old(self),
            r matches Step::Dispatch(job) ==> job.protocol == Protocol::Udp ==> old(
                self,
            ).tcp_reported@ == port_range() && old(self).phase != Phase::Finished,
    {
        if self.next_port > LAST_PORT as u32 && self.in_flight == 0 {
            match self.phase {
                Phase::Tcp => {
                    assert(self.pending@ =~= Set::<int>::empty());
                    assert(self.tcp_reported@ =~= port_range());
                    if self.udp_enabled {
                        self.phase = Phase::Udp;
                        self.next_port = 1;
                        assert(self.udp_done@ =~= Set::<int>::empty());
                    } else {
                        self.phase = Phase::Finished;
                    }
                },
                Phase::Udp => {
                    assert(self.pending@ =~= Set::<int>::empty());
                    assert(self.udp_done@ =~= port_range());
                    self.phase = Phase::Finished;
                },
                Phase::Finished => {},
            }
        }
        if self.phase == Phase::Finished {
            return Step::Finish;
        }
        if self.next_port > LAST_PORT as u32 || self.in_flight >= self.concurrency {
            return Step::Await;
        }
        let port = self.next_port as u16;
        let protocol = if self.phase == Phase::Udp { Protocol::Udp } else { Protocol::Tcp };
        assert(!self.pending@.contains(port as int));
        self.pending = Ghost(self.pending@.insert(port as int));
        self.in_flight = self.in_flight + 1;
        self.next_port = self.next_port + 1;
        self.dispatched = self.dispatched + 1;
        Step::Dispatch(ScanJob { port, protocol })
    }

    /// Records the outcome of the TCP probe of `port`, and gives the line that the
    /// sink writes for it, if any.
    pub fn complete_tcp(&mut self, port: u16, outcome: &TcpOutcome) -> (r: Option<String>)
        requires
            old(self).wf(),
            old(self).phase == Phase::Tcp,
            old(self).pending@.contains(port as int),
        ensures
            final(self).wf(),
            !old(self).tcp_reported@.contains(port as int),
            final(self).tcp_reported@ == old(self).tcp_reported@.insert(port as int),
            final(self).tcp_log@ == old(self).tcp_log@.push(port as int),
            final(self).pending@ == old(self).pending@.remove(port as int),
            final(self).in_flight == old(self).in_flight - 1,
            final(self).phase == old(self).phase,
            final(self).next_port == old(self).next_port,
            final(self).host@ == old(self).host@,
            final(self).concurrency == old(self).concurrency,
            final(self).show_only_open == old(self).show_only_open,
            final(self).udp_enabled == old(self).udp_enabled,
            final(self).udp_done@ == old(self).udp_done@,
            final(self).write_failures == old(self).write_failures,
            final(self).open == old(self).open + if tcp_status(*outcome) == PortStatus::Open { 1int } else { 0 },
            final(self).closed == old(self).closed + if tcp_status(*outcome) == PortStatus::Closed { 1int } else { 0 },
            final(self).timed_out == old(self).timed_out + if tcp_status(*outcome) == PortStatus::Timeout { 1int } else { 0 },
            r is Some <==> is_reported(old(self).show_only_open, tcp_status(*outcome)),
            old(self).show_only_open && r is Some ==> tcp_status(*outcome) == PortStatus::Open,
            r matches Some(line) ==> line@ == result_line(
                old(self).host@,
                port,
                Protocol::Tcp,
                tcp_status(*outcome),
                tcp_banner(*outcome),
            ),
    {
        let result = classify_tcp(port, outcome);
        match result.status {
            PortStatus::Open => self.open = self.open + 1,
            PortStatus::Closed => self.closed = self.closed + 1,
            PortStatus::Timeout => self.timed_out = self.timed_out + 1,
        }
        self.pending = Ghost(self.pending@.remove(port as int));
        self.tcp_reported = Ghost(self.tcp_reported@.insert(port as int));
        proof {
            let log = self.tcp_log@;
            let grown = log.push(port as int);
            assert(!log.contains(port as int));
            assert forall|i: int, j: int| 0 <= i < grown.len() && 0 <= j < grown.len() && i != j
                implies grown[i] != grown[j] by {
                if i < log.len() && j < log.len() {
                } else if i < log.len() {
                    assert(log[i] != port as int);
                } else if j < log.len() {
                    assert(log[j] != port as int);
                }
            }
            assert forall|p: int| #[trigger] self.tcp_reported@.contains(p) implies grown.contains(p) by {
                if p == port as int {
                    assert(grown[log.len() as int] == p);
                } else {
                    assert(log.contains(p));
                    let i = choose|i: int| 0 <= i < log.len() && log[i] == p;
                    assert(grown[i] == p);
                }
            }
            self.tcp_log = Ghost(grown);
        }
        self.in_flight = self.in_flight - 1;
        sink_line(self.show_only_open, self.host.as_str(), &result)
    }

    /// Records the end of the UDP probe of `port`. Only a reply gives a result
    /// (open, with its line); silence gives none and changes no count.
    pub fn complete_udp(&mut self, port: u16, replied: bool) -> (r: Option<String>)
        requires
            old(self).wf(),
            old(self).phase == Phase::Udp,
            old(self).pending@.contains(port as int),
        ensures
            final(self).wf(),
            !old(self).udp_done@.contains(port as int),
            final(self).udp_done@ == old(self).udp_done@.insert(port as int),
            final(self).pending@ == old(self).pending@.remove(port as int),
            final(self).in_flight == old(self).in_flight - 1,
            final(self).phase == old(self).phase,
            final(self).next_port == old(self).next_port,
            final(self).host@ == old(self).host@,
            final(self).concurrency == old(self).concurrency,
            final(self).show_only_open == old(self).show_only_open,
            final(self).udp_enabled == old(self).udp_enabled,
            final(self).tcp_reported@ == old(self).tcp_reported@,
            final(self).write_failures == old(self).write_failures,
            final(self).open == old(self).open + if replied { 1int } else { 0 },
            final(self).closed == old(self).closed,
            final(self).timed_out == old(self).timed_out,
            r is Some <==> replied,
            r matches Some(line) ==> line@ == result_line(
                old(self).host@,
                port,
                Protocol::Udp,
                PortStatus::Open,
                Seq::empty(),
            ),
    {
        let result = classify_udp(port, replied);
        self.pending = Ghost(self.pending@.remove(port as int));
        self.udp_done = Ghost(self.udp_done@.insert(port as int));
        self.in_flight = self.in_flight - 1;
        match result {
            Some(res) => {
                self.open = self.open + 1;
                proof {
                    assert(res.banner@ =~= Seq::<char>::empty());
                }
                Some(format_result(self.host.as_str(), &res))
            },
            None => None,
        }
    }

    /// Counts one output line that could not be written; the sweep goes on.
    pub fn record_write_failure(&mut self)
        requires
            old(self).wf(),
        ensures
            final(self).wf(),
            final(self).write_failures == if old(self).write_failures < u64::MAX {
                old(self).write_failures + 1
            } else {
                old(self).write_failures as int
            },
            final(self).phase == old(self).phase,
            final(self).next_port == old(self).next_port,
            final(self).in_flight == old(self).in_flight,
            final(self).pending@ == old(self).pending@,
            final(self).dispatched == old(self).dispatched,
            final(self).host@ == old(self).host@,
            final(self).concurrency == old(self).concurrency,
            final(self).show_only_open == old(self).show_only_open,
            final(self).udp_enabled == old(self).udp_enabled,
            final(self).open == old(self).open,
            final(self).closed == old(self).closed,
            final(self).timed_out == old(self).timed_out,
            final(self).tcp_reported@ == old(self).tcp_reported@,
            final(self).udp_done@ == old(self).udp_done@,
    {
        if self.write_failures < u64::MAX {
            self.write_failures = self.write_failures + 1;
        }
    }

    pub fn summary(&self) -> (r: ScanSummary)
        ensures
            r == (ScanSummary {
                open: self.open,
                closed: self.closed,
                timed_out: self.timed_out,
                write_failures: self.write_failures,
            }),
    {
        ScanSummary {
            open: self.open,
            closed: self.closed,
            timed_out: self.timed_out,
            write_failures: self.write_failures,
        }
    }
}

/// When a sweep is over, the TCP results recorded hold every port from 1 to
/// `LAST_PORT`, only those, and none twice: exactly one result per port.
pub proof fn lemma_tcp_totality(s: Sweep)
    requires
        s.wf(),
        s.phase == Phase::Finished,
    ensures
        s.tcp_reported@ == port_range(),
        s.tcp_log@.no_duplicates(),
        forall|p: int| 1 <= p <= LAST_PORT ==> #[trigger] s.tcp_log@.contains(p),
        forall|i: int| 0 <= i < s.tcp_log@.len() ==> 1 <= #[trigger] s.tcp_log@[i] <= LAST_PORT,
{
    assert forall|p: int| 1 <= p <= LAST_PORT implies #[trigger] s.tcp_log@.contains(p) by {
        assert(s.tcp_reported@.contains(p));
    }
    assert forall|i: int| 0 <= i < s.tcp_log@.len() implies 1 <= #[trigger] s.tcp_log@[i] <= LAST_PORT by {
        assert(s.tcp_reported@.contains(s.tcp_log@[i]));
    }
}

/// At every reachable state no more than `concurrency` probes are running.
pub proof fn lemma_concurrency_bound(s: Sweep)
    requires
        s.wf(),
    ensures
        s.pending@.len() <= s.concurrency,
        s.in_flight <= s.concurrency,
{
}

/// Once the UDP phase has begun, every TCP result has been recorded.
pub proof fn lemma_phase_barrier(s: Sweep)
    requires
        s.wf(),
        s.phase == Phase::Udp,
    ensures
        s.tcp_reported@ == port_range(),
{
}

} // verus!
