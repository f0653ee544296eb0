//! Probe outcomes, their classification into scan results, and the text lines
//! that the result sink writes.
use vstd::prelude::*;
use vstd::slice::slice_subrange;
use crate::address::decimal;
use crate::address::port_text;

verus! {

/// Most bytes of a greeting that a TCP probe keeps as its banner.
pub const BANNER_LIMIT: usize = 1024;

#[derive(Clone, Copy, Debug, PartialEq, Eq, Structural)]
pub enum Protocol {
    Tcp,
    Udp,
}

#[derive(Clone, Copy, Debug, PartialEq, Eq, Structural)]
pub enum PortStatus {
    Open,
    Closed,
    Timeout,
}

/// What one TCP connect attempt observed.
#[derive(Clone, Debug)]
pub enum TcpOutcome {
    /// The handshake completed; the bytes are what the best-effort read got
    /// (empty when nothing came or the read failed).
    Connected(Vec<u8>),
    /// The connection was refused or failed.
    Refused,
    /// The connection did not complete within the timeout.
    TimedOut,
}

/// One classified port.
#[derive(Clone, Debug)]
pub struct ScanResult {
    pub port: u16,
    pub protocol: Protocol,
    pub status: PortStatus,
    pub banner: String,
}

/// The text that `String::from_utf8_lossy` makes of a byte string.
pub uninterp spec fn lossy_text(b: Seq<u8>) -> Seq<char>;

/// Relies on `String::from_utf8_lossy`: decodes UTF-8, replacing invalid
/// sequences, and never fails; no bytes give no text.
#[verifier::external_body]
fn decode_lossy(b: &[u8]) -> (r: String)
    ensures
        r@ == lossy_text(b@),
        b@.len() == 0 ==> r@.len() == 0,
{
    String::from_utf8_lossy(b).into_owned()
}

/// The bytes of a greeting that are kept: at most `BANNER_LIMIT` of them.
pub open spec fn banner_bytes(b: Seq<u8>) -> Seq<u8> {
    if b.len() <= BANNER_LIMIT {
        b
    } else {
        b.subrange(0, BANNER_LIMIT as int)
    }
}

pub open spec fn tcp_status(o: TcpOutcome) -> PortStatus {
    match o {
        TcpOutcome::Connected(_) => PortStatus::Open,
        TcpOutcome::Refused => PortStatus::Closed,
        TcpOutcome::TimedOut => PortStatus::Timeout,
    }
}

/// The banner text of a TCP probe: the decoded greeting of an open port, else empty.
pub open spec fn tcp_banner(o: TcpOutcome) -> Seq<char> {
    match o {
        TcpOutcome::Connected(b) => lossy_text(banner_bytes(b@)),
        _ => Seq::empty(),
    }
}

/// Classifies one TCP probe. Every outcome gives exactly one result; a failed or
/// empty banner read never changes an open port's status.
pub fn classify_tcp(port: u16, outcome: &TcpOutcome) -> (r: ScanResult)
    ensures
        r.port == port,
        r.protocol == Protocol::Tcp,
        r.status == tcp_status(*outcome),
        r.banner@ == tcp_banner(*outcome),
{
    match outcome {
        TcpOutcome::Connected(bytes) => {
            let n = if bytes.len() <= BANNER_LIMIT { bytes.len() } else { BANNER_LIMIT };
            let kept = slice_subrange(bytes.as_slice(), 0, n);
            proof {
                assert(kept@ =~= banner_bytes(bytes@));
            }
            ScanResult { port, protocol: Protocol::Tcp, status: PortStatus::Open, banner: decode_lossy(kept) }
        },
        TcpOutcome::Refused => ScanResult {
            port,
            protocol: Protocol::Tcp,
            status: PortStatus::Closed,
            banner: String::new(),
        },
        TcpOutcome::TimedOut => ScanResult {
            port,
            protocol: Protocol::Tcp,
            status: PortStatus::Timeout,
            banner: String::new(),
        },
    }
}

/// Classifies one UDP probe. A reply marks the port open; silence, or any failure
/// on the way, gives no result at all, never a closed one.
pub fn classify_udp(port: u16, replied: bool) -> (r: Option<ScanResult>)
    ensures
        replied <==> r is Some,
        r matches Some(res) ==> res.port == port && res.protocol == Protocol::Udp && res.status
            == PortStatus::Open && res.banner@.len() == 0,
{
    if replied {
        Some(ScanResult { port, protocol: Protocol::Udp, status: PortStatus::Open, banner: String::new() })
    } else {
        None
    }
}

pub open spec fn status_text(s: PortStatus) -> Seq<char> {
    match s {
        PortStatus::Open => "OPEN"@,
        PortStatus::Closed => "CLOSED"@,
        PortStatus::Timeout => "TIMEOUT"@,
    }
}

pub open spec fn protocol_tag(p: Protocol) -> Seq<char> {
    match p {
        Protocol::Tcp => "[TCP] "@,
        Protocol::Udp => "[UDP] "@,
    }
}

/// `[PROTOCOL] host:port => STATUS`, then ` | Banner: text` when the banner is not empty.
pub open spec fn result_line(host: Seq<char>, port: u16, protocol: Protocol, status: PortStatus, banner: Seq<char>) -> Seq<char> {
    let line = protocol_tag(protocol) + host + ":"@ + decimal(port as nat) + " => "@ + status_text(status);
    if banner.len() > 0 {
        line + " | Banner: "@ + banner
    } else {
        line
    }
}

/// Whether the sink writes a result: all of them, or only the open ones.
pub open spec fn is_reported(show_only_open: bool, status: PortStatus) -> bool {
    !show_only_open || status == PortStatus::Open
}

fn status_str(s: PortStatus) -> (r: &'static str)
    ensures
        r@ == status_text(s),
{
    match s {
        PortStatus::Open => "OPEN",
        PortStatus::Closed => "CLOSED",
        PortStatus::Timeout => "TIMEOUT",
    }
}

fn protocol_str(p: Protocol) -> (r: &'static str)
    ensures
        r@ == protocol_tag(p),
{
    match p {
        Protocol::Tcp => "[TCP] ",
        Protocol::Udp => "[UDP] ",
    }
}

/// The output line for one result about `host`.
pub fn format_result(host: &str, result: &ScanResult) -> (r: String)
    ensures
        r@ == result_line(host@, result.port, result.protocol, result.status, result.banner@),
{
    let mut r = String::from_str(protocol_str(result.protocol));
    r.append(host);
    r.append(":");
    let p = port_text(result.port);
    r.append(p.as_str());
    r.append(" => ");
    r.append(status_str(result.status));
    if result.banner.as_str().unicode_len() > 0 {
        r.append(" | Banner: ");
        r.append(result.banner.as_str());
    }
    r
}

/// What the sink writes for one result: its line, or nothing where only open
/// ports are shown and this one is not open.
pub fn sink_line(show_only_open: bool, host: &str, result: &ScanResult) -> (r: Option<String>)
    ensures
        r is Some <==> is_reported(show_only_open, result.status),
        r matches Some(line) ==> line@ == result_line(host@, result.port, result.protocol, result.status, result.banner@),
        show_only_open && r is Some ==> result.status == PortStatus::Open,
{
    if show_only_open && result.status != PortStatus::Open {
        None
    } else {
        Some(format_result(host, result))
    }
}

/// The header line that precedes all result lines.
pub fn header_line(host: &str) -> (r: String)
    ensures
        r@ == "Scan Results for "@ + host@,
{
    let mut r = String::from_str("Scan Results for ");
    r.append(host);
    r
}

} // verus!
