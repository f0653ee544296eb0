use port_scanner::report::{Protocol, TcpOutcome};
use port_scanner::settings::prompt_settings;
use port_scanner::sweep::{Phase, ScanJob, ScanSummary, Step, Sweep, LAST_PORT};

struct Run {
    tcp_results: Vec<u32>,
    udp_dispatched: Vec<u32>,
    lines: Vec<String>,
    max_in_flight: usize,
    udp_before_tcp_done: bool,
    summary: ScanSummary,
}

/// Drives a sweep to the end: even ports refuse, ports divisible by 3 time out,
/// the rest are open; UDP replies only on port 53. Completes the newest probe first
/// when `lifo`, else the oldest.
fn drive(target: &str, concurrency: &str, only_open: &str, udp: &str, lifo: bool) -> (Sweep, Run) {
    let settings = prompt_settings(concurrency, "1", only_open, "n", udp, "out.txt").unwrap();
    let mut sweep = Sweep::new(target, &settings);
    let mut running: Vec<ScanJob> = Vec::new();
    let mut tcp_completed: u32 = 0;
    let mut run = Run {
        tcp_results: vec![0; LAST_PORT as usize + 1],
        udp_dispatched: vec![0; LAST_PORT as usize + 1],
        lines: Vec::new(),
        max_in_flight: 0,
        udp_before_tcp_done: false,
        summary: sweep.summary(),
    };
    loop {
        match sweep.next_step() {
            Step::Dispatch(job) => {
                if job.protocol == Protocol::Udp {
                    run.udp_dispatched[job.port as usize] += 1;
                    if tcp_completed != LAST_PORT as u32 {
                        run.udp_before_tcp_done = true;
                    }
                }
                running.push(job);
                run.max_in_flight = run.max_in_flight.max(running.len());
            }
            Step::Await => {
                let job = if lifo { running.pop().unwrap() } else { running.remove(0) };
                let line = match job.protocol {
                    Protocol::Tcp => {
                        run.tcp_results[job.port as usize] += 1;
                        tcp_completed += 1;
                        let outcome = if job.port % 2 == 0 {
                            TcpOutcome::Refused
                        } else if job.port % 3 == 0 {
                            TcpOutcome::TimedOut
                        } else {
                            TcpOutcome::Connected(Vec::new())
                        };
                        sweep.complete_tcp(job.port, &outcome)
                    }
                    Protocol::Udp => sweep.complete_udp(job.port, job.port == 53),
                };
                if let Some(l) = line {
                    run.lines.push(l);
                }
            }
            Step::Finish => break,
        }
    }
    run.summary = sweep.summary();
    (sweep, run)
}

fn open_tcp_ports() -> u32 {
    (1..=65535u32).filter(|p| p % 2 != 0 && p % 3 != 0).count() as u32
}

#[test]
fn every_tcp_port_gets_exactly_one_result() {
    let (sweep, run) = drive("127.0.0.1", "7", "n", "n", false);
    assert!(run.tcp_results[1..].iter().all(|&n| n == 1));
    assert_eq!(run.tcp_results[0], 0);
    assert_eq!(sweep.phase, Phase::Finished);
    assert_eq!(run.lines.len(), 65535);
    assert!(run.udp_dispatched.iter().all(|&n| n == 0));
    assert_eq!(run.summary.open + run.summary.closed + run.summary.timed_out, 65535);
    assert_eq!(run.summary.closed, 32767);
    assert_eq!(run.summary.open, open_tcp_ports());
}

#[test]
fn in_flight_never_exceeds_concurrency() {
    let (_, run) = drive("h", "5", "n", "y", true);
    assert_eq!(run.max_in_flight, 5);
    let (_, run) = drive("h", "1", "y", "n", false);
    assert_eq!(run.max_in_flight, 1);
}

#[test]
fn udp_starts_only_after_tcp_is_done() {
    let (sweep, run) = drive("[[::1]]", "64", "n", "y", true);
    assert!(!run.udp_before_tcp_done);
    assert!(run.udp_dispatched[1..].iter().all(|&n| n == 1));
    assert_eq!(sweep.phase, Phase::Finished);
    assert_eq!(sweep.host, "[::1]");
    assert_eq!(run.summary.open, open_tcp_ports() + 1);
    assert!(run.lines.iter().any(|l| l == "[UDP] [::1]:53 => OPEN"));
    assert_eq!(run.lines.iter().filter(|l| l.starts_with("[UDP]")).count(), 1);
}

#[test]
fn show_only_open_writes_no_closed_or_timeout_lines() {
    let (_, run) = drive("10.0.0.2", "16", "y", "n", false);
    assert_eq!(run.lines.len() as u32, open_tcp_ports());
    assert!(run.lines.iter().all(|l| l.ends_with("=> OPEN")));
    assert!(run.lines.iter().any(|l| l == "[TCP] 10.0.0.2:1 => OPEN"));
}

#[test]
fn first_steps_dispatch_in_port_order_up_to_the_bound() {
    let settings = prompt_settings("3", "1", "n", "n", "y", "o").unwrap();
    let mut sweep = Sweep::new("h", &settings);
    assert_eq!(sweep.header(), "Scan Results for h");
    for port in 1..=3u16 {
        assert_eq!(sweep.next_step(), Step::Dispatch(ScanJob { port, protocol: Protocol::Tcp }));
    }
    assert_eq!(sweep.next_step(), Step::Await);
    assert_eq!(sweep.complete_tcp(2, &TcpOutcome::Refused), Some("[TCP] h:2 => CLOSED".to_string()));
    assert_eq!(sweep.next_step(), Step::Dispatch(ScanJob { port: 4, protocol: Protocol::Tcp }));
    sweep.record_write_failure();
    assert_eq!(
        sweep.summary(),
        ScanSummary { open: 0, closed: 1, timed_out: 0, write_failures: 1 }
    );
}

#[test]
fn silent_udp_port_adds_nothing() {
    let settings = prompt_settings("1", "1", "n", "n", "y", "o").unwrap();
    let mut sweep = Sweep::new("h", &settings);
    let mut port = 0u16;
    while port < LAST_PORT {
        match sweep.next_step() {
            Step::Dispatch(job) => {
                sweep.complete_tcp(job.port, &TcpOutcome::Refused);
                port = job.port;
            }
            other => panic!("unexpected {:?}", other),
        }
    }
    let job = sweep.next_step();
    assert_eq!(job, Step::Dispatch(ScanJob { port: 1, protocol: Protocol::Udp }));
    let before = sweep.summary();
    assert_eq!(sweep.complete_udp(1, false), None);
    assert_eq!(sweep.summary(), before);
}
