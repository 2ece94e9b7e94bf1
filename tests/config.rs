use horizon_sockets::config::{SockOpt, TOS_LOW_DELAY, TOS_THROUGHPUT};
use horizon_sockets::raw::{Domain, Type};
use horizon_sockets::setup::{SetupAction, SetupSession, SetupStep};
use horizon_sockets::{apply_low_latency, NetConfig, NetError, Platform};

fn linux() -> Platform {
    Platform {
        af_inet: 2,
        af_inet6: 10,
        len_prefixed: false,
        little_endian: true,
        would_block: 11,
        batch_receive: true,
        reuse_port: true,
        busy_poll: true,
        quick_ack: true,
    }
}

fn windows() -> Platform {
    Platform {
        af_inet: 2,
        af_inet6: 23,
        len_prefixed: false,
        little_endian: true,
        would_block: 10035,
        batch_receive: false,
        reuse_port: false,
        busy_poll: false,
        quick_ack: false,
    }
}

fn options(s: &SetupSession) -> Vec<SockOpt> {
    let mut out = Vec::new();
    for i in 0..s.len() {
        match s.step(i) {
            SetupStep::SetOption(o) => out.push(*o),
            other => panic!("unexpected step {:?}", other),
        }
    }
    out
}

/// Drives a session, answering each step with the result `answer` gives,
/// and returns its outcome and how many steps were performed.
fn drive(s: &mut SetupSession, answer: impl Fn(&SetupStep) -> Result<(), NetError>) -> (Result<(), NetError>, usize) {
    let mut performed = 0;
    loop {
        match s.next_action() {
            SetupAction::Perform(i) => {
                let r = answer(s.step(i));
                performed += 1;
                s.record(r);
            }
            SetupAction::Finished(r) => return (r, performed),
        }
    }
}

#[test]
fn default_config_values() {
    let c = NetConfig::default();
    assert!(c.tcp_nodelay);
    assert!(c.tcp_quickack);
    assert!(c.reuse_port);
    assert_eq!(c.busy_poll, None);
    assert_eq!(c.recv_buf, Some(4 << 20));
    assert_eq!(c.send_buf, Some(4 << 20));
    assert_eq!(c.tos, None);
    assert_eq!(c.ipv6_only, Some(false));
    assert_eq!(c.hop_limit, None);
    assert_eq!(c.tcp_backlog, Some(1024));
    assert_eq!(c.poll_timeout_ms, Some(10));
}

#[test]
fn preset_values() {
    let l = NetConfig::low_latency();
    assert_eq!((l.recv_buf, l.send_buf), (Some(256 << 10), Some(256 << 10)));
    assert_eq!(l.busy_poll, Some(50));
    assert_eq!(l.tos, Some(TOS_LOW_DELAY));
    assert_eq!(l.tcp_backlog, Some(512));
    assert_eq!(l.poll_timeout_ms, Some(1));
    assert!(l.tcp_nodelay);

    let h = NetConfig::high_throughput();
    assert_eq!((h.recv_buf, h.send_buf), (Some(16 << 20), Some(16 << 20)));
    assert_eq!(h.busy_poll, None);
    assert!(!h.tcp_nodelay);
    assert_eq!(h.tos, Some(TOS_THROUGHPUT));
    assert_eq!(h.tcp_backlog, Some(2048));
    assert_eq!(h.poll_timeout_ms, Some(50));

    let p = NetConfig::power_efficient();
    assert_eq!((p.recv_buf, p.send_buf), (Some(512 << 10), Some(512 << 10)));
    assert_eq!(p.busy_poll, None);
    assert!(!p.reuse_port);
    assert_eq!(p.tcp_backlog, Some(256));
    assert_eq!(p.poll_timeout_ms, Some(100));
}

#[test]
fn option_order_for_ipv6_stream() {
    let cfg = NetConfig {
        busy_poll: Some(50),
        tos: Some(0x10),
        ipv6_only: Some(true),
        hop_limit: Some(7),
        ..NetConfig::default()
    };
    let s = apply_low_latency(Domain::Ipv6, Type::Stream, &cfg, &linux());
    assert_eq!(
        options(&s),
        vec![
            SockOpt::RecvBuffer(4 << 20),
            SockOpt::SendBuffer(4 << 20),
            SockOpt::TrafficClassV6(0x10),
            SockOpt::Ipv6Only(true),
            SockOpt::HopLimit(7),
            SockOpt::ReusePort(true),
            SockOpt::BusyPoll(50),
            SockOpt::QuickAck(true),
            SockOpt::NoDelay(true),
        ]
    );
}

#[test]
fn option_plan_for_ipv4_datagram() {
    let cfg = NetConfig { tos: Some(0x08), hop_limit: Some(3), ..NetConfig::default() };
    let s = apply_low_latency(Domain::Ipv4, Type::Dgram, &cfg, &linux());
    assert_eq!(
        options(&s),
        vec![
            SockOpt::RecvBuffer(4 << 20),
            SockOpt::SendBuffer(4 << 20),
            SockOpt::TosV4(0x08),
            SockOpt::ReusePort(true),
        ]
    );
}

#[test]
fn unsupported_advisory_options_are_left_out() {
    let cfg = NetConfig { busy_poll: Some(50), ..NetConfig::default() };
    let s = apply_low_latency(Domain::Ipv4, Type::Stream, &cfg, &windows());
    assert_eq!(
        options(&s),
        vec![SockOpt::RecvBuffer(4 << 20), SockOpt::SendBuffer(4 << 20), SockOpt::NoDelay(true)]
    );
}

#[test]
fn oversized_buffer_saturates() {
    let cfg = NetConfig {
        recv_buf: Some(usize::MAX),
        send_buf: None,
        reuse_port: false,
        ..NetConfig::default()
    };
    let s = apply_low_latency(Domain::Ipv4, Type::Dgram, &cfg, &linux());
    assert_eq!(options(&s), vec![SockOpt::RecvBuffer(i32::MAX)]);
}

#[test]
fn advisory_failures_are_never_reported() {
    let cfg = NetConfig { busy_poll: Some(50), ..NetConfig::default() };
    let mut s = apply_low_latency(Domain::Ipv4, Type::Stream, &cfg, &linux());
    let n = s.len();
    let (r, performed) = drive(&mut s, |step| match step {
        SetupStep::SetOption(SockOpt::ReusePort(_))
        | SetupStep::SetOption(SockOpt::BusyPoll(_))
        | SetupStep::SetOption(SockOpt::QuickAck(_)) => Err(NetError::Os(92)),
        _ => Ok(()),
    });
    assert_eq!(r, Ok(()));
    assert_eq!(performed, n);
}

#[test]
fn fatal_failure_stops_the_setup() {
    let mut s = apply_low_latency(Domain::Ipv4, Type::Stream, &NetConfig::default(), &linux());
    let (r, performed) = drive(&mut s, |step| match step {
        SetupStep::SetOption(SockOpt::SendBuffer(_)) => Err(NetError::Os(1)),
        _ => Ok(()),
    });
    assert_eq!(r, Err(NetError::Os(1)));
    assert_eq!(performed, 2);
    assert_eq!(s.next_action(), SetupAction::Finished(Err(NetError::Os(1))));
}

#[test]
fn nodelay_failure_is_fatal() {
    let mut s = apply_low_latency(Domain::Ipv4, Type::Stream, &NetConfig::default(), &linux());
    let (r, _) = drive(&mut s, |step| match step {
        SetupStep::SetOption(SockOpt::NoDelay(_)) => Err(NetError::Os(22)),
        _ => Ok(()),
    });
    assert_eq!(r, Err(NetError::Os(22)));
}

#[test]
fn empty_plan_finishes_at_once() {
    let cfg = NetConfig {
        recv_buf: None,
        send_buf: None,
        reuse_port: false,
        tcp_quickack: false,
        ..NetConfig::default()
    };
    let s = apply_low_latency(Domain::Ipv4, Type::Dgram, &cfg, &linux());
    assert_eq!(s.len(), 0);
    assert_eq!(s.next_action(), SetupAction::Finished(Ok(())));
}
