use vstd::prelude::*;

use crate::platform::Platform;
use crate::raw::{Domain, Type};
use crate::setup::{steps_view, SetupSession, SetupStep, SetupStepView};

verus! {

/// Receive and send buffer size of the default configuration: 4 MiB.
pub const DEFAULT_BUFFER_BYTES: usize = 4194304;

/// Listen backlog used when a configuration names none.
pub const DEFAULT_BACKLOG: i32 = 1024;

/// Poll timeout of the default configuration, in milliseconds.
pub const DEFAULT_POLL_TIMEOUT_MS: u64 = 10;

/// IP type-of-service value that asks for low delay.
pub const TOS_LOW_DELAY: u32 = 0x10;

/// IP type-of-service value that asks for high throughput.
pub const TOS_THROUGHPUT: u32 = 0x08;

/// Tunables to push latency down.
#[derive(Copy, Clone, Debug, PartialEq, Eq)]
pub struct NetConfig {
    /// Disable Nagle's algorithm on stream sockets.
    pub tcp_nodelay: bool,
    /// TCP quick acknowledgement; effective only where the platform has it.
    pub tcp_quickack: bool,
    /// Port reuse; effective only where the platform has it.
    pub reuse_port: bool,
    /// Busy polling, in microseconds.
    pub busy_poll: Option<u32>,
    /// Receive buffer size in bytes.
    pub recv_buf: Option<usize>,
    /// Send buffer size in bytes.
    pub send_buf: Option<usize>,
    /// IPv4 type of service, or IPv6 traffic class.
    pub tos: Option<u32>,
    /// Restrict an IPv6 socket to IPv6 traffic.
    pub ipv6_only: Option<bool>,
    /// IPv6 unicast hop limit.
    pub hop_limit: Option<i32>,
    /// Listen backlog of stream listeners.
    pub tcp_backlog: Option<i32>,
    /// Timeout of one poll of the event loop, in milliseconds.
    pub poll_timeout_ms: Option<u64>,
}

/// The default configuration.
pub open spec fn default_config() -> NetConfig {
    NetConfig {
        tcp_nodelay: true,
        tcp_quickack: true,
        reuse_port: true,
        busy_poll: None,
        recv_buf: Some(DEFAULT_BUFFER_BYTES),
        send_buf: Some(DEFAULT_BUFFER_BYTES),
        tos: None,
        ipv6_only: Some(false),
        hop_limit: None,
        tcp_backlog: Some(DEFAULT_BACKLOG),
        poll_timeout_ms: Some(DEFAULT_POLL_TIMEOUT_MS),
    }
}

/// The low-latency preset: small buffers, busy polling, low-delay class.
pub open spec fn low_latency_config() -> NetConfig {
    NetConfig {
        busy_poll: Some(50),
        recv_buf: Some(262144),
        send_buf: Some(262144),
        tos: Some(TOS_LOW_DELAY),
        tcp_backlog: Some(512),
        poll_timeout_ms: Some(1),
        ..default_config()
    }
}

/// The high-throughput preset: large buffers, Nagle allowed, throughput class.
pub open spec fn high_throughput_config() -> NetConfig {
    NetConfig {
        tcp_nodelay: false,
        busy_poll: None,
        recv_buf: Some(16777216),
        send_buf: Some(16777216),
        tos: Some(TOS_THROUGHPUT),
        tcp_backlog: Some(2048),
        poll_timeout_ms: Some(50),
        ..default_config()
    }
}

/// The power-efficient preset: moderate buffers, no busy polling, no port reuse.
pub open spec fn power_efficient_config() -> NetConfig {
    NetConfig {
        reuse_port: false,
        busy_poll: None,
        recv_buf: Some(524288),
        send_buf: Some(524288),
        tcp_backlog: Some(256),
        poll_timeout_ms: Some(100),
        ..default_config()
    }
}

impl Default for NetConfig {
    fn default() -> (r: Self)
        ensures
            r == default_config(),
    {
        NetConfig {
            tcp_nodelay: true,
            tcp_quickack: true,
            reuse_port: true,
            busy_poll: None,
            recv_buf: Some(DEFAULT_BUFFER_BYTES),
            send_buf: Some(DEFAULT_BUFFER_BYTES),
            tos: None,
            ipv6_only: Some(false),
            hop_limit: None,
            tcp_backlog: Some(DEFAULT_BACKLOG),
            poll_timeout_ms: Some(DEFAULT_POLL_TIMEOUT_MS),
        }
    }
}

impl NetConfig {
    /// Low latency: 256 KiB buffers, 50 µs busy polling, low-delay traffic
    /// class, backlog 512, 1 ms poll timeout.
    pub fn low_latency() -> (r: Self)
        ensures
            r == low_latency_config(),
    {
        NetConfig {
            busy_poll: Some(50),
            recv_buf: Some(262144),
            send_buf: Some(262144),
            tos: Some(TOS_LOW_DELAY),
            tcp_backlog: Some(512),
            poll_timeout_ms: Some(1),
            ..NetConfig::default()
        }
    }

    /// High throughput: 16 MiB buffers, no busy polling, Nagle allowed,
    /// throughput traffic class, backlog 2048, 50 ms poll timeout.
    pub fn high_throughput() -> (r: Self)
        ensures
            r == high_throughput_config(),
    {
        NetConfig {
            tcp_nodelay: false,
            busy_poll: None,
            recv_buf: Some(16777216),
            send_buf: Some(16777216),
            tos: Some(TOS_THROUGHPUT),
            tcp_backlog: Some(2048),
            poll_timeout_ms: Some(50),
            ..NetConfig::default()
        }
    }

    /// Power efficient: 512 KiB buffers, no busy polling, no port reuse,
    /// backlog 256, 100 ms poll timeout.
    pub fn power_efficient() -> (r: Self)
        ensures
            r == power_efficient_config(),
    {
        NetConfig {
            reuse_port: false,
            busy_poll: None,
            recv_buf: Some(524288),
            send_buf: Some(524288),
            tcp_backlog: Some(256),
            poll_timeout_ms: Some(100),
            ..NetConfig::default()
        }
    }
}

/// One native socket option with its value.
#[derive(Copy, Clone, Debug, PartialEq, Eq, Structural)]
pub enum SockOpt {
    RecvBuffer(i32),
    SendBuffer(i32),
    TosV4(i32),
    TrafficClassV6(i32),
    Ipv6Only(bool),
    HopLimit(i32),
    ReusePort(bool),
    BusyPoll(i32),
    QuickAck(bool),
    NoDelay(bool),
}

impl SockOpt {
    /// Options whose failure is never reported: they only advise the system.
    pub open spec fn is_advisory(self) -> bool {
        match self {
            SockOpt::ReusePort(_) | SockOpt::BusyPoll(_) | SockOpt::QuickAck(_) => true,
            _ => false,
        }
    }

    pub fn advisory(&self) -> (r: bool)
        ensures
            r == self.is_advisory(),
    {
        match self {
            SockOpt::ReusePort(_) | SockOpt::BusyPoll(_) | SockOpt::QuickAck(_) => true,
            _ => false,
        }
    }
}

/// A size as a native integer option value, saturating at the largest one.
pub open spec fn clamp_usize(v: usize) -> i32 {
    if v > i32::MAX as usize {
        i32::MAX
    } else {
        v as i32
    }
}

/// A 32-bit unsigned value as a native integer option value, saturating.
pub open spec fn clamp_u32(v: u32) -> i32 {
    if v > i32::MAX as u32 {
        i32::MAX
    } else {
        v as i32
    }
}

fn clamp_size(v: usize) -> (r: i32)
    ensures
        r == clamp_usize(v),
{
    if v > i32::MAX as usize {
        i32::MAX
    } else {
        v as i32
    }
}

fn clamp_unsigned(v: u32) -> (r: i32)
    ensures
        r == clamp_u32(v),
{
    if v > i32::MAX as u32 {
        i32::MAX
    } else {
        v as i32
    }
}

/// Buffer sizes: receive, then send.
pub open spec fn buffer_options(cfg: NetConfig) -> Seq<SockOpt> {
    (match cfg.recv_buf {
        Some(sz) => seq![SockOpt::RecvBuffer(clamp_usize(sz))],
        None => seq![],
    }) + (match cfg.send_buf {
        Some(sz) => seq![SockOpt::SendBuffer(clamp_usize(sz))],
        None => seq![],
    })
}

/// Type of service or traffic class, by domain.
pub open spec fn class_options(domain: Domain, cfg: NetConfig) -> Seq<SockOpt> {
    match cfg.tos {
        Some(t) => match domain {
            Domain::Ipv4 => seq![SockOpt::TosV4(clamp_u32(t))],
            Domain::Ipv6 => seq![SockOpt::TrafficClassV6(clamp_u32(t))],
        },
        None => seq![],
    }
}

/// IPv6-only and hop limit, on IPv6 sockets.
pub open spec fn ipv6_options(domain: Domain, cfg: NetConfig) -> Seq<SockOpt> {
    if domain == Domain::Ipv6 {
        (match cfg.ipv6_only {
            Some(only) => seq![SockOpt::Ipv6Only(only)],
            None => seq![],
        }) + (match cfg.hop_limit {
            Some(h) => seq![SockOpt::HopLimit(h)],
            None => seq![],
        })
    } else {
        seq![]
    }
}

/// Port reuse, busy polling and quick acknowledgement, where the platform has
/// them; quick acknowledgement on stream sockets only.
pub open spec fn advisory_options(ty: Type, cfg: NetConfig, pf: Platform) -> Seq<SockOpt> {
    (if pf.reuse_port && cfg.reuse_port {
        seq![SockOpt::ReusePort(true)]
    } else {
        seq![]
    }) + (match cfg.busy_poll {
        Some(us) => if pf.busy_poll {
            seq![SockOpt::BusyPoll(clamp_u32(us))]
        } else {
            seq![]
        },
        None => seq![],
    }) + (if pf.quick_ack && cfg.tcp_quickack && ty == Type::Stream {
        seq![SockOpt::QuickAck(true)]
    } else {
        seq![]
    })
}

/// No-delay, on stream sockets.
pub open spec fn nodelay_options(ty: Type, cfg: NetConfig) -> Seq<SockOpt> {
    if ty == Type::Stream && cfg.tcp_nodelay {
        seq![SockOpt::NoDelay(true)]
    } else {
        seq![]
    }
}

/// The options that a configuration sets on a socket, in the order in which
/// they are set: buffer sizes, traffic class, IPv6 options, advisory options,
/// no-delay.
pub open spec fn option_plan(domain: Domain, ty: Type, cfg: NetConfig, pf: Platform) -> Seq<
    SockOpt,
> {
    buffer_options(cfg) + class_options(domain, cfg) + ipv6_options(domain, cfg)
        + advisory_options(ty, cfg, pf) + nodelay_options(ty, cfg)
}

/// The option plan as setup steps.
pub open spec fn option_steps(plan: Seq<SockOpt>) -> Seq<SetupStepView> {
    plan.map_values(|o: SockOpt| SetupStepView::SetOption(o))
}

proof fn lemma_option_steps_concat(a: Seq<SockOpt>, b: Seq<SockOpt>)
    ensures
        option_steps(a + b) == option_steps(a) + option_steps(b),
{
    assert(option_steps(a + b) =~= option_steps(a) + option_steps(b));
}

proof fn lemma_push_none(out: Seq<SetupStep>)
    ensures
        steps_view(out) == steps_view(out) + option_steps(seq![]),
{
    assert(steps_view(out) =~= steps_view(out) + option_steps(seq![]));
}

fn push_option(out: &mut Vec<SetupStep>, o: SockOpt)
    ensures
        steps_view(final(out)@) == steps_view(old(out)@) + option_steps(seq![o]),
{
    out.push(SetupStep::SetOption(o));
    assert(steps_view(final(out)@) =~= steps_view(old(out)@) + option_steps(seq![o]));
}

fn push_buffer_options(out: &mut Vec<SetupStep>, cfg: &NetConfig)
    ensures
        steps_view(final(out)@) == steps_view(old(out)@) + option_steps(buffer_options(*cfg)),
{
    let ghost start = steps_view(out@);
    let ghost recv: Seq<SockOpt> = match cfg.recv_buf {
        Some(sz) => seq![SockOpt::RecvBuffer(clamp_usize(sz))],
        None => seq![],
    };
    let ghost send: Seq<SockOpt> = match cfg.send_buf {
        Some(sz) => seq![SockOpt::SendBuffer(clamp_usize(sz))],
        None => seq![],
    };
    proof { lemma_push_none(out@); }
    if let Some(sz) = cfg.recv_buf {
        push_option(out, SockOpt::RecvBuffer(clamp_size(sz)));
    }
    let ghost mid = out@;
    proof { lemma_push_none(out@); }
    if let Some(sz) = cfg.send_buf {
        push_option(out, SockOpt::SendBuffer(clamp_size(sz)));
    }
    proof { lemma_option_steps_concat(recv, send); }
    assert(steps_view(out@) =~= start + option_steps(buffer_options(*cfg)));
}

fn push_class_options(out: &mut Vec<SetupStep>, domain: Domain, cfg: &NetConfig)
    ensures
        steps_view(final(out)@) == steps_view(old(out)@) + option_steps(class_options(domain, *cfg)),
{
    proof { lemma_push_none(out@); }
    if let Some(t) = cfg.tos {
        match domain {
            Domain::Ipv4 => push_option(out, SockOpt::TosV4(clamp_unsigned(t))),
            Domain::Ipv6 => push_option(out, SockOpt::TrafficClassV6(clamp_unsigned(t))),
        }
    }
}

fn push_ipv6_options(out: &mut Vec<SetupStep>, domain: Domain, cfg: &NetConfig)
    ensures
        steps_view(final(out)@) == steps_view(old(out)@) + option_steps(ipv6_options(domain, *cfg)),
{
    let ghost start = steps_view(out@);
    proof { lemma_push_none(out@); }
    if domain == Domain::Ipv6 {
        let ghost only: Seq<SockOpt> = match cfg.ipv6_only {
            Some(o) => seq![SockOpt::Ipv6Only(o)],
            None => seq![],
        };
        let ghost hops: Seq<SockOpt> = match cfg.hop_limit {
            Some(h) => seq![SockOpt::HopLimit(h)],
            None => seq![],
        };
        if let Some(o) = cfg.ipv6_only {
            push_option(out, SockOpt::Ipv6Only(o));
        }
        proof { lemma_push_none(out@); }
        if let Some(h) = cfg.hop_limit {
            push_option(out, SockOpt::HopLimit(h));
        }
        proof { lemma_option_steps_concat(only, hops); }
        assert(steps_view(out@) =~= start + option_steps(ipv6_options(domain, *cfg)));
    }
}

fn push_advisory_options(out: &mut Vec<SetupStep>, ty: Type, cfg: &NetConfig, pf: &Platform)
    ensures
        steps_view(final(out)@) == steps_view(old(out)@) + option_steps(
            advisory_options(ty, *cfg, *pf),
        ),
{
    let ghost start = steps_view(out@);
    let ghost reuse: Seq<SockOpt> = if pf.reuse_port && cfg.reuse_port {
        seq![SockOpt::ReusePort(true)]
    } else {
        seq![]
    };
    let ghost busy: Seq<SockOpt> = match cfg.busy_poll {
        Some(us) => if pf.busy_poll {
            seq![SockOpt::BusyPoll(clamp_u32(us))]
        } else {
            seq![]
        },
        None => seq![],
    };
    let ghost quick: Seq<SockOpt> = if pf.quick_ack && cfg.tcp_quickack && ty == Type::Stream {
        seq![SockOpt::QuickAck(true)]
    } else {
        seq![]
    };
    proof { lemma_push_none(out@); }
    if pf.reuse_port && cfg.reuse_port {
        push_option(out, SockOpt::ReusePort(true));
    }
    proof { lemma_push_none(out@); }
    if let Some(us) = cfg.busy_poll {
        if pf.busy_poll {
            push_option(out, SockOpt::BusyPoll(clamp_unsigned(us)));
        }
    }
    proof { lemma_push_none(out@); }
    if pf.quick_ack && cfg.tcp_quickack && ty == Type::Stream {
        push_option(out, SockOpt::QuickAck(true));
    }
    proof {
        lemma_option_steps_concat(reuse, busy);
        lemma_option_steps_concat(reuse + busy, quick);
    }
    assert(steps_view(out@) =~= start + option_steps(advisory_options(ty, *cfg, *pf)));
}

fn push_nodelay_options(out: &mut Vec<SetupStep>, ty: Type, cfg: &NetConfig)
    ensures
        steps_view(final(out)@) == steps_view(old(out)@) + option_steps(nodelay_options(ty, *cfg)),
{
    proof { lemma_push_none(out@); }
    if ty == Type::Stream && cfg.tcp_nodelay {
        push_option(out, SockOpt::NoDelay(true));
    }
}

/// Appends to `out` the steps that set the options of `cfg` on a socket of
/// the given domain and type.
pub fn push_option_steps(
    out: &mut Vec<SetupStep>,
    domain: Domain,
    ty: Type,
    cfg: &NetConfig,
    pf: &Platform,
)
    ensures
        steps_view(final(out)@) == steps_view(old(out)@) + option_steps(
            option_plan(domain, ty, *cfg, *pf),
        ),
{
    let ghost start = steps_view(out@);
    let ghost a = buffer_options(*cfg);
    let ghost b = class_options(domain, *cfg);
    let ghost c = ipv6_options(domain, *cfg);
    let ghost d = advisory_options(ty, *cfg, *pf);
    let ghost e = nodelay_options(ty, *cfg);
    push_buffer_options(out, cfg);
    push_class_options(out, domain, cfg);
    push_ipv6_options(out, domain, cfg);
    push_advisory_options(out, ty, cfg, pf);
    push_nodelay_options(out, ty, cfg);
    proof { lemma_concat_five(start, a, b, c, d, e); }
}

proof fn lemma_concat_five(
    start: Seq<SetupStepView>,
    a: Seq<SockOpt>,
    b: Seq<SockOpt>,
    c: Seq<SockOpt>,
    d: Seq<SockOpt>,
    e: Seq<SockOpt>,
)
    ensures
        start + option_steps(a) + option_steps(b) + option_steps(c) + option_steps(d)
            + option_steps(e) == start + option_steps(a + b + c + d + e),
{
    lemma_option_steps_concat(a, b);
    lemma_option_steps_concat(a + b, c);
    lemma_option_steps_concat(a + b + c, d);
    lemma_option_steps_concat(a + b + c + d, e);
    assert(start + option_steps(a) + option_steps(b) + option_steps(c) + option_steps(d)
        + option_steps(e) =~= start + option_steps(a + b + c + d + e));
}

/// Begins applying the low-latency knobs of `cfg` to a socket of the given
/// domain and type: the session sets the options of the plan in order, stops
/// at the first failure of an option that is not advisory and reports it, and
/// passes over failures of advisory options.
pub fn apply_low_latency(domain: Domain, ty: Type, cfg: &NetConfig, pf: &Platform) -> (r:
    SetupSession)
    ensures
        r.wf(),
        r.steps() == option_steps(option_plan(domain, ty, *cfg, *pf)),
        r.results() == Seq::<Result<(), crate::error::NetError>>::empty(),
{
    let mut steps: Vec<SetupStep> = Vec::new();
    push_option_steps(&mut steps, domain, ty, cfg, pf);
    assert(steps_view(steps@) =~= option_steps(option_plan(domain, ty, *cfg, *pf)));
    SetupSession::new(steps)
}

} // verus!
