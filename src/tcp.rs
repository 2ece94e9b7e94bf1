use vstd::prelude::*;

use crate::config::{option_plan, option_steps, push_option_steps, NetConfig, SockOpt, DEFAULT_BACKLOG};
use crate::error::NetError;
use crate::platform::Platform;
use crate::raw::{image_of, native_of, sockaddr_image, to_sockaddr, AddrView, Domain, SocketAddress, Type};
use crate::setup::{push_step, steps_view, SetupSession, SetupStep, SetupStepView};

verus! {

/// The backlog a listener is given: the configured one, or the default.
pub open spec fn backlog_of(cfg: NetConfig) -> i32 {
    match cfg.tcp_backlog {
        Some(b) => b,
        None => DEFAULT_BACKLOG,
    }
}

/// The steps that turn a stream socket of `addr`'s family into a listener on
/// `addr`: non-blocking mode, the options of `cfg`, IPv6-only where the
/// address is IPv6 and `cfg` names it, the bind, then listen.
pub open spec fn listener_plan(addr: AddrView, cfg: NetConfig, pf: Platform) -> Seq<SetupStepView> {
    seq![SetupStepView::NonBlocking(true)] + option_steps(
        option_plan(addr.domain(), Type::Stream, cfg, pf),
    ) + (match (addr.domain(), cfg.ipv6_only) {
        (Domain::Ipv6, Some(only)) => seq![SetupStepView::SetOption(SockOpt::Ipv6Only(only))],
        _ => seq![],
    }) + seq![SetupStepView::Bind(image_of(native_of(addr, pf), pf))] + seq![
        SetupStepView::Listen(backlog_of(cfg)),
    ]
}

/// Begins turning a stream socket, created for `addr`'s family, into a
/// listener on `addr`.
pub fn bind_listener(addr: &SocketAddress, cfg: &NetConfig, pf: &Platform) -> (r: SetupSession)
    ensures
        r.wf(),
        r.steps() == listener_plan(addr@, *cfg, *pf),
        r.results() == Seq::<Result<(), NetError>>::empty(),
{
    let (domain, sa, _len) = to_sockaddr(addr, pf);
    let mut steps: Vec<SetupStep> = Vec::new();
    push_step(&mut steps, SetupStep::NonBlocking(true));
    push_option_steps(&mut steps, domain, Type::Stream, cfg, pf);
    let ghost mid = steps_view(steps@);
    match (domain, cfg.ipv6_only) {
        (Domain::Ipv6, Some(only)) => push_step(
            &mut steps,
            SetupStep::SetOption(SockOpt::Ipv6Only(only)),
        ),
        _ => {
            assert(steps_view(steps@) =~= mid + seq![]);
        },
    }
    push_step(&mut steps, SetupStep::Bind(sockaddr_image(&sa, pf)));
    let backlog = match cfg.tcp_backlog {
        Some(b) => b,
        None => DEFAULT_BACKLOG,
    };
    push_step(&mut steps, SetupStep::Listen(backlog));
    assert(steps_view(steps@) =~= listener_plan(addr@, *cfg, *pf));
    SetupSession::new(steps)
}

} // verus!
