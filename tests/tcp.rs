use horizon_sockets::config::SockOpt;
use horizon_sockets::raw::{sockaddr_image, to_sockaddr, SocketAddress};
use horizon_sockets::setup::SetupStep;
use horizon_sockets::tcp::bind_listener;
use horizon_sockets::{NetConfig, Platform};

#[test]
fn listener_plan_ends_with_bind_and_listen() {
    let pf = Platform {
        af_inet: 2,
        af_inet6: 10,
        len_prefixed: false,
        little_endian: true,
        would_block: 11,
        batch_receive: true,
        reuse_port: false,
        busy_poll: false,
        quick_ack: false,
    };
    let addr = SocketAddress::v4([127, 0, 0, 1], 0);
    let cfg = NetConfig { recv_buf: None, send_buf: None, tcp_backlog: None, ..NetConfig::default() };
    let s = bind_listener(&addr, &cfg, &pf);
    let (_, sa, _) = to_sockaddr(&addr, &pf);
    let expected = vec![
        SetupStep::NonBlocking(true),
        SetupStep::SetOption(SockOpt::NoDelay(true)),
        SetupStep::Bind(sockaddr_image(&sa, &pf)),
        SetupStep::Listen(1024),
    ];
    assert_eq!(s.len(), expected.len());
    for (i, e) in expected.iter().enumerate() {
        assert_eq!(s.step(i), e);
    }
}
