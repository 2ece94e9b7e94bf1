use horizon_sockets::config::SockOpt;
use horizon_sockets::raw::{sockaddr_image, to_sockaddr, SocketAddress};
use horizon_sockets::setup::{SetupAction, SetupStep};
use horizon_sockets::udp::{
    batch_len, bind, bind_dual_stack, complete_batch, grow_if_unallocated, prepare_batch, BatchStep, RecvSlot,
    SequentialBatch, DEFAULT_DATAGRAM_CAPACITY,
};
use horizon_sockets::{NetConfig, NetError, Platform};

fn linux() -> Platform {
    Platform {
        af_inet: 2,
        af_inet6: 10,
        len_prefixed: false,
        little_endian: true,
        would_block: 11,
        batch_receive: true,
        reuse_port: true,
        busy_poll: true,
        quick_ack: true,
    }
}

/// The address storage the system would fill in for a datagram from `from`.
fn storage_for(from: &SocketAddress, pf: &Platform) -> Vec<u8> {
    let (_, sa, _) = to_sockaddr(from, pf);
    let mut b = sockaddr_image(&sa, pf);
    b.resize(128, 0);
    b
}

fn v4(a: u8, b: u8, c: u8, d: u8, port: u16) -> SocketAddress {
    SocketAddress::v4([a, b, c, d], port)
}

fn unspecified() -> SocketAddress {
    v4(0, 0, 0, 0, 0)
}

#[test]
fn recv_batch_empty_arrays_gives_zero() {
    let pf = linux();
    let mut bufs: Vec<Vec<u8>> = Vec::new();
    let mut addrs: Vec<SocketAddress> = Vec::new();
    let n = batch_len(&bufs, &addrs);
    assert_eq!(n, 0);
    prepare_batch(&mut bufs, n);
    assert_eq!(complete_batch(&mut bufs, &mut addrs, n, Ok(Vec::new()), &pf), Ok(0));
    let b = SequentialBatch::new(n, &pf);
    assert_eq!(b.next_step(), BatchStep::Finished(Ok(0)));
}

#[test]
fn send_batch_two_packets_gives_two() {
    let mut b = SequentialBatch::new(2, &linux());
    let mut sent = Vec::new();
    let result = loop {
        match b.next_step() {
            BatchStep::Attempt(i) => {
                sent.push(i);
                b.record(Ok(()));
            }
            BatchStep::Finished(r) => break r,
        }
    };
    assert_eq!(result, Ok(2));
    assert_eq!(sent, vec![0, 1]);
}

#[test]
fn send_batch_stops_at_would_block() {
    let mut b = SequentialBatch::new(5, &linux());
    b.record(Ok(()));
    b.record(Ok(()));
    b.record(Err(11));
    assert_eq!(b.next_step(), BatchStep::Finished(Ok(2)));
}

#[test]
fn send_batch_propagates_other_errors() {
    let mut b = SequentialBatch::new(5, &linux());
    b.record(Ok(()));
    b.record(Err(101));
    assert_eq!(b.next_step(), BatchStep::Finished(Err(NetError::Os(101))));
}

#[test]
fn receive_batch_returns_every_datagram() {
    let pf = linux();
    let senders = [v4(127, 0, 0, 1, 4000), v4(10, 0, 0, 9, 53), SocketAddress::v6([0, 0, 0, 0, 0, 0, 0, 0, 0, 0, 0, 0, 0, 0, 0, 1], 9, 0, 0)];
    let payloads: [&[u8]; 3] = [b"alpha", b"b", b"gamma-delta"];
    let mut bufs: Vec<Vec<u8>> = (0..4).map(|_| vec![0u8; 64]).collect();
    let mut addrs = vec![unspecified(); 4];
    let n = batch_len(&bufs, &addrs);
    prepare_batch(&mut bufs, n);
    let mut slots = Vec::new();
    for i in 0..3 {
        bufs[i][..payloads[i].len()].copy_from_slice(payloads[i]);
        slots.push(RecvSlot { len: payloads[i].len(), name: storage_for(&senders[i], &pf) });
    }
    assert_eq!(complete_batch(&mut bufs, &mut addrs, n, Ok(slots), &pf), Ok(3));
    for i in 0..3 {
        assert_eq!(bufs[i], payloads[i].to_vec());
        assert_eq!(addrs[i], senders[i]);
    }
    assert_eq!(bufs[3].len(), 64);
    assert_eq!(addrs[3], unspecified());
}

#[test]
fn dual_stack_receives_mapped_and_native_senders() {
    let pf = linux();
    let mut s = bind_dual_stack(0, &NetConfig::default(), &pf);
    let mut only = None;
    for i in 0..s.len() {
        if let SetupStep::SetOption(SockOpt::Ipv6Only(v)) = s.step(i) {
            only = Some(*v);
        }
    }
    assert_eq!(only, Some(false));
    loop {
        match s.next_action() {
            SetupAction::Perform(_) => s.record(Ok(())),
            SetupAction::Finished(r) => {
                assert_eq!(r, Ok(()));
                break;
            }
        }
    }
    let mapped = SocketAddress::v6([0, 0, 0, 0, 0, 0, 0, 0, 0, 0, 0xff, 0xff, 127, 0, 0, 1], 5000, 0, 0);
    let native = SocketAddress::v6([0, 0, 0, 0, 0, 0, 0, 0, 0, 0, 0, 0, 0, 0, 0, 1], 6000, 0, 0);
    let mut bufs = vec![Vec::new(), Vec::new()];
    let mut addrs = vec![unspecified(); 2];
    prepare_batch(&mut bufs, 2);
    let slots = vec![
        RecvSlot { len: 1, name: storage_for(&mapped, &pf) },
        RecvSlot { len: 2, name: storage_for(&native, &pf) },
    ];
    assert_eq!(complete_batch(&mut bufs, &mut addrs, 2, Ok(slots), &pf), Ok(2));
    assert_eq!(addrs, vec![mapped, native]);
}

#[test]
fn zero_capacity_buffer_grows_then_is_cut_to_datagram() {
    let pf = linux();
    let mut bufs = vec![Vec::new(), Vec::with_capacity(16)];
    let mut addrs = vec![unspecified(); 2];
    prepare_batch(&mut bufs, 2);
    assert_eq!(bufs[0].len(), DEFAULT_DATAGRAM_CAPACITY);
    assert_eq!(bufs[0].len(), 2048);
    assert_eq!(bufs[1].len(), 0);
    bufs[0][..3].copy_from_slice(b"hey");
    let slots = vec![RecvSlot { len: 3, name: storage_for(&v4(1, 1, 1, 1, 1), &pf) }];
    assert_eq!(complete_batch(&mut bufs, &mut addrs, 2, Ok(slots), &pf), Ok(1));
    assert_eq!(bufs[0], b"hey".to_vec());
}

#[test]
fn receive_would_block_is_zero_and_other_errors_surface() {
    let pf = linux();
    let mut bufs = vec![vec![1u8; 8]];
    let mut addrs = vec![unspecified()];
    assert_eq!(complete_batch(&mut bufs, &mut addrs, 1, Err(11), &pf), Ok(0));
    assert_eq!(complete_batch(&mut bufs, &mut addrs, 1, Err(9), &pf), Err(NetError::Os(9)));
    assert_eq!(bufs, vec![vec![1u8; 8]]);
}

#[test]
fn batch_len_is_the_smaller_array() {
    let bufs = vec![Vec::new(); 3];
    let addrs = vec![unspecified(); 5];
    assert_eq!(batch_len(&bufs, &addrs), 3);
    assert_eq!(batch_len(&vec![Vec::new(); 6], &addrs), 5);
}

#[test]
fn sequential_receive_fills_slots_until_would_block() {
    let pf = linux();
    let mut bufs = vec![vec![0u8; 8], vec![0u8; 8], vec![0u8; 8]];
    let mut addrs = vec![unspecified(); 3];
    let mut b = SequentialBatch::new(batch_len(&bufs, &addrs), &pf);
    assert_eq!(b.next_step(), BatchStep::Attempt(0));
    bufs[0][..2].copy_from_slice(b"hi");
    b.record_datagram(&mut bufs, &mut addrs, 2, v4(9, 9, 9, 9, 99));
    assert_eq!(b.next_step(), BatchStep::Attempt(1));
    b.record(Err(11));
    assert_eq!(b.next_step(), BatchStep::Finished(Ok(1)));
    assert_eq!(bufs[0], b"hi".to_vec());
    assert_eq!(addrs[0], v4(9, 9, 9, 9, 99));
    assert_eq!(bufs[1].len(), 8);
}

#[test]
fn bind_plan_for_ipv6_address() {
    let pf = linux();
    let addr = SocketAddress::v6([0; 16], 7000, 0, 0);
    let cfg = NetConfig { ipv6_only: Some(true), recv_buf: None, send_buf: None, ..NetConfig::default() };
    let s = bind(&addr, &cfg, &pf);
    let (_, sa, _) = to_sockaddr(&addr, &pf);
    let expected = vec![
        SetupStep::NonBlocking(true),
        SetupStep::SetOption(SockOpt::Ipv6Only(true)),
        SetupStep::SetOption(SockOpt::ReusePort(true)),
        SetupStep::SetOption(SockOpt::Ipv6Only(true)),
        SetupStep::Bind(sockaddr_image(&sa, &pf)),
    ];
    assert_eq!(s.len(), expected.len());
    for (i, e) in expected.iter().enumerate() {
        assert_eq!(s.step(i), e);
    }
}

#[test]
fn grow_if_unallocated_only_touches_buffers_without_storage() {
    let mut empty = Vec::new();
    grow_if_unallocated(&mut empty, 0);
    assert_eq!(empty, vec![0u8; 2048]);
    let mut reserved: Vec<u8> = Vec::with_capacity(16);
    grow_if_unallocated(&mut reserved, 16);
    assert!(reserved.is_empty());
    let mut filled = vec![5u8; 3];
    grow_if_unallocated(&mut filled, 3);
    assert_eq!(filled, vec![5u8; 3]);
}
