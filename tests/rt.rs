use horizon_sockets::Runtime;

#[test]
fn runtime_hands_out_ids_per_kind() {
    let mut rt = Runtime::new().unwrap();
    let u1 = rt.create_udp_handle().unwrap();
    let u2 = rt.create_udp_handle().unwrap();
    let l = rt.create_tcp_listener_handle().unwrap();
    let s = rt.create_tcp_stream_handle().unwrap();
    assert_eq!((u1.id(), u2.id(), l.id(), s.id()), (1, 2, 1000, 2000));
    assert_eq!(u1.handle_type(), "UDP Socket");
    assert_eq!(l.handle_type(), "TCP Listener");
    assert_eq!(s.handle_type(), "TCP Stream");
}

#[test]
fn runtime_with_capacity() {
    let mut rt = Runtime::with_capacity(128, 64).unwrap();
    assert_eq!(rt.create_tcp_stream_handle().unwrap().id(), 2000);
}
