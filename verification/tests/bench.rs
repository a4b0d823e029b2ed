use iroh::addr::SocketAddr;
use iroh::bench::{
    check_buffer_size, client_reports, needs_dual_stack, server_dial_addr, BufferShortfall, IROH_ALPN, QUINN_ALPN,
    SOCKET_BUFFER_SIZE,
};

#[test]
fn socket_buffer_size() {
    assert_eq!(SOCKET_BUFFER_SIZE, 7 << 20);
    assert_eq!(check_buffer_size(SOCKET_BUFFER_SIZE), None);
    assert_eq!(check_buffer_size(SOCKET_BUFFER_SIZE * 2), None);
    assert_eq!(
        check_buffer_size(212992),
        Some(BufferShortfall { desired: SOCKET_BUFFER_SIZE, actual: 212992 })
    );
    assert_eq!(
        check_buffer_size(SOCKET_BUFFER_SIZE - 1),
        Some(BufferShortfall { desired: SOCKET_BUFFER_SIZE, actual: SOCKET_BUFFER_SIZE - 1 })
    );
}

#[test]
fn dual_stack_only_for_ipv6() {
    assert!(!needs_dual_stack(&SocketAddr::V4 { ip: [127, 0, 0, 1], port: 0 }));
    assert!(needs_dual_stack(&SocketAddr::V6 { ip: [0; 16], port: 0, flowinfo: 0, scope_id: 0 }));
}

#[test]
fn server_is_dialed_on_loopback() {
    let bound = SocketAddr::V6 { ip: [0; 16], port: 51234, flowinfo: 0, scope_id: 0 };
    assert_eq!(server_dial_addr(&bound), SocketAddr::V4 { ip: [127, 0, 0, 1], port: 51234 });
}

#[test]
fn alpns() {
    assert_eq!(&IROH_ALPN, b"n0/iroh-net-bench/0");
    assert_eq!(&QUINN_ALPN, b"n0/quinn-bench/0");
}

#[test]
fn reports_of_succeeded_clients_in_id_order() {
    let results: Vec<Result<&str, String>> =
        vec![Ok("a"), Err("client failed".to_string()), Ok("c"), Ok("d"), Err("x".to_string())];
    assert_eq!(client_reports(results), vec![(0, "a"), (2, "c"), (3, "d")]);
    assert_eq!(client_reports::<u8, ()>(vec![]), vec![]);
    assert_eq!(client_reports::<u8, ()>(vec![Err(()), Err(())]), vec![]);
}
