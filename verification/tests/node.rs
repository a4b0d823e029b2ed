use iroh::addr::SocketAddr;
use iroh::node::{local_address, local_endpoint_addresses, Endpoint, EndpointType, NodeError};

fn v4(port: u16) -> SocketAddr {
    SocketAddr::V4 { ip: [192, 168, 1, 2], port }
}

fn v6(port: u16) -> SocketAddr {
    SocketAddr::V6 { ip: [0; 16], port, flowinfo: 0, scope_id: 0 }
}

#[test]
fn local_address_v4_only() {
    assert_eq!(local_address(v4(11204), None), vec![v4(11204)]);
}

#[test]
fn local_address_v4_and_v6() {
    assert_eq!(local_address(v4(11204), Some(v6(11205))), vec![v4(11204), v6(11205)]);
}

#[test]
fn endpoint_addresses_in_order() {
    let eps = vec![
        Endpoint { addr: v4(1), typ: EndpointType::Local },
        Endpoint { addr: v6(2), typ: EndpointType::Stun },
        Endpoint { addr: v4(3), typ: EndpointType::Portmapped },
    ];
    assert_eq!(local_endpoint_addresses(Some(eps)), Ok(vec![v4(1), v6(2), v4(3)]));
    assert_eq!(local_endpoint_addresses(Some(vec![])), Ok(vec![]));
}

#[test]
fn no_endpoints_is_an_error() {
    let err = local_endpoint_addresses(None).unwrap_err();
    assert_eq!(err, NodeError::NoEndpoints);
    assert_eq!(err.message(), "no endpoints found");
}

#[test]
fn socket_addr_accessors() {
    assert_eq!(v4(80).port(), 80);
    assert_eq!(v6(443).port(), 443);
    assert!(!v4(80).is_ipv6());
    assert!(v6(443).is_ipv6());
    assert_eq!(SocketAddr::localhost_v4(9), SocketAddr::V4 { ip: [127, 0, 0, 1], port: 9 });
}
