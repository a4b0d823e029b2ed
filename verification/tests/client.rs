use iroh::client::{
    connect, finish_raw_connect, rpc_connect_target, ConnectError, StatusProbe, RPC_ALPN,
    RPC_KEEP_ALIVE_SECS, RPC_STATUS_TIMEOUT_SECS,
};
use iroh::rpc_status::RpcStatus;

#[test]
fn connect_to_running_node() {
    let status = RpcStatus::Running { port: 7778, client: "client" };
    assert_eq!(connect(status), Ok("client"));
}

#[test]
fn connect_to_stopped_node_fails() {
    let err = connect(RpcStatus::<u8>::Stopped).unwrap_err();
    assert_eq!(err, ConnectError::NotRunning);
    assert_eq!(err.message(), "iroh is not running, please start it");
}

#[test]
fn raw_connect_outcomes() {
    assert_eq!(finish_raw_connect(5u8, StatusProbe::Answered), Ok(5));
    let err = finish_raw_connect(5u8, StatusProbe::TimedOut).unwrap_err();
    assert_eq!(err, ConnectError::NodeNotAnswering);
    assert_eq!(err.message(), "Iroh node is not running");
    let err = finish_raw_connect(5u8, StatusProbe::Failed("closed".to_string())).unwrap_err();
    assert_eq!(err, ConnectError::Rpc("closed".to_string()));
    assert_eq!(err.message(), "closed");
}

#[test]
fn connect_target() {
    let t = rpc_connect_target(4919);
    assert_eq!(t.bind_ip, [0, 0, 0, 0]);
    assert_eq!(t.bind_port, 0);
    assert_eq!(t.server_ip, [127, 0, 0, 1]);
    assert_eq!(t.server_port, 4919);
    assert_eq!(t.server_name, "localhost");
    assert_eq!(t.alpn, b"n0/provider-rpc/1".to_vec());
    assert_eq!(&RPC_ALPN, b"n0/provider-rpc/1");
    assert_eq!(t.status_timeout_secs, 1);
    assert_eq!(t.keep_alive_secs, 1);
    assert_eq!(RPC_STATUS_TIMEOUT_SECS, 1);
    assert_eq!(RPC_KEEP_ALIVE_SECS, 1);
}
