//! Verified core of an iroh node: classification of download failures,
//! the RPC lock-file protocol, address bookkeeping and the RPC message types.

pub mod transport_error;
pub mod get_error;
pub mod downloader;
pub mod rpc_status;
pub mod client;
pub mod addr;
pub mod node;
pub mod bench;
pub mod rpc_protocol;
