//! Messages of the RPC protocol used for communication between a CLI and an
//! iroh node: requests, responses, and the service they belong to.

use vstd::prelude::*;

use std::collections::BTreeMap;

verus! {

/// Whether to wrap the added data in a collection.
#[derive(Debug, Clone, PartialEq, Eq)]
pub enum WrapOption {
    /// Do not wrap the file or directory.
    NoWrap,
    /// Wrap the file or directory in a collection.
    Wrap {
        /// Override the filename in the wrapping collection.
        name: Option<String>,
    },
}

/// Set the mode for whether to directly start the download or add it to the download queue.
#[derive(Debug, Clone, Copy, PartialEq, Eq)]
pub enum DownloadMode {
    /// Start the download right away.
    ///
    /// No concurrency limits or queuing will be applied. It is up to the user to manage download
    /// concurrency.
    Direct,
    /// Queue the download.
    ///
    /// The download queue will be processed in-order, while respecting the downloader concurrency limits.
    Queued,
}

/// A request to the node to validate the integrity of all provided data.
#[derive(Debug, Clone, Copy, PartialEq, Eq)]
pub struct BlobConsistencyCheckRequest {
    /// repair the store by dropping inconsistent blobs
    pub repair: bool,
}

/// A request to the node to validate the integrity of all provided data.
#[derive(Debug, Clone, Copy, PartialEq, Eq)]
pub struct BlobValidateRequest {
    /// repair the store by downgrading blobs from complete to partial
    pub repair: bool,
}

/// List all blobs, including collections.
#[derive(Debug, Clone, Copy, PartialEq, Eq)]
pub struct BlobListRequest;

/// List all incomplete blobs.
#[derive(Debug, Clone, Copy, PartialEq, Eq)]
pub struct BlobListIncompleteRequest;

/// List all collections.
///
/// Lists all collections that have been explicitly added to the database.
#[derive(Debug, Clone, Copy, PartialEq, Eq)]
pub struct BlobListCollectionsRequest;

/// List all tags.
#[derive(Debug, Clone, Copy, PartialEq, Eq)]
pub struct ListTagsRequest;

/// List connection information about all the nodes we know about.
///
/// These can be nodes that we have explicitly connected to or nodes
/// that have initiated connections to us.
#[derive(Debug, Clone, Copy, PartialEq, Eq)]
pub struct NodeConnectionsRequest;

/// A request to shutdown the node.
#[derive(Debug, Clone, Copy, PartialEq, Eq)]
pub struct NodeShutdownRequest {
    /// Force shutdown
    pub force: bool,
}

/// A request to get information about the identity of the node.
#[derive(Debug, Clone, Copy, PartialEq, Eq)]
pub struct NodeStatusRequest;

/// A request to watch for the node status.
#[derive(Debug, Clone, Copy, PartialEq, Eq)]
pub struct NodeWatchRequest;

/// The response to a watch request.
#[derive(Debug, Clone, PartialEq, Eq)]
pub struct NodeWatchResponse {
    /// The version of the node
    pub version: String,
}

/// The response to a version request.
#[derive(Debug, Clone, PartialEq, Eq)]
pub struct VersionResponse {
    /// The version of the node
    pub version: String,
}

/// List document authors for which we have a secret key.
#[derive(Debug, Clone, Copy, PartialEq, Eq)]
pub struct AuthorListRequest {}

/// Create a new document author.
#[derive(Debug, Clone, Copy, PartialEq, Eq)]
pub struct AuthorCreateRequest;

/// Response for an author delete request.
#[derive(Debug, Clone, Copy, PartialEq, Eq)]
pub struct AuthorDeleteResponse;

/// Intended capability for document share tickets.
#[derive(Debug, Clone, Copy, PartialEq, Eq)]
pub enum ShareMode {
    /// Read-only access
    Read,
    /// Write access
    Write,
}

/// List all documents.
#[derive(Debug, Clone, Copy, PartialEq, Eq)]
pub struct DocListRequest {}

/// Create a new document.
#[derive(Debug, Clone, Copy, PartialEq, Eq)]
pub struct DocCreateRequest {}

/// Response to a document open request.
#[derive(Debug, Clone, Copy, PartialEq, Eq)]
pub struct DocOpenResponse {}

/// Response to a document close request.
#[derive(Debug, Clone, Copy, PartialEq, Eq)]
pub struct DocCloseResponse {}

/// Response to a request to start syncing a document.
#[derive(Debug, Clone, Copy, PartialEq, Eq)]
pub struct DocStartSyncResponse {}

/// Response to a request to leave a document.
#[derive(Debug, Clone, Copy, PartialEq, Eq)]
pub struct DocLeaveResponse {}

/// Response to a request to drop a document.
#[derive(Debug, Clone, Copy, PartialEq, Eq)]
pub struct DocDropResponse {}

/// Response to a request to delete entries in a document.
#[derive(Debug, Clone, Copy, PartialEq, Eq)]
pub struct DocDelResponse {
    /// The number of entries that were removed.
    pub removed: usize,
}

/// Response to a request to set an entry in a document via its hash.
#[derive(Debug, Clone, Copy, PartialEq, Eq)]
pub struct DocSetHashResponse {}

/// Response to a request to set a download policy.
#[derive(Debug, Clone, Copy, PartialEq, Eq)]
pub struct DocSetDownloadPolicyResponse {}

/// Get stats for the running Iroh node.
#[derive(Debug, Clone, Copy, PartialEq, Eq)]
pub struct NodeStatsRequest {}

/// Counter stats.
#[derive(Debug, Clone, PartialEq, Eq)]
pub struct CounterStats {
    /// The counter value
    pub value: u64,
    /// The counter description
    pub description: String,
}

/// Response to a node stats request.
#[derive(Debug, Clone, PartialEq, Eq)]
pub struct NodeStatsResponse {
    /// Map of statistics
    pub stats: BTreeMap<String, CounterStats>,
}

/// The RPC service for the iroh provider process.
#[derive(Debug, Clone, Copy, PartialEq, Eq)]
pub struct ProviderService;

} // verus!
