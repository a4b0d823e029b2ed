//! What a finished download request means for the downloader: the action
//! to take on failure, and the download metrics that each outcome records.

use vstd::prelude::*;
use vstd::std_specs::convert::FromSpecImpl;
use vstd::wrapping::u64_specs::wrapping_add;

use crate::get_error::{get_error_of_connection, GetError};
use crate::transport_error::ConnectionError;

verus! {

/// How the downloader reacts to a failed request.
#[derive(Debug, Clone, PartialEq, Eq)]
pub enum FailureAction {
    /// An error occurred that prevents the request from being retried at all.
    AbortRequest(GetError),
    /// An error occurred that suggests the node should not be used in general.
    DropPeer(GetError),
    /// An error occurred in which neither the node nor the request are at fault.
    RetryLater(GetError),
}

/// The action the downloader takes for each kind of get failure.
pub open spec fn failure_action_of(e: GetError) -> FailureAction {
    match e {
        GetError::NotFound(_) => FailureAction::AbortRequest(e),
        GetError::RemoteReset(_) => FailureAction::RetryLater(e),
        GetError::NoncompliantNode(_) => FailureAction::DropPeer(e),
        GetError::Io(_) => FailureAction::RetryLater(e),
        GetError::BadRequest(_) => FailureAction::AbortRequest(e),
        GetError::LocalFailure(_) => FailureAction::AbortRequest(e),
    }
}

impl FailureAction {
    /// The get failure that caused this action.
    pub open spec fn error_of(self) -> GetError {
        match self {
            FailureAction::AbortRequest(e) => e,
            FailureAction::DropPeer(e) => e,
            FailureAction::RetryLater(e) => e,
        }
    }
}

impl From<GetError> for FailureAction {
    fn from(e: GetError) -> (r: Self) {
        match e {
            GetError::NotFound(_) => FailureAction::AbortRequest(e),
            GetError::RemoteReset(_) => FailureAction::RetryLater(e),
            GetError::NoncompliantNode(_) => FailureAction::DropPeer(e),
            GetError::Io(_) => FailureAction::RetryLater(e),
            GetError::BadRequest(_) => FailureAction::AbortRequest(e),
            GetError::LocalFailure(_) => FailureAction::AbortRequest(e),
        }
    }
}

impl FromSpecImpl<GetError> for FailureAction {
    open spec fn obeys_from_spec() -> bool {
        true
    }

    open spec fn from_spec(v: GetError) -> Self {
        failure_action_of(v)
    }
}

/// A span of time, as whole seconds and the nanoseconds beyond them.
#[derive(Debug, Clone, Copy, PartialEq, Eq)]
pub struct Elapsed {
    /// Whole seconds.
    pub secs: u64,
    /// Nanoseconds beyond the whole seconds.
    pub nanos: u32,
}

impl Elapsed {
    /// The number of whole milliseconds in the span.
    pub open spec fn millis(self) -> int {
        self.secs * 1000 + self.nanos / 1_000_000
    }

    /// Returns the total number of whole milliseconds contained by this span.
    pub fn as_millis(&self) -> (r: u128)
        ensures
            r == self.millis(),
    {
        (self.secs as u128) * 1000 + ((self.nanos / 1_000_000) as u128)
    }
}

/// Statistics about a finished transfer.
#[derive(Debug, Clone, Copy, PartialEq, Eq)]
pub struct Stats {
    /// The number of bytes written.
    pub bytes_written: u64,
    /// The number of bytes read.
    pub bytes_read: u64,
    /// The time it took to transfer the data.
    pub elapsed: Elapsed,
}

/// Download counters of a node. Like the counters they stand for, they
/// add modulo 2^64.
#[derive(Debug, Clone, Copy, PartialEq, Eq, Default)]
pub struct Metrics {
    /// Total number of successful downloads.
    pub downloads_success: u64,
    /// Total number of downloads failed with an error.
    pub downloads_error: u64,
    /// Total number of downloads failed with not found.
    pub downloads_notfound: u64,
    /// Total number of content bytes downloaded.
    pub download_bytes_total: u64,
    /// Total time in milliseconds spent downloading content bytes.
    pub download_time_total: u64,
}

/// The metrics after one more download request finished with `res`.
pub open spec fn metrics_after(m: Metrics, res: Result<Stats, GetError>) -> Metrics {
    match res {
        Ok(stats) => Metrics {
            downloads_success: wrapping_add(m.downloads_success, 1),
            download_bytes_total: wrapping_add(m.download_bytes_total, stats.bytes_written),
            download_time_total: wrapping_add(m.download_time_total, stats.elapsed.millis() as u64),
            ..m
        },
        Err(GetError::NotFound(_)) => Metrics {
            downloads_notfound: wrapping_add(m.downloads_notfound, 1),
            ..m
        },
        Err(_) => Metrics { downloads_error: wrapping_add(m.downloads_error, 1), ..m },
    }
}

/// What a get request reports to the downloader once it finished with `res`.
pub open spec fn get_outcome(res: Result<Stats, GetError>) -> Result<Stats, FailureAction> {
    match res {
        Ok(stats) => Ok(stats),
        Err(e) => Err(failure_action_of(e)),
    }
}

/// Performs get requests over connections and reports their outcome to the downloader.
pub struct IoGetter<S> {
    /// The store the downloaded data goes to.
    pub store: S,
}

impl<S> IoGetter<S> {
    /// Records the outcome of a finished get request in `metrics` and turns it
    /// into the result the downloader expects: the transfer statistics, or the
    /// action to take on failure.
    pub fn finish(metrics: &mut Metrics, res: Result<Stats, GetError>) -> (r: Result<
        Stats,
        FailureAction,
    >)
        ensures
            *final(metrics) == metrics_after(*old(metrics), res),
            r == get_outcome(res),
    {
        match res {
            Ok(stats) => {
                metrics.downloads_success = metrics.downloads_success.wrapping_add(1);
                metrics.download_bytes_total = metrics.download_bytes_total.wrapping_add(
                    stats.bytes_written,
                );
                let millis = stats.elapsed.as_millis() as u64;
                metrics.download_time_total = metrics.download_time_total.wrapping_add(millis);
                Ok(stats)
            },
            Err(e) => {
                match &e {
                    GetError::NotFound(_) => {
                        metrics.downloads_notfound = metrics.downloads_notfound.wrapping_add(1);
                    },
                    _ => {
                        metrics.downloads_error = metrics.downloads_error.wrapping_add(1);
                    },
                }
                Err(FailureAction::from(e))
            },
        }
    }
}

/// The action taken on a failure carries the failure itself, and a peer is
/// dropped exactly when it behaved in a non-compliant way.
pub proof fn lemma_failure_action_keeps_error(e: GetError)
    ensures
        failure_action_of(e).error_of() == e,
        failure_action_of(e) is DropPeer <==> e is NoncompliantNode,
        failure_action_of(e) is RetryLater <==> (e is RemoteReset || e is Io),
        failure_action_of(e) is AbortRequest <==> (e is NotFound || e is BadRequest
            || e is LocalFailure),
{
}

/// A lost connection leads the downloader to drop a peer that speaks no
/// supported version or violates the protocol, and to retry later otherwise.
pub proof fn lemma_lost_connection_action(c: ConnectionError)
    ensures
        failure_action_of(get_error_of_connection(c)) is DropPeer <==> (c is VersionMismatch
            || c is TransportError),
        failure_action_of(get_error_of_connection(c)) is RetryLater <==> !(c is VersionMismatch
            || c is TransportError),
{
}

/// Every finished request is counted exactly once: as a success, as not
/// found, or as an error; the other two counters are unchanged.
pub proof fn lemma_each_outcome_counted_once(m: Metrics, res: Result<Stats, GetError>)
    ensures
        ({
            let n = metrics_after(m, res);
            &&& res is Ok ==> n.downloads_success == wrapping_add(m.downloads_success, 1)
                && n.downloads_error == m.downloads_error && n.downloads_notfound
                == m.downloads_notfound
            &&& (res matches Err(GetError::NotFound(_))) ==> n.downloads_notfound
                == wrapping_add(m.downloads_notfound, 1) && n.downloads_success
                == m.downloads_success && n.downloads_error == m.downloads_error
                && n.download_bytes_total == m.download_bytes_total && n.download_time_total
                == m.download_time_total
            &&& (res is Err && !(res matches Err(GetError::NotFound(_)))) ==> n.downloads_error
                == wrapping_add(m.downloads_error, 1) && n.downloads_success
                == m.downloads_success && n.downloads_notfound == m.downloads_notfound
                && n.download_bytes_total == m.download_bytes_total && n.download_time_total
                == m.download_time_total
        }),
{
}

/// Finishing a request passes its statistics on unchanged when it succeeded;
/// when it failed, the downloader is told to act on that very failure: retry
/// later exactly when the remote reset or the network or IO failed, drop the
/// peer exactly when it behaved in a non-compliant way, and abort the request
/// otherwise.
pub proof fn lemma_get_outcome_acts_on_failure(res: Result<Stats, GetError>)
    ensures
        res is Ok ==> get_outcome(res) == Ok::<Stats, FailureAction>(res->Ok_0),
        res is Err ==> get_outcome(res) is Err,
        res is Err ==> get_outcome(res)->Err_0.error_of() == res->Err_0,
        res is Err ==> (get_outcome(res)->Err_0 is RetryLater <==> (res->Err_0 is RemoteReset
            || res->Err_0 is Io)),
        res is Err ==> (get_outcome(res)->Err_0 is DropPeer <==> res->Err_0 is NoncompliantNode),
        res is Err ==> (get_outcome(res)->Err_0 is AbortRequest <==> (res->Err_0 is NotFound
            || res->Err_0 is BadRequest || res->Err_0 is LocalFailure)),
{
}

/// A successful request adds its written bytes and its whole milliseconds
/// (seconds times a thousand plus the whole milliseconds in its nanoseconds,
/// modulo 2^64) to the totals; a failed one leaves the totals unchanged.
pub proof fn lemma_success_adds_bytes_and_time(m: Metrics, res: Result<Stats, GetError>)
    ensures
        res is Ok ==> metrics_after(m, res).download_bytes_total == wrapping_add(
            m.download_bytes_total,
            res->Ok_0.bytes_written,
        ),
        res is Ok ==> metrics_after(m, res).download_time_total == wrapping_add(
            m.download_time_total,
            (res->Ok_0.elapsed.secs * 1000 + res->Ok_0.elapsed.nanos / 1_000_000) as u64,
        ),
        res is Err ==> metrics_after(m, res).download_bytes_total == m.download_bytes_total,
        res is Err ==> metrics_after(m, res).download_time_total == m.download_time_total,
{
}

} // verus!
