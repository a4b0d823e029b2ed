//! Error returned from get operations, and how each lower-level failure is
//! classified into one of its kinds.

use vstd::prelude::*;
use vstd::std_specs::convert::FromSpecImpl;
use vstd::std_specs::convert::FromSpec;

use crate::transport_error::{ConnectionError, IoError, ReadError, WriteError};

verus! {

/// Failure to report progress: the receiving side went away.
#[derive(Debug, Clone, Copy, PartialEq, Eq)]
pub enum ProgressSendError {
    /// The receiver was dropped.
    ReceiverDropped,
}

/// Error when sending the request of a get operation.
#[derive(Debug, Clone, PartialEq, Eq)]
pub enum ConnectedNextError {
    /// Serializing the request failed; carries the serializer's message.
    PostcardSer(String),
    /// The serialized request is too long to be sent.
    RequestTooBig,
    /// Writing the request to the stream failed.
    Write(WriteError),
    /// A local input/output operation failed.
    Io(IoError),
}

/// Error when reading the header of a blob.
#[derive(Debug, Clone, PartialEq, Eq)]
pub enum AtBlobHeaderNextError {
    /// The provider does not have the requested data.
    NotFound,
    /// Reading from the stream failed.
    Read(ReadError),
    /// A local input/output operation failed.
    Io(IoError),
}

/// Error when decoding and verifying the content of a blob.
#[derive(Debug, Clone, PartialEq, Eq)]
pub enum DecodeError {
    /// The provider does not have the requested data.
    NotFound,
    /// A parent node was not found; carries the tree node.
    ParentNotFound(u64),
    /// A leaf was not found; carries the chunk number.
    LeafNotFound(u64),
    /// The hash of a parent node did not match; carries the tree node.
    ParentHashMismatch(u64),
    /// The hash of a leaf did not match; carries the chunk number.
    LeafHashMismatch(u64),
    /// Reading from the stream failed.
    Read(ReadError),
    /// A local input/output operation failed.
    Io(IoError),
}

/// The lower-level failure a [`GetError`] was made from.
#[derive(Debug, Clone, PartialEq, Eq)]
pub enum GetErrorSource {
    /// The connection was lost.
    Connection(ConnectionError),
    /// Reading from a stream failed.
    Read(ReadError),
    /// Writing to a stream failed.
    Write(WriteError),
    /// Sending the request failed.
    ConnectedNext(ConnectedNextError),
    /// Reading a blob header failed.
    AtBlobHeaderNext(AtBlobHeaderNextError),
    /// Decoding a blob failed.
    Decode(DecodeError),
    /// A local input/output operation failed.
    Io(IoError),
    /// Progress could not be reported.
    ProgressSend(ProgressSendError),
}

/// Failures for a get operation.
#[derive(Debug, Clone, PartialEq, Eq)]
pub enum GetError {
    /// Hash not found.
    NotFound(GetErrorSource),
    /// Remote has reset the connection.
    RemoteReset(GetErrorSource),
    /// Remote behaved in a non-compliant way.
    NoncompliantNode(GetErrorSource),
    /// Network or IO operation failed.
    Io(GetErrorSource),
    /// Our download request is invalid.
    BadRequest(GetErrorSource),
    /// Operation failed on the local node.
    LocalFailure(GetErrorSource),
}

impl GetError {
    /// The lower-level failure this error was made from.
    pub open spec fn source_of(self) -> GetErrorSource {
        match self {
            GetError::NotFound(s) => s,
            GetError::RemoteReset(s) => s,
            GetError::NoncompliantNode(s) => s,
            GetError::Io(s) => s,
            GetError::BadRequest(s) => s,
            GetError::LocalFailure(s) => s,
        }
    }

    /// The lower-level failure this error was made from.
    pub fn source(&self) -> (r: &GetErrorSource)
        ensures
            *r == self.source_of(),
    {
        match self {
            GetError::NotFound(s) => s,
            GetError::RemoteReset(s) => s,
            GetError::NoncompliantNode(s) => s,
            GetError::Io(s) => s,
            GetError::BadRequest(s) => s,
            GetError::LocalFailure(s) => s,
        }
    }

    /// The human-readable description of the error kind.
    pub fn message(&self) -> (r: &'static str)
        ensures
            r@ == spec_get_error_message(*self),
    {
        match self {
            GetError::NotFound(_) => "Hash not found",
            GetError::RemoteReset(_) => "Remote has reset the connection",
            GetError::NoncompliantNode(_) => "Remote behaved in a non-compliant way",
            GetError::Io(_) => "A network or IO operation failed",
            GetError::BadRequest(_) => "Our download request is invalid",
            GetError::LocalFailure(_) => "Operation failed on the local node",
        }
    }
}

/// The human-readable description of each error kind.
pub open spec fn spec_get_error_message(e: GetError) -> Seq<char> {
    match e {
        GetError::NotFound(_) => "Hash not found"@,
        GetError::RemoteReset(_) => "Remote has reset the connection"@,
        GetError::NoncompliantNode(_) => "Remote behaved in a non-compliant way"@,
        GetError::Io(_) => "A network or IO operation failed"@,
        GetError::BadRequest(_) => "Our download request is invalid"@,
        GetError::LocalFailure(_) => "Operation failed on the local node"@,
    }
}

/// Classification of a lost connection.
pub open spec fn get_error_of_connection(e: ConnectionError) -> GetError {
    let src = GetErrorSource::Connection(e);
    match e {
        // an unsupported version is a long-lasting problem: the peer is not usable
        ConnectionError::VersionMismatch => GetError::NoncompliantNode(src),
        // the peer violated the QUIC specification
        ConnectionError::TransportError(_) => GetError::NoncompliantNode(src),
        // the peer might be disconnecting or otherwise unavailable
        ConnectionError::ConnectionClosed(_) => GetError::Io(src),
        ConnectionError::ApplicationClosed(_) => GetError::Io(src),
        // the peer restarted
        ConnectionError::Reset => GetError::RemoteReset(src),
        ConnectionError::TimedOut => GetError::Io(src),
        ConnectionError::LocallyClosed => GetError::Io(src),
    }
}

/// Classification of a failed stream read.
pub open spec fn get_error_of_read(e: ReadError) -> GetError {
    match e {
        ReadError::Reset(_) => GetError::RemoteReset(GetErrorSource::Read(e)),
        ReadError::ConnectionLost(c) => get_error_of_connection(c),
        // all these errors indicate the peer is not usable at this moment
        ReadError::UnknownStream => GetError::Io(GetErrorSource::Read(e)),
        ReadError::IllegalOrderedRead => GetError::Io(GetErrorSource::Read(e)),
        ReadError::ZeroRttRejected => GetError::Io(GetErrorSource::Read(e)),
    }
}

/// Classification of a failed stream write.
pub open spec fn get_error_of_write(e: WriteError) -> GetError {
    match e {
        WriteError::Stopped(_) => GetError::RemoteReset(GetErrorSource::Write(e)),
        WriteError::ConnectionLost(c) => get_error_of_connection(c),
        // all these errors indicate the peer is not usable at this moment
        WriteError::UnknownStream => GetError::Io(GetErrorSource::Write(e)),
        WriteError::ZeroRttRejected => GetError::Io(GetErrorSource::Write(e)),
    }
}

/// Classification of a failed local input/output operation: generally recoverable.
pub open spec fn get_error_of_io(e: IoError) -> GetError {
    GetError::Io(GetErrorSource::Io(e))
}

/// Classification of a failure to send the request.
pub open spec fn get_error_of_connected_next(e: ConnectedNextError) -> GetError {
    let src = GetErrorSource::ConnectedNext(e);
    match e {
        // serialization errors indicate something wrong with the request itself
        ConnectedNextError::PostcardSer(_) => GetError::BadRequest(src),
        // the request will never be sent
        ConnectedNextError::RequestTooBig => GetError::BadRequest(src),
        ConnectedNextError::Write(w) => get_error_of_write(w),
        // io errors are likely recoverable
        ConnectedNextError::Io(_) => GetError::Io(src),
    }
}

/// Classification of a failure to read a blob header.
pub open spec fn get_error_of_at_blob_header_next(e: AtBlobHeaderNextError) -> GetError {
    let src = GetErrorSource::AtBlobHeaderNext(e);
    match e {
        // the provider does not have the data; it might have it later
        AtBlobHeaderNextError::NotFound => GetError::NotFound(src),
        AtBlobHeaderNextError::Read(r) => get_error_of_read(r),
        AtBlobHeaderNextError::Io(_) => GetError::Io(src),
    }
}

/// Classification of a failure to decode a blob.
pub open spec fn get_error_of_decode(e: DecodeError) -> GetError {
    let src = GetErrorSource::Decode(e);
    match e {
        DecodeError::NotFound => GetError::NotFound(src),
        DecodeError::ParentNotFound(_) => GetError::NotFound(src),
        DecodeError::LeafNotFound(_) => GetError::NotFound(src),
        // the peer sent data that does not match the hash
        DecodeError::ParentHashMismatch(_) => GetError::NoncompliantNode(src),
        DecodeError::LeafHashMismatch(_) => GetError::NoncompliantNode(src),
        DecodeError::Read(r) => get_error_of_read(r),
        DecodeError::Io(i) => get_error_of_io(i),
    }
}

impl From<ProgressSendError> for GetError {
    fn from(value: ProgressSendError) -> (r: Self) {
        GetError::LocalFailure(GetErrorSource::ProgressSend(value))
    }
}

impl FromSpecImpl<ProgressSendError> for GetError {
    open spec fn obeys_from_spec() -> bool {
        true
    }

    open spec fn from_spec(v: ProgressSendError) -> Self {
        GetError::LocalFailure(GetErrorSource::ProgressSend(v))
    }
}

impl From<ConnectionError> for GetError {
    fn from(value: ConnectionError) -> (r: Self) {
        match value {
            ConnectionError::VersionMismatch => GetError::NoncompliantNode(
                GetErrorSource::Connection(value),
            ),
            ConnectionError::TransportError(_) => GetError::NoncompliantNode(
                GetErrorSource::Connection(value),
            ),
            ConnectionError::ConnectionClosed(_) => GetError::Io(GetErrorSource::Connection(value)),
            ConnectionError::ApplicationClosed(_) => GetError::Io(
                GetErrorSource::Connection(value),
            ),
            ConnectionError::Reset => GetError::RemoteReset(GetErrorSource::Connection(value)),
            ConnectionError::TimedOut => GetError::Io(GetErrorSource::Connection(value)),
            ConnectionError::LocallyClosed => GetError::Io(GetErrorSource::Connection(value)),
        }
    }
}

impl FromSpecImpl<ConnectionError> for GetError {
    open spec fn obeys_from_spec() -> bool {
        true
    }

    open spec fn from_spec(v: ConnectionError) -> Self {
        get_error_of_connection(v)
    }
}

impl From<ReadError> for GetError {
    fn from(value: ReadError) -> (r: Self) {
        match value {
            ReadError::Reset(_) => GetError::RemoteReset(GetErrorSource::Read(value)),
            ReadError::ConnectionLost(conn_error) => GetError::from(conn_error),
            ReadError::UnknownStream => GetError::Io(GetErrorSource::Read(value)),
            ReadError::IllegalOrderedRead => GetError::Io(GetErrorSource::Read(value)),
            ReadError::ZeroRttRejected => GetError::Io(GetErrorSource::Read(value)),
        }
    }
}

impl FromSpecImpl<ReadError> for GetError {
    open spec fn obeys_from_spec() -> bool {
        true
    }

    open spec fn from_spec(v: ReadError) -> Self {
        get_error_of_read(v)
    }
}

impl From<WriteError> for GetError {
    fn from(value: WriteError) -> (r: Self) {
        match value {
            WriteError::Stopped(_) => GetError::RemoteReset(GetErrorSource::Write(value)),
            WriteError::ConnectionLost(conn_error) => GetError::from(conn_error),
            WriteError::UnknownStream => GetError::Io(GetErrorSource::Write(value)),
            WriteError::ZeroRttRejected => GetError::Io(GetErrorSource::Write(value)),
        }
    }
}

impl FromSpecImpl<WriteError> for GetError {
    open spec fn obeys_from_spec() -> bool {
        true
    }

    open spec fn from_spec(v: WriteError) -> Self {
        get_error_of_write(v)
    }
}

impl From<IoError> for GetError {
    fn from(value: IoError) -> (r: Self) {
        GetError::Io(GetErrorSource::Io(value))
    }
}

impl FromSpecImpl<IoError> for GetError {
    open spec fn obeys_from_spec() -> bool {
        true
    }

    open spec fn from_spec(v: IoError) -> Self {
        get_error_of_io(v)
    }
}

impl From<ConnectedNextError> for GetError {
    fn from(value: ConnectedNextError) -> (r: Self) {
        match value {
            ConnectedNextError::PostcardSer(_) => GetError::BadRequest(
                GetErrorSource::ConnectedNext(value),
            ),
            ConnectedNextError::RequestTooBig => GetError::BadRequest(
                GetErrorSource::ConnectedNext(value),
            ),
            ConnectedNextError::Write(e) => GetError::from(e),
            ConnectedNextError::Io(_) => GetError::Io(GetErrorSource::ConnectedNext(value)),
        }
    }
}

impl FromSpecImpl<ConnectedNextError> for GetError {
    open spec fn obeys_from_spec() -> bool {
        true
    }

    open spec fn from_spec(v: ConnectedNextError) -> Self {
        get_error_of_connected_next(v)
    }
}

impl From<AtBlobHeaderNextError> for GetError {
    fn from(value: AtBlobHeaderNextError) -> (r: Self) {
        match value {
            AtBlobHeaderNextError::NotFound => GetError::NotFound(
                GetErrorSource::AtBlobHeaderNext(value),
            ),
            AtBlobHeaderNextError::Read(e) => GetError::from(e),
            AtBlobHeaderNextError::Io(_) => GetError::Io(GetErrorSource::AtBlobHeaderNext(value)),
        }
    }
}

impl FromSpecImpl<AtBlobHeaderNextError> for GetError {
    open spec fn obeys_from_spec() -> bool {
        true
    }

    open spec fn from_spec(v: AtBlobHeaderNextError) -> Self {
        get_error_of_at_blob_header_next(v)
    }
}

impl From<DecodeError> for GetError {
    fn from(value: DecodeError) -> (r: Self) {
        match value {
            DecodeError::NotFound => GetError::NotFound(GetErrorSource::Decode(value)),
            DecodeError::ParentNotFound(_) => GetError::NotFound(GetErrorSource::Decode(value)),
            DecodeError::LeafNotFound(_) => GetError::NotFound(GetErrorSource::Decode(value)),
            DecodeError::ParentHashMismatch(_) => GetError::NoncompliantNode(
                GetErrorSource::Decode(value),
            ),
            DecodeError::LeafHashMismatch(_) => GetError::NoncompliantNode(
                GetErrorSource::Decode(value),
            ),
            DecodeError::Read(e) => GetError::from(e),
            DecodeError::Io(e) => GetError::from(e),
        }
    }
}

impl FromSpecImpl<DecodeError> for GetError {
    open spec fn obeys_from_spec() -> bool {
        true
    }

    open spec fn from_spec(v: DecodeError) -> Self {
        get_error_of_decode(v)
    }
}

/// A lost connection is classified the same way whether it surfaced while
/// reading from a stream, while writing to one, or on the connection itself.
pub proof fn lemma_connection_lost_same_as_connection(c: ConnectionError)
    ensures
        get_error_of_read(ReadError::ConnectionLost(c)) == get_error_of_connection(c),
        get_error_of_write(WriteError::ConnectionLost(c)) == get_error_of_connection(c),
{
}

/// Stream and input/output failures met while sending a request, reading a
/// blob header or decoding a blob are classified as the failure itself.
pub proof fn lemma_nested_failures_classified_as_themselves(
    r: ReadError,
    w: WriteError,
    i: IoError,
)
    ensures
        get_error_of_connected_next(ConnectedNextError::Write(w)) == get_error_of_write(w),
        get_error_of_at_blob_header_next(AtBlobHeaderNextError::Read(r)) == get_error_of_read(r),
        get_error_of_decode(DecodeError::Read(r)) == get_error_of_read(r),
        get_error_of_decode(DecodeError::Io(i)) == get_error_of_io(i),
{
}

/// A transport failure never means that the data was not found, that the
/// request was invalid, or that the local node failed.
pub proof fn lemma_transport_failures_blame_peer_or_network(
    c: ConnectionError,
    r: ReadError,
    w: WriteError,
)
    ensures
        get_error_of_connection(c) is NoncompliantNode || get_error_of_connection(c) is Io
            || get_error_of_connection(c) is RemoteReset,
        get_error_of_read(r) is NoncompliantNode || get_error_of_read(r) is Io
            || get_error_of_read(r) is RemoteReset,
        get_error_of_write(w) is NoncompliantNode || get_error_of_write(w) is Io
            || get_error_of_write(w) is RemoteReset,
{
}

/// Data is reported as not found exactly when the provider said it does not
/// have it; a request is reported as bad exactly when it could not be serialized
/// or is too big to be sent.
pub proof fn lemma_not_found_and_bad_request_exactly(
    h: AtBlobHeaderNextError,
    d: DecodeError,
    n: ConnectedNextError,
)
    ensures
        get_error_of_at_blob_header_next(h) is NotFound <==> h is NotFound,
        get_error_of_decode(d) is NotFound <==> (d is NotFound || d is ParentNotFound
            || d is LeafNotFound),
        get_error_of_connected_next(n) is BadRequest <==> (n is PostcardSer || n is RequestTooBig),
        !(get_error_of_decode(d) is BadRequest),
        !(get_error_of_at_blob_header_next(h) is BadRequest),
{
}

/// The source of a classified stream failure is the innermost failure: the
/// lost connection if the stream failed because of it, the stream failure otherwise.
pub proof fn lemma_source_is_innermost_failure(r: ReadError, w: WriteError)
    ensures
        get_error_of_read(r).source_of() == match r {
            ReadError::ConnectionLost(c) => GetErrorSource::Connection(c),
            _ => GetErrorSource::Read(r),
        },
        get_error_of_write(w).source_of() == match w {
            WriteError::ConnectionLost(c) => GetErrorSource::Connection(c),
            _ => GetErrorSource::Write(w),
        },
{
}

/// Each lost connection is classified by its reason: an unsupported version
/// or a protocol violation blames the peer, a reset by the peer is a remote
/// reset, and every other reason is a network failure; the connection error is
/// kept as the source.
pub proof fn lemma_connection_classification(c: ConnectionError)
    ensures
        get_error_of_connection(c).source_of() == GetErrorSource::Connection(c),
        get_error_of_connection(c) is NoncompliantNode <==> (c is VersionMismatch
            || c is TransportError),
        get_error_of_connection(c) is RemoteReset <==> c is Reset,
        get_error_of_connection(c) is Io <==> (c is ConnectionClosed || c is ApplicationClosed
            || c is TimedOut || c is LocallyClosed),
{
}

/// A stream the peer reset, or stopped accepting data on, is a remote reset
/// whatever its error code; a stream failure that is not a lost connection is
/// otherwise a network failure, and keeps the stream failure as its source.
pub proof fn lemma_stream_classification(r: ReadError, w: WriteError)
    ensures
        r is Reset ==> get_error_of_read(r) == GetError::RemoteReset(GetErrorSource::Read(r)),
        (r is UnknownStream || r is IllegalOrderedRead || r is ZeroRttRejected)
            ==> get_error_of_read(r) == GetError::Io(GetErrorSource::Read(r)),
        w is Stopped ==> get_error_of_write(w) == GetError::RemoteReset(GetErrorSource::Write(w)),
        (w is UnknownStream || w is ZeroRttRejected) ==> get_error_of_write(w) == GetError::Io(
            GetErrorSource::Write(w),
        ),
{
}

/// Failures of the get state machine: a request that cannot be serialized or
/// is too big is bad, data the provider does not have is not found, data that
/// does not match its hash blames the peer, and local input/output failures
/// are network/IO failures; each keeps the failure as its source.
pub proof fn lemma_get_steps_classification(
    n: ConnectedNextError,
    h: AtBlobHeaderNextError,
    d: DecodeError,
    i: IoError,
    p: ProgressSendError,
)
    ensures
        (n is PostcardSer || n is RequestTooBig) ==> get_error_of_connected_next(n)
            == GetError::BadRequest(GetErrorSource::ConnectedNext(n)),
        n is Io ==> get_error_of_connected_next(n) == GetError::Io(
            GetErrorSource::ConnectedNext(n),
        ),
        h is NotFound ==> get_error_of_at_blob_header_next(h) == GetError::NotFound(
            GetErrorSource::AtBlobHeaderNext(h),
        ),
        h is Io ==> get_error_of_at_blob_header_next(h) == GetError::Io(
            GetErrorSource::AtBlobHeaderNext(h),
        ),
        (d is NotFound || d is ParentNotFound || d is LeafNotFound) ==> get_error_of_decode(d)
            == GetError::NotFound(GetErrorSource::Decode(d)),
        (d is ParentHashMismatch || d is LeafHashMismatch) ==> get_error_of_decode(d)
            == GetError::NoncompliantNode(GetErrorSource::Decode(d)),
        get_error_of_io(i) == GetError::Io(GetErrorSource::Io(i)),
        GetError::LocalFailure(GetErrorSource::ProgressSend(p)) == <GetError as FromSpec<ProgressSendError>>::from_spec(p),
{
}

} // verus!
