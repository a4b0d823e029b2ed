use iroh::get_error::{
    AtBlobHeaderNextError, ConnectedNextError, DecodeError, GetError, GetErrorSource,
    ProgressSendError,
};
use iroh::transport_error::{
    ApplicationClose, ConnectionClose, ConnectionError, IoError, ReadError, TransportError,
    WriteError,
};

fn io_error() -> IoError {
    IoError { message: "broken pipe".to_string() }
}

#[test]
fn connection_errors_are_classified() {
    let cases = vec![
        (ConnectionError::VersionMismatch, "noncompliant"),
        (
            ConnectionError::TransportError(TransportError { code: 10, reason: "bad frame".into() }),
            "noncompliant",
        ),
        (
            ConnectionError::ConnectionClosed(ConnectionClose { error_code: 1, reason: vec![1] }),
            "io",
        ),
        (
            ConnectionError::ApplicationClosed(ApplicationClose { error_code: 2, reason: vec![] }),
            "io",
        ),
        (ConnectionError::Reset, "reset"),
        (ConnectionError::TimedOut, "io"),
        (ConnectionError::LocallyClosed, "io"),
    ];
    for (c, kind) in cases {
        let e = GetError::from(c.clone());
        let expected = match kind {
            "noncompliant" => GetError::NoncompliantNode(GetErrorSource::Connection(c)),
            "io" => GetError::Io(GetErrorSource::Connection(c)),
            _ => GetError::RemoteReset(GetErrorSource::Connection(c)),
        };
        assert_eq!(e, expected);
    }
}

#[test]
fn read_errors_are_classified() {
    assert_eq!(
        GetError::from(ReadError::Reset(7)),
        GetError::RemoteReset(GetErrorSource::Read(ReadError::Reset(7)))
    );
    assert_eq!(
        GetError::from(ReadError::ConnectionLost(ConnectionError::TimedOut)),
        GetError::Io(GetErrorSource::Connection(ConnectionError::TimedOut))
    );
    assert_eq!(
        GetError::from(ReadError::ConnectionLost(ConnectionError::VersionMismatch)),
        GetError::NoncompliantNode(GetErrorSource::Connection(ConnectionError::VersionMismatch))
    );
    for r in [ReadError::UnknownStream, ReadError::IllegalOrderedRead, ReadError::ZeroRttRejected] {
        assert_eq!(GetError::from(r.clone()), GetError::Io(GetErrorSource::Read(r)));
    }
}

#[test]
fn write_errors_are_classified() {
    assert_eq!(
        GetError::from(WriteError::Stopped(3)),
        GetError::RemoteReset(GetErrorSource::Write(WriteError::Stopped(3)))
    );
    assert_eq!(
        GetError::from(WriteError::ConnectionLost(ConnectionError::Reset)),
        GetError::RemoteReset(GetErrorSource::Connection(ConnectionError::Reset))
    );
    for w in [WriteError::UnknownStream, WriteError::ZeroRttRejected] {
        assert_eq!(GetError::from(w.clone()), GetError::Io(GetErrorSource::Write(w)));
    }
}

#[test]
fn io_and_progress_errors_are_classified() {
    assert_eq!(GetError::from(io_error()), GetError::Io(GetErrorSource::Io(io_error())));
    assert_eq!(
        GetError::from(ProgressSendError::ReceiverDropped),
        GetError::LocalFailure(GetErrorSource::ProgressSend(ProgressSendError::ReceiverDropped))
    );
}

#[test]
fn request_errors_are_classified() {
    let ser = ConnectedNextError::PostcardSer("unexpected end".to_string());
    assert_eq!(
        GetError::from(ser.clone()),
        GetError::BadRequest(GetErrorSource::ConnectedNext(ser))
    );
    assert_eq!(
        GetError::from(ConnectedNextError::RequestTooBig),
        GetError::BadRequest(GetErrorSource::ConnectedNext(ConnectedNextError::RequestTooBig))
    );
    assert_eq!(
        GetError::from(ConnectedNextError::Write(WriteError::Stopped(9))),
        GetError::RemoteReset(GetErrorSource::Write(WriteError::Stopped(9)))
    );
    let io = ConnectedNextError::Io(io_error());
    assert_eq!(GetError::from(io.clone()), GetError::Io(GetErrorSource::ConnectedNext(io)));
}

#[test]
fn header_errors_are_classified() {
    assert_eq!(
        GetError::from(AtBlobHeaderNextError::NotFound),
        GetError::NotFound(GetErrorSource::AtBlobHeaderNext(AtBlobHeaderNextError::NotFound))
    );
    assert_eq!(
        GetError::from(AtBlobHeaderNextError::Read(ReadError::ZeroRttRejected)),
        GetError::Io(GetErrorSource::Read(ReadError::ZeroRttRejected))
    );
    let io = AtBlobHeaderNextError::Io(io_error());
    assert_eq!(GetError::from(io.clone()), GetError::Io(GetErrorSource::AtBlobHeaderNext(io)));
}

#[test]
fn decode_errors_are_classified() {
    for d in [DecodeError::NotFound, DecodeError::ParentNotFound(4), DecodeError::LeafNotFound(5)] {
        assert_eq!(GetError::from(d.clone()), GetError::NotFound(GetErrorSource::Decode(d)));
    }
    for d in [DecodeError::ParentHashMismatch(1), DecodeError::LeafHashMismatch(2)] {
        assert_eq!(
            GetError::from(d.clone()),
            GetError::NoncompliantNode(GetErrorSource::Decode(d))
        );
    }
    assert_eq!(
        GetError::from(DecodeError::Read(ReadError::Reset(1))),
        GetError::RemoteReset(GetErrorSource::Read(ReadError::Reset(1)))
    );
    assert_eq!(
        GetError::from(DecodeError::Io(io_error())),
        GetError::Io(GetErrorSource::Io(io_error()))
    );
}

#[test]
fn connection_lost_is_classified_like_the_connection() {
    for c in [
        ConnectionError::VersionMismatch,
        ConnectionError::Reset,
        ConnectionError::TimedOut,
        ConnectionError::LocallyClosed,
    ] {
        let direct = GetError::from(c.clone());
        assert_eq!(GetError::from(ReadError::ConnectionLost(c.clone())), direct);
        assert_eq!(GetError::from(WriteError::ConnectionLost(c.clone())), direct);
        assert_eq!(
            GetError::from(DecodeError::Read(ReadError::ConnectionLost(c.clone()))),
            direct
        );
    }
}

#[test]
fn error_messages_and_sources() {
    let e = GetError::from(DecodeError::NotFound);
    assert_eq!(e.message(), "Hash not found");
    assert_eq!(e.source(), &GetErrorSource::Decode(DecodeError::NotFound));
    assert_eq!(GetError::from(ReadError::Reset(1)).message(), "Remote has reset the connection");
    assert_eq!(
        GetError::from(ConnectionError::VersionMismatch).message(),
        "Remote behaved in a non-compliant way"
    );
    assert_eq!(GetError::from(io_error()).message(), "A network or IO operation failed");
    assert_eq!(
        GetError::from(ConnectedNextError::RequestTooBig).message(),
        "Our download request is invalid"
    );
    assert_eq!(
        GetError::from(ProgressSendError::ReceiverDropped).message(),
        "Operation failed on the local node"
    );
}
