use iroh::downloader::{Elapsed, FailureAction, IoGetter, Metrics, Stats};
use iroh::get_error::{DecodeError, GetError, GetErrorSource, ProgressSendError};
use iroh::transport_error::{ConnectionError, ReadError};

fn stats() -> Stats {
    Stats {
        bytes_written: 1024,
        bytes_read: 2048,
        elapsed: Elapsed { secs: 2, nanos: 345_678_901 },
    }
}

#[test]
fn failure_actions_by_kind() {
    let nf = GetError::from(DecodeError::NotFound);
    assert_eq!(FailureAction::from(nf.clone()), FailureAction::AbortRequest(nf));
    let reset = GetError::from(ReadError::Reset(1));
    assert_eq!(FailureAction::from(reset.clone()), FailureAction::RetryLater(reset));
    let bad = GetError::from(ConnectionError::VersionMismatch);
    assert_eq!(FailureAction::from(bad.clone()), FailureAction::DropPeer(bad));
    let io = GetError::from(ConnectionError::TimedOut);
    assert_eq!(FailureAction::from(io.clone()), FailureAction::RetryLater(io));
    let req = GetError::BadRequest(GetErrorSource::Decode(DecodeError::NotFound));
    assert_eq!(FailureAction::from(req.clone()), FailureAction::AbortRequest(req));
    let local = GetError::from(ProgressSendError::ReceiverDropped);
    assert_eq!(FailureAction::from(local.clone()), FailureAction::AbortRequest(local));
}

#[test]
fn elapsed_as_millis() {
    assert_eq!(Elapsed { secs: 2, nanos: 345_678_901 }.as_millis(), 2345);
    assert_eq!(Elapsed { secs: 0, nanos: 999_999 }.as_millis(), 0);
    assert_eq!(
        Elapsed { secs: u64::MAX, nanos: 999_999_999 }.as_millis(),
        (u64::MAX as u128) * 1000 + 999
    );
}

#[test]
fn successful_get_is_counted() {
    let mut m = Metrics::default();
    let r = IoGetter::<()>::finish(&mut m, Ok(stats()));
    assert_eq!(r, Ok(stats()));
    assert_eq!(
        m,
        Metrics {
            downloads_success: 1,
            downloads_error: 0,
            downloads_notfound: 0,
            download_bytes_total: 1024,
            download_time_total: 2345,
        }
    );
}

#[test]
fn not_found_get_is_counted() {
    let mut m = Metrics::default();
    let e = GetError::from(DecodeError::LeafNotFound(3));
    let r = IoGetter::<()>::finish(&mut m, Err(e.clone()));
    assert_eq!(r, Err(FailureAction::AbortRequest(e)));
    assert_eq!(m, Metrics { downloads_notfound: 1, ..Metrics::default() });
}

#[test]
fn failed_get_is_counted() {
    let mut m = Metrics { downloads_error: 4, ..Metrics::default() };
    let e = GetError::from(ConnectionError::Reset);
    let r = IoGetter::<()>::finish(&mut m, Err(e.clone()));
    assert_eq!(r, Err(FailureAction::RetryLater(e)));
    assert_eq!(m, Metrics { downloads_error: 5, ..Metrics::default() });
}

#[test]
fn counters_wrap_around() {
    let mut m = Metrics {
        downloads_success: u64::MAX,
        download_bytes_total: u64::MAX - 10,
        download_time_total: 5,
        ..Metrics::default()
    };
    let s = Stats { bytes_written: 20, bytes_read: 0, elapsed: Elapsed { secs: 1, nanos: 0 } };
    let _ = IoGetter::<()>::finish(&mut m, Ok(s));
    assert_eq!(m.downloads_success, 0);
    assert_eq!(m.download_bytes_total, 9);
    assert_eq!(m.download_time_total, 1005);
}

#[test]
fn elapsed_time_beyond_u64_millis_is_truncated() {
    let mut m = Metrics::default();
    let s = Stats {
        bytes_written: 0,
        bytes_read: 0,
        elapsed: Elapsed { secs: u64::MAX, nanos: 0 },
    };
    let _ = IoGetter::<()>::finish(&mut m, Ok(s));
    assert_eq!(m.download_time_total, ((u64::MAX as u128) * 1000) as u64);
}
