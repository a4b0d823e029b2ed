//! Settings and decisions of the network throughput benchmark.

use vstd::prelude::*;

use crate::addr::SocketAddr;

verus! {

/// Socket buffer size the benchmark asks for, derived from the iroh-net UDP socket buffer size.
pub const SOCKET_BUFFER_SIZE: usize = 7340032;

/// ALPN of the benchmark run over iroh-net, `n0/iroh-net-bench/0`.
pub const IROH_ALPN: [u8; 19] = [
    110, 48, 47, 105, 114, 111, 104, 45, 110, 101, 116, 45, 98, 101, 110, 99, 104, 47, 48,
];

/// ALPN of the benchmark run over plain QUIC, `n0/quinn-bench/0`.
pub const QUINN_ALPN: [u8; 16] = [
    110, 48, 47, 113, 117, 105, 110, 110, 45, 98, 101, 110, 99, 104, 47, 48,
];

/// A socket buffer that came out smaller than the benchmark asked for.
#[derive(Debug, Clone, Copy, PartialEq, Eq)]
pub struct BufferShortfall {
    /// The size asked for.
    pub desired: usize,
    /// The size the system granted.
    pub actual: usize,
}

/// Checks the buffer size the system granted a benchmark socket: a buffer
/// smaller than [`SOCKET_BUFFER_SIZE`] is reported, so that it can be warned about.
pub fn check_buffer_size(actual: usize) -> (r: Option<BufferShortfall>)
    ensures
        actual < SOCKET_BUFFER_SIZE ==> r == Some(
            BufferShortfall { desired: SOCKET_BUFFER_SIZE, actual },
        ),
        actual >= SOCKET_BUFFER_SIZE ==> r is None,
{
    if actual < SOCKET_BUFFER_SIZE {
        Some(BufferShortfall { desired: SOCKET_BUFFER_SIZE, actual })
    } else {
        None
    }
}

/// Whether a benchmark socket bound to `addr` must accept IPv4 traffic too:
/// an IPv6 socket is made dual-stack.
pub fn needs_dual_stack(addr: &SocketAddr) -> (r: bool)
    ensures
        r == (*addr is V6),
{
    addr.is_ipv6()
}

/// The address clients of the benchmark server dial: the loopback address
/// with the port the server endpoint is bound to.
pub fn server_dial_addr(bound: &SocketAddr) -> (r: SocketAddr)
    ensures
        r == (SocketAddr::V4 { ip: [127u8, 0, 0, 1], port: bound.port_of() }),
{
    SocketAddr::localhost_v4(bound.port())
}

/// The reports of a benchmark run: for each client, in order of its id,
/// the statistics it returned, skipping the clients that failed.
pub open spec fn client_reports_of<S, E>(results: Seq<Result<S, E>>) -> Seq<(usize, S)>
    decreases results.len(),
{
    if results.len() == 0 {
        seq![]
    } else {
        let earlier = client_reports_of(results.drop_last());
        match results.last() {
            Ok(stats) => earlier.push(((results.len() - 1) as usize, stats)),
            Err(_) => earlier,
        }
    }
}

/// Collects what a benchmark run prints once all clients finished: the
/// statistics of each client that succeeded, with its id (its position in
/// `results`), in order of the ids.
pub fn client_reports<S, E>(results: Vec<Result<S, E>>) -> (r: Vec<(usize, S)>)
    ensures
        r@ == client_reports_of(results@),
{
    let ghost all = results@;
    let mut rest = results;
    let mut reports: Vec<(usize, S)> = Vec::new();
    let mut id: usize = 0;
    let n = rest.len();
    while rest.len() > 0
        invariant
            id + rest@.len() == n,
            n == all.len(),
            rest@ == all.subrange(id as int, n as int),
            reports@ == client_reports_of(all.subrange(0, id as int)),
        decreases rest@.len(),
    {
        let res = rest.remove(0);
        proof {
            assert(all.subrange(0, id + 1).drop_last() == all.subrange(0, id as int));
            assert(all.subrange(0, id + 1).last() == res);
        }
        match res {
            Ok(stats) => {
                reports.push((id, stats));
            },
            Err(_) => {},
        }
        id = id + 1;
        assert(rest@ == all.subrange(id as int, n as int));
    }
    assert(all.subrange(0, n as int) == all);
    reports
}

/// The reports of a run are exactly the succeeded clients: each report names
/// a client position below the number of clients whose result is success
/// with the reported statistics, the positions strictly increase, and every
/// succeeded client, the last one included, is reported.
pub proof fn lemma_client_reports_exact<S, E>(results: Seq<Result<S, E>>)
    requires
        results.len() <= usize::MAX,
    ensures
        forall|k: int|
            0 <= k < client_reports_of(results).len() ==> {
                let (id, stats) = #[trigger] client_reports_of(results)[k];
                &&& id < results.len()
                &&& results[id as int] == Ok::<S, E>(stats)
            },
        forall|k: int, l: int|
            0 <= k < l < client_reports_of(results).len() ==> (#[trigger] client_reports_of(
                results,
            )[k]).0 < (#[trigger] client_reports_of(results)[l]).0,
        forall|i: int|
            0 <= i < results.len() && (#[trigger] results[i]) is Ok ==> exists|k: int|
                0 <= k < client_reports_of(results).len() && client_reports_of(results)[k]
                    == (i as usize, results[i]->Ok_0),
    decreases results.len(),
{
    if results.len() > 0 {
        let earlier = results.drop_last();
        lemma_client_reports_exact(earlier);
        let r = client_reports_of(results);
        let e = client_reports_of(earlier);
        let n = results.len() - 1;
        assert forall|k: int| 0 <= k < e.len() implies (#[trigger] e[k]).0 < n && results[e[k].0 as int]
            == Ok::<S, E>(e[k].1) by {
            let (id, stats) = e[k];
            assert(earlier[id as int] == results[id as int]);
        }
        if results.last() is Ok {
            assert(r == e.push((n as usize, results.last()->Ok_0)));
            assert(r.len() == e.len() + 1);
        } else {
            assert(r == e);
        }
        assert forall|k: int| 0 <= k < r.len() implies {
            let (id, stats) = #[trigger] r[k];
            &&& id < results.len()
            &&& results[id as int] == Ok::<S, E>(stats)
        } by {
            if k < e.len() {
                assert(r[k] == e[k]);
            } else {
                assert(r[k] == (n as usize, results.last()->Ok_0));
            }
        }
        assert forall|k: int, l: int| 0 <= k < l < r.len() implies (#[trigger] r[k]).0 < (
        #[trigger] r[l]).0 by {
            assert(r[k] == e[k]);
            if l < e.len() {
                assert(r[l] == e[l]);
            } else {
                assert(r[l].0 == n);
            }
        }
        assert forall|i: int|
            0 <= i < results.len() && (#[trigger] results[i]) is Ok implies exists|k: int|
                0 <= k < r.len() && r[k] == (i as usize, results[i]->Ok_0) by {
            if i < n {
                assert(earlier[i] == results[i]);
                let k = choose|k: int| 0 <= k < e.len() && e[k] == (i as usize, earlier[i]->Ok_0);
                assert(r[k] == e[k]);
            } else {
                assert(r[r.len() - 1] == (i as usize, results[i]->Ok_0));
            }
        }
    }
}

} // verus!
