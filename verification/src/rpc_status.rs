//! The RPC lock file: a node that serves RPC records its port in a lock file
//! under its data root, and other processes on the same machine read it to
//! find the node.
//!
//! Loading the status alternates file-system work, a connection attempt and
//! decisions; the decisions are [`RpcStatus::load_step`], driven by the
//! caller that performs each action and reports what happened.

use vstd::prelude::*;

verus! {

/// The current status of the RPC endpoint.
#[derive(Debug, Clone)]
pub enum RpcStatus<C> {
    /// Stopped.
    Stopped,
    /// Running on this port.
    Running {
        /// The port we are connected on.
        port: u16,
        /// Actual connected RPC client.
        client: C,
    },
}

/// Name of the lock file under a node's data root.
pub const RPC_LOCK_FILE: &'static str = "rpc.lock";

/// The number of bytes of a valid lock file.
pub const RPC_LOCK_LEN: u64 = 2;

/// The contents of the lock file of a node serving RPC on `port`: the port
/// as two little-endian bytes.
pub open spec fn lock_file_contents(port: u16) -> Seq<u8> {
    seq![(port % 256) as u8, (port / 256) as u8]
}

/// The port a lock file with `contents` records, if it is a valid lock file.
pub open spec fn lock_file_port(contents: Seq<u8>) -> Option<u16> {
    if contents.len() == 2 {
        Some((contents[0] + 256 * contents[1]) as u16)
    } else {
        None
    }
}

/// The bytes to write into the lock file for a node serving RPC on `port`.
pub fn port_to_lock_bytes(port: u16) -> (r: [u8; 2])
    ensures
        r@ == lock_file_contents(port),
{
    [(port % 256) as u8, (port / 256) as u8]
}

/// The port recorded in the bytes of a lock file, if it is a valid lock file.
pub fn port_from_lock_bytes(contents: &[u8]) -> (r: Option<u16>)
    ensures
        r == lock_file_port(contents@),
{
    if contents.len() == 2 {
        let lo = contents[0] as u16;
        let hi = contents[1] as u16;
        Some(lo + 256 * hi)
    } else {
        None
    }
}

/// What happened in the last piece of outside work while loading the status.
pub enum LoadEvent<C> {
    /// Whether a lock file exists under the root.
    LockChecked { exists: bool },
    /// The lock file was opened; its length in bytes.
    LockOpened { len: u64 },
    /// The two bytes of the lock file were read.
    LockRead { bytes: [u8; 2] },
    /// A connection to the node on `port` was attempted; the client on success.
    Connected { port: u16, client: Option<C> },
    /// The lock file was deleted.
    LockDeleted,
}

/// The next thing to do while loading the status.
pub enum LoadAction<C> {
    /// Open the lock file and report its length.
    OpenLock,
    /// Read the two bytes of the lock file.
    ReadLock,
    /// Try to connect to a node serving RPC on this port.
    Connect(u16),
    /// The lock file is invalid or outdated: delete it.
    DeleteLock,
    /// Loading is complete with this status.
    Done(RpcStatus<C>),
}

/// Errors when recording the RPC status.
#[derive(Debug, Clone, Copy, PartialEq, Eq)]
pub enum RpcLockError {
    /// A lock file exists already.
    AlreadyRunning,
}

impl RpcLockError {
    /// The human-readable description of the error.
    pub fn message(&self) -> (r: &'static str)
        ensures
            r@ == "iroh is already running"@,
    {
        "iroh is already running"
    }
}

/// The decision taken after each step of loading the status.
pub open spec fn spec_load_step<C>(event: LoadEvent<C>) -> LoadAction<C> {
    match event {
        LoadEvent::LockChecked { exists } => if exists {
            LoadAction::OpenLock
        } else {
            LoadAction::Done(RpcStatus::Stopped)
        },
        LoadEvent::LockOpened { len } => if len == 2 {
            LoadAction::ReadLock
        } else {
            LoadAction::DeleteLock
        },
        LoadEvent::LockRead { bytes } => LoadAction::Connect(lock_file_port(bytes@).unwrap()),
        LoadEvent::Connected { port, client } => match client {
            Some(c) => LoadAction::Done(RpcStatus::Running { port, client: c }),
            None => LoadAction::DeleteLock,
        },
        LoadEvent::LockDeleted => LoadAction::Done(RpcStatus::Stopped),
    }
}

impl<C> RpcStatus<C> {
    /// Decides what to do next while loading the current RPC status from a
    /// data root: without a lock file the node is stopped; a lock file of two
    /// bytes names the port to connect to; a node that answers there is
    /// running; any other lock file is invalid or outdated and is deleted,
    /// and the node is then stopped.
    pub fn load_step(event: LoadEvent<C>) -> (r: LoadAction<C>)
        ensures
            r == spec_load_step(event),
    {
        match event {
            LoadEvent::LockChecked { exists } => {
                if exists {
                    LoadAction::OpenLock
                } else {
                    LoadAction::Done(RpcStatus::Stopped)
                }
            },
            LoadEvent::LockOpened { len } => {
                if len == RPC_LOCK_LEN {
                    LoadAction::ReadLock
                } else {
                    LoadAction::DeleteLock
                }
            },
            LoadEvent::LockRead { bytes } => match port_from_lock_bytes(bytes.as_slice()) {
                Some(port) => LoadAction::Connect(port),
                None => LoadAction::DeleteLock,
            },
            LoadEvent::Connected { port, client } => match client {
                Some(c) => LoadAction::Done(RpcStatus::Running { port, client: c }),
                None => LoadAction::DeleteLock,
            },
            LoadEvent::LockDeleted => LoadAction::Done(RpcStatus::Stopped),
        }
    }

    /// Decides whether the RPC status can be recorded and what the lock file
    /// then holds: a node is refused if a lock file exists already.
    pub fn store_step(lock_exists: bool, rpc_port: u16) -> (r: Result<[u8; 2], RpcLockError>)
        ensures
            lock_exists ==> r == Err::<[u8; 2], RpcLockError>(RpcLockError::AlreadyRunning),
            !lock_exists ==> r is Ok && r->Ok_0@ == lock_file_contents(rpc_port),
    {
        if lock_exists {
            Err(RpcLockError::AlreadyRunning)
        } else {
            Ok(port_to_lock_bytes(rpc_port))
        }
    }
}

/// What a node writes into its lock file reads back as its port.
pub proof fn lemma_lock_file_round_trip(port: u16)
    ensures
        lock_file_contents(port).len() == 2,
        lock_file_port(lock_file_contents(port)) == Some(port),
{
    let c = lock_file_contents(port);
    assert(c[0] == port % 256);
    assert(c[1] == port / 256);
}

/// A valid lock file holds exactly the bytes a node on its port writes:
/// two lock files name the same port only if they are equal.
pub proof fn lemma_lock_file_port_determines_contents(contents: Seq<u8>)
    requires
        lock_file_port(contents) is Some,
    ensures
        lock_file_contents(lock_file_port(contents).unwrap()) == contents,
{
    let p = lock_file_port(contents).unwrap();
    assert(p == contents[0] + 256 * contents[1]);
    assert(lock_file_contents(p) =~= contents);
}

/// Loading the status of a root whose lock file was stored by a node on
/// `port` opens and reads the lock file and connects to `port`; the node is
/// running with the connected client if it answers, and otherwise the lock
/// file is deleted and the node is stopped.
pub proof fn lemma_load_of_stored_port<C>(port: u16, bytes: [u8; 2], client: Option<C>)
    requires
        bytes@ == lock_file_contents(port),
    ensures
        spec_load_step(LoadEvent::<C>::LockChecked { exists: true }) == LoadAction::<C>::OpenLock,
        spec_load_step(LoadEvent::<C>::LockOpened { len: 2 }) == LoadAction::<C>::ReadLock,
        spec_load_step(LoadEvent::<C>::LockRead { bytes }) == LoadAction::<C>::Connect(port),
        spec_load_step(LoadEvent::Connected { port, client }) == match client {
            Some(c) => LoadAction::Done(RpcStatus::Running { port, client: c }),
            None => LoadAction::DeleteLock,
        },
        spec_load_step(LoadEvent::<C>::LockDeleted) == LoadAction::<C>::Done(RpcStatus::Stopped),
{
    lemma_lock_file_round_trip(port);
}

/// Loading reports a running node only right after a successful connection,
/// with the port and client of that connection.
pub proof fn lemma_running_only_after_connecting<C>(event: LoadEvent<C>, port: u16, client: C)
    requires
        spec_load_step(event) == LoadAction::Done((RpcStatus::Running { port, client })),
    ensures
        event == (LoadEvent::Connected { port, client: Some(client) }),
{
}

/// A lock file that is not exactly two bytes long is deleted, after which
/// the node is stopped; so is the lock file of a node that does not answer.
pub proof fn lemma_invalid_lock_deleted<C>(len: u64, port: u16)
    requires
        len != 2,
    ensures
        spec_load_step(LoadEvent::<C>::LockOpened { len }) == LoadAction::<C>::DeleteLock,
        spec_load_step(LoadEvent::<C>::Connected { port, client: None })
            == LoadAction::<C>::DeleteLock,
        spec_load_step(LoadEvent::<C>::LockDeleted) == LoadAction::<C>::Done(RpcStatus::Stopped),
{
}

/// Whether `event` is the report of the outside work that `action` asked for:
/// the lock file opened, its bytes read, a connection to the asked port
/// attempted, the lock file deleted. Nothing follows a finished load.
pub open spec fn answers<C>(action: LoadAction<C>, event: LoadEvent<C>) -> bool {
    match action {
        LoadAction::OpenLock => event is LockOpened,
        LoadAction::ReadLock => event is LockRead,
        LoadAction::Connect(port) => event is Connected && event->port == port,
        LoadAction::DeleteLock => event is LockDeleted,
        LoadAction::Done(_) => false,
    }
}

/// Whether `run` is the sequence of events of one load: it starts with the
/// check for the lock file, and each later event answers the action decided
/// on the event before it.
pub open spec fn is_load_run<C>(run: Seq<LoadEvent<C>>) -> bool {
    &&& run.len() > 0
    &&& run[0] is LockChecked
    &&& forall|i: int| 0 < i < run.len() ==> #[trigger] answered_at(run, i)
}

/// Whether the event at position `i` of a run answers the action decided on
/// the event before it.
pub open spec fn answered_at<C>(run: Seq<LoadEvent<C>>, i: int) -> bool {
    answers(spec_load_step(run[i - 1]), run[i])
}

/// A load that ends with a running node reports the port decoded from the
/// lock bytes it read, which are exactly the bytes a node on that port
/// stores, and it did not delete the lock file; the client is the one of the
/// last event, a successful connection to that port.
pub proof fn lemma_load_run_running<C>(run: Seq<LoadEvent<C>>, port: u16, client: C)
    requires
        is_load_run(run),
        spec_load_step(run.last()) == LoadAction::Done((RpcStatus::Running { port, client })),
    ensures
        run.len() >= 2,
        run[run.len() - 2] is LockRead,
        run[run.len() - 2]->bytes@ == lock_file_contents(port),
        lock_file_port(run[run.len() - 2]->bytes@) == Some(port),
        run.last() == (LoadEvent::Connected { port, client: Some(client) }),
        forall|i: int| 0 <= i < run.len() ==> !(#[trigger] run[i] is LockDeleted),
{
    let n = run.len() as int;
    lemma_running_only_after_connecting(run.last(), port, client);
    assert(n >= 2);
    assert(answered_at(run, n - 1));
    let prev = run[n - 2];
    assert(prev is LockRead);
    let bytes = prev->bytes;
    assert(lock_file_port(bytes@) is Some);
    lemma_lock_file_port_determines_contents(bytes@);
    assert forall|i: int| 0 <= i < run.len() implies !(#[trigger] run[i] is LockDeleted) by {
        if run[i] is LockDeleted {
            if i < n - 1 {
                assert(answered_at(run, i + 1));
            }
        }
    }
}

/// A load that ends with a stopped node either found no lock file, in which
/// case checking for it was all it did, or ended by deleting the lock file.
pub proof fn lemma_load_run_stopped<C>(run: Seq<LoadEvent<C>>)
    requires
        is_load_run(run),
        spec_load_step(run.last()) == LoadAction::<C>::Done(RpcStatus::Stopped),
    ensures
        (run.len() == 1 && run[0] == LoadEvent::<C>::LockChecked { exists: false })
            || run.last() is LockDeleted,
{
    let n = run.len() as int;
    if !(run.last() is LockDeleted) {
        assert(run.last() is LockChecked);
        if n > 1 {
            assert(answered_at(run, n - 1));
        }
    }
}

/// The lock file holds the port little-endian: the low byte first, then the
/// high byte; and reading two lock bytes connects to the port they hold in
/// that order.
pub proof fn lemma_lock_file_little_endian<C>(port: u16, bytes: [u8; 2])
    ensures
        lock_file_contents(port).len() == 2,
        lock_file_contents(port)[0] == port % 256,
        lock_file_contents(port)[1] == port / 256,
        spec_load_step(LoadEvent::<C>::LockRead { bytes }) == LoadAction::<C>::Connect(
            (bytes[0] + 256 * bytes[1]) as u16,
        ),
{
}

/// Without a lock file, loading finishes at once with a stopped node: the
/// check for the lock file is the whole run and nothing is deleted.
pub proof fn lemma_load_run_without_lock<C>(run: Seq<LoadEvent<C>>)
    requires
        is_load_run(run),
        run[0] == (LoadEvent::<C>::LockChecked { exists: false }),
    ensures
        run.len() == 1,
        spec_load_step(run[0]) == LoadAction::<C>::Done(RpcStatus::Stopped),
{
    if run.len() > 1 {
        assert(answered_at(run, 1));
    }
}

/// A load asks to delete the lock file only after it found the lock file to
/// exist, never in answer to the check itself.
pub proof fn lemma_delete_only_after_lock_found<C>(run: Seq<LoadEvent<C>>, i: int)
    requires
        is_load_run(run),
        0 <= i < run.len(),
        (spec_load_step(run[i]) is DeleteLock),
    ensures
        i > 0,
        run[0] == (LoadEvent::<C>::LockChecked { exists: true }),
{
    if run[0] == (LoadEvent::<C>::LockChecked { exists: false }) {
        lemma_load_run_without_lock(run);
    }
}

} // verus!
