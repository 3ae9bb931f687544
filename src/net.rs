//! The network side of the bridge: the commands a remote client can send, the
//! queue that carries them to the viewer loop, and the lifecycle of the
//! listener that accepts them.
use crate::queue::{drain_queued, enqueue};
use crate::task::ChannelClosed;
use crossbeam_channel::{Receiver, Sender};
use gchemol_core::Molecule;
use std::future::Future;
use tokio::runtime::Runtime;
use tokio::task::JoinHandle;
use vstd::prelude::*;

verus! {

/// `gchemol_core::Molecule`, carried through unread: the bridge only moves
/// molecules from the client to the scene.
#[verifier::external_type_specification]
#[verifier::external_body]
pub struct ExMolecule(gchemol_core::Molecule);

/// Command that can be evoked from the remote client side.
#[derive(Debug)]
pub enum RemoteCommand {
    /// Show (`delete == false`) or hide (`delete == true`) the atom labels.
    Label { delete: bool },
    /// Delete the displayed molecules.
    Delete,
    /// Display these molecules, as the frames of a trajectory.
    Load(Vec<Molecule>),
}

/// A command as the viewer loop receives it.
#[derive(Debug)]
pub struct StreamEvent(pub RemoteCommand);

/// The receiving end of the command queue, drained by the viewer loop.
pub struct StreamReceiver(pub Receiver<RemoteCommand>);

/// The capacity of the channel behind `r`, as `Receiver::capacity` reports
/// it: `None` for an unbounded channel.
pub uninterp spec fn command_capacity(r: Receiver<RemoteCommand>) -> Option<nat>;

/// Relies on `crossbeam_channel::bounded`, for the command queue: a channel
/// whose capacity is `cap`. It panics only on capacities far beyond the one
/// that the command queue is opened with.
#[verifier::external_body]
fn bounded_commands(cap: usize) -> (r: (Sender<RemoteCommand>, Receiver<RemoteCommand>))
    requires
        cap <= 1,
    ensures
        command_capacity(r.1) == Some(cap as nat),
{
    crossbeam_channel::bounded(cap)
}

/// Relies on `crossbeam_channel::Receiver::len`, for the command queue: the
/// number of commands queued at the moment of the call, never more than the
/// channel's capacity.
#[verifier::external_body]
fn queued_commands(r: &Receiver<RemoteCommand>) -> (n: usize)
    ensures
        command_capacity(*r) matches Some(c) ==> n <= c,
{
    r.len()
}

/// Opens the command queue; it holds one command at a time, so a producer
/// that finds it full waits for the viewer loop to drain it.
pub fn new_channel() -> (r: (Sender<RemoteCommand>, Receiver<RemoteCommand>))
    ensures
        command_capacity(r.1) == Some(1nat),
{
    bounded_commands(1)
}

/// Takes, without blocking, the commands queued at the start of the call and
/// appends them, in queue order and one event each, after the events already
/// in `events`, which stay as they were. It takes no more commands than the
/// queue can hold.
pub fn read_molecule_stream(receiver: &StreamReceiver, events: &mut Vec<StreamEvent>)
    ensures
        final(events)@.len() >= old(events)@.len(),
        final(events)@.take(old(events)@.len() as int) == old(events)@,
        command_capacity(receiver.0) matches Some(c) ==> final(events)@.len() <= old(events)@.len() + c,
{
    let queued: usize = queued_commands(&receiver.0);
    let pulled = drain_queued(&receiver.0, queued);
    append_events(events, pulled);
    proof {
        assert(final(events)@.take(old(events)@.len() as int) =~= old(events)@);
    }
}

/// Appends each command, in order, as one event after those in `events`.
pub fn append_events(events: &mut Vec<StreamEvent>, cmds: Vec<RemoteCommand>)
    ensures
        final(events)@ == old(events)@ + cmds@.map(|i: int, c: RemoteCommand| StreamEvent(c)),
{
    let ghost all = cmds@;
    let mut wrapped = events_of(cmds);
    events.append(&mut wrapped);
    proof {
        assert(final(events)@ =~= old(events)@ + all.map(|i: int, c: RemoteCommand| StreamEvent(c)));
    }
}

/// Wraps each command, in order, as an event.
pub fn events_of(cmds: Vec<RemoteCommand>) -> (r: Vec<StreamEvent>)
    ensures
        r@.len() == cmds@.len(),
        forall|i: int| 0 <= i < cmds@.len() ==> #[trigger] r@[i] == StreamEvent(cmds@[i]),
{
    let ghost all = cmds@;
    let mut cmds = cmds;
    let mut events: Vec<StreamEvent> = Vec::new();
    while cmds.len() > 0
        invariant
            events@.len() + cmds@.len() == all.len(),
            cmds@ == all.skip(events@.len() as int),
            forall|i: int| 0 <= i < events@.len() ==> #[trigger] events@[i] == StreamEvent(all[i]),
        decreases cmds@.len(),
    {
        let ghost k = events@.len() as int;
        let cmd = cmds.remove(0);
        proof {
            assert(cmds@ =~= all.skip(k + 1));
        }
        events.push(StreamEvent(cmd));
    }
    events
}

/// A failed request, as reported to the remote client.
#[derive(Debug, Clone, Copy, PartialEq, Eq, Structural)]
pub enum AppError {
    /// The request body is not a list of molecules.
    Decode,
    /// The viewer loop no longer takes commands.
    ChannelClosed,
    /// The request handler failed unexpectedly.
    Internal,
}

impl From<ChannelClosed> for AppError {
    fn from(err: ChannelClosed) -> (r: Self)
        ensures
            r == AppError::ChannelClosed,
    {
        AppError::ChannelClosed
    }
}

impl vstd::std_specs::convert::FromSpecImpl<ChannelClosed> for AppError {
    open spec fn obeys_from_spec() -> bool {
        true
    }

    open spec fn from_spec(v: ChannelClosed) -> AppError {
        AppError::ChannelClosed
    }
}

impl AppError {
    /// The HTTP status of every failed request: internal server error.
    pub fn status_code(&self) -> (r: u16)
        ensures
            r == 500,
    {
        500
    }

    /// What went wrong, in words.
    pub fn reason(&self) -> (r: &'static str)
        ensures
            r@ == (match self {
                AppError::Decode => "invalid molecule list"@,
                AppError::ChannelClosed => "viewer is not accepting commands"@,
                AppError::Internal => "internal error"@,
            }),
    {
        match self {
            AppError::Decode => "invalid molecule list",
            AppError::ChannelClosed => "viewer is not accepting commands",
            AppError::Internal => "internal error",
        }
    }
}

/// Forwards a command received from a client to the viewer loop, waiting
/// while the queue is full; fails once the viewer no longer takes commands.
pub fn send_command(tx: &Sender<RemoteCommand>, cmd: RemoteCommand) -> (r: Result<(), AppError>)
    ensures
        r matches Err(e) ==> e == AppError::ChannelClosed,
{
    match enqueue(tx, cmd) {
        Ok(()) => Ok(()),
        Err(_) => Err(AppError::from(ChannelClosed)),
    }
}

/// Forwards molecules received from a client to the viewer loop as a `Load`
/// command.
pub fn view_molecule(tx: &Sender<RemoteCommand>, mols: Vec<Molecule>) -> (r: Result<(), AppError>)
    ensures
        r matches Err(e) ==> e == AppError::ChannelClosed,
{
    send_command(tx, RemoteCommand::Load(mols))
}

/// `tokio::runtime::Runtime`, which hosts the listener; opaque here.
#[verifier::external_type_specification]
#[verifier::external_body]
pub struct ExRuntime(tokio::runtime::Runtime);

/// `tokio::task::JoinHandle`, the handle of the listener task; opaque here.
#[verifier::external_type_specification]
#[verifier::external_body]
#[verifier::reject_recursive_types(T)]
pub struct ExJoinHandle<T>(tokio::task::JoinHandle<T>);

/// `tokio::task::JoinError`, named by the handle's `Future` impl; opaque here.
#[verifier::external_type_specification]
#[verifier::external_body]
pub struct ExJoinError(tokio::task::JoinError);

/// Relies on `tokio::task::JoinHandle::abort`: asks the runtime to cancel the
/// task; it returns at once.
pub assume_specification<T>[ tokio::task::JoinHandle::<T>::abort ](h: &JoinHandle<T>);

/// The largest number of worker threads a server runtime is built with.
pub const MAX_WORKER_THREADS: usize = 1024;

/// Relies on tokio's `runtime::Builder` (`new_multi_thread`, `worker_threads`,
/// `enable_all`, `build`): a multi-threaded runtime with `worker_threads`
/// workers and its I/O and time drivers, or `None` where the system refuses
/// one. `worker_threads` panics on 0; a count that is given keeps tokio from
/// reading `TOKIO_WORKER_THREADS`, which panics when malformed; the upper
/// bound keeps tokio's `max_blocking_threads + worker_threads` from
/// overflowing.
#[verifier::external_body]
fn start_runtime(worker_threads: usize) -> (r: Option<Runtime>)
    requires
        0 < worker_threads <= MAX_WORKER_THREADS,
{
    tokio::runtime::Builder::new_multi_thread().worker_threads(worker_threads).enable_all().build().ok()
}

/// Relies on `tokio::runtime::Runtime::spawn`: runs the future in the
/// background on the runtime's threads and returns its handle at once.
#[verifier::external_body]
fn spawn_on<F>(rt: &Runtime, fut: F) -> (r: JoinHandle<()>)
    where
        F: Future<Output = ()> + Send + 'static,
{
    rt.spawn(fut)
}

/// Where the listener stands in its life.
#[derive(Debug, Clone, Copy, PartialEq, Eq, Structural)]
pub enum ServerPhase {
    /// Created; not yet listening.
    Idle,
    /// The listener runs and its commands can be read.
    Listening,
    /// Stopped for good.
    Stopped,
}

/// Owns the background runtime, the listener task, and the receiving end of
/// the command queue that the listener feeds.
pub struct NetworkServer {
    /// the runtime that hosts the listener
    runtime: Runtime,
    /// handle to the task that listens for new connections, and the end of
    /// the queue where its commands arrive
    listener: Option<(JoinHandle<()>, StreamReceiver)>,
    stopped: bool,
}

impl NetworkServer {
    /// The phase the server is in.
    pub closed spec fn spec_phase(&self) -> ServerPhase {
        if self.stopped {
            ServerPhase::Stopped
        } else if self.listener is Some {
            ServerPhase::Listening
        } else {
            ServerPhase::Idle
        }
    }

    /// The phase the server is in.
    #[verifier::when_used_as_spec(spec_phase)]
    pub fn phase(&self) -> (r: ServerPhase)
        ensures
            r == self.spec_phase(),
    {
        if self.stopped {
            ServerPhase::Stopped
        } else if self.listener.is_some() {
            ServerPhase::Listening
        } else {
            ServerPhase::Idle
        }
    }

    /// The capacity of the command queue whose commands the server hands to
    /// the viewer loop: none is read unless it is listening.
    pub closed spec fn queue_capacity(&self) -> Option<nat> {
        if self.stopped {
            Some(0)
        } else {
            match self.listener {
                Some((_, receiver)) => command_capacity(receiver.0),
                None => Some(0),
            }
        }
    }

    /// A server that does not listen yet, with a runtime of `worker_threads`
    /// worker threads of its own; `None` where the count is 0 or above
    /// `MAX_WORKER_THREADS`, or where the system refuses a runtime.
    pub fn new(worker_threads: usize) -> (r: Option<Self>)
        ensures
            r matches Some(s) ==> s.phase() == ServerPhase::Idle,
            worker_threads == 0 || worker_threads > MAX_WORKER_THREADS ==> r is None,
    {
        if worker_threads == 0 || worker_threads > MAX_WORKER_THREADS {
            return None;
        }
        match start_runtime(worker_threads) {
            Some(runtime) => Some(NetworkServer { runtime, listener: None, stopped: false }),
            None => None,
        }
    }

    /// Opens the command queue and starts, in the background, the listener
    /// that `serve` builds around its producer end. A server listens once:
    /// this returns `false` and changes nothing unless the server is idle.
    pub fn listen<S, F>(&mut self, serve: S) -> (r: bool)
        where
            S: FnOnce(Sender<RemoteCommand>) -> F,
            F: Future<Output = ()> + Send + 'static,
        requires
            forall|tx: Sender<RemoteCommand>| serve.requires((tx,)),
        ensures
            r == (old(self).phase() == ServerPhase::Idle),
            r ==> final(self).phase() == ServerPhase::Listening,
            r ==> final(self).queue_capacity() == Some(1nat),
            !r ==> *final(self) == *old(self),
    {
        if self.stopped || self.listener.is_some() {
            return false;
        }
        let (tx, rx) = new_channel();
        let fut = serve(tx);
        let handle = spawn_on(&self.runtime, fut);
        self.listener = Some((handle, StreamReceiver(rx)));
        true
    }

    /// Appends to `events`, without blocking, the commands queued for the
    /// viewer loop, as `read_molecule_stream` does; nothing unless the server
    /// is listening.
    pub fn read_stream(&self, events: &mut Vec<StreamEvent>)
        ensures
            final(events)@.len() >= old(events)@.len(),
            final(events)@.take(old(events)@.len() as int) == old(events)@,
            self.phase() != ServerPhase::Listening ==> final(events)@ == old(events)@,
            self.queue_capacity() matches Some(c) ==> final(events)@.len() <= old(events)@.len() + c,
    {
        if self.stopped {
            return;
        }
        if let Some((_, receiver)) = &self.listener {
            read_molecule_stream(receiver, events);
        }
    }

    /// Disconnects all clients and stops listening for good: the listener is
    /// aborted, in-flight requests included, and commands queued but not yet
    /// read are dropped unread. Does nothing when no listener is active.
    pub fn stop(&mut self)
        ensures
            old(self).phase() == ServerPhase::Listening ==> final(self).phase() == ServerPhase::Stopped,
            old(self).phase() != ServerPhase::Listening ==> *final(self) == *old(self),
    {
        if self.stopped {
            return;
        }
        if let Some((conn, _)) = &self.listener {
            conn.abort();
            self.listener = None;
            self.stopped = true;
        }
    }
}

/// Stops the server once the application is asked to exit, that is when at
/// least one exit event came in this tick; otherwise leaves it as it is.
pub fn stop_server_on_exit(exit_events: usize, server: &mut NetworkServer)
    ensures
        exit_events > 0 && old(server).phase() == ServerPhase::Listening ==> final(server).phase()
            == ServerPhase::Stopped,
        exit_events == 0 || old(server).phase() != ServerPhase::Listening ==> *final(server) == *old(
            server,
        ),
{
    if exit_events > 0 {
        server.stop();
    }
}

} // verus!
