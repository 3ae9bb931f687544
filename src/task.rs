//! A typed request/reply channel: threads outside the viewer loop hand it an
//! input and block until the loop has computed the output.
use crate::queue::{dequeue, drain_queued, enqueue};
use crossbeam_channel::{Receiver, Sender};
use vstd::prelude::*;

verus! {

/// The channel was closed: its other end is gone, or a reply slot was dropped
/// without a reply.
#[derive(Debug, Clone, Copy, PartialEq, Eq, Structural)]
pub struct ChannelClosed;

/// The sender of one computed output.
pub type TxOutput<O> = Sender<O>;

/// The receiving end of the task queue.
pub type RxInput<I, O> = Receiver<RemoteIO<I, O>>;

/// A request in flight: the input to compute with, and the one-shot slot
/// through which its output goes back to the waiting producer.
#[verifier::reject_recursive_types(O)]
#[derive(Debug)]
pub struct RemoteIO<I, O>(
    /// Input data for starting computation
    pub I,
    /// A one-shot channel that carries the computed output back.
    pub TxOutput<O>,
);

impl<I, O> RemoteIO<I, O> {
    /// Answers the request. The envelope is consumed, so a request is answered
    /// at most once; dropping it instead tells the producer that it failed.
    pub fn reply(self, output: O) -> (r: Result<(), ChannelClosed>) {
        match enqueue(&self.1, output) {
            Ok(()) => Ok(()),
            Err(_) => Err(ChannelClosed),
        }
    }
}

/// The producer side: cheap to clone, one clone per requesting thread.
#[verifier::reject_recursive_types(I)]
#[verifier::reject_recursive_types(O)]
#[derive(Debug, Clone)]
pub struct TaskSender<I, O> {
    tx_inp: Option<Sender<RemoteIO<I, O>>>,
}

impl<I, O> TaskSender<I, O> {
    /// Whether this sender belongs to a channel (a default sender does not).
    pub closed spec fn is_connected(&self) -> bool {
        self.tx_inp is Some
    }

    /// Asks the consumer to compute with `input` and waits for the output.
    /// Blocks while the queue is full, then until the reply comes. Fails with
    /// `ChannelClosed` when the sender belongs to no channel, when the
    /// receiving end is gone, or when the request is dropped unanswered.
    pub fn send(&self, input: impl Into<I>) -> (r: Result<O, ChannelClosed>)
        ensures
            !self.is_connected() ==> r == Err::<O, ChannelClosed>(ChannelClosed),
    {
        match &self.tx_inp {
            None => Err(ChannelClosed),
            Some(tx) => {
                // zero capacity: the reply is handed over directly
                let (tx_out, rx_out) = crossbeam_channel::bounded(0);
                match enqueue(tx, RemoteIO(input.into(), tx_out)) {
                    Err(_) => Err(ChannelClosed),
                    Ok(()) => match dequeue(&rx_out) {
                        Some(computed) => Ok(computed),
                        None => Err(ChannelClosed),
                    },
                }
            },
        }
    }
}

impl<I, O> Default for TaskSender<I, O> {
    /// A sender that belongs to no channel: every `send` on it fails.
    fn default() -> (r: Self)
        ensures
            !r.is_connected(),
    {
        TaskSender { tx_inp: None }
    }
}

/// The consumer side, owned by the viewer loop.
#[verifier::reject_recursive_types(I)]
#[verifier::reject_recursive_types(O)]
#[derive(Debug)]
pub struct TaskReceiver<I, O> {
    rx_inp: RxInput<I, O>,
    closed: bool,
}

impl<I, O> TaskReceiver<I, O> {
    /// Whether the receiver has seen its channel close; a closed receiver
    /// hands out nothing more.
    pub closed spec fn is_closed(&self) -> bool {
        self.closed
    }

    /// Receives the next request, blocking until one comes. Returns `None`
    /// once every sender is gone and the queue is empty; from then on every
    /// call returns `None`.
    pub fn recv(&mut self) -> (r: Option<RemoteIO<I, O>>)
        ensures
            old(self).is_closed() ==> r is None,
            r is None <==> final(self).is_closed(),
    {
        if self.closed {
            return None;
        }
        let r = dequeue(&self.rx_inp);
        if r.is_none() {
            self.closed = true;
        }
        r
    }

    /// Takes, without blocking, the requests queued at the moment of the call,
    /// in queue order; nothing once the receiver is closed.
    pub fn try_iter(&self) -> (r: Vec<RemoteIO<I, O>>)
        ensures
            self.is_closed() ==> r@.len() == 0,
    {
        if self.closed {
            Vec::new()
        } else {
            let queued: usize = self.rx_inp.len();
            drain_queued(&self.rx_inp, queued)
        }
    }
}

/// Opens a task channel whose queue holds one request at a time.
fn new_interactive_task<I, O>() -> (r: (TaskReceiver<I, O>, TaskSender<I, O>))
    ensures
        !r.0.is_closed(),
        r.1.is_connected(),
{
    let (tx_inp, rx_inp) = crossbeam_channel::bounded(1);
    let server = TaskReceiver { rx_inp, closed: false };
    let client = TaskSender { tx_inp: Some(tx_inp) };
    (server, client)
}

/// A task channel for remote execution (multi-producer, single-consumer).
#[verifier::reject_recursive_types(I)]
#[verifier::reject_recursive_types(O)]
pub struct Task<I, O> {
    sender: TaskSender<I, O>,
    receiver: TaskReceiver<I, O>,
}

impl<I, O> Task<I, O> {
    /// Both ends of the task as they stand.
    pub closed spec fn ends(&self) -> (TaskReceiver<I, O>, TaskSender<I, O>) {
        (self.receiver, self.sender)
    }

    /// Creates a task channel whose queue holds one request at a time.
    pub fn new() -> (r: Self)
        ensures
            !r.ends().0.is_closed(),
            r.ends().1.is_connected(),
    {
        let (receiver, sender) = new_interactive_task();
        Self { sender, receiver }
    }

    /// Splits the task into its read and write halves.
    pub fn split(self) -> (r: (TaskReceiver<I, O>, TaskSender<I, O>))
        ensures
            r == self.ends(),
    {
        let Self { sender: tx, receiver: rx } = self;
        (rx, tx)
    }
}

} // verus!
