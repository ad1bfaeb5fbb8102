//! The bridge between asynchronous callers and a device that blocks: one
//! ordered queue of requests, served by one worker, one at a time.
//!
//! The bridge decides; it does not touch the device. Whoever runs the worker
//! performs each request on the device and fills the request's completion
//! slot with what `finish_write` or `finish_read` make of the result.

use crate::codec::{decode, spec_decode, ControllerPacket, PacketModel};
use std::collections::VecDeque;
use vstd::prelude::*;

verus! {

/// Most requests that wait in the queue at one time.
pub const QUEUE_CAPACITY: usize = 32;

/// Most bytes that the worker asks of the device in one read.
pub const READ_CHUNK_LEN: usize = 1024;

/// Vendor identifier of the device that the bridge is made for.
pub const VENDOR_ID: u16 = 0x054c;

/// Product identifier of the device that the bridge is made for.
pub const PRODUCT_ID: u16 = 0x05c4;

/// Why a transport operation failed.
#[derive(Clone, Copy, Debug, PartialEq, Eq, Structural)]
pub enum TransportError {
    /// The device failed to read or write.
    Io,
    /// The bridge is closed: its worker serves no more requests.
    Closed,
    /// What the device handed over is no packet.
    Decode,
    /// The caller's buffer is smaller than what the device handed over.
    Truncated,
}

/// What a request asks of the device.
#[derive(Debug)]
pub enum Operation {
    /// Read one chunk.
    Read,
    /// Write these bytes.
    Write(Vec<u8>),
}

/// One request in flight: what it asks, and the single-use slot in which its
/// caller waits for the result.
#[derive(Debug)]
pub struct PendingRequest<S> {
    pub operation: Operation,
    pub slot: S,
}

/// What became of a request that was handed to the bridge.
#[derive(Debug)]
pub enum Submission<S> {
    /// The request waits in the queue behind those that came before it.
    Queued,
    /// The queue is full. The request comes back: its caller waits for room.
    Full(PendingRequest<S>),
    /// The bridge is closed. The request comes back: it resolves with
    /// `TransportError::Closed`.
    Closed(PendingRequest<S>),
}

impl<S> Submission<S> {
    /// The error with which the request resolves where the bridge did not
    /// keep it for good: `Closed` for a closed bridge. A request that is
    /// queued, or that waits for room, has no error yet.
    pub fn error(&self) -> (r: Option<TransportError>)
        ensures
            r == if self is Closed {
                Some(TransportError::Closed)
            } else {
                None::<TransportError>
            },
    {
        match self {
            Submission::Closed(_) => Some(TransportError::Closed),
            _ => None,
        }
    }
}

/// What the worker does next.
#[derive(Debug)]
pub enum Turn<S> {
    /// Perform this request on the device and fill its slot.
    Perform(PendingRequest<S>),
    /// Nothing waits: block until a request is submitted.
    Idle,
    /// The bridge is closed: leave the loop.
    Exit,
}

/// The state of a bridge, as plain values: the requests that wait, oldest
/// first, and whether the bridge is closed.
pub struct BridgeModel<S> {
    pub pending: Seq<PendingRequest<S>>,
    pub closed: bool,
}

impl<S> BridgeModel<S> {
    /// No more requests wait than the queue has room for, and none waits in
    /// a closed bridge.
    pub open spec fn wf(self) -> bool {
        &&& self.pending.len() <= QUEUE_CAPACITY
        &&& self.closed ==> self.pending.len() == 0
    }

    /// Whether a submitted request is queued.
    pub open spec fn accepts(self) -> bool {
        !self.closed && self.pending.len() < QUEUE_CAPACITY
    }

    /// The bridge after a request was submitted: it is queued last, unless
    /// the bridge is closed or full.
    pub open spec fn submit(self, request: PendingRequest<S>) -> BridgeModel<S> {
        if self.accepts() {
            BridgeModel { pending: self.pending.push(request), closed: self.closed }
        } else {
            self
        }
    }

    /// The bridge after the requests were submitted one after the other.
    pub open spec fn submit_all(self, requests: Seq<PendingRequest<S>>) -> BridgeModel<S>
        decreases requests.len(),
    {
        if requests.len() == 0 {
            self
        } else {
            self.submit(requests[0]).submit_all(requests.drop_first())
        }
    }

    /// The bridge after the worker took the oldest request, if one waits.
    pub open spec fn take(self) -> BridgeModel<S> {
        if self.pending.len() > 0 {
            BridgeModel { pending: self.pending.drop_first(), closed: self.closed }
        } else {
            self
        }
    }

    /// The requests that the worker performs in its next `n` turns, in the
    /// order in which it performs them.
    pub open spec fn served(self, n: nat) -> Seq<PendingRequest<S>>
        decreases n,
    {
        if n == 0 || self.pending.len() == 0 {
            Seq::empty()
        } else {
            seq![self.pending[0]] + self.take().served((n - 1) as nat)
        }
    }

    /// The bridge after it was closed.
    pub open spec fn close(self) -> BridgeModel<S> {
        BridgeModel { pending: Seq::empty(), closed: true }
    }
}

/// Requests that an open bridge has room for are queued behind those that
/// wait, in the order in which they were submitted.
pub proof fn lemma_submit_all_appends<S>(bridge: BridgeModel<S>, requests: Seq<PendingRequest<S>>)
    requires
        !bridge.closed,
        bridge.pending.len() + requests.len() <= QUEUE_CAPACITY,
    ensures
        bridge.submit_all(requests).pending == bridge.pending + requests,
        bridge.submit_all(requests).closed == bridge.closed,
    decreases requests.len(),
{
    if requests.len() > 0 {
        lemma_submit_all_appends(bridge.submit(requests[0]), requests.drop_first());
        assert(bridge.pending.push(requests[0]) + requests.drop_first() =~= bridge.pending
            + requests);
    } else {
        assert(bridge.pending + requests =~= bridge.pending);
    }
}

/// The worker performs the requests that wait from the oldest on.
pub proof fn lemma_served_is_prefix<S>(bridge: BridgeModel<S>, n: nat)
    requires
        n <= bridge.pending.len(),
    ensures
        bridge.served(n) == bridge.pending.take(n as int),
    decreases n,
{
    if n > 0 {
        lemma_served_is_prefix(bridge.take(), (n - 1) as nat);
        assert(seq![bridge.pending[0]] + bridge.pending.drop_first().take(n - 1)
            =~= bridge.pending.take(n as int));
    } else {
        assert(bridge.pending.take(0) =~= Seq::empty());
    }
}

/// Requests are performed in the order in which they were submitted: what
/// an open, empty bridge is handed, one request after the other, is what its
/// worker performs, in that order.
pub proof fn lemma_submission_order_is_kept<S>(
    bridge: BridgeModel<S>,
    requests: Seq<PendingRequest<S>>,
)
    requires
        !bridge.closed,
        bridge.pending.len() == 0,
        requests.len() <= QUEUE_CAPACITY,
    ensures
        bridge.submit_all(requests).served(requests.len()) == requests,
{
    lemma_submit_all_appends(bridge, requests);
    assert(bridge.pending + requests =~= requests);
    lemma_served_is_prefix(bridge.submit_all(requests), requests.len());
    assert(requests.take(requests.len() as int) =~= requests);
}

/// A closed bridge queues nothing and serves nothing, whatever is submitted
/// to it.
pub proof fn lemma_closed_stays_closed<S>(bridge: BridgeModel<S>, requests: Seq<PendingRequest<S>>, n: nat)
    ensures
        bridge.close().submit_all(requests) == bridge.close(),
        bridge.close().served(n) == Seq::<PendingRequest<S>>::empty(),
        bridge.close().wf(),
    decreases requests.len(),
{
    if requests.len() > 0 {
        lemma_closed_stays_closed(bridge, requests.drop_first(), n);
    }
}

/// The queue of requests between the callers and the worker.
pub struct TransportBridge<S> {
    pending: VecDeque<PendingRequest<S>>,
    closed: bool,
}

impl<S> View for TransportBridge<S> {
    type V = BridgeModel<S>;

    closed spec fn view(&self) -> BridgeModel<S> {
        BridgeModel { pending: self.pending@, closed: self.closed }
    }
}

impl<S> TransportBridge<S> {
    /// The bridge holds no more requests than it has room for, and none
    /// once it is closed.
    pub open spec fn wf(&self) -> bool {
        self@.wf()
    }

    /// An open bridge with no request waiting.
    pub fn new() -> (r: Self)
        ensures
            r.wf(),
            !r@.closed,
            r@.pending.len() == 0,
    {
        TransportBridge { pending: VecDeque::new(), closed: false }
    }

    /// Whether the bridge is closed.
    pub fn is_closed(&self) -> (r: bool)
        ensures
            r == self@.closed,
    {
        self.closed
    }

    /// How many requests wait.
    pub fn len(&self) -> (r: usize)
        ensures
            r == self@.pending.len(),
    {
        self.pending.len()
    }

    /// Hands a request to the bridge. An open bridge with room queues it
    /// behind the requests that wait; a closed or full bridge gives it back.
    pub fn submit(&mut self, request: PendingRequest<S>) -> (r: Submission<S>)
        requires
            old(self).wf(),
        ensures
            final(self).wf(),
            final(self)@ == old(self)@.submit(request),
            match r {
                Submission::Queued => old(self)@.accepts(),
                Submission::Full(back) => !old(self)@.closed && !old(self)@.accepts() && back
                    == request,
                Submission::Closed(back) => old(self)@.closed && back == request,
            },
    {
        if self.closed {
            Submission::Closed(request)
        } else if self.pending.len() >= QUEUE_CAPACITY {
            Submission::Full(request)
        } else {
            self.pending.push_back(request);
            Submission::Queued
        }
    }

    /// The worker's next turn: the oldest request that waits, or, where none
    /// waits, whether to block for one or to leave.
    pub fn next_turn(&mut self) -> (r: Turn<S>)
        requires
            old(self).wf(),
        ensures
            final(self).wf(),
            final(self)@ == old(self)@.take(),
            match r {
                Turn::Perform(request) => old(self)@.pending.len() > 0 && request == old(
                    self,
                )@.pending[0],
                Turn::Idle => old(self)@.pending.len() == 0 && !old(self)@.closed,
                Turn::Exit => old(self)@.pending.len() == 0 && old(self)@.closed,
            },
    {
        match self.pending.pop_front() {
            Some(request) => {
                assert(self.pending@ =~= old(self).pending@.drop_first());
                Turn::Perform(request)
            },
            None => {
                if self.closed {
                    Turn::Exit
                } else {
                    Turn::Idle
                }
            },
        }
    }

    /// Closes the bridge and hands back the requests that were waiting,
    /// oldest first. Each of them resolves with `TransportError::Closed`, as
    /// does every request submitted from now on.
    pub fn close(&mut self) -> (unserved: VecDeque<PendingRequest<S>>)
        ensures
            final(self).wf(),
            final(self)@ == old(self)@.close(),
            unserved@ == old(self)@.pending,
    {
        self.closed = true;
        let mut unserved: VecDeque<PendingRequest<S>> = VecDeque::new();
        unserved.append(&mut self.pending);
        assert(unserved@ =~= old(self).pending@);
        unserved
    }
}

/// The result of a write for its caller: an error of the device is an I/O
/// error.
pub fn finish_write(written: bool) -> (r: Result<(), TransportError>)
    ensures
        r == if written {
            Ok::<(), TransportError>(())
        } else {
            Err::<(), TransportError>(TransportError::Io)
        },
{
    if written {
        Ok(())
    } else {
        Err(TransportError::Io)
    }
}

/// How many bytes of a chunk fit into a buffer.
pub open spec fn copied_len(chunk: Seq<u8>, buffer: Seq<u8>) -> int {
    if chunk.len() <= buffer.len() {
        chunk.len() as int
    } else {
        buffer.len() as int
    }
}

/// The buffer of a read after the device answered: as much of the chunk as
/// fits, then what the buffer held before.
pub open spec fn buffer_after_read(chunk: Option<Seq<u8>>, buffer: Seq<u8>) -> Seq<u8> {
    match chunk {
        Some(c) => c.take(copied_len(c, buffer)) + buffer.skip(copied_len(c, buffer)),
        None => buffer,
    }
}

/// The result of a read whose caller has room for `room` bytes: a failure of
/// the device is an I/O error, a chunk that does not fit is truncated, a
/// chunk that fits is decoded.
pub open spec fn read_result(chunk: Option<Seq<u8>>, room: nat) -> Result<
    PacketModel,
    TransportError,
> {
    match chunk {
        None => Err(TransportError::Io),
        Some(c) => if c.len() > room {
            Err(TransportError::Truncated)
        } else {
            match spec_decode(c) {
                Some(packet) => Ok(packet),
                None => Err(TransportError::Decode),
            }
        },
    }
}

/// The bytes of an optional chunk.
pub open spec fn chunk_view(chunk: Option<&[u8]>) -> Option<Seq<u8>> {
    match chunk {
        Some(c) => Some(c@),
        None => None,
    }
}

/// What the result of a read holds, as plain values.
pub open spec fn result_view(r: Result<ControllerPacket, TransportError>) -> Result<
    PacketModel,
    TransportError,
> {
    match r {
        Ok(packet) => Ok(packet@),
        Err(e) => Err(e),
    }
}

/// The result of a read for its caller, who gave `buffer`. `chunk` is what
/// the device handed over, or `None` where the device failed.
///
/// As much of the chunk as fits is copied to the front of the buffer. A
/// chunk that does not fit is an error of the caller; one that fits is
/// decoded.
pub fn finish_read(chunk: Option<&[u8]>, buffer: &mut [u8]) -> (r: Result<
    ControllerPacket,
    TransportError,
>)
    ensures
        result_view(r) == read_result(chunk_view(chunk), old(buffer)@.len()),
        final(buffer)@ == buffer_after_read(chunk_view(chunk), old(buffer)@),
{
    let chunk = match chunk {
        Some(chunk) => chunk,
        None => {
            return Err(TransportError::Io);
        },
    };
    let n = if chunk.len() <= buffer.len() {
        chunk.len()
    } else {
        buffer.len()
    };
    let mut i: usize = 0;
    while i < n
        invariant
            i <= n,
            n <= chunk@.len(),
            n <= buffer@.len(),
            buffer@.len() == old(buffer)@.len(),
            buffer@ == chunk@.take(i as int) + old(buffer)@.skip(i as int),
        decreases n - i,
    {
        buffer[i] = chunk[i];
        i = i + 1;
        assert(buffer@ =~= chunk@.take(i as int) + old(buffer)@.skip(i as int));
    }
    if chunk.len() > n {
        return Err(TransportError::Truncated);
    }
    match decode(chunk) {
        Ok(packet) => Ok(packet),
        Err(_) => Err(TransportError::Decode),
    }
}

} // verus!
