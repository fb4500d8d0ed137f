//! The half-duplex state that both PHY drivers share: one buffer, which either collects received
//! bytes or holds the telegram that is being sent.
use vstd::prelude::*;

use crate::time::Instant;

verus! {

/// What a PHY is doing with its buffer.
#[derive(Debug)]
pub enum PhyData {
    /// Receiving. The first `length` bytes of the buffer were received and not dropped yet.
    Rx { buffer: Vec<u8>, length: usize },
    /// Sending the first `length` bytes of the buffer, from `start_tx` on. The UART has taken
    /// the first `cursor` bytes.
    Tx { buffer: Vec<u8>, length: usize, cursor: usize, start_tx: Instant },
}

/// The mathematical counterpart of [`PhyData`].
#[verifier::ext_equal]
pub enum PhyState {
    Rx { buffer: Seq<u8>, length: nat },
    Tx { buffer: Seq<u8>, length: nat, cursor: nat, start_tx: int },
}

/// What happened: a new poll, or the reply to what the poll asked of the UART.
#[derive(Debug, Clone, Copy, PartialEq, Eq)]
pub enum PollEvent {
    /// The PHY is polled at the time `now`.
    Poll { now: Instant },
    /// The UART took bytes of the pending telegram, all but the last `remaining` ones.
    Written { remaining: usize },
    /// The UART could not take a byte.
    WouldBlock,
    /// The UART told whether it is still shifting out bytes.
    Busy { busy: bool },
}

/// What is to be done next for a poll. `L` is how the PHY signals the direction of the line.
#[derive(Debug, PartialEq, Eq)]
pub enum PollAction<L> {
    /// The poll is over. Tells whether a transmission is still in progress.
    Return(bool),
    /// Write the pending bytes to the UART and report what it took.
    Write,
    /// Ask the UART whether it is busy and report the answer.
    QueryBusy,
    /// Signal receive direction. The poll is over then, no transmission is in progress any more.
    Release(L),
}

/// What the UART answered to a request for received bytes.
#[derive(Debug, Clone, Copy, PartialEq, Eq)]
pub enum ReadReply {
    /// This many bytes were put at the front of the free part of the buffer.
    Received(usize),
    /// There was nothing to read.
    WouldBlock,
    /// The UART detected an error.
    Failed,
}

/// What became of the received bytes that were to be dropped.
#[derive(Debug, Clone, Copy, PartialEq, Eq, Structural)]
pub enum DropReport {
    /// Nothing was to be dropped.
    Kept,
    /// All received bytes were dropped.
    Dropped,
    /// `dropped` bytes were to be dropped. As that is not the number of received bytes, all
    /// `length` of them were.
    Partial { dropped: usize, length: usize },
}

impl ReadReply {
    /// The number of bytes that came in.
    pub open spec fn count(self) -> nat {
        match self {
            ReadReply::Received(n) => n as nat,
            _ => 0,
        }
    }
}

impl PhyState {
    /// The received bytes lie within the buffer; so do the bytes to send, and no more than those
    /// have been taken.
    pub open spec fn wf(self) -> bool {
        match self {
            PhyState::Rx { buffer, length } => length <= buffer.len(),
            PhyState::Tx { buffer, length, cursor, .. } => cursor <= length <= buffer.len(),
        }
    }

    /// The whole buffer.
    pub open spec fn buffer(self) -> Seq<u8> {
        match self {
            PhyState::Rx { buffer, .. } => buffer,
            PhyState::Tx { buffer, .. } => buffer,
        }
    }

    /// The bytes that were received and not dropped; none while sending.
    pub open spec fn received(self) -> Seq<u8> {
        match self {
            PhyState::Rx { buffer, length } => buffer.take(length as int),
            PhyState::Tx { .. } => Seq::empty(),
        }
    }

    /// The bytes that are to be sent and that the UART has not taken; none while receiving.
    pub open spec fn pending(self) -> Seq<u8> {
        match self {
            PhyState::Rx { .. } => Seq::empty(),
            PhyState::Tx { buffer, length, cursor, .. } => buffer.subrange(
                cursor as int,
                length as int,
            ),
        }
    }

    /// Back in receive mode with nothing received, if this is a transmission.
    pub open spec fn make_rx(self) -> PhyState {
        match self {
            PhyState::Rx { .. } => self,
            PhyState::Tx { buffer, .. } => PhyState::Rx { buffer, length: 0 },
        }
    }

    /// The UART took `n` more bytes.
    pub open spec fn advanced(self, n: int) -> PhyState {
        match self {
            PhyState::Rx { .. } => self,
            PhyState::Tx { buffer, length, cursor, start_tx } => PhyState::Tx {
                buffer,
                length,
                cursor: (cursor + n) as nat,
                start_tx,
            },
        }
    }

    /// A reply of the UART comes only after the request that it answers.
    pub open spec fn poll_admits(self, event: PollEvent) -> bool {
        match event {
            PollEvent::Poll { .. } => true,
            PollEvent::Written { remaining } => {
                self.pending().len() > 0 && remaining <= self.pending().len()
            },
            PollEvent::WouldBlock => self.pending().len() > 0,
            PollEvent::Busy { .. } => self is Tx && self.pending().len() == 0,
        }
    }

    /// The state after a poll event.
    pub open spec fn poll_next(self, event: PollEvent) -> PhyState {
        match event {
            PollEvent::Written { remaining } => self.advanced(self.pending().len() - remaining),
            PollEvent::Busy { busy: false } => self.make_rx(),
            _ => self,
        }
    }

    /// What is to be done after a poll event. `release` signals receive direction.
    pub open spec fn poll_action<L>(self, event: PollEvent, release: L) -> PollAction<L> {
        match event {
            PollEvent::Poll { now } => match self {
                PhyState::Rx { .. } => PollAction::Return(false),
                PhyState::Tx { start_tx, .. } => if now@ < start_tx {
                    PollAction::Return(true)
                } else if self.pending().len() > 0 {
                    PollAction::Write
                } else {
                    PollAction::QueryBusy
                },
            },
            PollEvent::Busy { busy: false } => PollAction::Release(release),
            _ => PollAction::Return(true),
        }
    }

    /// The state once the part of the buffer behind the received bytes holds `spare`.
    pub open spec fn with_spare(self, spare: Seq<u8>) -> PhyState {
        match self {
            PhyState::Rx { length, .. } => PhyState::Rx {
                buffer: self.received() + spare,
                length,
            },
            PhyState::Tx { .. } => self,
        }
    }

    /// Receiving, and the reply tells of no more bytes than the buffer has room for.
    pub open spec fn read_admits(self, reply: ReadReply) -> bool {
        &&& self is Rx
        &&& self->Rx_length + reply.count() <= self.buffer().len()
    }

    /// The state once the bytes of a reply count as received.
    pub open spec fn after_read(self, reply: ReadReply) -> PhyState {
        match self {
            PhyState::Rx { buffer, length } => PhyState::Rx {
                buffer,
                length: length + reply.count(),
            },
            PhyState::Tx { .. } => self,
        }
    }

    /// The state once `n` received bytes were dropped: any drop empties the buffer.
    pub open spec fn after_drop(self, n: nat) -> PhyState {
        match self {
            PhyState::Rx { buffer, .. } if n > 0 => PhyState::Rx { buffer, length: 0 },
            _ => self,
        }
    }

    /// What is reported when `n` received bytes are to be dropped.
    pub open spec fn drop_report(self, n: usize) -> DropReport {
        if n == 0 {
            DropReport::Kept
        } else if n == self.received().len() {
            DropReport::Dropped
        } else {
            DropReport::Partial { dropped: n, length: self.received().len() as usize }
        }
    }

    /// The state once a telegram of `length` bytes was put at the front of the buffer, which now
    /// holds `contents`. Without a telegram nothing is sent.
    pub open spec fn after_fill(self, contents: Seq<u8>, length: nat, start_tx: int) -> PhyState {
        match self {
            PhyState::Rx { length: received, .. } => if length == 0 {
                PhyState::Rx { buffer: contents, length: received }
            } else {
                PhyState::Tx { buffer: contents, length, cursor: 0, start_tx }
            },
            PhyState::Tx { .. } => self,
        }
    }
}

impl View for PhyData {
    type V = PhyState;

    open spec fn view(&self) -> PhyState {
        match self {
            PhyData::Rx { buffer, length } => PhyState::Rx {
                buffer: buffer@,
                length: *length as nat,
            },
            PhyData::Tx { buffer, length, cursor, start_tx } => PhyState::Tx {
                buffer: buffer@,
                length: *length as nat,
                cursor: *cursor as nat,
                start_tx: start_tx@,
            },
        }
    }
}

impl PhyData {
    /// Receive mode with nothing received yet.
    pub fn new(buffer: Vec<u8>) -> (r: PhyData)
        ensures
            r@ == (PhyState::Rx { buffer: buffer@, length: 0 }),
    {
        PhyData::Rx { buffer, length: 0 }
    }

    /// Is this receive mode?
    pub fn is_rx(&self) -> (r: bool)
        ensures
            r == (self@ is Rx),
    {
        match self {
            PhyData::Rx { .. } => true,
            _ => false,
        }
    }

    /// Is this a transmission?
    pub fn is_tx(&self) -> (r: bool)
        ensures
            r == (self@ is Tx),
    {
        match self {
            PhyData::Tx { .. } => true,
            _ => false,
        }
    }

    /// Ends a transmission: goes back to receive mode with the same buffer and nothing received.
    pub fn make_rx(&mut self)
        ensures
            final(self)@ == old(self)@.make_rx(),
    {
        if let PhyData::Tx { buffer, .. } = self {
            let mut moved: Vec<u8> = Vec::new();
            core::mem::swap(buffer, &mut moved);
            *self = PhyData::Rx { buffer: moved, length: 0 };
        }
    }

    /// The number of bytes that were received and not dropped; zero while sending.
    pub fn received_len(&self) -> (r: usize)
        requires
            self@.wf(),
        ensures
            r == self@.received().len(),
    {
        match self {
            PhyData::Rx { length, .. } => *length,
            PhyData::Tx { .. } => 0,
        }
    }

    /// The bytes that are to be sent and that the UART has not taken; none while receiving.
    pub fn pending(&self) -> (r: &[u8])
        requires
            self@.wf(),
        ensures
            r@ == self@.pending(),
    {
        match self {
            PhyData::Rx { buffer, .. } => {
                let (none, _) = buffer.as_slice().split_at(0);
                none
            },
            PhyData::Tx { buffer, length, cursor, .. } => {
                let (telegram, _) = buffer.as_slice().split_at(*length);
                let (_, pending) = telegram.split_at(*cursor);
                pending
            },
        }
    }

    /// Handles one event of a poll and tells what to do next. `release` is what
    /// signals receive direction.
    pub fn poll_transmission<L>(&mut self, event: PollEvent, release: L) -> (r: PollAction<L>)
        requires
            old(self)@.wf(),
            old(self)@.poll_admits(event),
        ensures
            final(self)@ == old(self)@.poll_next(event),
            r == old(self)@.poll_action(event, release),
    {
        match event {
            PollEvent::Poll { now } => match self {
                PhyData::Rx { .. } => PollAction::Return(false),
                PhyData::Tx { length, cursor, start_tx, .. } => {
                    if now < *start_tx {
                        // The setup time of the line driver is not over yet.
                        PollAction::Return(true)
                    } else if *length != *cursor {
                        PollAction::Write
                    } else {
                        PollAction::QueryBusy
                    }
                },
            },
            PollEvent::Written { remaining } => {
                if let PhyData::Tx { length, cursor, .. } = self {
                    let written: usize = *length - *cursor - remaining;
                    *cursor = *cursor + written;
                }
                PollAction::Return(true)
            },
            PollEvent::WouldBlock => PollAction::Return(true),
            PollEvent::Busy { busy } => {
                if busy {
                    PollAction::Return(true)
                } else {
                    self.make_rx();
                    PollAction::Release(release)
                }
            },
        }
    }

    /// The whole buffer, for the next telegram to be put at its front.
    pub fn buffer_mut(&mut self) -> (r: &mut [u8])
        requires
            old(self)@ is Rx,
        ensures
            r@ == old(self)@.buffer(),
            final(self)@ == (PhyState::Rx {
                buffer: final(r)@,
                length: old(self)@->Rx_length,
            }),
    {
        match self {
            PhyData::Rx { buffer, .. } => buffer.as_mut_slice(),
            PhyData::Tx { buffer, .. } => buffer.as_mut_slice(),
        }
    }

    /// Starts to send the first `length` bytes of the buffer at the time `start_tx`. Received
    /// bytes are forgotten.
    pub fn start_transmission(&mut self, length: usize, start_tx: Instant)
        requires
            old(self)@ is Rx,
            0 < length <= old(self)@.buffer().len(),
        ensures
            final(self)@ == old(self)@.after_fill(
                old(self)@.buffer(),
                length as nat,
                start_tx@,
            ),
    {
        if let PhyData::Rx { buffer, .. } = self {
            let mut moved: Vec<u8> = Vec::new();
            core::mem::swap(buffer, &mut moved);
            *self = PhyData::Tx { buffer: moved, length, cursor: 0, start_tx };
        }
    }

    /// The free part of the buffer, for the UART to put received bytes at its front.
    pub fn spare_mut(&mut self) -> (r: &mut [u8])
        requires
            old(self)@.wf(),
            old(self)@ is Rx,
        ensures
            r@ == old(self)@.buffer().skip(old(self)@.received().len() as int),
            final(self)@ == old(self)@.with_spare(final(r)@),
    {
        match self {
            PhyData::Rx { buffer, length } => {
                let (_, spare) = buffer.as_mut_slice().split_at_mut(*length);
                spare
            },
            PhyData::Tx { buffer, .. } => buffer.as_mut_slice(),
        }
    }

    /// Counts the bytes of a reply of the UART as received. No bytes came in with an error.
    pub fn accept_read(&mut self, reply: ReadReply)
        requires
            old(self)@.wf(),
            old(self)@.read_admits(reply),
        ensures
            final(self)@ == old(self)@.after_read(reply),
    {
        if let PhyData::Rx { buffer, length } = self {
            let count: usize = match reply {
                ReadReply::Received(n) => n,
                ReadReply::WouldBlock => 0,
                ReadReply::Failed => 0,
            };
            assert(*length + count <= buffer.len());
            *length = *length + count;
        }
    }

    /// The bytes that were received and not dropped; none while sending.
    pub fn received(&self) -> (r: &[u8])
        requires
            self@.wf(),
        ensures
            r@ == self@.received(),
    {
        match self {
            PhyData::Rx { buffer, length } => {
                let (received, _) = buffer.as_slice().split_at(*length);
                received
            },
            PhyData::Tx { buffer, .. } => {
                let (none, _) = buffer.as_slice().split_at(0);
                none
            },
        }
    }

    /// Drops received bytes. Only all of them can be dropped: any other number than zero drops
    /// all of them as well.
    pub fn drop_received(&mut self, n: usize) -> (r: DropReport)
        requires
            old(self)@.wf(),
            old(self)@ is Rx,
        ensures
            final(self)@ == old(self)@.after_drop(n as nat),
            r == old(self)@.drop_report(n),
    {
        match self {
            PhyData::Rx { length, .. } => {
                if n == 0 {
                    DropReport::Kept
                } else if n == *length {
                    *length = 0;
                    DropReport::Dropped
                } else {
                    let received: usize = *length;
                    *length = 0;
                    DropReport::Partial { dropped: n, length: received }
                }
            },
            PhyData::Tx { .. } => DropReport::Kept,
        }
    }
}

/// The number of received bytes that are worth a trace.
pub const TRACE_LEN: usize = 20;

/// The received bytes that are traced: the first few of them.
pub fn trace_window(bytes: &[u8]) -> (r: &[u8])
    ensures
        r@ == bytes@.take(vstd::math::min(bytes@.len() as int, TRACE_LEN as int)),
{
    let length: usize = if bytes.len() < TRACE_LEN {
        bytes.len()
    } else {
        TRACE_LEN
    };
    let (window, _) = bytes.split_at(length);
    window
}

} // verus!
