//! What the PHY state machine promises over whole transmissions and receptions.
use vstd::prelude::*;

use super::data::{PhyState, PollAction, PollEvent, ReadReply};
use crate::time::Instant;

verus! {

/// The surroundings of one poll: the time, and what the UART answers if it is asked.
pub struct PollRound {
    pub now: Instant,
    /// The answer to a write of the pending bytes.
    pub write: PollEvent,
    /// The answer to the question whether the UART is busy.
    pub busy: bool,
}

impl PollRound {
    /// What the poll asks of the UART first, if it asks anything.
    pub open spec fn action(self, s: PhyState) -> PollAction<()> {
        s.poll_action(PollEvent::Poll { now: self.now }, ())
    }

    /// The UART answers a write with a count of bytes that it was given, or not at all.
    pub open spec fn admissible(self, s: PhyState) -> bool {
        self.action(s) is Write ==> s.poll_admits(self.write) && (self.write is Written
            || self.write is WouldBlock)
    }

    /// The event that ends the poll.
    pub open spec fn last_event(self, s: PhyState) -> PollEvent {
        match self.action(s) {
            PollAction::Write => self.write,
            PollAction::QueryBusy => PollEvent::Busy { busy: self.busy },
            _ => PollEvent::Poll { now: self.now },
        }
    }

    /// The state after the poll.
    pub open spec fn next(self, s: PhyState) -> PhyState {
        s.poll_next(self.last_event(s))
    }

    /// The action that ends the poll.
    pub open spec fn outcome(self, s: PhyState) -> PollAction<()> {
        s.poll_action(self.last_event(s), ())
    }

    /// The bytes that the UART takes during the poll.
    pub open spec fn wire(self, s: PhyState) -> Seq<u8> {
        match self.last_event(s) {
            PollEvent::Written { remaining } => s.pending().take(s.pending().len() - remaining),
            _ => Seq::empty(),
        }
    }
}

/// The state after a series of polls.
pub open spec fn run(s: PhyState, rounds: Seq<PollRound>) -> PhyState
    decreases rounds.len(),
{
    if rounds.len() == 0 {
        s
    } else {
        rounds.last().next(run(s, rounds.drop_last()))
    }
}

/// The bytes that the UART takes during a series of polls.
pub open spec fn run_wire(s: PhyState, rounds: Seq<PollRound>) -> Seq<u8>
    decreases rounds.len(),
{
    if rounds.len() == 0 {
        Seq::empty()
    } else {
        run_wire(s, rounds.drop_last()) + rounds.last().wire(run(s, rounds.drop_last()))
    }
}

/// Every poll of the series has answers of the UART that fit its state.
pub open spec fn run_admissible(s: PhyState, rounds: Seq<PollRound>) -> bool
    decreases rounds.len(),
{
    rounds.len() > 0 ==> {
        &&& run_admissible(s, rounds.drop_last())
        &&& rounds.last().admissible(run(s, rounds.drop_last()))
    }
}

/// Every event keeps the state consistent and leaves the contents of the buffer alone.
pub proof fn law_poll_keeps_state_consistent(s: PhyState, event: PollEvent)
    requires
        s.wf(),
        s.poll_admits(event),
    ensures
        s.poll_next(event).wf(),
        s.poll_next(event).buffer() == s.buffer(),
{
}

/// A poll ends with `Return(true)` exactly if the transmission is still in progress then.
pub proof fn law_poll_reports_mode(s: PhyState, round: PollRound)
    requires
        s.wf(),
        round.admissible(s),
    ensures
        round.outcome(s) == PollAction::<()>::Return(true) <==> round.next(s) is Tx,
        round.outcome(s) == PollAction::<()>::Return(true) || round.outcome(s)
            == PollAction::<()>::Return(false) || round.outcome(s) == PollAction::Release(()),
{
}

/// Polls in receive mode change nothing and send nothing.
pub proof fn law_receive_mode_is_silent(s: PhyState, rounds: Seq<PollRound>)
    requires
        s is Rx,
    ensures
        run(s, rounds) == s,
        run_wire(s, rounds) == Seq::<u8>::empty(),
    decreases rounds.len(),
{
    if rounds.len() > 0 {
        law_receive_mode_is_silent(s, rounds.drop_last());
    }
}

/// Nothing is sent, and the transmission stays in progress, until its start time has come.
pub proof fn law_silent_until_start(s: PhyState, rounds: Seq<PollRound>)
    requires
        s is Tx,
        forall|i: int| 0 <= i < rounds.len() ==> (#[trigger] rounds[i]).now@ < s->start_tx,
    ensures
        run(s, rounds) == s,
        run_wire(s, rounds) == Seq::<u8>::empty(),
    decreases rounds.len(),
{
    if rounds.len() > 0 {
        let before = rounds.drop_last();
        assert forall|i: int| 0 <= i < before.len() implies (#[trigger] before[i]).now@
            < s->start_tx by {
            assert(before[i] == rounds[i]);
        }
        law_silent_until_start(s, before);
    }
}

/// However the UART splits up the writes, it takes the pending bytes in order, each of them
/// once: what it has taken and what is still pending together are what was pending at first. A
/// transmission ends only when nothing is pending any more, and leaves an empty receive buffer.
pub proof fn law_wire_carries_pending(s: PhyState, rounds: Seq<PollRound>)
    requires
        s.wf(),
        s is Tx,
        run_admissible(s, rounds),
    ensures
        run(s, rounds).wf(),
        run_wire(s, rounds) + run(s, rounds).pending() == s.pending(),
        match run(s, rounds) {
            PhyState::Tx { buffer, length, start_tx, .. } => {
                &&& buffer == s.buffer()
                &&& length == s->Tx_length
                &&& start_tx == s->start_tx
            },
            PhyState::Rx { buffer, length } => buffer == s.buffer() && length == 0,
        },
    decreases rounds.len(),
{
    if rounds.len() > 0 {
        let before = rounds.drop_last();
        let round = rounds.last();
        law_wire_carries_pending(s, before);
        let mid = run(s, before);
        assert(round.wire(mid) + round.next(mid).pending() =~= mid.pending());
        assert(run_wire(s, rounds) + run(s, rounds).pending() =~= run_wire(s, before) + (
        round.wire(mid) + round.next(mid).pending()));
    } else {
        assert(run_wire(s, rounds) + run(s, rounds).pending() =~= s.pending());
    }
}

/// A telegram that was put into the buffer goes out as it is: once the PHY is back in receive
/// mode, the UART has taken exactly the telegram. Received bytes from before are gone.
pub proof fn law_telegram_is_sent_whole(
    s: PhyState,
    contents: Seq<u8>,
    length: nat,
    start_tx: int,
    rounds: Seq<PollRound>,
)
    requires
        s is Rx,
        0 < length <= contents.len(),
        run_admissible(s.after_fill(contents, length, start_tx), rounds),
        run(s.after_fill(contents, length, start_tx), rounds) is Rx,
    ensures
        run_wire(s.after_fill(contents, length, start_tx), rounds) == contents.take(length as int),
        run(s.after_fill(contents, length, start_tx), rounds) == (PhyState::Rx {
            buffer: contents,
            length: 0,
        }),
{
    let tx = s.after_fill(contents, length, start_tx);
    law_wire_carries_pending(tx, rounds);
    assert(tx.pending() =~= contents.take(length as int));
    assert(run_wire(tx, rounds) =~= run_wire(tx, rounds) + run(tx, rounds).pending());
}

/// A transmission ends in exactly one way, however long the telegram is: in a poll at or after its
/// start time, once the UART has taken all of the telegram and answers that it is not busy.
pub proof fn law_transmission_ends_when_uart_is_idle(s: PhyState, round: PollRound)
    requires
        s.wf(),
        s is Tx,
        round.admissible(s),
    ensures
        round.next(s) is Rx <==> s->start_tx <= round.now@ && s->cursor == s->Tx_length
            && !round.busy,
        round.outcome(s) is Release <==> round.next(s) is Rx,
        s->cursor == s->Tx_length && round.busy ==> round.next(s) == s && round.outcome(s)
            == PollAction::<()>::Return(true),
{
}

/// As long as the UART answers that it is busy, the transmission stays in progress, through any
/// number of polls. A transmission that is over was ended by a poll in which the UART was not busy.
pub proof fn law_transmission_outlasts_busy_uart(s: PhyState, rounds: Seq<PollRound>)
    requires
        s.wf(),
        s is Tx,
        run_admissible(s, rounds),
    ensures
        (forall|i: int| 0 <= i < rounds.len() ==> (#[trigger] rounds[i]).busy) ==> run(s, rounds)
            is Tx,
        run(s, rounds) is Rx ==> exists|i: int|
            0 <= i < rounds.len() && !(#[trigger] rounds[i]).busy && s->start_tx <= rounds[i].now@,
    decreases rounds.len(),
{
    if rounds.len() > 0 {
        let before = rounds.drop_last();
        law_wire_carries_pending(s, before);
        law_transmission_outlasts_busy_uart(s, before);
        if run(s, before) is Rx {
            let i = choose|i: int|
                0 <= i < before.len() && !(#[trigger] before[i]).busy && s->start_tx
                    <= before[i].now@;
            assert(rounds[i] == before[i]);
        } else if run(s, rounds) is Rx {
            law_transmission_ends_when_uart_is_idle(run(s, before), rounds.last());
            assert(rounds[rounds.len() - 1] == rounds.last());
        }
    }
}

/// From the start time of a transmission on, every poll asks for a write as long as the UART has
/// not taken all of the telegram, whatever polls there were before.
pub proof fn law_pending_bytes_are_written_from_start_on(
    s: PhyState,
    rounds: Seq<PollRound>,
    poll: PollRound,
)
    requires
        s.wf(),
        s is Tx,
        run_admissible(s, rounds),
        run_wire(s, rounds).len() < s->Tx_length - s->cursor,
        s->start_tx <= poll.now@,
    ensures
        poll.action(run(s, rounds)) is Write,
{
    law_wire_carries_pending(s, rounds);
    assert((run_wire(s, rounds) + run(s, rounds).pending()).len() == s.pending().len());
}

/// A poll that gets the transmission on: its start time has come, the UART takes at least one
/// byte of a write, and it is not busy once it has taken all of them.
pub open spec fn progresses(s: PhyState, round: PollRound) -> bool {
    &&& s is Tx ==> s->start_tx <= round.now@
    &&& round.action(s) is Write ==> round.wire(s).len() > 0
    &&& !round.busy
}

/// Every poll of the series gets the transmission on.
pub open spec fn run_progresses(s: PhyState, rounds: Seq<PollRound>) -> bool
    decreases rounds.len(),
{
    rounds.len() > 0 ==> {
        &&& run_progresses(s, rounds.drop_last())
        &&& progresses(run(s, rounds.drop_last()), rounds.last())
    }
}

/// A transmission of `n` pending bytes is over after at most `n + 1` polls that get it on.
pub proof fn law_transmission_ends(s: PhyState, rounds: Seq<PollRound>)
    requires
        s.wf(),
        s is Tx,
        run_admissible(s, rounds),
        run_progresses(s, rounds),
    ensures
        rounds.len() > s.pending().len() ==> run(s, rounds) is Rx,
        run(s, rounds) is Tx ==> run(s, rounds).pending().len() + rounds.len()
            <= s.pending().len(),
    decreases rounds.len(),
{
    if rounds.len() > 0 {
        law_wire_carries_pending(s, rounds.drop_last());
        law_transmission_ends(s, rounds.drop_last());
    }
}

/// The last signal tells transmit direction exactly while a transmission is in progress: the poll
/// that ends it is the one that signals receive direction. This holds whatever `drive` and
/// `release` stand for, the levels of a direction pin or words for a state machine.
pub proof fn law_signal_follows_poll<L>(
    s: PhyState,
    event: PollEvent,
    signal: L,
    drive: L,
    release: L,
)
    requires
        s.wf(),
        s.poll_admits(event),
        signal == if s is Tx {
            drive
        } else {
            release
        },
    ensures
        (match s.poll_action(event, release) {
            PollAction::Release(release) => release,
            _ => signal,
        }) == if s.poll_next(event) is Tx {
            drive
        } else {
            release
        },
{
}

/// Transmit direction is signalled for a telegram; without a telegram the signal stays as it is.
pub proof fn law_signal_follows_transmit<L>(
    s: PhyState,
    contents: Seq<u8>,
    length: nat,
    start_tx: int,
    command: Option<L>,
    drive: L,
    release: L,
)
    requires
        s is Rx,
        command == if length == 0 {
            None
        } else {
            Some(drive)
        },
    ensures
        (match command {
            Some(drive) => drive,
            None => release,
        }) == if s.after_fill(contents, length, start_tx) is Tx {
            drive
        } else {
            release
        },
{
}

/// One look at the received bytes: what the UART left in the free part of the buffer, its
/// answer, and the number of bytes to drop.
pub struct Reception {
    pub spare: Seq<u8>,
    pub reply: ReadReply,
    pub dropped: nat,
}

impl Reception {
    /// The UART fills the free part of the buffer, and at most that.
    pub open spec fn admissible(self, s: PhyState) -> bool {
        &&& s is Rx
        &&& self.spare.len() == s.buffer().len() - s.received().len()
        &&& self.reply.count() <= self.spare.len()
    }

    /// The bytes that come in.
    pub open spec fn incoming(self) -> Seq<u8> {
        self.spare.take(self.reply.count() as int)
    }

    /// The state in which the received bytes are looked at.
    pub open spec fn seen(self, s: PhyState) -> PhyState {
        s.with_spare(self.spare).after_read(self.reply)
    }

    /// The state afterwards.
    pub open spec fn next(self, s: PhyState) -> PhyState {
        self.seen(s).after_drop(self.dropped)
    }
}

/// Incoming bytes are appended to the received ones, which stay as they are. They are kept
/// unless some are to be dropped; then none is left.
pub proof fn law_reception_appends(s: PhyState, reception: Reception)
    requires
        s.wf(),
        reception.admissible(s),
    ensures
        reception.seen(s).received() == s.received() + reception.incoming(),
        reception.next(s).wf(),
        reception.next(s).buffer().len() == s.buffer().len(),
        reception.next(s).received() == if reception.dropped == 0 {
            s.received() + reception.incoming()
        } else {
            Seq::<u8>::empty()
        },
{
    assert(reception.seen(s).received() =~= s.received() + reception.incoming());
    if reception.dropped != 0 {
        assert(reception.next(s).received() =~= Seq::<u8>::empty());
    }
}

/// A reply with `n` bytes makes the first `n` bytes of the free part received ones, for every `n`
/// that there is room for: they come behind the earlier ones, and the count grows by `n`. A reply
/// without bytes adds none.
pub proof fn law_reply_adds_its_bytes(s: PhyState, spare: Seq<u8>, n: usize)
    requires
        s.wf(),
        s is Rx,
        spare.len() == s->Rx_buffer.len() - s->Rx_length,
        n <= spare.len(),
    ensures
        ({
            let earlier = s->Rx_buffer.take(s->Rx_length as int);
            let filled = s.with_spare(spare);
            &&& filled.read_admits(ReadReply::Received(n))
            &&& filled.after_read(ReadReply::Received(n)) == (PhyState::Rx {
                buffer: earlier + spare,
                length: s->Rx_length + n as nat,
            })
            &&& filled.after_read(ReadReply::Received(n)).received() == earlier + spare.take(
                n as int,
            )
            &&& filled.after_read(ReadReply::WouldBlock).received() == earlier
            &&& filled.after_read(ReadReply::Failed).received() == earlier
        }),
{
    let earlier = s->Rx_buffer.take(s->Rx_length as int);
    assert((earlier + spare).take(s->Rx_length + n) =~= earlier + spare.take(n as int));
    assert((earlier + spare).take(s->Rx_length as int) =~= earlier);
}

/// The state after a series of receptions.
pub open spec fn receive_run(s: PhyState, receptions: Seq<Reception>) -> PhyState
    decreases receptions.len(),
{
    if receptions.len() == 0 {
        s
    } else {
        receptions.last().next(receive_run(s, receptions.drop_last()))
    }
}

/// All that comes in during a series of receptions.
pub open spec fn all_incoming(receptions: Seq<Reception>) -> Seq<u8>
    decreases receptions.len(),
{
    if receptions.len() == 0 {
        Seq::empty()
    } else {
        all_incoming(receptions.drop_last()) + receptions.last().incoming()
    }
}

/// Every reception of the series fits its state and drops nothing.
pub open spec fn keeps_all(s: PhyState, receptions: Seq<Reception>) -> bool
    decreases receptions.len(),
{
    receptions.len() > 0 ==> {
        &&& keeps_all(s, receptions.drop_last())
        &&& receptions.last().admissible(receive_run(s, receptions.drop_last()))
        &&& receptions.last().dropped == 0
    }
}

/// A telegram that comes in piece by piece is put together: as long as nothing is dropped, the
/// received bytes are all that came in, in order.
pub proof fn law_reception_puts_pieces_together(s: PhyState, receptions: Seq<Reception>)
    requires
        s.wf(),
        s is Rx,
        keeps_all(s, receptions),
    ensures
        receive_run(s, receptions) is Rx,
        receive_run(s, receptions).wf(),
        receive_run(s, receptions).received() == s.received() + all_incoming(receptions),
    decreases receptions.len(),
{
    if receptions.len() > 0 {
        let before = receptions.drop_last();
        law_reception_puts_pieces_together(s, before);
        law_reception_appends(receive_run(s, before), receptions.last());
        assert(s.received() + all_incoming(receptions) =~= s.received() + all_incoming(before)
            + receptions.last().incoming());
    } else {
        assert(s.received() + all_incoming(receptions) =~= s.received());
    }
}

} // verus!
