//! What the operations on the shared buffer state do, told from their arguments and results: the
//! fields of [`PhyData`] before and after a call, and what the call returned.
use vstd::prelude::*;

use super::data::{trace_window, DropReport, PhyData, PollAction, PollEvent, ReadReply};
use crate::time::Instant;

verus! {

/// Receiving: the contents of the buffer and the number of received bytes.
pub open spec fn is_receiving(data: PhyData, contents: Seq<u8>, received: int) -> bool {
    data matches PhyData::Rx { buffer, length } && buffer@ == contents && length == received
}

/// Sending: the contents of the buffer, the length of the telegram, the number of bytes that the
/// UART has taken, and the time from which on it is given bytes.
pub open spec fn is_sending(
    data: PhyData,
    contents: Seq<u8>,
    telegram: int,
    taken: int,
    start: int,
) -> bool {
    data matches PhyData::Tx { buffer, length, cursor, start_tx } && buffer@ == contents && length
        == telegram && cursor == taken && start_tx@ == start
}

/// A new PHY receives, has the given buffer and has received nothing.
pub proof fn law_new_receives(buffer: Vec<u8>, data: PhyData)
    requires
        call_ensures(PhyData::new, (buffer,), data),
    ensures
        is_receiving(data, buffer@, 0),
{
}

/// The two modes exclude each other, and there is no third one.
pub proof fn law_modes_exclude_each_other(data: PhyData, rx: bool, tx: bool)
    requires
        call_ensures(PhyData::is_rx, (&data,), rx),
        call_ensures(PhyData::is_tx, (&data,), tx),
    ensures
        rx != tx,
        tx <==> data is Tx,
{
}

/// The end of a transmission keeps the buffer and leaves nothing received. In receive mode
/// nothing changes, and received bytes stay.
pub proof fn law_make_rx_keeps_buffer(
    contents: Seq<u8>,
    received: int,
    telegram: int,
    taken: int,
    start: int,
)
    ensures
        forall|data: &mut PhyData| #[trigger]
            call_ensures(PhyData::make_rx, (data,), ()) && is_sending(
                *data,
                contents,
                telegram,
                taken,
                start,
            ) ==> is_receiving(*final(data), contents, 0),
        forall|data: &mut PhyData| #[trigger]
            call_ensures(PhyData::make_rx, (data,), ()) && is_receiving(*data, contents, received)
                ==> is_receiving(*final(data), contents, received),
        forall|data: &mut PhyData| #[trigger] call_requires(PhyData::make_rx, (data,)),
{
}

/// The received bytes are the first ones of the buffer, as many as are counted; while sending
/// there are none.
pub proof fn law_received_is_front_of_buffer(
    data: PhyData,
    contents: Seq<u8>,
    received: int,
    telegram: int,
    taken: int,
    start: int,
)
    ensures
        is_receiving(data, contents, received) && received <= contents.len() ==> {
            &&& call_requires(PhyData::received, (&data,))
            &&& call_requires(PhyData::received_len, (&data,))
            &&& forall|r: &[u8]| #[trigger]
                call_ensures(PhyData::received, (&data,), r) ==> r@.len() == received && r@
                    == contents.take(received)
            &&& forall|n: usize| #[trigger]
                call_ensures(PhyData::received_len, (&data,), n) ==> n == received
        },
        is_sending(data, contents, telegram, taken, start) && taken <= telegram <= contents.len()
            ==> {
            &&& call_requires(PhyData::received, (&data,))
            &&& call_requires(PhyData::received_len, (&data,))
            &&& forall|r: &[u8]| #[trigger]
                call_ensures(PhyData::received, (&data,), r) ==> r@.len() == 0
            &&& forall|n: usize| #[trigger]
                call_ensures(PhyData::received_len, (&data,), n) ==> n == 0
        },
{
}

/// What is pending, put behind the bytes that the UART has taken, is the telegram; while
/// receiving nothing is pending.
pub proof fn law_pending_is_rest_of_telegram(
    data: PhyData,
    contents: Seq<u8>,
    received: int,
    telegram: int,
    taken: int,
    start: int,
)
    ensures
        is_sending(data, contents, telegram, taken, start) && taken <= telegram <= contents.len()
            ==> {
            &&& call_requires(PhyData::pending, (&data,))
            &&& forall|r: &[u8]| #[trigger]
                call_ensures(PhyData::pending, (&data,), r) ==> contents.take(taken) + r@
                    == contents.take(telegram)
        },
        is_receiving(data, contents, received) && received <= contents.len() ==> {
            &&& call_requires(PhyData::pending, (&data,))
            &&& forall|r: &[u8]| #[trigger]
                call_ensures(PhyData::pending, (&data,), r) ==> r@.len() == 0
        },
{
    if is_sending(data, contents, telegram, taken, start) && taken <= telegram <= contents.len() {
        assert(contents.take(taken) + contents.subrange(taken, telegram) =~= contents.take(
            telegram,
        ));
    }
}

/// A poll in receive mode changes nothing and reports that no transmission is in progress.
pub proof fn law_poll_in_receive_mode<L>(
    contents: Seq<u8>,
    received: int,
    now: Instant,
    release: L,
)
    ensures
        forall|data: &mut PhyData| #[trigger]
            call_requires(
                PhyData::poll_transmission::<L>,
                (data, PollEvent::Poll { now }, release),
            ) <== is_receiving(*data, contents, received) && received <= contents.len(),
        forall|data: &mut PhyData, r: PollAction<L>| #[trigger]
            call_ensures(
                PhyData::poll_transmission::<L>,
                (data, PollEvent::Poll { now }, release),
                r,
            ) && is_receiving(*data, contents, received) ==> {
                &&& is_receiving(*final(data), contents, received)
                &&& r == PollAction::<L>::Return(false)
            },
{
}

/// A poll of a transmission changes nothing yet. Before the start time it only reports that the
/// transmission is in progress. From the start time on it asks for a write if the UART has not
/// taken all bytes, and asks whether the UART is busy if it has.
pub proof fn law_poll_of_transmission<L>(
    contents: Seq<u8>,
    telegram: int,
    taken: int,
    start: int,
    now: Instant,
    release: L,
)
    requires
        taken <= telegram <= contents.len(),
    ensures
        forall|data: &mut PhyData| #[trigger]
            call_requires(
                PhyData::poll_transmission::<L>,
                (data, PollEvent::Poll { now }, release),
            ) <== is_sending(*data, contents, telegram, taken, start),
        forall|data: &mut PhyData, r: PollAction<L>| #[trigger]
            call_ensures(
                PhyData::poll_transmission::<L>,
                (data, PollEvent::Poll { now }, release),
                r,
            ) && is_sending(*data, contents, telegram, taken, start) ==> {
                &&& is_sending(*final(data), contents, telegram, taken, start)
                &&& r == PollAction::<L>::Return(true) <==> now@ < start
                &&& r is Write <==> start <= now@ && taken < telegram
                &&& r is QueryBusy <==> start <= now@ && taken == telegram
            },
{
}

/// What the UART has taken of a write counts as taken, byte for byte, and nothing else changes.
/// The transmission is in progress, even if the UART took all of it or nothing.
pub proof fn law_write_advances_by_what_uart_took<L>(
    contents: Seq<u8>,
    telegram: int,
    taken: int,
    start: int,
    remaining: usize,
    release: L,
)
    requires
        taken < telegram <= contents.len(),
        remaining <= telegram - taken,
    ensures
        forall|data: &mut PhyData, event: PollEvent| #[trigger]
            call_requires(PhyData::poll_transmission::<L>, (data, event, release)) <== {
                &&& is_sending(*data, contents, telegram, taken, start)
                &&& event == (PollEvent::Written { remaining }) || event is WouldBlock
            },
        forall|data: &mut PhyData, r: PollAction<L>| #[trigger]
            call_ensures(
                PhyData::poll_transmission::<L>,
                (data, PollEvent::Written { remaining }, release),
                r,
            ) && is_sending(*data, contents, telegram, taken, start) ==> {
                &&& is_sending(*final(data), contents, telegram, telegram - remaining, start)
                &&& r == PollAction::<L>::Return(true)
            },
        forall|data: &mut PhyData, r: PollAction<L>| #[trigger]
            call_ensures(
                PhyData::poll_transmission::<L>,
                (data, PollEvent::WouldBlock, release),
                r,
            ) && is_sending(*data, contents, telegram, taken, start) ==> {
                &&& is_sending(*final(data), contents, telegram, taken, start)
                &&& r == PollAction::<L>::Return(true)
            },
{
}

/// A transmission lasts as long as the UART is busy, however long the telegram is: only the
/// answer that it is not busy ends it. Exactly then receive direction is signalled, with the
/// signal that was handed over.
pub proof fn law_transmission_lasts_while_uart_is_busy<L>(
    contents: Seq<u8>,
    telegram: int,
    start: int,
    busy: bool,
    release: L,
)
    requires
        telegram <= contents.len(),
    ensures
        forall|data: &mut PhyData| #[trigger]
            call_requires(
                PhyData::poll_transmission::<L>,
                (data, PollEvent::Busy { busy }, release),
            ) <== is_sending(*data, contents, telegram, telegram, start),
        forall|data: &mut PhyData, r: PollAction<L>| #[trigger]
            call_ensures(
                PhyData::poll_transmission::<L>,
                (data, PollEvent::Busy { busy }, release),
                r,
            ) && is_sending(*data, contents, telegram, telegram, start) ==> {
                &&& busy ==> is_sending(*final(data), contents, telegram, telegram, start)
                &&& busy ==> r == PollAction::<L>::Return(true)
                &&& !busy ==> is_receiving(*final(data), contents, 0)
                &&& !busy ==> r == PollAction::<L>::Release(release)
            },
{
}

/// The whole buffer is handed out for a telegram, and what is put into it stays there. The number
/// of received bytes is left alone.
pub proof fn law_buffer_takes_telegram(contents: Seq<u8>, received: int)
    ensures
        forall|data: &mut PhyData| #[trigger]
            call_requires(PhyData::buffer_mut, (data,)) <== is_receiving(
                *data,
                contents,
                received,
            ),
        forall|data: &mut PhyData, r: &mut [u8]| #[trigger]
            call_ensures(PhyData::buffer_mut, (data,), r) && is_receiving(
                *data,
                contents,
                received,
            ) ==> {
                &&& r@ == contents
                &&& is_receiving(*final(data), final(r)@, received)
            },
{
}

/// A transmission starts with the very telegram that is at the front of the buffer, none of it
/// taken, and at the very time that was asked for, however long the telegram is.
pub proof fn law_transmission_starts_as_asked(
    contents: Seq<u8>,
    received: int,
    telegram: usize,
    start: Instant,
)
    requires
        0 < telegram <= contents.len(),
    ensures
        forall|data: &mut PhyData| #[trigger]
            call_requires(PhyData::start_transmission, (data, telegram, start)) <== is_receiving(
                *data,
                contents,
                received,
            ),
        forall|data: &mut PhyData| #[trigger]
            call_ensures(PhyData::start_transmission, (data, telegram, start), ())
                && is_receiving(*data, contents, received) ==> is_sending(
                *final(data),
                contents,
                telegram as int,
                0,
                start@,
            ),
{
}

/// The part of the buffer behind the received bytes is handed out. What is put into it stays
/// there, and the received bytes stay what they are.
pub proof fn law_spare_is_behind_received(contents: Seq<u8>, received: int)
    requires
        received <= contents.len(),
    ensures
        forall|data: &mut PhyData| #[trigger]
            call_requires(PhyData::spare_mut, (data,)) <== is_receiving(
                *data,
                contents,
                received,
            ),
        forall|data: &mut PhyData, r: &mut [u8]| #[trigger]
            call_ensures(PhyData::spare_mut, (data,), r) && is_receiving(
                *data,
                contents,
                received,
            ) ==> {
                &&& contents.take(received) + r@ == contents
                &&& is_receiving(*final(data), contents.take(received) + final(r)@, received)
            },
{
    assert forall|data: &mut PhyData, r: &mut [u8]| #[trigger]
        call_ensures(PhyData::spare_mut, (data,), r) && is_receiving(
            *data,
            contents,
            received,
        ) implies contents.take(received) + r@ == contents by {
        assert(contents.take(received) + contents.skip(received) =~= contents);
    }
}

/// As many bytes count as received as the reply tells of, for any number that there is room for,
/// and none for a reply without bytes. The buffer is left alone.
pub proof fn law_reply_counts_its_bytes(contents: Seq<u8>, received: int, n: usize)
    requires
        received + n <= contents.len(),
    ensures
        forall|data: &mut PhyData, reply: ReadReply| #[trigger]
            call_requires(PhyData::accept_read, (data, reply)) <== {
                &&& is_receiving(*data, contents, received)
                &&& reply == ReadReply::Received(n) || reply is WouldBlock || reply is Failed
            },
        forall|data: &mut PhyData| #[trigger]
            call_ensures(PhyData::accept_read, (data, ReadReply::Received(n)), ()) && is_receiving(
                *data,
                contents,
                received,
            ) ==> is_receiving(*final(data), contents, received + n),
        forall|data: &mut PhyData| #[trigger]
            call_ensures(PhyData::accept_read, (data, ReadReply::WouldBlock), ()) && is_receiving(
                *data,
                contents,
                received,
            ) ==> is_receiving(*final(data), contents, received),
        forall|data: &mut PhyData| #[trigger]
            call_ensures(PhyData::accept_read, (data, ReadReply::Failed), ()) && is_receiving(
                *data,
                contents,
                received,
            ) ==> is_receiving(*final(data), contents, received),
{
}

/// To drop no byte keeps all of them; to drop any number leaves none. The report tells whether
/// that number was the number of received bytes, and both numbers if it was not.
pub proof fn law_any_drop_empties(contents: Seq<u8>, received: int, n: usize)
    requires
        received <= contents.len(),
    ensures
        forall|data: &mut PhyData| #[trigger]
            call_requires(PhyData::drop_received, (data, n)) <== is_receiving(
                *data,
                contents,
                received,
            ),
        forall|data: &mut PhyData, r: DropReport| #[trigger]
            call_ensures(PhyData::drop_received, (data, n), r) && is_receiving(
                *data,
                contents,
                received,
            ) ==> {
                &&& n == 0 ==> is_receiving(*final(data), contents, received)
                &&& n != 0 ==> is_receiving(*final(data), contents, 0)
                &&& r is Kept <==> n == 0
                &&& r is Dropped <==> n != 0 && n == received
                &&& r matches DropReport::Partial { dropped, length } ==> dropped == n && length
                    == received
            },
{
}

/// Traced is the front of the bytes, and all of them up to twenty.
pub proof fn law_trace_is_front_of_bytes(bytes: &[u8], r: &[u8])
    requires
        call_ensures(trace_window, (bytes,), r),
    ensures
        r@.is_prefix_of(bytes@),
        bytes@.len() <= 20 ==> r@.len() == bytes@.len(),
        bytes@.len() >= 20 ==> r@.len() == 20,
{
}

} // verus!
