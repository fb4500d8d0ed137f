//! What the two PHYs do, told from the arguments and results of their operations.
use vstd::prelude::*;

use super::data::{DropReport, PhyData, PhyState, PollAction, PollEvent, ReadReply};
use super::direction_program::{direction_program, DirectionProgram};
use super::rp2040::{PinLevel, Rp2040Phy, Rp2040Setup};
use super::rp2040_pio::{ClockDivisor, PinDirection, PioSetup, Rp2040PioPhy};
use super::uart::{DataBits, Parity, StopBits, UartConfig};
use crate::baudrate::Baudrate;
use crate::time::Instant;

verus! {

/// PROFIBUS characters: eight data bits, even parity and one stop bit, at every bus speed.
pub open spec fn is_profibus_uart(config: UartConfig, baudrate: Baudrate) -> bool {
    &&& config.data_bits == DataBits::Eight
    &&& config.parity == Some(Parity::Even)
    &&& config.stop_bits == StopBits::One
    &&& config.rate == baudrate.rate()
}

/// The shortest whole number of microseconds that covers `bits` bit times.
pub open spec fn covers(micros: int, bits: int, baudrate: Baudrate) -> bool {
    &&& micros * baudrate.rate() >= bits * 1_000_000
    &&& (micros - 1) * baudrate.rate() < bits * 1_000_000
}

/// What a poll does with the state of the buffer, and what it asks for.
///
/// While nothing is sent, a poll has no effect. A transmission waits for its start time, then
/// hands the pending bytes to the UART, and once the UART has taken all of them goes on until the
/// UART is not busy any more.
pub open spec fn polls_as_documented<L>(
    before: PhyState,
    event: PollEvent,
    after: PhyState,
    action: PollAction<L>,
    release: L,
) -> bool {
    match before {
        PhyState::Rx { .. } => after == before && action == PollAction::<L>::Return(false),
        PhyState::Tx { buffer, length, cursor, start_tx } => match event {
            PollEvent::Poll { now } => {
                &&& after == before
                &&& action == PollAction::<L>::Return(true) <==> now@ < start_tx
                &&& action is Write <==> start_tx <= now@ && cursor < length
                &&& action is QueryBusy <==> start_tx <= now@ && cursor == length
            },
            PollEvent::Written { remaining } => {
                &&& after matches PhyState::Tx {
                    buffer: b,
                    length: l,
                    cursor: c,
                    start_tx: t,
                } && b == buffer && l == length && c + remaining == length && t == start_tx
                &&& action == PollAction::<L>::Return(true)
            },
            PollEvent::WouldBlock => {
                &&& after == before
                &&& action == PollAction::<L>::Return(true)
            },
            PollEvent::Busy { busy } => {
                &&& busy ==> after == before && action == PollAction::<L>::Return(true)
                &&& !busy ==> after == (PhyState::Rx { buffer, length: 0 })
                &&& !busy ==> action == PollAction::<L>::Release(release)
            },
        },
    }
}

/// A telegram of `length` bytes is sent: the contents of the buffer are what was left there, and
/// the telegram is sent from `start` on, all of it and from its first byte on, and is announced by
/// `drive`. Without a telegram the received bytes still count, and nothing is announced.
pub open spec fn sends_telegram<L>(
    before: PhyState,
    left: Seq<u8>,
    length: usize,
    start: int,
    drive: L,
    after: PhyState,
    announced: Option<L>,
) -> bool {
    &&& length == 0 ==> {
        &&& announced is None
        &&& after == (PhyState::Rx { buffer: left, length: before->Rx_length })
    }
    &&& length > 0 ==> {
        &&& announced == Some(drive)
        &&& after == (PhyState::Tx {
            buffer: left,
            length: length as nat,
            cursor: 0,
            start_tx: start,
        })
    }
}

/// The received bytes are shown: `f` was given `bytes`, at the front of the buffer with the given
/// contents. They are kept if none is to be dropped; otherwise none is left.
pub open spec fn shows_bytes<F, R>(
    f: F,
    contents: Seq<u8>,
    seen: Seq<u8>,
    after: PhyState,
    r: (R, DropReport),
) -> bool where F: FnOnce(&[u8]) -> (usize, R) {
    exists|bytes: &[u8], out: (usize, R)|
        {
            &&& #[trigger] call_ensures(f, (bytes,), out)
            &&& bytes@ == seen
            &&& r.0 == out.1
            &&& out.0 == 0 ==> after == (PhyState::Rx { buffer: contents, length: seen.len() })
            &&& out.0 != 0 ==> after == (PhyState::Rx { buffer: contents, length: 0 })
            &&& r.1 is Kept <==> out.0 == 0
            &&& r.1 is Dropped <==> out.0 != 0 && out.0 == seen.len()
            &&& r.1 matches DropReport::Partial { dropped, length } ==> dropped == out.0 && length
                == seen.len()
        }
}

/// A UART that is set up for a bus speed sends and receives PROFIBUS characters at that speed.
pub proof fn law_uart_is_set_up_for_profibus(baudrate: Baudrate, config: UartConfig)
    ensures
        config.is_for(baudrate) <==> is_profibus_uart(config, baudrate),
        call_ensures(UartConfig::new, (baudrate,), config) ==> is_profibus_uart(config, baudrate),
        call_requires(UartConfig::new, (baudrate,)),
{
}

/// A new PHY has received nothing into the given buffer, and its line driver is off. The UART is
/// set up for PROFIBUS at the bus speed, whichever that is.
pub proof fn law_phy_is_set_up_for_bus_speed(
    buffer: Vec<u8>,
    baudrate: Baudrate,
    phy: Rp2040Phy,
    setup: Rp2040Setup,
)
    requires
        call_ensures(Rp2040Phy::new, (buffer, baudrate), (phy, setup)),
    ensures
        is_profibus_uart(setup.uart, baudrate),
        setup.dir_pin == PinLevel::Low,
        phy@.wf(),
        phy@.data == (PhyState::Rx { buffer: buffer@, length: 0 }),
        phy@.baudrate == baudrate,
        call_requires(Rp2040Phy::new, (buffer, baudrate)),
{
}

/// In every state the PHY tells its bus speed, and the times of its line driver: the shortest ones
/// in whole microseconds that cover the bit times of the bus speed.
pub proof fn law_phy_tells_its_timing(phy: Rp2040Phy, baudrate: Baudrate, tset: u64, tqui: u64)
    requires
        phy@.wf(),
        phy@.baudrate.rate() > 0,
        call_ensures(Rp2040Phy::baudrate, (&phy,), baudrate),
        call_ensures(Rp2040Phy::tset_us, (&phy,), tset),
        call_ensures(Rp2040Phy::tqui_us, (&phy,), tqui),
    ensures
        baudrate == phy@.baudrate,
        tset == phy@.tset_us,
        covers(tset as int, baudrate.tset() as int, baudrate),
        covers(tqui as int, baudrate.tqui() as int, baudrate),
{
    lemma_micros_cover(baudrate.tset(), baudrate);
    lemma_micros_cover(baudrate.tqui(), baudrate);
}

/// The times that the bus speed rounds to are the shortest ones that cover the bits.
proof fn lemma_micros_cover(bits: nat, baudrate: Baudrate)
    requires
        baudrate.rate() > 0,
    ensures
        covers(baudrate.micros(bits), bits as int, baudrate),
{
    let micros = baudrate.micros(bits);
    crate::baudrate::law_bits_to_micros_is_least_cover(bits, baudrate.rate());
    assert((micros - 1) * baudrate.rate() < bits * 1_000_000);
}

/// The PHY polls as documented, and lowers its direction pin at the end of a transmission.
pub proof fn law_phy_polls_as_documented(event: PollEvent)
    ensures
        forall|phy: &mut Rp2040Phy, r: PollAction<PinLevel>| #[trigger]
            call_ensures(Rp2040Phy::poll_transmission, (phy, event), r) && phy@.wf()
                && phy@.data.poll_admits(event) ==> {
                &&& polls_as_documented(phy@.data, event, final(phy)@.data, r, PinLevel::Low)
                &&& final(phy)@.wf()
                &&& final(phy)@.baudrate == phy@.baudrate
            },
        forall|phy: &mut Rp2040Phy| #[trigger]
            call_requires(Rp2040Phy::poll_transmission, (phy, event)) <== phy@.wf() && match event {
                PollEvent::Poll { .. } => true,
                PollEvent::Written { remaining } => phy@.data matches PhyState::Tx {
                    length,
                    cursor,
                    ..
                } && cursor < length && remaining <= length - cursor,
                PollEvent::WouldBlock => phy@.data matches PhyState::Tx { length, cursor, .. }
                    && cursor < length,
                PollEvent::Busy { .. } => phy@.data matches PhyState::Tx { length, cursor, .. }
                    && cursor == length,
            },
{
}

/// The telegram that was put into the buffer is the one that is sent, all of it and from its
/// first byte on. The direction pin is raised for it.
/// Without a telegram the PHY goes on receiving, and nothing is signalled.
pub proof fn law_phy_sends_what_it_was_given<F, R>(now: Instant, f: F)
where F: FnOnce(&mut [u8]) -> (usize, R),
    ensures
        forall|phy: &mut Rp2040Phy, r: (R, Option<PinLevel>)| #[trigger]
            call_ensures(Rp2040Phy::transmit_data::<F, R>, (phy, now, f), r) && phy@.wf()
                && phy@.data is Rx ==> {
                &&& exists|buffer: &mut [u8], out: (usize, R)|
                    {
                        &&& #[trigger] call_ensures(f, (buffer,), out)
                        &&& buffer@ == phy@.data->Rx_buffer
                        &&& r.0 == out.1
                        &&& sends_telegram(
                            phy@.data,
                            final(buffer)@,
                            out.0,
                            now@ + phy@.tset_us,
                            PinLevel::High,
                            final(phy)@.data,
                            r.1,
                        )
                    }
                &&& final(phy)@.baudrate == phy@.baudrate
                &&& final(phy)@.wf()
            },
        forall|phy: &mut Rp2040Phy| #[trigger]
            call_requires(Rp2040Phy::transmit_data::<F, R>, (phy, now, f)) <== {
                &&& phy@.wf()
                &&& phy@.data is Rx
                &&& now@ + phy@.tset_us <= i64::MAX
                &&& forall|buffer: &mut [u8]| #[trigger] call_requires(f, (buffer,))
                &&& forall|buffer: &mut [u8], out: (usize, R)| #[trigger]
                    call_ensures(f, (buffer,), out) ==> final(buffer)@.len() == buffer@.len()
                        && out.0 <= buffer@.len()
            },
{
}

/// A telegram waits for the setup time of the line driver, and no longer than that: from the time
/// on at which its bit times are over, every poll asks for the telegram to be written.
pub proof fn law_phy_starts_when_setup_time_is_over<F, R>(now: Instant, f: F, later: Instant)
where F: FnOnce(&mut [u8]) -> (usize, R),
    ensures
        forall|
            phy: &mut Rp2040Phy,
            r: (R, Option<PinLevel>),
            next: &mut Rp2040Phy,
            action: PollAction<PinLevel>,
        |
            {
                &&& #[trigger] call_ensures(Rp2040Phy::transmit_data::<F, R>, (phy, now, f), r)
                &&& phy@.wf()
                &&& phy@.data is Rx
                &&& phy@.baudrate.rate() > 0
                &&& r.1 is Some
                &&& *next == *final(phy)
                &&& #[trigger] call_ensures(
                    Rp2040Phy::poll_transmission,
                    (next, PollEvent::Poll { now: later }),
                    action,
                )
            } ==> {
                let over = (later@ - now@) * phy@.baudrate.rate() >= phy@.baudrate.tset()
                    * 1_000_000;
                &&& action is Write <==> over
                &&& action == PollAction::<PinLevel>::Return(true) <==> !over
            },
{
    assert forall|
        phy: &mut Rp2040Phy,
        r: (R, Option<PinLevel>),
        next: &mut Rp2040Phy,
        action: PollAction<PinLevel>,
    |
        {
            &&& #[trigger] call_ensures(Rp2040Phy::transmit_data::<F, R>, (phy, now, f), r)
            &&& phy@.wf()
            &&& phy@.data is Rx
            &&& phy@.baudrate.rate() > 0
            &&& r.1 is Some
            &&& *next == *final(phy)
            &&& #[trigger] call_ensures(
                Rp2040Phy::poll_transmission,
                (next, PollEvent::Poll { now: later }),
                action,
            )
        } implies {
        let over = (later@ - now@) * phy@.baudrate.rate() >= phy@.baudrate.tset() * 1_000_000;
        &&& action is Write <==> over
        &&& action == PollAction::<PinLevel>::Return(true) <==> !over
    } by {
        let rate = phy@.baudrate.rate() as int;
        let tset = phy@.tset_us as int;
        let passed = later@ - now@;
        let bits = phy@.baudrate.tset() * 1_000_000;
        crate::baudrate::law_bits_to_micros_is_least_cover(
            phy@.baudrate.tset(),
            phy@.baudrate.rate(),
        );
        assert(passed * rate >= bits ==> passed >= tset);
        assert(passed >= tset ==> passed * rate >= bits) by (nonlinear_arith)
            requires
                tset * rate >= bits,
                rate > 0,
        ;
        law_phy_sends_what_it_was_given::<F, R>(now, f);
    }
}

/// What is put into the free part of the buffer comes behind the received bytes, and the next
/// look at them shows the received bytes and then exactly as many new ones as the reply tells of.
/// They are kept if none is to be dropped; otherwise none is left.
pub proof fn law_phy_shows_all_received_bytes<F, R>(reply: ReadReply, n: int, f: F)
where F: FnOnce(&[u8]) -> (usize, R),
    requires
        match reply {
            ReadReply::Received(count) => n == count,
            ReadReply::WouldBlock => n == 0,
            ReadReply::Failed => n == 0,
        },
    ensures
        forall|phy: &mut Rp2040Phy, spare: &mut [u8], next: &mut Rp2040Phy, r: (R, DropReport)|
            {
                &&& #[trigger] call_ensures(Rp2040Phy::spare_mut, (phy,), spare)
                &&& phy@.wf()
                &&& phy@.data is Rx
                &&& *next == *final(phy)
                &&& n <= final(spare)@.len()
                &&& #[trigger] call_ensures(Rp2040Phy::receive_data::<F, R>, (next, reply, f), r)
            } ==> {
                let earlier = phy@.data->Rx_buffer.take(phy@.data->Rx_length as int);
                &&& earlier + spare@ == phy@.data->Rx_buffer
                &&& shows_bytes(
                    f,
                    earlier + final(spare)@,
                    earlier + final(spare)@.take(n),
                    final(next)@.data,
                    r,
                )
                &&& final(next)@.baudrate == phy@.baudrate
                &&& final(next)@.wf()
            },
        forall|phy: &mut Rp2040Phy| #[trigger]
            call_requires(Rp2040Phy::spare_mut, (phy,)) <== phy@.wf() && phy@.data is Rx,
        forall|phy: &mut Rp2040Phy| #[trigger]
            call_requires(Rp2040Phy::receive_data::<F, R>, (phy, reply, f)) <== {
                &&& phy@.wf()
                &&& phy@.data matches PhyState::Rx { buffer, length } && length + n
                    <= buffer.len()
                &&& forall|bytes: &[u8]| #[trigger] call_requires(f, (bytes,))
            },
{
    assert forall|phy: &mut Rp2040Phy, spare: &mut [u8], next: &mut Rp2040Phy, r: (R, DropReport)|
        {
            &&& #[trigger] call_ensures(Rp2040Phy::spare_mut, (phy,), spare)
            &&& phy@.wf()
            &&& phy@.data is Rx
            &&& *next == *final(phy)
            &&& n <= final(spare)@.len()
            &&& #[trigger] call_ensures(Rp2040Phy::receive_data::<F, R>, (next, reply, f), r)
        } implies {
        let earlier = phy@.data->Rx_buffer.take(phy@.data->Rx_length as int);
        &&& earlier + spare@ == phy@.data->Rx_buffer
        &&& shows_bytes(
            f,
            earlier + final(spare)@,
            earlier + final(spare)@.take(n),
            final(next)@.data,
            r,
        )
    } by {
        let earlier = phy@.data->Rx_buffer.take(phy@.data->Rx_length as int);
        let filled = earlier + final(spare)@;
        let seen = earlier + final(spare)@.take(n);
        assert(earlier + spare@ =~= phy@.data->Rx_buffer);
        assert(filled.take(earlier.len() + n) =~= seen);
        assert(next@.data.after_read(reply).received() == seen);
        let (bytes, out) = choose|bytes: &[u8], out: (usize, R)|
            {
                &&& bytes@ == seen
                &&& #[trigger] call_ensures(f, (bytes,), out)
                &&& r.0 == out.1
                &&& final(next)@.data == next@.data.after_read(reply).after_drop(out.0 as nat)
                &&& r.1 == next@.data.after_read(reply).drop_report(out.0)
            };
        assert(bytes.len() == bytes@.len());
        assert(call_ensures(f, (bytes,), out));
    }
}

/// The buffer state that the PHY shows is its own.
pub proof fn law_phy_shows_its_state(phy: Rp2040Phy, data: &PhyData)
    requires
        call_ensures(Rp2040Phy::data, (&phy,), data),
    ensures
        phy@.data == match *data {
            PhyData::Rx { buffer, length } => PhyState::Rx {
                buffer: buffer@,
                length: length as nat,
            },
            PhyData::Tx { buffer, length, cursor, start_tx } => PhyState::Tx {
                buffer: buffer@,
                length: length as nat,
                cursor: cursor as nat,
                start_tx: start_tx@,
            },
        },
{
}

/// The words that let a state machine wait for a low level of its first input pin with its side-set
/// pin low, and then keep that pin high for ten cycles.
pub open spec fn has_direction_words(program: DirectionProgram) -> bool {
    &&& program.code@ == seq![0x2020u16, 0x9980u16]
    &&& program.wrap_target == 0
    &&& program.wrap_source == 1
    &&& program.side_set_pins == 1
}

/// The divisor is the quotient of the clocks, rounded down to a multiple of 1/256, up to a multiple
/// of 2^16 that its whole part has no room for.
pub open spec fn divides_to_bus_speed(
    divisor: ClockDivisor,
    sys_hz: u32,
    baudrate: Baudrate,
) -> bool {
    exists|high: int|
        {
            let units = (#[trigger] (high * 0x1_0000) + divisor.int) * 256 + divisor.frac;
            units * baudrate.rate() <= sys_hz * 256 < (units + 1) * baudrate.rate()
        }
}

/// The program that is assembled consists of the words that are meant.
pub proof fn law_direction_program_has_its_words(program: DirectionProgram)
    requires
        call_ensures(direction_program, (), program),
    ensures
        has_direction_words(program),
        call_requires(direction_program, ()),
{
    let code = super::direction_program::direction_listing();
    assert(program.code@ =~= seq![code[0].word(), code[1].word()]);
}

/// A state machine with this divisor runs at the bus speed.
pub proof fn law_divisor_divides_to_bus_speed(
    sys_hz: u32,
    baudrate: Baudrate,
    divisor: ClockDivisor,
)
    requires
        baudrate.rate() > 0,
        sys_hz as int % baudrate.rate() as int * 256 <= u32::MAX,
        call_ensures(ClockDivisor::new, (sys_hz, baudrate), divisor),
    ensures
        divides_to_bus_speed(divisor, sys_hz, baudrate),
        call_requires(ClockDivisor::new, (sys_hz, baudrate)),
{
    super::rp2040_pio::law_clock_divisor_is_quotient(divisor, sys_hz, baudrate);
}

/// A new PHY has received nothing into the given buffer. The UART is set up for PROFIBUS at the bus
/// speed, whichever that is. The state machine gets the direction program, watches the TX line on
/// pin 0, drives the transceiver on pin 2 and is clocked at the bus speed.
pub proof fn law_pio_phy_is_set_up_for_bus_speed(
    buffer: Vec<u8>,
    baudrate: Baudrate,
    sys_hz: u32,
    phy: Rp2040PioPhy,
    setup: PioSetup,
)
    requires
        baudrate.rate() > 0,
        sys_hz as int % baudrate.rate() as int * 256 <= u32::MAX,
        call_ensures(Rp2040PioPhy::new, (buffer, baudrate, sys_hz), (phy, setup)),
    ensures
        is_profibus_uart(setup.uart, baudrate),
        has_direction_words(setup.program),
        setup.set_pins == (2u8, 1u8),
        setup.in_pin_base == 0,
        setup.side_set_pin_base == 2,
        setup.pin_directions@ == seq![(0u8, PinDirection::Input), (2u8, PinDirection::Output)],
        setup.tx_fifo == 0x5020_0010,
        divides_to_bus_speed(setup.clock, sys_hz, baudrate),
        phy@.wf(),
        phy@.data == (PhyState::Rx { buffer: buffer@, length: 0 }),
        phy@.baudrate == baudrate,
        call_requires(Rp2040PioPhy::new, (buffer, baudrate, sys_hz)),
{
    super::rp2040_pio::law_clock_divisor_is_quotient(setup.clock, sys_hz, baudrate);
    let code = super::direction_program::direction_listing();
    assert(setup.program.code@ =~= seq![code[0].word(), code[1].word()]);
}

/// The PHY polls as documented, and writes the word 0 at the end of a transmission.
pub proof fn law_pio_phy_polls_as_documented(event: PollEvent)
    ensures
        forall|phy: &mut Rp2040PioPhy, r: PollAction<u32>| #[trigger]
            call_ensures(Rp2040PioPhy::poll_transmission, (phy, event), r) && phy@.wf()
                && phy@.data.poll_admits(event) ==> {
                &&& polls_as_documented(phy@.data, event, final(phy)@.data, r, 0u32)
                &&& final(phy)@.wf()
                &&& final(phy)@.baudrate == phy@.baudrate
            },
        forall|phy: &mut Rp2040PioPhy| #[trigger]
            call_requires(Rp2040PioPhy::poll_transmission, (phy, event)) <== phy@.wf()
                && match event {
                PollEvent::Poll { .. } => true,
                PollEvent::Written { remaining } => phy@.data matches PhyState::Tx {
                    length,
                    cursor,
                    ..
                } && cursor < length && remaining <= length - cursor,
                PollEvent::WouldBlock => phy@.data matches PhyState::Tx { length, cursor, .. }
                    && cursor < length,
                PollEvent::Busy { .. } => phy@.data matches PhyState::Tx { length, cursor, .. }
                    && cursor == length,
            },
{
}

/// The telegram that was put into the buffer is the one that is sent, all of it and from its
/// first byte on. The word 1 is written for it.
/// Without a telegram the PHY goes on receiving, and nothing is signalled.
pub proof fn law_pio_phy_sends_what_it_was_given<F, R>(now: Instant, f: F)
where F: FnOnce(&mut [u8]) -> (usize, R),
    ensures
        forall|phy: &mut Rp2040PioPhy, r: (R, Option<u32>)| #[trigger]
            call_ensures(Rp2040PioPhy::transmit_data::<F, R>, (phy, now, f), r) && phy@.wf()
                && phy@.data is Rx ==> {
                &&& exists|buffer: &mut [u8], out: (usize, R)|
                    {
                        &&& #[trigger] call_ensures(f, (buffer,), out)
                        &&& buffer@ == phy@.data->Rx_buffer
                        &&& r.0 == out.1
                        &&& sends_telegram(
                            phy@.data,
                            final(buffer)@,
                            out.0,
                            now@ + phy@.baudrate.one_bit()@,
                            1u32,
                            final(phy)@.data,
                            r.1,
                        )
                    }
                &&& final(phy)@.baudrate == phy@.baudrate
                &&& final(phy)@.wf()
            },
        forall|phy: &mut Rp2040PioPhy| #[trigger]
            call_requires(Rp2040PioPhy::transmit_data::<F, R>, (phy, now, f)) <== {
                &&& phy@.wf()
                &&& phy@.data is Rx
                &&& now@ + phy@.baudrate.one_bit()@ <= i64::MAX
                &&& forall|buffer: &mut [u8]| #[trigger] call_requires(f, (buffer,))
                &&& forall|buffer: &mut [u8], out: (usize, R)| #[trigger]
                    call_ensures(f, (buffer,), out) ==> final(buffer)@.len() == buffer@.len()
                        && out.0 <= buffer@.len()
            },
{
}

/// A telegram waits for the time of one bit, and no longer than that: from then on, every poll asks
/// for the telegram to be written.
pub proof fn law_pio_phy_starts_when_setup_time_is_over<F, R>(now: Instant, f: F, later: Instant)
where F: FnOnce(&mut [u8]) -> (usize, R),
    ensures
        forall|
            phy: &mut Rp2040PioPhy,
            r: (R, Option<u32>),
            next: &mut Rp2040PioPhy,
            action: PollAction<u32>,
        |
            {
                &&& #[trigger] call_ensures(Rp2040PioPhy::transmit_data::<F, R>, (phy, now, f), r)
                &&& phy@.wf()
                &&& phy@.data is Rx
                &&& r.1 is Some
                &&& *next == *final(phy)
                &&& #[trigger] call_ensures(
                    Rp2040PioPhy::poll_transmission,
                    (next, PollEvent::Poll { now: later }),
                    action,
                )
            } ==> {
                let over = later@ >= now@ + phy@.baudrate.one_bit()@;
                &&& action is Write <==> over
                &&& action == PollAction::<u32>::Return(true) <==> !over
            },
{
    law_pio_phy_sends_what_it_was_given::<F, R>(now, f);
}

/// What is put into the free part of the buffer comes behind the received bytes, and the next
/// look at them shows the received bytes and then exactly as many new ones as the reply tells of.
/// They are kept if none is to be dropped; otherwise none is left.
pub proof fn law_pio_phy_shows_all_received_bytes<F, R>(reply: ReadReply, n: int, f: F)
where F: FnOnce(&[u8]) -> (usize, R),
    requires
        match reply {
            ReadReply::Received(count) => n == count,
            ReadReply::WouldBlock => n == 0,
            ReadReply::Failed => n == 0,
        },
    ensures
        forall|
            phy: &mut Rp2040PioPhy,
            spare: &mut [u8],
            next: &mut Rp2040PioPhy,
            r: (R, DropReport),
        |
            {
                &&& #[trigger] call_ensures(Rp2040PioPhy::spare_mut, (phy,), spare)
                &&& phy@.wf()
                &&& phy@.data is Rx
                &&& *next == *final(phy)
                &&& n <= final(spare)@.len()
                &&& #[trigger] call_ensures(Rp2040PioPhy::receive_data::<F, R>, (next, reply, f), r)
            } ==> {
                let earlier = phy@.data->Rx_buffer.take(phy@.data->Rx_length as int);
                &&& earlier + spare@ == phy@.data->Rx_buffer
                &&& shows_bytes(
                    f,
                    earlier + final(spare)@,
                    earlier + final(spare)@.take(n),
                    final(next)@.data,
                    r,
                )
                &&& final(next)@.baudrate == phy@.baudrate
                &&& final(next)@.wf()
            },
        forall|phy: &mut Rp2040PioPhy| #[trigger]
            call_requires(Rp2040PioPhy::spare_mut, (phy,)) <== phy@.wf() && phy@.data is Rx,
        forall|phy: &mut Rp2040PioPhy| #[trigger]
            call_requires(Rp2040PioPhy::receive_data::<F, R>, (phy, reply, f)) <== {
                &&& phy@.wf()
                &&& phy@.data matches PhyState::Rx { buffer, length } && length + n
                    <= buffer.len()
                &&& forall|bytes: &[u8]| #[trigger] call_requires(f, (bytes,))
            },
{
    assert forall|
        phy: &mut Rp2040PioPhy,
        spare: &mut [u8],
        next: &mut Rp2040PioPhy,
        r: (R, DropReport),
    |
        {
            &&& #[trigger] call_ensures(Rp2040PioPhy::spare_mut, (phy,), spare)
            &&& phy@.wf()
            &&& phy@.data is Rx
            &&& *next == *final(phy)
            &&& n <= final(spare)@.len()
            &&& #[trigger] call_ensures(Rp2040PioPhy::receive_data::<F, R>, (next, reply, f), r)
        } implies {
        let earlier = phy@.data->Rx_buffer.take(phy@.data->Rx_length as int);
        &&& earlier + spare@ == phy@.data->Rx_buffer
        &&& shows_bytes(
            f,
            earlier + final(spare)@,
            earlier + final(spare)@.take(n),
            final(next)@.data,
            r,
        )
    } by {
        let earlier = phy@.data->Rx_buffer.take(phy@.data->Rx_length as int);
        let filled = earlier + final(spare)@;
        let seen = earlier + final(spare)@.take(n);
        assert(earlier + spare@ =~= phy@.data->Rx_buffer);
        assert(filled.take(earlier.len() + n) =~= seen);
        assert(next@.data.after_read(reply).received() == seen);
        let (bytes, out) = choose|bytes: &[u8], out: (usize, R)|
            {
                &&& bytes@ == seen
                &&& #[trigger] call_ensures(f, (bytes,), out)
                &&& r.0 == out.1
                &&& final(next)@.data == next@.data.after_read(reply).after_drop(out.0 as nat)
                &&& r.1 == next@.data.after_read(reply).drop_report(out.0)
            };
        assert(bytes.len() == bytes@.len());
        assert(call_ensures(f, (bytes,), out));
    }
}

/// The buffer state that the PHY shows is its own.
pub proof fn law_pio_phy_shows_its_state(phy: Rp2040PioPhy, data: &PhyData)
    requires
        call_ensures(Rp2040PioPhy::data, (&phy,), data),
    ensures
        phy@.data == match *data {
            PhyData::Rx { buffer, length } => PhyState::Rx {
                buffer: buffer@,
                length: length as nat,
            },
            PhyData::Tx { buffer, length, cursor, start_tx } => PhyState::Tx {
                buffer: buffer@,
                length: length as nat,
                cursor: cursor as nat,
                start_tx: start_tx@,
            },
        },
{
}

/// In every state the PHY tells its bus speed.
pub proof fn law_pio_phy_tells_its_bus_speed(phy: Rp2040PioPhy, baudrate: Baudrate)
    requires
        call_ensures(Rp2040PioPhy::baudrate, (&phy,), baudrate),
    ensures
        baudrate == phy@.baudrate,
{
}

} // verus!
