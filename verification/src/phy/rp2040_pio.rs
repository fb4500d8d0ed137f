//! PHY on the UART of the RP2040, with a PIO state machine for the direction of the RS-485
//! transceiver.
//!
//! The state machine switches the direction by itself, from what it sees on the TX line of the
//! UART. How often, how late, or whether at all the PHY is polled is of no influence on it.
use vstd::prelude::*;

use super::data::{DropReport, PhyData, PhyState, PollAction, PollEvent, ReadReply};
use super::direction_program::{direction_program, DirectionProgram};
use super::uart::UartConfig;
use crate::baudrate::Baudrate;
use crate::time::Instant;

verus! {

/// FIFO word that announces a transmission. The direction program does not act on it.
pub const TRANSMIT_WORD: u32 = 1;

/// FIFO word that announces the end of a transmission. The direction program does not act on it.
pub const RECEIVE_WORD: u32 = 0;

/// The pin that the direction program watches: the TX line of the UART.
pub const TX_PIN: u8 = 0;

/// The pin that the direction program drives: driver enable (DE) of the transceiver.
pub const DE_PIN: u8 = 2;

/// Address of the registers of the first PIO block.
pub const PIO0_BASE: u32 = 0x5020_0000;

/// Address of the TX FIFO of state machine 0 of the first PIO block.
pub const TX_FIFO_ADDRESS: u32 = PIO0_BASE + 0x010;

/// Direction of a pin.
#[derive(Debug, Clone, Copy, PartialEq, Eq, Structural)]
pub enum PinDirection {
    Input,
    Output,
}

/// The divisor of the state machine clock: `int + frac / 256`.
#[derive(Debug, Clone, Copy, PartialEq, Eq, Structural)]
pub struct ClockDivisor {
    pub int: u16,
    pub frac: u8,
}

impl ClockDivisor {
    /// The divisor in units of 1/256.
    pub open spec fn units(self) -> int {
        self.int * 256 + self.frac
    }

    /// The quotient of the system clock and the bus speed. The whole part keeps its lowest 16
    /// bits, the fraction is rounded down.
    pub open spec fn is_for(self, sys_hz: u32, baudrate: Baudrate) -> bool {
        let rate = baudrate.rate() as int;
        &&& self.int == sys_hz as int / rate % 0x1_0000
        &&& self.frac == sys_hz as int % rate * 256 / rate
    }

    /// The divisor that makes a state machine run at the bus speed, with `sys_hz` as the clock
    /// of the system.
    pub fn new(sys_hz: u32, baudrate: Baudrate) -> (r: ClockDivisor)
        requires
            sys_hz as int % baudrate.rate() as int * 256 <= u32::MAX,
        ensures
            r.is_for(sys_hz, baudrate),
    {
        let baud_hz: u32 = baudrate.to_rate() as u32;
        let quotient: u32 = sys_hz / baud_hz;
        let rest: u32 = sys_hz % baud_hz;
        let frac: u32 = rest * 256 / baud_hz;
        assert(frac < 256) by (nonlinear_arith)
            requires
                rest < baud_hz,
                frac == rest * 256 / baud_hz as int,
        ;
        assert(quotient as u16 == quotient % 0x1_0000) by (bit_vector);
        ClockDivisor { int: quotient as u16, frac: frac as u8 }
    }
}

/// As long as the whole part fits its 16 bits, the divisor is the exact quotient of the clocks,
/// rounded down to a multiple of 1/256.
pub proof fn law_clock_divisor_is_exact(divisor: ClockDivisor, sys_hz: u32, baudrate: Baudrate)
    requires
        baudrate.rate() > 0,
        divisor.is_for(sys_hz, baudrate),
        sys_hz as int / baudrate.rate() as int <= u16::MAX,
    ensures
        divisor.units() == sys_hz * 256 / baudrate.rate() as int,
        divisor.units() * baudrate.rate() <= sys_hz * 256,
        sys_hz * 256 < (divisor.units() + 1) * baudrate.rate(),
{
    let rate = baudrate.rate() as int;
    let sys = sys_hz as int;
    let whole = sys / rate;
    let rest = sys % rate;
    let frac = rest * 256 / rate;
    vstd::arithmetic::div_mod::lemma_fundamental_div_mod(sys, rate);
    vstd::arithmetic::div_mod::lemma_fundamental_div_mod(rest * 256, rate);
    assert(whole >= 0) by (nonlinear_arith)
        requires
            sys >= 0,
            rate > 0,
            whole == sys / rate,
    ;
    let tail = (rest * 256) % rate;
    assert(0 <= tail < rate) by (nonlinear_arith)
        requires
            rate > 0,
            tail == (rest * 256) % rate,
    ;
    let units = whole * 256 + frac;
    assert(sys * 256 == units * rate + tail) by (nonlinear_arith)
        requires
            sys == rate * whole + rest,
            rest * 256 == rate * frac + tail,
            units == whole * 256 + frac,
    ;
    assert((units + 1) * rate == units * rate + rate) by (nonlinear_arith);
    vstd::arithmetic::div_mod::lemma_fundamental_div_mod_converse(sys * 256, rate, units, tail);
}

/// The divisor stands for the quotient of the clocks, rounded down to a multiple of 1/256, also if
/// its whole part does not fit: then the divisor lacks a multiple of 2^16.
pub proof fn law_clock_divisor_is_quotient(divisor: ClockDivisor, sys_hz: u32, baudrate: Baudrate)
    requires
        baudrate.rate() > 0,
        divisor.is_for(sys_hz, baudrate),
    ensures
        exists|high: int|
            {
                let units = (#[trigger] (high * 0x1_0000) + divisor.int) * 256 + divisor.frac;
                units * baudrate.rate() <= sys_hz * 256 < (units + 1) * baudrate.rate()
            },
{
    let rate = baudrate.rate() as int;
    let sys = sys_hz as int;
    let whole = sys / rate;
    let rest = sys % rate;
    let frac = rest * 256 / rate;
    let tail = (rest * 256) % rate;
    vstd::arithmetic::div_mod::lemma_fundamental_div_mod(sys, rate);
    vstd::arithmetic::div_mod::lemma_fundamental_div_mod(rest * 256, rate);
    vstd::arithmetic::div_mod::lemma_fundamental_div_mod(whole, 0x1_0000);
    assert(0 <= tail < rate) by (nonlinear_arith)
        requires
            rate > 0,
            tail == (rest * 256) % rate,
    ;
    let high = whole / 0x1_0000;
    let units = (high * 0x1_0000 + divisor.int) * 256 + divisor.frac;
    assert(units == whole * 256 + frac);
    assert(sys * 256 == units * rate + tail) by (nonlinear_arith)
        requires
            sys == rate * whole + rest,
            rest * 256 == rate * frac + tail,
            units == whole * 256 + frac,
    ;
    assert((units + 1) * rate == units * rate + rate) by (nonlinear_arith);
    assert(units * baudrate.rate() <= sys_hz * 256 < (units + 1) * baudrate.rate());
}

/// How the peripherals are to be set up for a [`Rp2040PioPhy`].
#[derive(Debug, PartialEq, Eq)]
pub struct PioSetup {
    /// Settings to enable the UART with.
    pub uart: UartConfig,
    /// Program of the state machine.
    pub program: DirectionProgram,
    /// Divisor of the state machine clock.
    pub clock: ClockDivisor,
    /// First of the pins that set instructions write to, and their number.
    pub set_pins: (u8, u8),
    /// First of the pins that wait instructions look at.
    pub in_pin_base: u8,
    /// First of the side-set pins.
    pub side_set_pin_base: u8,
    /// Pins and their directions.
    pub pin_directions: [(u8, PinDirection); 2],
    /// Address of the FIFO that the words are written to.
    pub tx_fifo: u32,
}

/// The decisions of the PHY that leaves the direction of the line to a PIO state machine.
///
/// The PHY itself touches no hardware: it tells its driver what to do with the UART and with the
/// FIFO of the state machine, and is told what came of it.
#[derive(Debug)]
pub struct Rp2040PioPhy {
    data: PhyData,
    baudrate: Baudrate,
}

/// The mathematical counterpart of [`Rp2040PioPhy`].
#[verifier::ext_equal]
pub struct Rp2040PioPhyModel {
    pub data: PhyState,
    pub baudrate: Baudrate,
}

impl Rp2040PioPhyModel {
    /// The buffer state is consistent.
    pub open spec fn wf(self) -> bool {
        self.data.wf()
    }
}

impl View for Rp2040PioPhy {
    type V = Rp2040PioPhyModel;

    closed spec fn view(&self) -> Rp2040PioPhyModel {
        Rp2040PioPhyModel { data: self.data@, baudrate: self.baudrate }
    }
}

impl Rp2040PioPhy {
    /// A PHY in receive mode, and the setup of the peripherals for it. `sys_hz` is the clock of
    /// the system.
    pub fn new(buffer: Vec<u8>, baudrate: Baudrate, sys_hz: u32) -> (r: (Rp2040PioPhy, PioSetup))
        requires
            sys_hz as int % baudrate.rate() as int * 256 <= u32::MAX,
        ensures
            r.0@.wf(),
            r.0@.data == (PhyState::Rx { buffer: buffer@, length: 0 }),
            r.0@.baudrate == baudrate,
            r.1.uart.is_for(baudrate),
            r.1.program.is_direction_program(),
            r.1.clock.is_for(sys_hz, baudrate),
            r.1.set_pins == (DE_PIN, 1u8),
            r.1.in_pin_base == TX_PIN,
            r.1.side_set_pin_base == DE_PIN,
            r.1.pin_directions@ == seq![
                (TX_PIN, PinDirection::Input),
                (DE_PIN, PinDirection::Output),
            ],
            r.1.tx_fifo == TX_FIFO_ADDRESS,
    {
        let setup = PioSetup {
            uart: UartConfig::new(baudrate),
            program: direction_program(),
            clock: ClockDivisor::new(sys_hz, baudrate),
            set_pins: (DE_PIN, 1),
            in_pin_base: TX_PIN,
            side_set_pin_base: DE_PIN,
            pin_directions: [(TX_PIN, PinDirection::Input), (DE_PIN, PinDirection::Output)],
            tx_fifo: TX_FIFO_ADDRESS,
        };
        (Rp2040PioPhy { data: PhyData::new(buffer), baudrate }, setup)
    }

    /// The buffer and what the PHY is doing with it.
    pub fn data(&self) -> (r: &PhyData)
        ensures
            r@ == self@.data,
    {
        &self.data
    }

    /// The bus speed.
    pub fn baudrate(&self) -> (r: Baudrate)
        ensures
            r == self@.baudrate,
    {
        self.baudrate
    }

    /// Polls a transmission: handles one event and tells what to do next.
    ///
    /// A poll starts with [`PollEvent::Poll`]. It is over when the action says so; until then the
    /// action is carried out and its outcome is the next event.
    pub fn poll_transmission(&mut self, event: PollEvent) -> (r: PollAction<u32>)
        requires
            old(self)@.wf(),
            old(self)@.data.poll_admits(event),
        ensures
            final(self)@ == (Rp2040PioPhyModel {
                data: old(self)@.data.poll_next(event),
                ..old(self)@
            }),
            final(self)@.wf(),
            r == old(self)@.data.poll_action(event, RECEIVE_WORD),
    {
        self.data.poll_transmission(event, RECEIVE_WORD)
    }

    /// Lets `f` put a telegram at the front of the buffer and starts to send it.
    ///
    /// `f` returns the length of the telegram; if that is zero, nothing is sent. Otherwise the
    /// returned word is to be written to the FIFO of the state machine at once, and the first byte
    /// is sent one bit time later. The line is not driven before that: the direction program
    /// waits for the start bit.
    pub fn transmit_data<F, R>(&mut self, now: Instant, f: F) -> (r: (R, Option<u32>))
    where F: FnOnce(&mut [u8]) -> (usize, R),
        requires
            old(self)@.wf(),
            old(self)@.data is Rx,
            forall|buffer: &mut [u8]|
                buffer@ == old(self)@.data.buffer() ==> call_requires(f, (buffer,)),
            forall|buffer: &mut [u8], out: (usize, R)|
                buffer@ == old(self)@.data.buffer() && #[trigger] call_ensures(f, (buffer,), out)
                    ==> {
                    &&& final(buffer)@.len() == buffer@.len()
                    &&& out.0 <= buffer@.len()
                    &&& out.0 > 0 ==> now@ + old(self)@.baudrate.one_bit()@ <= i64::MAX
                },
        ensures
            final(self)@.wf(),
            exists|buffer: &mut [u8], out: (usize, R)|
                {
                    &&& buffer@ == old(self)@.data.buffer()
                    &&& #[trigger] call_ensures(f, (buffer,), out)
                    &&& r.0 == out.1
                    &&& final(self)@ == (Rp2040PioPhyModel {
                        data: old(self)@.data.after_fill(
                            final(buffer)@,
                            out.0 as nat,
                            now@ + old(self)@.baudrate.one_bit()@,
                        ),
                        ..old(self)@
                    })
                    &&& r.1 == if out.0 == 0 {
                        None
                    } else {
                        Some(TRANSMIT_WORD)
                    }
                },
    {
        let (length, res) = f(self.data.buffer_mut());
        if length == 0 {
            // Nothing to transmit.
            return (res, None);
        }
        let tset = self.baudrate.bit_time();
        proof {
            now.lemma_sum(tset);
        }
        self.data.start_transmission(length, now + tset);
        (res, Some(TRANSMIT_WORD))
    }

    /// The free part of the buffer, for the UART to put received bytes at its front.
    pub fn spare_mut(&mut self) -> (r: &mut [u8])
        requires
            old(self)@.wf(),
            old(self)@.data is Rx,
        ensures
            r@ == old(self)@.data.buffer().skip(old(self)@.data.received().len() as int),
            final(self)@ == (Rp2040PioPhyModel {
                data: old(self)@.data.with_spare(final(r)@),
                ..old(self)@
            }),
            final(self)@.wf(),
    {
        self.data.spare_mut()
    }

    /// Counts the bytes of a reply of the UART as received and lets `f` look at all bytes that
    /// were received and not dropped.
    ///
    /// `f` returns how many bytes are to be dropped. Only all of them can be: any other number
    /// than zero drops all of them as well.
    pub fn receive_data<F, R>(&mut self, reply: ReadReply, f: F) -> (r: (R, DropReport))
    where F: FnOnce(&[u8]) -> (usize, R),
        requires
            old(self)@.wf(),
            old(self)@.data.read_admits(reply),
            forall|bytes: &[u8]|
                bytes@ == old(self)@.data.after_read(reply).received() ==> call_requires(
                    f,
                    (bytes,),
                ),
        ensures
            final(self)@.wf(),
            exists|bytes: &[u8], out: (usize, R)|
                {
                    &&& bytes@ == old(self)@.data.after_read(reply).received()
                    &&& #[trigger] call_ensures(f, (bytes,), out)
                    &&& r.0 == out.1
                    &&& final(self)@ == (Rp2040PioPhyModel {
                        data: old(self)@.data.after_read(reply).after_drop(out.0 as nat),
                        ..old(self)@
                    })
                    &&& r.1 == old(self)@.data.after_read(reply).drop_report(out.0)
                },
    {
        self.data.accept_read(reply);
        let (n, res) = f(self.data.received());
        let report = self.data.drop_received(n);
        (res, report)
    }
}

} // verus!
