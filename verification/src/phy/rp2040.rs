//! PHY on the UART of the RP2040, with a GPIO pin for the direction of the RS-485 transceiver.
use vstd::prelude::*;

use super::data::{DropReport, PhyData, PhyState, PollAction, PollEvent, ReadReply};
use super::uart::UartConfig;
use crate::baudrate::Baudrate;
use crate::time::{Duration, Instant};

verus! {

/// The level of the direction pin.
#[derive(Debug, Clone, Copy, PartialEq, Eq, Structural)]
pub enum PinLevel {
    /// Receive direction.
    Low,
    /// Transmit direction.
    High,
}

/// How the peripherals are to be set up for a [`Rp2040Phy`].
#[derive(Debug, Clone, Copy, PartialEq, Eq, Structural)]
pub struct Rp2040Setup {
    /// Settings to enable the UART with.
    pub uart: UartConfig,
    /// First level of the direction pin.
    pub dir_pin: PinLevel,
}

/// The decisions of the PHY on the UART of the RP2040.
///
/// The PHY itself touches no hardware: it tells its driver what to do with the UART and with the
/// direction pin, and is told what came of it.
#[derive(Debug)]
pub struct Rp2040Phy {
    data: PhyData,
    baudrate: Baudrate,
    tset_us: u64,
    tqui_us: u64,
}

/// The mathematical counterpart of [`Rp2040Phy`].
#[verifier::ext_equal]
pub struct Rp2040PhyModel {
    pub data: PhyState,
    pub baudrate: Baudrate,
    /// Setup time of the line driver in microseconds.
    pub tset_us: nat,
    /// Quiet time of the line driver in microseconds.
    pub tqui_us: nat,
}

impl Rp2040PhyModel {
    /// The buffer state is consistent, and the driver times are those of the bus speed, rounded
    /// up to whole microseconds.
    pub open spec fn wf(self) -> bool {
        &&& self.data.wf()
        &&& self.tset_us == self.baudrate.micros(self.baudrate.tset())
        &&& self.tqui_us == self.baudrate.micros(self.baudrate.tqui())
    }
}

impl View for Rp2040Phy {
    type V = Rp2040PhyModel;

    closed spec fn view(&self) -> Rp2040PhyModel {
        Rp2040PhyModel {
            data: self.data@,
            baudrate: self.baudrate,
            tset_us: self.tset_us as nat,
            tqui_us: self.tqui_us as nat,
        }
    }
}

impl Rp2040Phy {
    /// A PHY in receive mode, and the setup of the peripherals for it.
    pub fn new(buffer: Vec<u8>, baudrate: Baudrate) -> (r: (Rp2040Phy, Rp2040Setup))
        ensures
            r.0@.wf(),
            r.0@.data == (PhyState::Rx { buffer: buffer@, length: 0 }),
            r.0@.baudrate == baudrate,
            r.1.uart.is_for(baudrate),
            r.1.dir_pin == PinLevel::Low,
    {
        let tset_us: u64 = baudrate.bits_to_micros_ceil(baudrate.tset_bits());
        let tqui_us: u64 = baudrate.bits_to_micros_ceil(baudrate.tqui_bits());
        let phy = Rp2040Phy { data: PhyData::new(buffer), baudrate, tset_us, tqui_us };
        (phy, Rp2040Setup { uart: UartConfig::new(baudrate), dir_pin: PinLevel::Low })
    }

    /// The buffer and what the PHY is doing with it.
    pub fn data(&self) -> (r: &PhyData)
        ensures
            r@ == self@.data,
    {
        &self.data
    }

    /// The bus speed.
    pub fn baudrate(&self) -> (r: Baudrate)
        ensures
            r == self@.baudrate,
    {
        self.baudrate
    }

    /// Setup time of the line driver in microseconds.
    pub fn tset_us(&self) -> (r: u64)
        ensures
            r == self@.tset_us,
    {
        self.tset_us
    }

    /// Quiet time of the line driver in microseconds.
    pub fn tqui_us(&self) -> (r: u64)
        ensures
            r == self@.tqui_us,
    {
        self.tqui_us
    }

    /// Polls a transmission: handles one event and tells what to do next.
    ///
    /// A poll starts with [`PollEvent::Poll`]. It is over when the action says so; until then the
    /// action is carried out and its outcome is the next event.
    pub fn poll_transmission(&mut self, event: PollEvent) -> (r: PollAction<PinLevel>)
        requires
            old(self)@.wf(),
            old(self)@.data.poll_admits(event),
        ensures
            final(self)@ == (Rp2040PhyModel {
                data: old(self)@.data.poll_next(event),
                ..old(self)@
            }),
            final(self)@.wf(),
            r == old(self)@.data.poll_action(event, PinLevel::Low),
    {
        self.data.poll_transmission(event, PinLevel::Low)
    }

    /// Lets `f` put a telegram at the front of the buffer and starts to send it.
    ///
    /// `f` returns the length of the telegram; if that is zero, nothing is sent. Otherwise the
    /// direction pin is to be driven to the returned level at once, and the first byte is sent
    /// when the setup time of the line driver is over.
    pub fn transmit_data<F, R>(&mut self, now: Instant, f: F) -> (r: (R, Option<PinLevel>))
    where F: FnOnce(&mut [u8]) -> (usize, R),
        requires
            old(self)@.wf(),
            old(self)@.data is Rx,
            forall|buffer: &mut [u8]|
                buffer@ == old(self)@.data.buffer() ==> call_requires(f, (buffer,)),
            forall|buffer: &mut [u8], out: (usize, R)|
                buffer@ == old(self)@.data.buffer() && #[trigger] call_ensures(f, (buffer,), out)
                    ==> {
                    &&& final(buffer)@.len() == buffer@.len()
                    &&& out.0 <= buffer@.len()
                    &&& out.0 > 0 ==> now@ + old(self)@.tset_us <= i64::MAX
                },
        ensures
            final(self)@.wf(),
            exists|buffer: &mut [u8], out: (usize, R)|
                {
                    &&& buffer@ == old(self)@.data.buffer()
                    &&& #[trigger] call_ensures(f, (buffer,), out)
                    &&& r.0 == out.1
                    &&& final(self)@ == (Rp2040PhyModel {
                        data: old(self)@.data.after_fill(
                            final(buffer)@,
                            out.0 as nat,
                            now@ + old(self)@.tset_us,
                        ),
                        ..old(self)@
                    })
                    &&& r.1 == if out.0 == 0 {
                        None
                    } else {
                        Some(PinLevel::High)
                    }
                },
    {
        let (length, res) = f(self.data.buffer_mut());
        if length == 0 {
            // Nothing to transmit.
            return (res, None);
        }
        let tset = Duration::from_micros(self.tset_us);
        proof {
            now.lemma_sum(tset);
        }
        self.data.start_transmission(length, now + tset);
        (res, Some(PinLevel::High))
    }

    /// The free part of the buffer, for the UART to put received bytes at its front.
    pub fn spare_mut(&mut self) -> (r: &mut [u8])
        requires
            old(self)@.wf(),
            old(self)@.data is Rx,
        ensures
            r@ == old(self)@.data.buffer().skip(old(self)@.data.received().len() as int),
            final(self)@ == (Rp2040PhyModel {
                data: old(self)@.data.with_spare(final(r)@),
                ..old(self)@
            }),
            final(self)@.wf(),
    {
        self.data.spare_mut()
    }

    /// Counts the bytes of a reply of the UART as received and lets `f` look at all bytes that
    /// were received and not dropped.
    ///
    /// `f` returns how many bytes are to be dropped. Only all of them can be: any other number
    /// than zero drops all of them as well.
    pub fn receive_data<F, R>(&mut self, reply: ReadReply, f: F) -> (r: (R, DropReport))
    where F: FnOnce(&[u8]) -> (usize, R),
        requires
            old(self)@.wf(),
            old(self)@.data.read_admits(reply),
            forall|bytes: &[u8]|
                bytes@ == old(self)@.data.after_read(reply).received() ==> call_requires(
                    f,
                    (bytes,),
                ),
        ensures
            final(self)@.wf(),
            exists|bytes: &[u8], out: (usize, R)|
                {
                    &&& bytes@ == old(self)@.data.after_read(reply).received()
                    &&& #[trigger] call_ensures(f, (bytes,), out)
                    &&& r.0 == out.1
                    &&& final(self)@ == (Rp2040PhyModel {
                        data: old(self)@.data.after_read(reply).after_drop(out.0 as nat),
                        ..old(self)@
                    })
                    &&& r.1 == old(self)@.data.after_read(reply).drop_report(out.0)
                },
    {
        self.data.accept_read(reply);
        let (n, res) = f(self.data.received());
        let report = self.data.drop_received(n);
        (res, report)
    }
}

/// The setup time is kept: after a telegram was handed over at the time `now`, the UART takes
/// no byte before `tset` bit times have passed.
pub proof fn law_setup_time_is_kept(
    phy: Rp2040PhyModel,
    now: Instant,
    contents: Seq<u8>,
    length: nat,
    rounds: Seq<super::laws::PollRound>,
)
    requires
        phy.wf(),
        phy.baudrate.rate() > 0,
        phy.data is Rx,
        0 < length,
        forall|i: int|
            0 <= i < rounds.len() ==> ((#[trigger] rounds[i]).now@ - now@) * phy.baudrate.rate()
                < phy.baudrate.tset() * 1_000_000,
    ensures
        super::laws::run_wire(
            phy.data.after_fill(contents, length, now@ + phy.tset_us),
            rounds,
        ) == Seq::<u8>::empty(),
{
    let rate = phy.baudrate.rate() as int;
    let tset = phy.tset_us as int;
    crate::baudrate::law_bits_to_micros_is_least_cover(phy.baudrate.tset(), phy.baudrate.rate());
    assert forall|i: int| 0 <= i < rounds.len() implies (#[trigger] rounds[i]).now@ < now@
        + tset by {
        let passed = rounds[i].now@ - now@;
        assert(passed < tset) by (nonlinear_arith)
            requires
                passed * rate < tset * rate,
                rate > 0,
        ;
    }
    super::laws::law_silent_until_start(
        phy.data.after_fill(contents, length, now@ + phy.tset_us),
        rounds,
    );
}

/// The setup time is not exceeded: after a telegram was handed over at the time `now`, every poll
/// asks for a write as soon as `tset` bit times have passed, until the UART has taken all of it.
pub proof fn law_setup_time_is_not_exceeded(
    phy: Rp2040PhyModel,
    now: Instant,
    contents: Seq<u8>,
    length: nat,
    rounds: Seq<super::laws::PollRound>,
    poll: super::laws::PollRound,
)
    requires
        phy.wf(),
        phy.baudrate.rate() > 0,
        phy.data is Rx,
        0 < length <= contents.len(),
        super::laws::run_admissible(
            phy.data.after_fill(contents, length, now@ + phy.tset_us),
            rounds,
        ),
        super::laws::run_wire(
            phy.data.after_fill(contents, length, now@ + phy.tset_us),
            rounds,
        ).len() < length,
        (poll.now@ - now@) * phy.baudrate.rate() >= phy.baudrate.tset() * 1_000_000,
    ensures
        poll.action(
            super::laws::run(phy.data.after_fill(contents, length, now@ + phy.tset_us), rounds),
        ) is Write,
{
    let passed = poll.now@ - now@;
    crate::baudrate::law_bits_to_micros_is_least_cover(phy.baudrate.tset(), phy.baudrate.rate());
    assert(passed * phy.baudrate.rate() >= phy.baudrate.tset() * 1_000_000);
    assert(passed >= phy.tset_us);
    super::laws::law_pending_bytes_are_written_from_start_on(
        phy.data.after_fill(contents, length, now@ + phy.tset_us),
        rounds,
        poll,
    );
}

} // verus!
