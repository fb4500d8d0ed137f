//! The bus speed and the timing figures that belong to it.
use vstd::prelude::*;

use crate::time::Duration;

verus! {

/// Microseconds per second.
pub const MICROS_PER_SECOND: u64 = 1_000_000;

/// Bus speed, together with the timing figures that are configured for it.
#[derive(Debug, Clone, Copy, PartialEq, Eq, Structural, Hash)]
pub struct Baudrate {
    rate: u64,
    tset_bits: u32,
    tqui_bits: u32,
    bit_time: Duration,
}

impl Baudrate {
    #[verifier::type_invariant]
    spec fn wf(self) -> bool {
        0 < self.rate <= u32::MAX
    }

    /// Bits per second.
    pub closed spec fn rate(&self) -> nat {
        self.rate as nat
    }

    /// Setup time of the line driver (Tset) in bit times.
    pub closed spec fn tset(&self) -> nat {
        self.tset_bits as nat
    }

    /// Quiet time of the line driver (Tqui) in bit times.
    pub closed spec fn tqui(&self) -> nat {
        self.tqui_bits as nat
    }

    /// The time that is allotted to one bit, in microseconds.
    pub closed spec fn one_bit(&self) -> Duration {
        self.bit_time
    }

    /// The time that `bits` bits take on the wire in microseconds, rounded up.
    pub open spec fn micros(&self, bits: nat) -> int {
        bits_to_micros(bits, self.rate())
    }

    /// A bus speed of `rate` bits per second. The rate is not zero and fits the 32 bits that a
    /// UART is configured with.
    ///
    /// `tset_bits` and `tqui_bits` are the setup and the quiet time of the line driver in bit
    /// times, `bit_time` is the time that is allotted to one bit.
    pub fn new(
        rate: u64,
        tset_bits: u32,
        tqui_bits: u32,
        bit_time: Duration,
    ) -> (r: Option<Baudrate>)
        ensures
            r is Some <==> 0 < rate <= u32::MAX,
            r matches Some(b) ==> {
                &&& b.rate() == rate
                &&& b.tset() == tset_bits
                &&& b.tqui() == tqui_bits
                &&& b.one_bit() == bit_time
            },
    {
        if 0 < rate && rate <= u32::MAX as u64 {
            Some(Baudrate { rate, tset_bits, tqui_bits, bit_time })
        } else {
            None
        }
    }

    /// Bits per second.
    pub fn to_rate(&self) -> (r: u64)
        ensures
            r == self.rate(),
            0 < r <= u32::MAX,
    {
        proof {
            use_type_invariant(self);
        }
        self.rate
    }

    /// Setup time of the line driver (Tset) in bit times.
    pub fn tset_bits(&self) -> (r: u32)
        ensures
            r == self.tset(),
    {
        self.tset_bits
    }

    /// Quiet time of the line driver (Tqui) in bit times.
    pub fn tqui_bits(&self) -> (r: u32)
        ensures
            r == self.tqui(),
    {
        self.tqui_bits
    }

    /// The time that is allotted to one bit.
    pub fn bit_time(&self) -> (r: Duration)
        ensures
            r == self.one_bit(),
    {
        self.bit_time
    }
}

/// `bits` bit times at `rate` bits per second in microseconds, rounded up.
pub open spec fn bits_to_micros(bits: nat, rate: nat) -> int {
    (bits * 1_000_000 + rate - 1) / rate as int
}

/// The rounded time covers all the bits, and no shorter whole number of microseconds does.
pub proof fn law_bits_to_micros_is_least_cover(bits: nat, rate: nat)
    requires
        rate > 0,
    ensures
        bits_to_micros(bits, rate) >= 0,
        bits_to_micros(bits, rate) * rate >= bits * 1_000_000,
        forall|micros: int| #![trigger micros * rate]
            micros * rate >= bits * 1_000_000 ==> micros >= bits_to_micros(bits, rate),
{
    let total = bits * 1_000_000 + rate - 1;
    let r = rate as int;
    let q = total / r;
    vstd::arithmetic::div_mod::lemma_fundamental_div_mod(total, r);
    assert(q * r == r * q) by (nonlinear_arith);
    assert(0 <= total % r < r) by (nonlinear_arith)
        requires
            r > 0,
    ;
    assert(q >= 0) by (nonlinear_arith)
        requires
            total >= 0,
            r > 0,
            q == total / r,
    ;
    assert forall|micros: int| #![trigger micros * rate] micros * rate >= bits
        * 1_000_000 implies micros >= q by {
        assert(micros >= q) by (nonlinear_arith)
            requires
                micros * r >= bits * 1_000_000,
                r * q + total % r == total,
                total == bits * 1_000_000 + r - 1,
                0 <= total % r < r,
                r > 0,
        ;
    }
}

impl Baudrate {
    /// The time that `bits` bits take on the wire in microseconds, rounded up.
    pub fn bits_to_micros_ceil(&self, bits: u32) -> (r: u64)
        ensures
            r == self.micros(bits as nat),
    {
        let rate: u64 = self.to_rate();
        let total: u64 = bits as u64 * MICROS_PER_SECOND + rate - 1;
        total / rate
    }
}

/// A bus speed is accepted if and only if it is not zero and fits 32 bits, and it gives back the
/// figures that it was made of.
pub proof fn law_bus_speed_gives_back_its_figures(
    rate: u64,
    tset_bits: u32,
    tqui_bits: u32,
    bit_time: Duration,
    r: Option<Baudrate>,
)
    requires
        call_ensures(Baudrate::new, (rate, tset_bits, tqui_bits, bit_time), r),
    ensures
        r is Some <==> 0 < rate < 0x1_0000_0000,
        r matches Some(b) ==> {
            &&& forall|out: u64| #[trigger] call_ensures(Baudrate::to_rate, (&b,), out) ==> out
                == rate
            &&& forall|out: u32| #[trigger] call_ensures(Baudrate::tset_bits, (&b,), out) ==> out
                == tset_bits
            &&& forall|out: u32| #[trigger] call_ensures(Baudrate::tqui_bits, (&b,), out) ==> out
                == tqui_bits
            &&& forall|out: Duration| #[trigger]
                call_ensures(Baudrate::bit_time, (&b,), out) ==> out == bit_time
        },
        call_requires(Baudrate::new, (rate, tset_bits, tqui_bits, bit_time)),
{
}

/// The time that is told for a number of bits covers them, and one microsecond less does not.
pub proof fn law_told_time_is_least_cover(baudrate: Baudrate, bits: u32, rate: u64, r: u64)
    requires
        call_ensures(Baudrate::to_rate, (&baudrate,), rate),
        call_ensures(Baudrate::bits_to_micros_ceil, (&baudrate, bits), r),
    ensures
        r * rate >= bits * 1_000_000,
        (r - 1) * rate < bits * 1_000_000,
        call_requires(Baudrate::bits_to_micros_ceil, (&baudrate, bits)),
{
    law_bits_to_micros_is_least_cover(bits as nat, rate as nat);
    assert((r - 1) * (rate as nat) < bits * 1_000_000);
}

} // verus!
