//! How the UART is set up for PROFIBUS.
use vstd::prelude::*;

use crate::baudrate::Baudrate;

verus! {

/// Data bits of a UART character.
#[derive(Debug, Clone, Copy, PartialEq, Eq, Structural)]
pub enum DataBits {
    Five,
    Six,
    Seven,
    Eight,
}

/// Stop bits of a UART character.
#[derive(Debug, Clone, Copy, PartialEq, Eq, Structural)]
pub enum StopBits {
    One,
    Two,
}

/// Parity bit of a UART character.
#[derive(Debug, Clone, Copy, PartialEq, Eq, Structural)]
pub enum Parity {
    Odd,
    Even,
}

/// Settings of the UART.
#[derive(Debug, Clone, Copy, PartialEq, Eq, Structural)]
pub struct UartConfig {
    /// Bits per second.
    pub rate: u32,
    pub data_bits: DataBits,
    pub stop_bits: StopBits,
    /// `None` for characters without a parity bit.
    pub parity: Option<Parity>,
}

impl UartConfig {
    /// PROFIBUS characters (eight data bits, even parity, one stop bit) at the given speed.
    pub open spec fn is_for(self, baudrate: Baudrate) -> bool {
        &&& self.rate == baudrate.rate()
        &&& self.data_bits == DataBits::Eight
        &&& self.stop_bits == StopBits::One
        &&& self.parity == Some(Parity::Even)
    }

    /// The settings for PROFIBUS at the given speed.
    pub fn new(baudrate: Baudrate) -> (r: UartConfig)
        ensures
            r.is_for(baudrate),
    {
        UartConfig {
            rate: baudrate.to_rate() as u32,
            data_bits: DataBits::Eight,
            stop_bits: StopBits::One,
            parity: Some(Parity::Even),
        }
    }

    /// Bits of a character on the wire, start bit included.
    pub open spec fn character_bits(self) -> int {
        let data: int = match self.data_bits {
            DataBits::Five => 5,
            DataBits::Six => 6,
            DataBits::Seven => 7,
            DataBits::Eight => 8,
        };
        let parity: int = if self.parity is Some { 1 } else { 0 };
        let stop: int = match self.stop_bits {
            StopBits::One => 1,
            StopBits::Two => 2,
        };
        1 + data + parity + stop
    }
}

/// There is only one way to set up the UART for a bus speed, so both PHYs use it alike.
pub proof fn law_uart_settings_are_unique(first: UartConfig, second: UartConfig, baudrate: Baudrate)
    requires
        first.is_for(baudrate),
        second.is_for(baudrate),
    ensures
        first == second,
{
}

} // verus!
