//! PHY drivers for the UART of the RP2040 microcontroller.
pub mod data;
pub mod direction_laws;
pub mod direction_program;
pub mod driver_laws;
pub mod laws;
pub mod operation_laws;
pub mod rp2040;
pub mod rp2040_pio;
pub mod uart;

pub use data::{
    trace_window, DropReport, PhyData, PhyState, PollAction, PollEvent, ReadReply, TRACE_LEN,
};
pub use direction_program::{
    direction_program, DirectionProgram, Instruction, LabelState, Operation, WaitSource,
    CHARACTER_BITS,
};
pub use rp2040::{PinLevel, Rp2040Phy, Rp2040PhyModel, Rp2040Setup};
pub use rp2040_pio::{
    ClockDivisor, PinDirection, PioSetup, Rp2040PioPhy, Rp2040PioPhyModel, DE_PIN, PIO0_BASE,
    RECEIVE_WORD, TRANSMIT_WORD, TX_FIFO_ADDRESS, TX_PIN,
};
pub use uart::{DataBits, Parity, StopBits, UartConfig};
