//! The PIO program that drives the direction (driver enable) pin of the RS-485 transceiver.
//!
//! The program watches the TX line of the UART. A start bit raises the pin, and the pin is
//! lowered right after the stop bit of the character. Nothing but the TX line moves the pin: the
//! words in the FIFO of the state machine are taken off it and thrown away.
//!
//! The state machine runs at the bus speed, so that one of its clock cycles is one bit. It sees
//! the start bit in one cycle and raises the pin in the next one. This is so for each character:
//! if a start bit follows a stop bit at once, the pin is low for the cycle that sees it.
use vstd::prelude::*;

verus! {

/// Bits of a character on the wire: a start bit, eight data bits, a parity bit and a stop bit.
pub const CHARACTER_BITS: u8 = 11;

/// What a wait instruction looks at.
#[derive(Debug, Clone, Copy, PartialEq, Eq, Structural)]
pub enum WaitSource {
    /// A pin by its absolute number.
    Gpio,
    /// A pin relative to the input pins of the state machine.
    Pin,
}

/// What an instruction does.
#[derive(Debug, Clone, Copy, PartialEq, Eq, Structural)]
pub enum Operation {
    /// Stall until the input has the level `polarity`.
    Wait { polarity: u8, source: WaitSource, index: u8 },
    /// Load a word from the FIFO into the output shift register. With `if_empty`, only if the
    /// register was shifted out. With `block`, stall while the FIFO is empty.
    Pull { if_empty: bool, block: bool },
}

/// One instruction of a PIO program.
#[derive(Debug, Clone, Copy, PartialEq, Eq, Structural)]
pub struct Instruction {
    pub operation: Operation,
    /// Cycles to idle once the operation is done.
    pub delay: u8,
    /// Levels of the side-set pins from the first cycle of the instruction on.
    pub side_set: u8,
}

impl Instruction {
    /// Do all operands fit the bits that the instruction word has for them, with one side-set
    /// pin?
    pub open spec fn encodable(self) -> bool {
        &&& self.delay < 16
        &&& self.side_set < 2
        &&& match self.operation {
            Operation::Wait { polarity, index, .. } => polarity < 2 && index < 32,
            Operation::Pull { .. } => true,
        }
    }

    /// The instruction word with one side-set pin: opcode in bits 13 to 15, side-set in bit 12,
    /// delay in bits 8 to 11, operands below.
    pub open spec fn word(self) -> u16 {
        let operands: int = match self.operation {
            Operation::Wait { polarity, source, index } => {
                let code: int = match source {
                    WaitSource::Gpio => 0,
                    WaitSource::Pin => 1,
                };
                0x2000 + polarity * 128 + code * 32 + index
            },
            Operation::Pull { if_empty, block } => {
                let empty: int = if if_empty { 1 } else { 0 };
                let stall: int = if block { 1 } else { 0 };
                0x8080 + empty * 64 + stall * 32
            },
        };
        (operands + self.side_set * 0x1000 + self.delay * 0x100) as u16
    }
}

/// Where a label of the assembler stands.
pub enum LabelState {
    /// Not placed yet, and no jump waits for it.
    Fresh,
    /// Not placed yet, and jumps wait for it.
    Awaited,
    /// Placed at this offset.
    Bound(u8),
}

impl LabelState {
    /// The offset of a label that is placed.
    pub open spec fn offset(self) -> u8 {
        self->Bound_0
    }
}

/// `pio::Assembler`, which collects the instructions of a program.
#[verifier::external_type_specification]
#[verifier::external_body]
pub struct ExAssembler<const PROGRAM_SIZE: usize>(pio::Assembler<PROGRAM_SIZE>);

/// `pio::Label`, a place in a program.
#[verifier::external_type_specification]
#[verifier::external_body]
pub struct ExLabel(pio::Label);

/// The instructions that a `pio::Assembler` has collected.
pub uninterp spec fn listing(assembler: pio::Assembler<32>) -> Seq<Instruction>;

/// The number of side-set pins that a `pio::Assembler` was made with.
pub uninterp spec fn side_set_pins(assembler: pio::Assembler<32>) -> nat;

/// Does the `pio::Assembler` hold only instructions that [`Instruction`] describes, and does
/// every instruction set the levels (not the directions) of its side-set pins?
pub uninterp spec fn plain(assembler: pio::Assembler<32>) -> bool;

/// The state of a `pio::Label`.
pub uninterp spec fn label_state(label: pio::Label) -> LabelState;

/// `pio::Assembler::new_with_side_set`, for side-set pins whose levels every instruction sets
/// (`pio::SideSet::new` without the flags for optional side-set and for pin directions): an
/// assembler without instructions.
#[verifier::external_body]
fn new_with_side_set(pins: u8) -> (r: pio::Assembler<32>)
    requires
        pins <= 5,
    ensures
        listing(r) == Seq::<Instruction>::empty(),
        side_set_pins(r) == pins,
        plain(r),
{
    pio::Assembler::<32>::new_with_side_set(pio::SideSet::new(false, pins, false))
}

/// `pio::Assembler::label`: a label that is not placed yet and that no jump waits for. The
/// assembler is left as it is.
///
/// A label that is dropped before it is placed panics.
#[verifier::external_body]
fn label(assembler: &mut pio::Assembler<32>) -> (r: pio::Label)
    ensures
        *final(assembler) == *old(assembler),
        label_state(r) == LabelState::Fresh,
{
    assembler.label()
}

/// `pio::Assembler::bind`: places a label behind the last instruction. Stated for labels that no
/// jump waits for; the assembler is left as it is then.
#[verifier::external_body]
fn bind(assembler: &mut pio::Assembler<32>, label: &mut pio::Label)
    requires
        plain(*old(assembler)),
        label_state(*old(label)) is Fresh,
    ensures
        *final(assembler) == *old(assembler),
        label_state(*final(label)) == LabelState::Bound(listing(*old(assembler)).len() as u8),
{
    assembler.bind(label);
}

/// `pio::Assembler::wait_with_side_set`: appends a wait instruction without delay. The flag for
/// relative interrupt numbers is off, as it is of no use for pins.
#[verifier::external_body]
fn wait_with_side_set(
    assembler: &mut pio::Assembler<32>,
    polarity: u8,
    source: WaitSource,
    index: u8,
    side_set: u8,
)
    requires
        plain(*old(assembler)),
        listing(*old(assembler)).len() < 32,
    ensures
        plain(*final(assembler)),
        side_set_pins(*final(assembler)) == side_set_pins(*old(assembler)),
        listing(*final(assembler)) == listing(*old(assembler)).push(
            (Instruction {
                operation: Operation::Wait { polarity, source, index },
                delay: 0,
                side_set,
            }),
        ),
{
    let source = match source {
        WaitSource::Gpio => pio::WaitSource::GPIO,
        WaitSource::Pin => pio::WaitSource::PIN,
    };
    assembler.wait_with_side_set(polarity, source, index, false, side_set);
}

/// `pio::Assembler::pull_with_delay_and_side_set`: appends a pull instruction.
#[verifier::external_body]
fn pull_with_delay_and_side_set(
    assembler: &mut pio::Assembler<32>,
    if_empty: bool,
    block: bool,
    delay: u8,
    side_set: u8,
)
    requires
        plain(*old(assembler)),
        listing(*old(assembler)).len() < 32,
    ensures
        plain(*final(assembler)),
        side_set_pins(*final(assembler)) == side_set_pins(*old(assembler)),
        listing(*final(assembler)) == listing(*old(assembler)).push(
            (Instruction { operation: Operation::Pull { if_empty, block }, delay, side_set }),
        ),
{
    assembler.pull_with_delay_and_side_set(if_empty, block, delay, side_set);
}

/// `pio::Assembler::assemble_with_wrap`: the instruction words, the offset after which the
/// program wraps (the instruction before `source`) and the offset that it wraps to. Stated for
/// one side-set pin.
#[verifier::external_body]
fn assemble_with_wrap(
    assembler: pio::Assembler<32>,
    source: pio::Label,
    target: pio::Label,
) -> (r: (Vec<u16>, u8, u8))
    requires
        plain(assembler),
        side_set_pins(assembler) == 1,
        forall|i: int|
            0 <= i < listing(assembler).len() ==> (#[trigger] listing(assembler)[i]).encodable(),
        label_state(source) is Bound,
        1 <= label_state(source).offset() <= listing(assembler).len(),
        label_state(target) is Bound,
        label_state(target).offset() < listing(assembler).len(),
    ensures
        r.0@ == words(listing(assembler)),
        r.1 == label_state(source).offset() - 1,
        r.2 == label_state(target).offset(),
{
    let program = assembler.assemble_with_wrap(source, target);
    (program.code.to_vec(), program.wrap.source, program.wrap.target)
}

/// The words of a listing, one for each instruction.
pub open spec fn words(code: Seq<Instruction>) -> Seq<u16> {
    Seq::new(code.len(), |i: int| code[i].word())
}

/// An assembled PIO program. It can be loaded at any offset.
#[derive(Debug, PartialEq, Eq)]
pub struct DirectionProgram {
    /// Instruction words.
    pub code: Vec<u16>,
    /// Offset of the instruction after which the program wraps.
    pub wrap_source: u8,
    /// Offset that the program wraps to.
    pub wrap_target: u8,
    /// Number of side-set pins, whose levels every instruction sets.
    pub side_set_pins: u8,
}

/// The instructions of the direction program: wait for a start bit with the direction pin low,
/// then keep the pin high for all bits of the character that follow the start bit.
pub open spec fn direction_listing() -> Seq<Instruction> {
    seq![
        Instruction {
            operation: Operation::Wait { polarity: 0, source: WaitSource::Pin, index: 0 },
            delay: 0,
            side_set: 0,
        },
        Instruction {
            operation: Operation::Pull { if_empty: false, block: false },
            delay: (CHARACTER_BITS - 2) as u8,
            side_set: 1,
        },
    ]
}

impl DirectionProgram {
    /// The words of the direction program, which wraps from its last instruction to its first
    /// and has one side-set pin.
    pub open spec fn is_direction_program(self) -> bool {
        &&& self.code@ == words(direction_listing())
        &&& self.wrap_source == direction_listing().len() - 1
        &&& self.wrap_target == 0
        &&& self.side_set_pins == 1
    }
}

/// Assembles the direction program.
pub fn direction_program() -> (r: DirectionProgram)
    ensures
        r.is_direction_program(),
{
    let side_set_pins: u8 = 1;
    let mut assembler = new_with_side_set(side_set_pins);
    let mut wrap_target = label(&mut assembler);
    let mut wrap_source = label(&mut assembler);

    bind(&mut assembler, &mut wrap_target);
    // Wait for the start bit; the line is released.
    wait_with_side_set(&mut assembler, 0, WaitSource::Pin, 0, 0);
    // Drive the line for the rest of the character.
    pull_with_delay_and_side_set(&mut assembler, false, false, CHARACTER_BITS - 2, 1);
    bind(&mut assembler, &mut wrap_source);

    assert(listing(assembler) == direction_listing());
    let (code, wrap_source, wrap_target) = assemble_with_wrap(assembler, wrap_source, wrap_target);
    DirectionProgram { code, wrap_source, wrap_target, side_set_pins }
}

} // verus!
