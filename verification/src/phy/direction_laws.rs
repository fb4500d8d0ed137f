//! What a PIO state machine does while it runs the direction program.
use vstd::prelude::*;

use super::direction_program::{Operation, WaitSource, CHARACTER_BITS};
use super::rp2040_pio::TX_PIN;
use super::uart::UartConfig;
use crate::baudrate::Baudrate;

verus! {

/// Words that the FIFO of a state machine has room for.
pub const FIFO_DEPTH: usize = 4;

/// Bits of the output shift register.
pub const OSR_BITS: usize = 32;

/// What happens around the state machine in one clock cycle, which is one bit on the wire.
pub struct Tick {
    /// The level of every pin.
    pub gpio: spec_fn(int) -> bool,
    /// The words that are written to the FIFO just before the cycle.
    pub words: Seq<u32>,
}

impl Tick {
    /// The level of the TX line.
    pub open spec fn tx(self) -> bool {
        (self.gpio)(TX_PIN as int)
    }
}

/// The state machine, as far as the direction program makes use of it.
#[verifier::ext_equal]
pub struct Machine {
    /// Offset of the next instruction.
    pub pc: int,
    /// Cycles to idle before the next instruction.
    pub delay: nat,
    /// Scratch register X.
    pub x: u32,
    /// Output shift register.
    pub osr: u32,
    /// Bits that were shifted out of the output shift register.
    pub shifted: nat,
    /// Words that wait in the FIFO, the oldest first.
    pub fifo: Seq<u32>,
    /// Level of the side-set pin, which is the direction pin.
    pub de: bool,
}

impl Machine {
    /// The words of a tick go into the FIFO as long as there is room; the others are lost.
    pub open spec fn written(self, words: Seq<u32>) -> Machine
        decreases words.len(),
    {
        if words.len() == 0 {
            self
        } else {
            let before = self.written(words.drop_last());
            if before.fifo.len() < FIFO_DEPTH {
                Machine { fifo: before.fifo.push(words.last()), ..before }
            } else {
                before
            }
        }
    }

    /// The machine once the operation of the instruction at `pc` is done: at the instruction that
    /// follows, which is the first one after the last one, and after `delay` cycles.
    pub open spec fn advance(self, delay: u8) -> Machine {
        let code = super::direction_program::direction_listing();
        Machine {
            pc: if self.pc == code.len() - 1 { 0 } else { self.pc + 1 },
            delay: delay as nat,
            ..self
        }
    }

    /// A word is loaded into the output shift register.
    pub open spec fn load(self, word: u32, fifo: Seq<u32>) -> Machine {
        Machine { osr: word, shifted: 0, fifo, ..self }
    }

    /// The first cycle, or a further one if it stalled, of the instruction at `pc`. The first
    /// input pin is the TX line.
    pub open spec fn execute(self, gpio: spec_fn(int) -> bool) -> Machine {
        let instruction = super::direction_program::direction_listing()[self.pc];
        // The side-set takes effect even if the instruction stalls.
        let m = Machine { de: instruction.side_set == 1, ..self };
        match instruction.operation {
            Operation::Wait { polarity, source, index } => {
                let pin = match source {
                    WaitSource::Gpio => index as int,
                    WaitSource::Pin => (TX_PIN + index) % 32,
                };
                if gpio(pin) == (polarity == 1) {
                    m.advance(instruction.delay)
                } else {
                    m
                }
            },
            Operation::Pull { if_empty, block } => if if_empty && m.shifted < OSR_BITS {
                m.advance(instruction.delay)
            } else if m.fifo.len() > 0 {
                m.load(m.fifo.first(), m.fifo.drop_first()).advance(instruction.delay)
            } else if block {
                m
            } else {
                m.load(m.x, m.fifo).advance(instruction.delay)
            },
        }
    }

    /// One clock cycle of the direction program.
    pub open spec fn cycle(self, tick: Tick) -> Machine {
        let m = self.written(tick.words);
        if m.delay > 0 {
            Machine { delay: (m.delay - 1) as nat, ..m }
        } else {
            m.execute(tick.gpio)
        }
    }

    /// Several clock cycles.
    pub open spec fn cycles(self, ticks: Seq<Tick>) -> Machine
        decreases ticks.len(),
    {
        if ticks.len() == 0 {
            self
        } else {
            self.cycles(ticks.drop_last()).cycle(ticks.last())
        }
    }

    /// The level of the direction pin in each of several clock cycles.
    pub open spec fn trace(self, ticks: Seq<Tick>) -> Seq<bool> {
        Seq::new(ticks.len(), |i: int| self.cycles(ticks.take(i + 1)).de)
    }

    /// The machine waits for a start bit, which is also how it is started.
    pub open spec fn waits_for_start_bit(self) -> bool {
        self.pc == 0 && self.delay == 0
    }

    /// Two machines are at the same point of the program and set the same level.
    pub open spec fn agrees(self, other: Machine) -> bool {
        &&& self.pc == other.pc
        &&& self.delay == other.delay
        &&& self.de == other.de
    }

    /// The machine is at an instruction of the program.
    pub open spec fn in_program(self) -> bool {
        0 <= self.pc < super::direction_program::direction_listing().len()
    }
}

/// Writing words moves neither the program nor the direction pin.
proof fn lemma_written_agrees(machine: Machine, words: Seq<u32>)
    ensures
        machine.written(words).agrees(machine),
        words.len() == 0 ==> machine.written(words) == machine,
    decreases words.len(),
{
    if words.len() > 0 {
        lemma_written_agrees(machine, words.drop_last());
    }
}

/// The direction pin depends on nothing but the TX line: with the same levels of that line, two
/// machines that agree at first go on to agree, whatever words are written to them, whatever
/// they hold in their FIFOs and registers, and whatever the other pins do. In particular no word
/// raises or lowers the pin, and none is needed to.
pub proof fn law_direction_depends_on_tx_line_only(
    first: Machine,
    second: Machine,
    first_ticks: Seq<Tick>,
    second_ticks: Seq<Tick>,
)
    requires
        first.in_program(),
        first.agrees(second),
        first_ticks.len() == second_ticks.len(),
        forall|i: int|
            0 <= i < first_ticks.len() ==> (#[trigger] first_ticks[i]).tx() == second_ticks[i].tx(),
    ensures
        first.cycles(first_ticks).in_program(),
        first.cycles(first_ticks).agrees(second.cycles(second_ticks)),
        first.trace(first_ticks) == second.trace(second_ticks),
    decreases first_ticks.len(),
{
    if first_ticks.len() > 0 {
        let a = first_ticks.drop_last();
        let b = second_ticks.drop_last();
        assert forall|i: int| 0 <= i < a.len() implies (#[trigger] a[i]).tx() == b[i].tx() by {
            assert(a[i] == first_ticks[i]);
        }
        law_direction_depends_on_tx_line_only(first, second, a, b);
        assert(first_ticks.last() == first_ticks[first_ticks.len() - 1]);
        lemma_written_agrees(first.cycles(a), first_ticks.last().words);
        lemma_written_agrees(second.cycles(b), second_ticks.last().words);
        assert forall|i: int| 0 <= i < first_ticks.len() implies first.trace(first_ticks)[i]
            == second.trace(second_ticks)[i] by {
            if i < a.len() {
                assert(first.trace(a)[i] == second.trace(b)[i]);
                assert(first_ticks.take(i + 1) =~= a.take(i + 1));
                assert(second_ticks.take(i + 1) =~= b.take(i + 1));
            } else {
                assert(first_ticks.take(i + 1) =~= first_ticks);
                assert(second_ticks.take(i + 1) =~= second_ticks);
            }
        }
        assert(first.trace(first_ticks) =~= second.trace(second_ticks));
    } else {
        assert(first.trace(first_ticks) =~= second.trace(second_ticks));
    }
}

/// As long as the TX line is idle, the machine waits for a start bit and the direction pin is
/// low. Without words nothing changes at all.
pub proof fn law_direction_stays_low_while_idle(machine: Machine, ticks: Seq<Tick>)
    requires
        machine.waits_for_start_bit(),
        !machine.de,
        forall|i: int| 0 <= i < ticks.len() ==> (#[trigger] ticks[i]).tx(),
    ensures
        machine.cycles(ticks).waits_for_start_bit(),
        !machine.cycles(ticks).de,
        (forall|i: int| 0 <= i < ticks.len() ==> (#[trigger] ticks[i]).words.len() == 0)
            ==> machine.cycles(ticks) == machine,
    decreases ticks.len(),
{
    if ticks.len() > 0 {
        let before = ticks.drop_last();
        assert forall|i: int| 0 <= i < before.len() implies (#[trigger] before[i]).tx() by {
            assert(before[i] == ticks[i]);
        }
        law_direction_stays_low_while_idle(machine, before);
        assert(ticks.last() == ticks[ticks.len() - 1]);
        lemma_written_agrees(machine.cycles(before), ticks.last().words);
        if forall|i: int| 0 <= i < ticks.len() ==> (#[trigger] ticks[i]).words.len() == 0 {
            assert forall|i: int| 0 <= i < before.len() implies (
            #[trigger] before[i]).words.len() == 0 by {
                assert(before[i] == ticks[i]);
            }
            assert(machine.cycles(ticks) =~= machine);
        }
    }
}

/// The direction pin follows a character by itself, whatever its bits are: the machine sees the
/// start bit, and the pin is high from the next cycle on until the end of the stop bit. Right
/// after the stop bit the pin is low again, and the machine waits for the next start bit, which
/// it sees even if it follows at once.
pub proof fn law_direction_follows_a_character(machine: Machine, ticks: Seq<Tick>, next: Tick)
    requires
        machine.waits_for_start_bit(),
        ticks.len() == CHARACTER_BITS,
        !ticks[0].tx(),
    ensures
        !machine.cycles(ticks.take(1)).de,
        forall|n: int| 1 < n <= ticks.len() ==> (#[trigger] machine.cycles(ticks.take(n))).de,
        machine.cycles(ticks).waits_for_start_bit(),
        !machine.cycles(ticks.push(next)).de,
        machine.cycles(ticks.push(next)).waits_for_start_bit() <==> next.tx(),
{
    lemma_written_agrees(machine, ticks[0].words);
    assert(ticks.take(1).drop_last() =~= ticks.take(0));
    assert(machine.cycles(ticks.take(0)) == machine);
    let seen = machine.cycles(ticks.take(1));
    assert(seen.pc == 1 && seen.delay == 0 && !seen.de);
    lemma_written_agrees(seen, ticks[1].words);
    assert(ticks.take(2).drop_last() =~= ticks.take(1));
    let driving = machine.cycles(ticks.take(2));
    assert(driving.pc == 0 && driving.delay == CHARACTER_BITS - 2 && driving.de);
    assert forall|n: int| 1 < n <= ticks.len() implies (#[trigger] machine.cycles(
        ticks.take(n),
    )).de by {
        lemma_drives_through_delay(machine, ticks, n);
    }
    lemma_drives_through_delay(machine, ticks, ticks.len() as int);
    assert(ticks.take(ticks.len() as int) =~= ticks);
    assert(ticks.push(next).drop_last() =~= ticks);
    lemma_written_agrees(machine.cycles(ticks), next.words);
}

/// Once the pin is high, the machine counts the bits of the character down to its end.
proof fn lemma_drives_through_delay(machine: Machine, ticks: Seq<Tick>, n: int)
    requires
        2 <= n <= ticks.len() == CHARACTER_BITS,
        machine.cycles(ticks.take(2)).pc == 0,
        machine.cycles(ticks.take(2)).delay == CHARACTER_BITS - 2,
        machine.cycles(ticks.take(2)).de,
    ensures
        machine.cycles(ticks.take(n)).pc == 0,
        machine.cycles(ticks.take(n)).delay == CHARACTER_BITS - n,
        machine.cycles(ticks.take(n)).de,
    decreases n,
{
    if n > 2 {
        lemma_drives_through_delay(machine, ticks, n - 1);
        assert(ticks.take(n).drop_last() =~= ticks.take(n - 1));
        lemma_written_agrees(machine.cycles(ticks.take(n - 1)), ticks[n - 1].words);
    }
}

/// The program counts the bits of the characters that the UART sends.
pub proof fn law_program_counts_uart_bits(config: UartConfig, baudrate: Baudrate)
    requires
        config.is_for(baudrate),
    ensures
        config.character_bits() == CHARACTER_BITS,
{
}

/// A piece of what is on the TX line.
pub enum Piece {
    /// One bit time without a character.
    Idle,
    /// A character; holds the levels of its data bits, its parity bit and its stop bit.
    Character(Seq<bool>),
}

impl Piece {
    /// A character has all its bits.
    pub open spec fn wf(self) -> bool {
        self matches Piece::Character(bits) ==> bits.len() == CHARACTER_BITS - 1
    }

    /// The levels of the TX line, bit by bit.
    pub open spec fn levels(self) -> Seq<bool> {
        match self {
            Piece::Idle => seq![true],
            Piece::Character(bits) => seq![false] + bits,
        }
    }

    /// The levels of the direction pin, bit by bit: high for the bits of a character that follow
    /// its start bit.
    pub open spec fn direction(self) -> Seq<bool> {
        match self {
            Piece::Idle => seq![false],
            Piece::Character(bits) => seq![false] + Seq::new(bits.len(), |i: int| true),
        }
    }
}

/// The levels of the TX line for a series of pieces.
pub open spec fn line_levels(pieces: Seq<Piece>) -> Seq<bool>
    decreases pieces.len(),
{
    if pieces.len() == 0 {
        Seq::empty()
    } else {
        line_levels(pieces.drop_last()) + pieces.last().levels()
    }
}

/// The levels of the direction pin for a series of pieces.
pub open spec fn direction_levels(pieces: Seq<Piece>) -> Seq<bool>
    decreases pieces.len(),
{
    if pieces.len() == 0 {
        Seq::empty()
    } else {
        direction_levels(pieces.drop_last()) + pieces.last().direction()
    }
}

/// Whatever is sent, with or without gaps between the characters, and whatever the processor
/// does meanwhile: every start bit makes the direction pin rise, and the pin is high exactly for
/// the bits that follow a start bit, through the stop bit.
pub proof fn law_direction_follows_the_line(
    machine: Machine,
    pieces: Seq<Piece>,
    ticks: Seq<Tick>,
)
    requires
        machine.waits_for_start_bit(),
        forall|i: int| 0 <= i < pieces.len() ==> (#[trigger] pieces[i]).wf(),
        ticks.len() == line_levels(pieces).len(),
        forall|i: int|
            0 <= i < ticks.len() ==> (#[trigger] ticks[i]).tx() == line_levels(pieces)[i],
    ensures
        machine.trace(ticks) == direction_levels(pieces),
        machine.cycles(ticks).waits_for_start_bit(),
    decreases pieces.len(),
{
    if pieces.len() == 0 {
        assert(machine.trace(ticks) =~= direction_levels(pieces));
    } else {
        let before = pieces.drop_last();
        let piece = pieces.last();
        assert(piece == pieces[pieces.len() - 1] && piece.wf());
        let k = line_levels(before).len() as int;
        let first = ticks.take(k);
        let rest = ticks.skip(k);
        assert(ticks =~= first + rest);
        assert forall|i: int| 0 <= i < before.len() implies (#[trigger] before[i]).wf() by {
            assert(before[i] == pieces[i]);
        }
        assert forall|i: int| 0 <= i < first.len() implies (#[trigger] first[i]).tx()
            == line_levels(before)[i] by {
            assert(first[i] == ticks[i]);
        }
        law_direction_follows_the_line(machine, before, first);
        let mid = machine.cycles(first);
        assert forall|i: int| 0 <= i < rest.len() implies (#[trigger] rest[i]).tx()
            == piece.levels()[i] by {
            assert(rest[i] == ticks[k + i]);
            assert(line_levels(pieces)[k + i] == piece.levels()[i]);
        }
        lemma_piece(mid, piece, rest);
        lemma_cycles_in_parts(machine, first, rest);
        assert forall|i: int| 0 <= i < ticks.len() implies machine.trace(ticks)[i]
            == direction_levels(pieces)[i] by {
            lemma_direction_len(before);
            if i < k {
                assert(ticks.take(i + 1) =~= first.take(i + 1));
                assert(machine.trace(first)[i] == direction_levels(before)[i]);
            } else {
                let part = rest.take(i - k + 1);
                assert(ticks.take(i + 1) =~= first + part);
                lemma_cycles_in_parts(machine, first, part);
                assert(mid.trace(rest)[i - k] == piece.direction()[i - k]);
            }
        }
        lemma_direction_len(pieces);
        assert(machine.trace(ticks) =~= direction_levels(pieces));
    }
}

/// The direction pin has a level for each bit on the line.
proof fn lemma_direction_len(pieces: Seq<Piece>)
    ensures
        direction_levels(pieces).len() == line_levels(pieces).len(),
    decreases pieces.len(),
{
    if pieces.len() > 0 {
        lemma_direction_len(pieces.drop_last());
    }
}

/// The direction pin follows one piece.
proof fn lemma_piece(machine: Machine, piece: Piece, ticks: Seq<Tick>)
    requires
        machine.waits_for_start_bit(),
        piece.wf(),
        ticks.len() == piece.levels().len(),
        forall|i: int| 0 <= i < ticks.len() ==> (#[trigger] ticks[i]).tx() == piece.levels()[i],
    ensures
        machine.trace(ticks) == piece.direction(),
        machine.cycles(ticks).waits_for_start_bit(),
{
    assert(ticks[0].tx() == piece.levels()[0]);
    match piece {
        Piece::Idle => {
            assert(ticks.take(1) =~= ticks);
            assert(ticks.drop_last() =~= Seq::<Tick>::empty());
            assert(machine.cycles(ticks.drop_last()) == machine);
            lemma_written_agrees(machine, ticks[0].words);
        },
        Piece::Character(_) => {
            law_direction_follows_a_character(machine, ticks, ticks[0]);
        },
    }
    assert forall|i: int| 0 <= i < ticks.len() implies machine.trace(ticks)[i]
        == piece.direction()[i] by {
        assert(machine.trace(ticks)[i] == machine.cycles(ticks.take(i + 1)).de);
    }
    assert(machine.trace(ticks) =~= piece.direction());
}

/// Cycles can be split up at any point.
proof fn lemma_cycles_in_parts(machine: Machine, first: Seq<Tick>, second: Seq<Tick>)
    ensures
        machine.cycles(first + second) == machine.cycles(first).cycles(second),
    decreases second.len(),
{
    if second.len() == 0 {
        assert(first + second =~= first);
    } else {
        assert((first + second).drop_last() =~= first + second.drop_last());
        lemma_cycles_in_parts(machine, first, second.drop_last());
    }
}

} // verus!
