use profirust::phy::{
    direction_program, Rp2040Phy, Rp2040PioPhy, CHARACTER_BITS, DE_PIN, RECEIVE_WORD,
    TRANSMIT_WORD, TX_PIN,
};
use profirust::time::Duration;
use profirust::Baudrate;

#[test]
fn direction_program_words() {
    let program = direction_program();
    assert_eq!(
        program.code,
        vec![
            0b001_0_0000_001_00000, // WAIT 0 PIN 0 side 0
            0b100_1_1001_100_00000, // PULL noblock side 1 [9]
        ]
    );
    assert_eq!(program.wrap_source, 1);
    assert_eq!(program.wrap_target, 0);
    assert_eq!(program.side_set_pins, 1);
}

#[test]
fn direction_program_decodes_to_the_instructions_meant() {
    let program = direction_program();
    let side_set = pio::SideSet::new(false, program.side_set_pins, false);
    let code: Vec<pio::Instruction> = program
        .code
        .iter()
        .map(|word| pio::Instruction::decode(*word, side_set).unwrap())
        .collect();
    assert_eq!(
        format!("{:?}", code[0].operands),
        "WAIT { polarity: 0, source: PIN, index: 0, relative: false }"
    );
    assert_eq!(code[0].delay, 0);
    assert_eq!(code[0].side_set, Some(0));
    assert_eq!(format!("{:?}", code[1].operands), "PULL { if_empty: false, block: false }");
    assert_eq!(code[1].delay, 9);
    assert_eq!(code[1].side_set, Some(1));
}

#[test]
fn words_for_the_state_machine() {
    assert_eq!(TRANSMIT_WORD, 1);
    assert_eq!(RECEIVE_WORD, 0);
}

/// Runs the instruction words for a list of levels of the TX line and returns the level of the
/// direction pin in each cycle. `words` tells when which words are written to the FIFO.
fn simulate(tx: &[bool], words: &[(usize, u32)]) -> Vec<bool> {
    let program = direction_program();
    let side_set = pio::SideSet::new(false, program.side_set_pins, false);
    let mut fifo: Vec<u32> = Vec::new();
    let (mut pc, mut idle, mut de) = (0usize, 0u8, false);
    let mut levels = Vec::new();
    for (cycle, level) in tx.iter().enumerate() {
        for (_, word) in words.iter().filter(|(at, _)| *at == cycle) {
            if fifo.len() < 4 {
                fifo.push(*word);
            }
        }
        if idle > 0 {
            idle -= 1;
        } else {
            let instruction = pio::Instruction::decode(program.code[pc], side_set).unwrap();
            de = instruction.side_set == Some(1);
            let done = match instruction.operands {
                pio::InstructionOperands::WAIT { polarity, .. } => *level == (polarity == 1),
                pio::InstructionOperands::PULL { block, .. } => {
                    let empty = fifo.is_empty();
                    if !empty {
                        fifo.remove(0);
                    }
                    !(empty && block)
                }
                other => panic!("unexpected instruction {:?}", other),
            };
            if done {
                idle = instruction.delay;
                pc = if pc == program.wrap_source as usize {
                    program.wrap_target as usize
                } else {
                    pc + 1
                };
            }
        }
        levels.push(de);
    }
    levels
}

/// The levels of a character: start bit, data bits, even parity, stop bit.
fn character(byte: u8) -> Vec<bool> {
    let mut bits = vec![false];
    bits.extend((0..8).map(|i| byte >> i & 1 == 1));
    bits.push(byte.count_ones() % 2 == 1);
    bits.push(true);
    bits
}

/// The levels of the direction pin for a character.
fn driven() -> Vec<bool> {
    let mut levels = vec![false];
    levels.extend([true; 10]);
    levels
}

#[test]
fn character_length() {
    assert_eq!(CHARACTER_BITS, 11);
    assert_eq!(character(0x68).len(), 11);
    assert_eq!(driven().len(), 11);
}

#[test]
fn pin_is_low_while_the_line_is_idle() {
    assert_eq!(simulate(&[true; 40], &[]), [false; 40]);
}

#[test]
fn pin_follows_any_character() {
    for byte in 0..=255u8 {
        let mut tx = vec![true; 3];
        tx.extend(character(byte));
        tx.extend([true; 5]);
        let mut expected = vec![false; 3];
        expected.extend(driven());
        expected.extend([false; 5]);
        assert_eq!(simulate(&tx, &[]), expected);
    }
}

#[test]
fn pin_follows_characters_without_and_with_gaps() {
    let mut tx = Vec::new();
    let mut expected = Vec::new();
    for gap in [0usize, 0, 1, 2, 7, 0, 1] {
        tx.extend(character(0xA5));
        expected.extend(driven());
        tx.extend(vec![true; gap]);
        expected.extend(vec![false; gap]);
    }
    assert_eq!(simulate(&tx, &[]), expected);
}

#[test]
fn words_do_not_move_the_pin() {
    // A transmission that is announced long before it starts does not raise the pin.
    assert_eq!(simulate(&[true; 20], &[(2, TRANSMIT_WORD)]), [false; 20]);

    let mut tx = vec![true; 2];
    tx.extend(character(0x10));
    tx.extend(character(0xFF));
    tx.extend([true; 12]);
    let silent = simulate(&tx, &[]);
    // The end of the transmission is announced early, late, often, or not at all.
    assert_eq!(simulate(&tx, &[(0, TRANSMIT_WORD), (5, RECEIVE_WORD)]), silent);
    assert_eq!(simulate(&tx, &[(0, TRANSMIT_WORD), (33, RECEIVE_WORD)]), silent);
    assert_eq!(simulate(&tx, &[(0, TRANSMIT_WORD)]), silent);
    let many: Vec<(usize, u32)> = (0..30).map(|at| (at, at as u32)).collect();
    assert_eq!(simulate(&tx, &many), silent);
}

#[test]
fn program_is_set_up_for_the_pins() {
    let rate = Baudrate::new(19200, 1, 0, Duration::from_micros(52)).unwrap();
    let (_, setup) = Rp2040PioPhy::new(vec![0; 8], rate, 125_000_000);
    assert_eq!(setup.side_set_pin_base, DE_PIN);
    assert_eq!(setup.in_pin_base, TX_PIN);
}

#[test]
fn both_phys_set_up_the_uart_alike() {
    let rate = Baudrate::new(1_500_000, 1, 0, Duration::from_micros(0)).unwrap();
    let (_, pin) = Rp2040Phy::new(vec![0; 8], rate);
    let (_, pio) = Rp2040PioPhy::new(vec![0; 8], rate, 125_000_000);
    assert_eq!(pin.uart, pio.uart);
}
