use chip8::assembler::{merge_bytes, Assembler, Instruction};
use chip8::emulator::{Emulator, Fault};

fn run_one(emu: &mut Emulator, word: u16) -> Result<(), Fault> {
    let at = emu.pc();
    // Programs are placed by loading; the word goes where the program
    // counter is.
    assert!(at >= 0x200 && at % 2 == 0);
    let mut rom = vec![0u8; (at - 0x200) as usize];
    rom.push((word >> 8) as u8);
    rom.push(word as u8);
    assert!(emu.load_rom(&rom).is_ok());
    let mut assembler = Assembler::new();
    assembler.fetch_opcode(emu);
    let instruction = assembler.decode(emu);
    assembler.execute(emu, &instruction)
}

#[test]
fn merge_bytes_puts_the_first_byte_high() {
    assert_eq!(merge_bytes(0x12, 0x34), 0x1234);
    assert_eq!(merge_bytes(0x00, 0xE0), 0x00E0);
    assert_eq!(merge_bytes(0xFF, 0x00), 0xFF00);
    assert_eq!(merge_bytes(0x00, 0x00), 0x0000);
}

#[test]
fn decode_cuts_the_word_into_its_fields() {
    let mut emu = Emulator::new();
    assert!(emu.load_rom(&[0xD1, 0x23]).is_ok());
    let mut assembler = Assembler::new();
    assembler.fetch_opcode(&emu);
    let instruction = assembler.decode(&mut emu);
    assert_eq!(instruction.id(), 0xD000);
    assert_eq!(instruction.x(), 0x1);
    assert_eq!(instruction.y(), 0x2);
    assert_eq!(instruction.n(), 0x3);
    assert_eq!(instruction.nn(), 0x23);
    assert_eq!(instruction.nnn(), 0x123);
}

#[test]
fn decode_of_all_ones_and_all_zeros() {
    let mut emu = Emulator::new();
    assert!(emu.load_rom(&[0xFF, 0xFF, 0x00, 0x00]).is_ok());
    let mut assembler = Assembler::new();
    assembler.fetch_opcode(&emu);
    let ones = assembler.decode(&mut emu);
    assert_eq!(ones.id(), 0xF000);
    assert_eq!(ones.x(), 0xF);
    assert_eq!(ones.y(), 0xF);
    assert_eq!(ones.n(), 0xF);
    assert_eq!(ones.nn(), 0xFF);
    assert_eq!(ones.nnn(), 0xFFF);
    assembler.fetch_opcode(&emu);
    let zeros = assembler.decode(&mut emu);
    assert_eq!(zeros.id(), 0);
    assert_eq!(zeros.x(), 0);
    assert_eq!(zeros.y(), 0);
    assert_eq!(zeros.n(), 0);
    assert_eq!(zeros.nn(), 0);
    assert_eq!(zeros.nnn(), 0);
}

#[test]
fn decode_moves_the_program_counter_and_nothing_else() {
    let mut emu = Emulator::new();
    assert!(emu.load_rom(&[0x6A, 0x55]).is_ok());
    let mut assembler = Assembler::new();
    assembler.fetch_opcode(&emu);
    assert_eq!(emu.pc(), 0x200);
    let _ = assembler.decode(&mut emu);
    assert_eq!(emu.pc(), 0x202);
    assert_eq!(emu.register(0xA), 0);
}

#[test]
fn fetch_reads_across_the_end_of_memory() {
    let mut emu = Emulator::new();
    let mut rom = vec![0u8; 4096 - 0x200];
    let last = rom.len() - 1;
    rom[last] = 0x6B;
    assert!(emu.load_rom(&rom).is_ok());
    emu.jump_to(0xFFF);
    let mut assembler = Assembler::new();
    assembler.fetch_opcode(&emu);
    let instruction = assembler.decode(&mut emu);
    // High byte from 0xFFF, low byte from address 0, the first font byte.
    assert_eq!(instruction.id(), 0x6000);
    assert_eq!(instruction.x(), 0xB);
    assert_eq!(instruction.nn(), 0xF0);
    assert_eq!(emu.pc(), 0x1001);
}

#[test]
fn execute_set_and_add_immediate() {
    let mut emu = Emulator::new();
    assert_eq!(run_one(&mut emu, 0x6A12), Ok(()));
    assert_eq!(emu.register(0xA), 0x12);
    assert_eq!(run_one(&mut emu, 0x7A03), Ok(()));
    assert_eq!(emu.register(0xA), 0x15);
    assert_eq!(run_one(&mut emu, 0x7AFF), Ok(()));
    assert_eq!(emu.register(0xA), 0x15);
    assert_eq!(emu.pc(), 0x206);
}

#[test]
fn execute_set_index_and_jump() {
    let mut emu = Emulator::new();
    assert_eq!(run_one(&mut emu, 0xA123), Ok(()));
    assert_eq!(emu.index(), 0x123);
    assert_eq!(run_one(&mut emu, 0x1400), Ok(()));
    assert_eq!(emu.pc(), 0x400);
}

#[test]
fn execute_register_class() {
    let mut emu = Emulator::new();
    emu.set_reg(1, 0x0C);
    emu.set_reg(2, 0x0A);
    assert_eq!(run_one(&mut emu, 0x8120), Ok(()));
    assert_eq!(emu.register(1), 0x0A);
    emu.set_reg(1, 0x0C);
    assert_eq!(run_one(&mut emu, 0x8121), Ok(()));
    assert_eq!(emu.register(1), 0x0E);
    emu.set_reg(1, 0x0C);
    assert_eq!(run_one(&mut emu, 0x8122), Ok(()));
    assert_eq!(emu.register(1), 0x08);
    emu.set_reg(1, 0x0C);
    assert_eq!(run_one(&mut emu, 0x8123), Ok(()));
    assert_eq!(emu.register(1), 0x06);
    emu.set_reg(1, 0x0C);
    assert_eq!(run_one(&mut emu, 0x8124), Ok(()));
    assert_eq!(emu.register(1), 0x16);
    assert_eq!(emu.register(0xF), 0);
    emu.set_reg(1, 0x0C);
    assert_eq!(run_one(&mut emu, 0x8125), Ok(()));
    assert_eq!(emu.register(1), 0x02);
    assert_eq!(emu.register(0xF), 1);
    emu.set_reg(1, 0x03);
    assert_eq!(run_one(&mut emu, 0x8127), Ok(()));
    assert_eq!(emu.register(1), 0x07);
    assert_eq!(emu.register(0xF), 1);
    emu.set_reg(1, 0x0C);
    assert_eq!(run_one(&mut emu, 0x8127), Ok(()));
    assert_eq!(emu.register(1), 0x0C);
    assert_eq!(emu.register(0xF), 0);
    assert_eq!(run_one(&mut emu, 0x8126), Ok(()));
    assert_eq!(emu.register(1), 0x05);
    assert_eq!(emu.register(0xF), 0);
    emu.set_reg(2, 0x0B);
    assert_eq!(run_one(&mut emu, 0x812E), Ok(()));
    assert_eq!(emu.register(1), 0x16);
    assert_eq!(emu.register(0xF), 1);
    assert_eq!(emu.register(2), 0x0B);
}

#[test]
fn execute_register_add_with_carry() {
    let mut emu = Emulator::new();
    emu.set_reg(0, 0xFF);
    emu.set_reg(1, 0x01);
    assert_eq!(run_one(&mut emu, 0x8014), Ok(()));
    assert_eq!(emu.register(0xF), 1);
    assert_eq!(emu.register(0), 0xFF);
}

#[test]
fn execute_call_and_return() {
    let mut emu = Emulator::new();
    assert_eq!(run_one(&mut emu, 0x2300), Ok(()));
    assert_eq!(emu.pc(), 0x300);
    assert_eq!(emu.stack_depth(), 1);
    assert_eq!(run_one(&mut emu, 0x00EE), Ok(()));
    assert_eq!(emu.pc(), 0x202);
    assert_eq!(emu.stack_depth(), 0);
}

#[test]
fn execute_return_without_call_faults_and_changes_nothing() {
    let mut emu = Emulator::new();
    emu.set_reg(3, 7);
    assert_eq!(run_one(&mut emu, 0x00EE), Err(Fault::EmptyStack));
    // The decoder has moved the program counter; the dispatcher moved
    // nothing.
    assert_eq!(emu.pc(), 0x202);
    assert_eq!(emu.stack_depth(), 0);
    assert_eq!(emu.register(3), 7);
}

#[test]
fn execute_draw_and_clear_screen() {
    let mut emu = Emulator::new();
    emu.set_reg(4, 1);
    emu.set_reg(5, 2);
    assert_eq!(run_one(&mut emu, 0xD452), Ok(()));
    assert!(emu.draw());
    // Two rows of digit 0, F0 and 90, at column 1, row 2.
    for i in 0..2048usize {
        let expected = [129, 130, 131, 132, 193, 196].contains(&i);
        assert_eq!(emu.screen(i), expected);
    }
    assert_eq!(run_one(&mut emu, 0xD452), Ok(()));
    assert_eq!(emu.register(0xF), 1);
    assert_eq!(run_one(&mut emu, 0xD452), Ok(()));
    assert_eq!(emu.register(0xF), 0);
    assert_eq!(run_one(&mut emu, 0x00E0), Ok(()));
    for i in 0..2048usize {
        assert!(!emu.screen(i));
    }
}

#[test]
fn execute_ignores_words_that_name_no_operation() {
    let words: [u16; 16] = [
        0x0000, 0x00E1, 0x00FE, 0x0123, 0x3012, 0x4012, 0x5120, 0x8128, 0x812F, 0x8129, 0x9120,
        0xB123, 0xC1FF, 0xE19E, 0xF107, 0xFFFF,
    ];
    for word in words {
        let mut emu = Emulator::new();
        emu.set_reg(1, 0x11);
        emu.set_reg(2, 0x22);
        emu.set_vf(0x33);
        emu.set_index(0x44);
        emu.call_subroutine(0x200);
        assert_eq!(run_one(&mut emu, word), Ok(()));
        assert_eq!(emu.pc(), 0x202);
        assert_eq!(emu.register(1), 0x11);
        assert_eq!(emu.register(2), 0x22);
        assert_eq!(emu.register(0xF), 0x33);
        assert_eq!(emu.index(), 0x44);
        assert_eq!(emu.stack_depth(), 1);
        assert!(!emu.draw());
        for i in 0..2048usize {
            assert!(!emu.screen(i));
        }
    }
}

#[test]
fn system_class_is_told_apart_by_the_low_byte() {
    // 0x01E0 clears the screen and 0x0FEE returns: the second group of four
    // bits plays no part.
    let mut emu = Emulator::new();
    emu.update_pixels(0, 0, 5);
    assert_eq!(run_one(&mut emu, 0x01E0), Ok(()));
    for i in 0..2048usize {
        assert!(!emu.screen(i));
    }
    emu.call_subroutine(0x204);
    assert_eq!(emu.pc(), 0x204);
    assert_eq!(run_one(&mut emu, 0x0FEE), Ok(()));
    assert_eq!(emu.pc(), 0x202);
}

#[test]
fn from_word_decodes_without_a_machine() {
    let instruction = Instruction::from_word(0x8AB4);
    assert_eq!(instruction.id(), 0x8000);
    assert_eq!(instruction.x(), 0xA);
    assert_eq!(instruction.y(), 0xB);
    assert_eq!(instruction.n(), 0x4);
    assert_eq!(instruction.nn(), 0xB4);
    assert_eq!(instruction.nnn(), 0xAB4);
}
