use chippy::{Chip8, Outcome};

fn loaded(rom: &[u8]) -> Chip8 {
    let mut ch = Chip8::new();
    assert_eq!(ch.load_rom(rom), Ok(()));
    ch
}

fn snapshot(ch: &Chip8) -> (bool, bool, u16, u16, usize, [u8; 16], Vec<u8>, Vec<bool>) {
    (
        ch.ready(),
        ch.running(),
        ch.pc(),
        ch.i(),
        ch.sp(),
        *ch.v(),
        ch.ram().to_vec(),
        ch.vram().iter().flat_map(|row| row.iter().copied()).collect(),
    )
}

#[test]
fn a_machine_without_a_program_idles() {
    let mut ch = Chip8::new();
    let before = snapshot(&ch);
    assert_eq!(ch.tick(), Outcome::Idle);
    assert_eq!(ch.tick_with(3), Outcome::Idle);
    assert_eq!(snapshot(&ch), before);
}

#[test]
fn a_step_runs_one_instruction() {
    let mut ch = loaded(&[0x6A, 0x05, 0x7A, 0x03]);
    assert_eq!(ch.tick(), Outcome::Executed { pc: 0x200, opcode: 0x6A05 });
    assert_eq!(ch.pc(), 0x202);
    assert_eq!(ch.v()[0xA], 5);
    assert_eq!(ch.tick(), Outcome::Executed { pc: 0x202, opcode: 0x7A03 });
    assert_eq!(ch.pc(), 0x204);
    assert_eq!(ch.v()[0xA], 8);
}

#[test]
fn arithmetic_through_the_driver() {
    let mut ch = loaded(&[
        0x61, 0xC8, 0x62, 0x64, 0x81, 0x24, 0x83, 0x20, 0x83, 0x15, 0x84, 0x10, 0x84, 0x27, 0x85,
        0x26, 0x86, 0x2E,
    ]);
    for _ in 0..9usize {
        assert!(matches!(ch.tick(), Outcome::Executed { .. }));
    }
    assert_eq!(ch.pc(), 0x212);
    assert_eq!(ch.v()[1], 44);
    assert_eq!(ch.v()[2], 100);
    assert_eq!(ch.v()[3], 56);
    assert_eq!(ch.v()[4], 56);
    assert_eq!(ch.v()[5], 50);
    assert_eq!(ch.v()[6], 200);
    assert_eq!(ch.v()[0xF], 0);
}

#[test]
fn jump_moves_the_program_counter() {
    let mut ch = loaded(&[0x12, 0x08]);
    assert_eq!(ch.tick(), Outcome::Executed { pc: 0x200, opcode: 0x1208 });
    assert_eq!(ch.pc(), 0x208);
    assert!(ch.ready());
}

#[test]
fn jump_to_self_halts_on_the_first_step() {
    let mut ch = loaded(&[0x12, 0x00]);
    assert_eq!(ch.tick(), Outcome::InfiniteLoop { pc: 0x200, opcode: 0x1200 });
    assert!(!ch.ready());
    assert!(ch.running());
    assert_eq!(ch.pc(), 0x200);
    let halted = snapshot(&ch);
    assert_eq!(ch.tick(), Outcome::Idle);
    assert_eq!(ch.tick(), Outcome::Idle);
    assert_eq!(snapshot(&ch), halted);
}

#[test]
fn jump_to_self_later_in_the_program() {
    let mut ch = loaded(&[0x61, 0x07, 0x12, 0x02]);
    assert_eq!(ch.tick(), Outcome::Executed { pc: 0x200, opcode: 0x6107 });
    assert_eq!(ch.tick(), Outcome::InfiniteLoop { pc: 0x202, opcode: 0x1202 });
    assert!(!ch.ready());
    assert_eq!(ch.pc(), 0x202);
    assert_eq!(ch.v()[1], 7);
}

#[test]
fn a_loop_of_two_instructions_keeps_running() {
    let mut ch = loaded(&[0x71, 0x01, 0x12, 0x00]);
    for _ in 0..10usize {
        assert!(matches!(ch.tick(), Outcome::Executed { .. }));
    }
    assert!(ch.ready());
    assert_eq!(ch.v()[1], 5);
    assert_eq!(ch.pc(), 0x200);
}

#[test]
fn unknown_word_stops_and_keeps_the_program_counter() {
    let mut ch = loaded(&[0xF0, 0x00]);
    assert_eq!(ch.tick(), Outcome::NotImplemented { pc: 0x200, opcode: 0xF000 });
    assert!(!ch.running());
    assert!(ch.ready());
    assert_eq!(ch.pc(), 0x200);
    let stopped = snapshot(&ch);
    assert_eq!(ch.tick(), Outcome::Idle);
    assert_eq!(snapshot(&ch), stopped);
}

#[test]
fn unknown_word_inside_a_known_family_stops() {
    let mut ch = loaded(&[0x61, 0x01, 0x81, 0x28]);
    assert!(matches!(ch.tick(), Outcome::Executed { .. }));
    assert_eq!(ch.tick(), Outcome::NotImplemented { pc: 0x202, opcode: 0x8128 });
    assert!(!ch.running());
    assert_eq!(ch.pc(), 0x202);
    assert_eq!(ch.v()[1], 1);
}

#[test]
fn empty_memory_is_an_unknown_word() {
    let mut ch = loaded(&[]);
    assert_eq!(ch.tick(), Outcome::NotImplemented { pc: 0x200, opcode: 0x0000 });
    assert!(!ch.running());
}

#[test]
fn key_skip_is_not_implemented() {
    let mut ch = loaded(&[0xE3, 0x9E]);
    assert_eq!(ch.tick(), Outcome::NotImplemented { pc: 0x200, opcode: 0xE39E });
    assert!(!ch.running());
    assert!(ch.ready());
    assert_eq!(ch.pc(), 0x200);
    assert_eq!(ch.tick(), Outcome::Idle);
}

#[test]
fn call_then_return_comes_back_after_the_call() {
    let mut ch = loaded(&[0x22, 0x06, 0x61, 0x01, 0x00, 0x00, 0x00, 0xEE]);
    assert_eq!(ch.tick(), Outcome::Executed { pc: 0x200, opcode: 0x2206 });
    assert_eq!(ch.pc(), 0x206);
    assert_eq!(ch.sp(), 1);
    assert_eq!(ch.tick(), Outcome::Executed { pc: 0x206, opcode: 0x00EE });
    assert_eq!(ch.pc(), 0x202);
    assert_eq!(ch.sp(), 0);
    assert_eq!(ch.tick(), Outcome::Executed { pc: 0x202, opcode: 0x6101 });
    assert_eq!(ch.v()[1], 1);
}

#[test]
fn nested_calls_return_in_reverse_order() {
    let mut ch = loaded(&[
        0x22, 0x04, 0x12, 0x02, 0x22, 0x08, 0x00, 0xEE, 0x6B, 0x2A, 0x00, 0xEE,
    ]);
    let mut trace: Vec<u16> = Vec::new();
    for _ in 0..5usize {
        assert!(matches!(ch.tick(), Outcome::Executed { .. }));
        trace.push(ch.pc());
    }
    assert_eq!(trace, vec![0x204, 0x208, 0x20A, 0x206, 0x202]);
    assert_eq!(ch.sp(), 0);
    assert_eq!(ch.v()[0xB], 0x2A);
}

#[test]
fn return_without_a_call_halts() {
    let mut ch = loaded(&[0x00, 0xEE]);
    assert_eq!(ch.tick(), Outcome::StackUnderflow { pc: 0x200, opcode: 0x00EE });
    assert!(!ch.ready());
    assert!(ch.running());
    assert_eq!(ch.pc(), 0x200);
    assert_eq!(ch.sp(), 0);
    assert_eq!(ch.tick(), Outcome::Idle);
}

#[test]
fn the_seventeenth_nested_call_halts() {
    let mut ch = loaded(&[0x22, 0x00]);
    for depth in 1..=16usize {
        assert_eq!(ch.tick(), Outcome::Executed { pc: 0x200, opcode: 0x2200 });
        assert_eq!(ch.sp(), depth);
        assert!(ch.ready());
    }
    assert_eq!(ch.tick(), Outcome::StackOverflow { pc: 0x200, opcode: 0x2200 });
    assert!(!ch.ready());
    assert_eq!(ch.sp(), 16);
    assert_eq!(ch.pc(), 0x200);
    assert_eq!(ch.tick(), Outcome::Idle);
}

#[test]
fn skips_through_the_driver() {
    let mut ch = loaded(&[
        0x61, 0x05, 0x31, 0x05, 0x00, 0x00, 0x41, 0x05, 0x51, 0x10, 0x00, 0x00, 0x91, 0x10, 0x31,
        0x06,
    ]);
    let mut trace: Vec<u16> = Vec::new();
    for _ in 0..6usize {
        assert!(matches!(ch.tick(), Outcome::Executed { .. }));
        trace.push(ch.pc());
    }
    assert_eq!(trace, vec![0x202, 0x206, 0x208, 0x20C, 0x20E, 0x210]);
}

#[test]
fn running_off_the_end_of_memory_halts() {
    let mut ch = loaded(&[0x1F, 0xFF]);
    assert_eq!(ch.tick(), Outcome::Executed { pc: 0x200, opcode: 0x1FFF });
    assert_eq!(ch.pc(), 0xFFF);
    assert_eq!(ch.tick(), Outcome::PcOutOfMemory { pc: 0xFFF });
    assert!(!ch.ready());
    assert!(ch.running());
    assert_eq!(ch.pc(), 0xFFF);
    assert_eq!(ch.tick(), Outcome::Idle);
}

#[test]
fn the_last_instruction_of_memory_runs() {
    let mut rom: Vec<u8> = vec![0; 4096 - 512];
    rom[0] = 0x1F;
    rom[1] = 0xFE;
    rom[0xFFE - 0x200] = 0x63;
    rom[0xFFF - 0x200] = 0x09;
    let mut ch = loaded(&rom);
    assert_eq!(ch.tick(), Outcome::Executed { pc: 0x200, opcode: 0x1FFE });
    assert_eq!(ch.tick(), Outcome::Executed { pc: 0xFFE, opcode: 0x6309 });
    assert_eq!(ch.v()[3], 9);
    assert_eq!(ch.pc(), 0x1000);
    assert_eq!(ch.tick(), Outcome::PcOutOfMemory { pc: 0x1000 });
    assert!(!ch.ready());
}

#[test]
fn a_computed_jump_past_memory_halts_on_the_next_step() {
    let mut ch = loaded(&[0x60, 0xFF, 0xBF, 0xFF]);
    assert!(matches!(ch.tick(), Outcome::Executed { .. }));
    assert_eq!(ch.tick(), Outcome::Executed { pc: 0x202, opcode: 0xBFFF });
    assert_eq!(ch.pc(), 0x10FE);
    assert_eq!(ch.tick(), Outcome::PcOutOfMemory { pc: 0x10FE });
    assert!(!ch.ready());
}

#[test]
fn computed_jump_adds_v0() {
    let mut ch = loaded(&[0x60, 0x04, 0x61, 0x99, 0xB3, 0x00]);
    ch.tick();
    ch.tick();
    assert_eq!(ch.tick(), Outcome::Executed { pc: 0x204, opcode: 0xB300 });
    assert_eq!(ch.pc(), 0x304);
}

#[test]
fn a_sprite_past_the_end_of_memory_halts() {
    let mut ch = loaded(&[0xAF, 0xFC, 0xD0, 0x05]);
    assert!(matches!(ch.tick(), Outcome::Executed { .. }));
    assert_eq!(ch.i(), 0xFFC);
    let before = snapshot(&ch);
    assert_eq!(ch.tick(), Outcome::SpriteOutOfMemory { pc: 0x202, opcode: 0xD005 });
    assert!(!ch.ready());
    assert!(ch.running());
    assert_eq!(ch.pc(), 0x202);
    let after = snapshot(&ch);
    assert_eq!(after.7, before.7);
    assert_eq!(after.5, before.5);
    assert_eq!(ch.tick(), Outcome::Idle);
}

#[test]
fn a_sprite_that_ends_with_memory_is_drawn() {
    let mut ch = loaded(&[0xAF, 0xFC, 0xD0, 0x04]);
    ch.tick();
    assert_eq!(ch.tick(), Outcome::Executed { pc: 0x202, opcode: 0xD004 });
    assert!(ch.ready());
    assert_eq!(ch.pc(), 0x204);
}

#[test]
fn injected_random_byte_is_masked() {
    let mut ch = loaded(&[0xC1, 0x0F, 0xC2, 0xF0]);
    assert_eq!(ch.tick_with(0xAB), Outcome::Executed { pc: 0x200, opcode: 0xC10F });
    assert_eq!(ch.v()[1], 0x0B);
    assert_eq!(ch.pc(), 0x202);
    assert_eq!(ch.tick_with(0xAB), Outcome::Executed { pc: 0x202, opcode: 0xC2F0 });
    assert_eq!(ch.v()[2], 0xA0);
    assert_eq!(ch.pc(), 0x204);
}

#[test]
fn injected_byte_changes_nothing_but_the_random_instruction() {
    let rom: [u8; 8] = [0x61, 0x10, 0x71, 0x01, 0xA2, 0x22, 0x81, 0x14];
    let mut a = loaded(&rom);
    let mut b = loaded(&rom);
    for _ in 0..4usize {
        assert_eq!(a.tick_with(0x00), b.tick_with(0xFF));
        assert_eq!(snapshot(&a), snapshot(&b));
    }
}

#[test]
fn random_from_the_source_stays_within_the_mask() {
    let mut ch = loaded(&[0xC7, 0x18, 0x12, 0x00]);
    for _ in 0..50usize {
        assert_eq!(ch.tick(), Outcome::Executed { pc: 0x200, opcode: 0xC718 });
        assert_eq!(ch.v()[7] & !0x18, 0);
        assert_eq!(ch.pc(), 0x202);
        assert!(matches!(ch.tick(), Outcome::Executed { .. }));
    }
}

#[test]
fn draw_and_clear_through_the_driver() {
    let mut ch = loaded(&[0x60, 0x03, 0x61, 0x02, 0xA0, 0x00, 0xD0, 0x15, 0xD0, 0x15, 0xD0, 0x15, 0x00, 0xE0]);
    for _ in 0..4usize {
        assert!(matches!(ch.tick(), Outcome::Executed { .. }));
    }
    let rows: [(usize, [bool; 4]); 5] = [
        (2, [true, true, true, true]),
        (3, [true, false, false, true]),
        (4, [true, false, false, true]),
        (5, [true, false, false, true]),
        (6, [true, true, true, true]),
    ];
    for (y, bits) in rows {
        assert_eq!(&ch.vram()[y][3..7], &bits[..]);
    }
    let count = |ch: &Chip8| ch.vram().iter().flatten().filter(|p| **p).count();
    assert_eq!(count(&ch), 14);
    assert_eq!(ch.v()[0xF], 0);
    assert!(matches!(ch.tick(), Outcome::Executed { .. }));
    assert_eq!(count(&ch), 0);
    assert_eq!(ch.v()[0xF], 1);
    assert!(matches!(ch.tick(), Outcome::Executed { .. }));
    assert_eq!(count(&ch), 14);
    assert_eq!(ch.v()[0xF], 1);
    assert_eq!(ch.tick(), Outcome::Executed { pc: 0x20C, opcode: 0x00E0 });
    assert_eq!(count(&ch), 0);
    assert_eq!(ch.pc(), 0x20E);
}

#[test]
fn flags_never_come_back() {
    let mut ch = loaded(&[0x12, 0x00]);
    ch.tick();
    for _ in 0..20usize {
        ch.tick();
        assert!(!ch.ready());
    }
    let mut ch = loaded(&[0xFF, 0xFF]);
    ch.tick();
    for _ in 0..20usize {
        ch.tick_with(9);
        assert!(!ch.running());
    }
}
