use chip8::decode::{decode, Instr};
use chip8::step::FaultKind;
use chip8::CPU;

#[test]
fn new_machine_starts_clean() {
    let cpu = CPU::new();
    assert_eq!(cpu.pc, 0x200);
    assert_eq!(cpu.sp, 0);
    assert_eq!(cpu.i, 0);
    assert!(!cpu.halted);
    assert!(!cpu.skip_next_cycle);
    assert!(cpu.memory.iter().all(|&b| b == 0));
    assert!(cpu.display.iter().all(|&p| p == 0));
}

#[test]
fn fontset_lands_in_low_memory() {
    let mut cpu = CPU::new();
    cpu.load_fondset();
    assert_eq!(cpu.memory[0], 0xF0);
    assert_eq!(cpu.memory[4], 0xF0);
    assert_eq!(cpu.memory[5], 0x20);
    assert_eq!(cpu.memory[79], 0x80);
    assert_eq!(cpu.memory[80], 0);
}

#[test]
fn load_copies_program_at_512() {
    let mut cpu = CPU::new();
    let rom = vec![0x60u8, 0x07, 0x30, 0x07];
    assert!(cpu.load(&rom));
    assert_eq!(cpu.memory[0x200], 0x60);
    assert_eq!(cpu.memory[0x201], 0x07);
    assert_eq!(cpu.memory[0x202], 0x30);
    assert_eq!(cpu.memory[0x203], 0x07);
    assert_eq!(cpu.memory[0x204], 0);
}

#[test]
fn load_rejects_an_oversized_program() {
    let mut cpu = CPU::new();
    let rom = vec![0xAAu8; 3585];
    assert!(!cpu.load(&rom));
    assert_eq!(cpu.memory[0x200], 0);
    let exact = vec![0xBBu8; 3584];
    assert!(cpu.load(&exact));
    assert_eq!(cpu.memory[4095], 0xBB);
}

#[test]
fn read_op_code_is_big_endian() {
    let mut cpu = CPU::new();
    cpu.memory[0x200] = 0x6A;
    cpu.memory[0x201] = 0x02;
    assert_eq!(cpu.read_op_code(), 0x6A02);
}

#[test]
fn reset_restores_state_but_keeps_memory() {
    let mut cpu = CPU::new();
    cpu.load_fondset();
    cpu.memory[0x200] = 0x12;
    cpu.r[3] = 9;
    cpu.i = 77;
    cpu.sp = 2;
    cpu.stack[0] = 0x456;
    cpu.display[5] = 1;
    cpu.delay_timer = 3;
    cpu.sound_timer = 4;
    cpu.halted = true;
    cpu.reset_emu();
    assert_eq!(cpu.pc, 0x200);
    assert_eq!(cpu.r[3], 0);
    assert_eq!(cpu.i, 0);
    assert_eq!(cpu.sp, 0);
    assert_eq!(cpu.stack[0], 0);
    assert_eq!(cpu.display[5], 0);
    assert_eq!(cpu.delay_timer, 0);
    assert_eq!(cpu.sound_timer, 0);
    assert!(!cpu.halted);
    assert_eq!(cpu.memory[0], 0xF0, "font survives a reset");
    assert_eq!(cpu.memory[0x200], 0x12, "program bytes survive a reset");
}

#[test]
fn pacing_controls() {
    let mut cpu = CPU::new();
    let before = cpu.delay_between_instructions;
    cpu.faster();
    assert_eq!(cpu.delay_between_instructions, before + 500);
    cpu.slower();
    cpu.slower();
    assert_eq!(cpu.delay_between_instructions, before - 500);
}

#[test]
fn timers_tick_to_zero_and_stay_there() {
    let mut cpu = CPU::new();
    cpu.delay_timer = 5;
    cpu.sound_timer = 2;
    for _ in 0..5 {
        cpu.tick_timers();
    }
    assert_eq!(cpu.delay_timer, 0, "five ticks drain a timer set to 5");
    assert_eq!(cpu.sound_timer, 0);
    cpu.tick_timers();
    assert_eq!(cpu.delay_timer, 0, "a sixth tick never goes negative");
    assert_eq!(cpu.sound_timer, 0);
}

#[test]
fn decode_covers_the_repertoire() {
    assert_eq!(decode(0x00E0), Instr::Cls);
    assert_eq!(decode(0x00EE), Instr::Ret);
    assert_eq!(decode(0x1ABC), Instr::Jp { nnn: 0xABC });
    assert_eq!(decode(0x2123), Instr::Call { nnn: 0x123 });
    assert_eq!(decode(0x3A55), Instr::SeNn { x: 0xA, nn: 0x55 });
    assert_eq!(decode(0x4A55), Instr::SneNn { x: 0xA, nn: 0x55 });
    assert_eq!(decode(0x5AB0), Instr::SeReg { x: 0xA, y: 0xB });
    assert_eq!(decode(0x6C10), Instr::LdNn { x: 0xC, nn: 0x10 });
    assert_eq!(decode(0x7C10), Instr::AddNn { x: 0xC, nn: 0x10 });
    assert_eq!(decode(0x8120), Instr::LdReg { x: 1, y: 2 });
    assert_eq!(decode(0x8121), Instr::OrReg { x: 1, y: 2 });
    assert_eq!(decode(0x8122), Instr::AndReg { x: 1, y: 2 });
    assert_eq!(decode(0x8123), Instr::XorReg { x: 1, y: 2 });
    assert_eq!(decode(0x8124), Instr::AddReg { x: 1, y: 2 });
    assert_eq!(decode(0x8125), Instr::SubReg { x: 1, y: 2 });
    assert_eq!(decode(0x8126), Instr::ShrReg { x: 1, y: 2 });
    assert_eq!(decode(0x8127), Instr::SubnReg { x: 1, y: 2 });
    assert_eq!(decode(0x812E), Instr::ShlReg { x: 1, y: 2 });
    assert_eq!(decode(0x9AB0), Instr::SneReg { x: 0xA, y: 0xB });
    assert_eq!(decode(0xA777), Instr::LdI { nnn: 0x777 });
    assert_eq!(decode(0xB777), Instr::JpV0 { nnn: 0x777 });
    assert_eq!(decode(0xC3F0), Instr::Rnd { x: 3, nn: 0xF0 });
    assert_eq!(decode(0xD125), Instr::Drw { x: 1, y: 2, n: 5 });
    assert_eq!(decode(0xE19E), Instr::Skp { x: 1 });
    assert_eq!(decode(0xE1A1), Instr::Sknp { x: 1 });
    assert_eq!(decode(0xF107), Instr::LdRegDt { x: 1 });
    assert_eq!(decode(0xF10A), Instr::WaitKey { x: 1 });
    assert_eq!(decode(0xF115), Instr::LdDtReg { x: 1 });
    assert_eq!(decode(0xF118), Instr::LdStReg { x: 1 });
    assert_eq!(decode(0xF11E), Instr::AddIReg { x: 1 });
    assert_eq!(decode(0xF129), Instr::LdFont { x: 1 });
    assert_eq!(decode(0xF133), Instr::StBcd { x: 1 });
    assert_eq!(decode(0xF155), Instr::StRegs { x: 1 });
    assert_eq!(decode(0xF165), Instr::LdRegs { x: 1 });
}

#[test]
fn decode_rejects_unmapped_words() {
    assert_eq!(decode(0x0000), Instr::Unknown);
    assert_eq!(decode(0x5AB1), Instr::Unknown);
    assert_eq!(decode(0x8128), Instr::Unknown);
    assert_eq!(decode(0x9AB1), Instr::Unknown);
    assert_eq!(decode(0xE155), Instr::Unknown);
    assert_eq!(decode(0xFFFF), Instr::Unknown);
}

#[test]
fn step_executes_load_then_skip() {
    let mut cpu = CPU::new();
    let rom = vec![0x60u8, 0x07, 0x30, 0x07];
    assert!(cpu.load(&rom));
    assert!(cpu.step(0).is_ok());
    assert_eq!(cpu.r[0], 7);
    assert_eq!(cpu.pc, 0x202);
    assert!(cpu.step(0).is_ok());
    assert_eq!(cpu.pc, 0x206, "a taken skip advances by 4, not 2");
}

#[test]
fn step_call_then_return_resumes_after_the_call() {
    let mut cpu = CPU::new();
    cpu.memory[0x200] = 0x23;
    cpu.memory[0x201] = 0x00;
    cpu.memory[0x300] = 0x00;
    cpu.memory[0x301] = 0xEE;
    assert!(cpu.step(0).is_ok());
    assert_eq!(cpu.pc, 0x300);
    assert_eq!(cpu.sp, 1);
    assert_eq!(cpu.stack[0], 0x200);
    assert!(cpu.step(0).is_ok());
    assert_eq!(cpu.sp, 0, "the stack pointer returns to its pre-call value");
    assert_eq!(cpu.pc, 0x202, "execution resumes after the call");
}

#[test]
fn step_jump_suppresses_the_advance() {
    let mut cpu = CPU::new();
    cpu.memory[0x200] = 0x14;
    cpu.memory[0x201] = 0x56;
    assert!(cpu.step(0).is_ok());
    assert_eq!(cpu.pc, 0x456);
    assert!(!cpu.skip_next_cycle);
}

#[test]
fn step_random_masks_the_draw() {
    let mut cpu = CPU::new();
    cpu.memory[0x200] = 0xC1;
    cpu.memory[0x201] = 0x00;
    assert!(cpu.step(0).is_ok());
    assert_eq!(cpu.r[1], 0, "a zero mask forces a zero result");
    cpu.memory[0x202] = 0xC2;
    cpu.memory[0x203] = 0x0F;
    assert!(cpu.step(0).is_ok());
    assert!(cpu.r[2] <= 0x0F, "the draw is masked to the low nibble");
}

#[test]
fn step_skips_on_key_state() {
    let mut cpu = CPU::new();
    cpu.r[1] = 3;
    cpu.memory[0x200] = 0xE1;
    cpu.memory[0x201] = 0x9E;
    assert!(cpu.step(1 << 3).is_ok());
    assert_eq!(cpu.pc, 0x204, "pressed key: skip");
    cpu.memory[0x204] = 0xE1;
    cpu.memory[0x205] = 0x9E;
    assert!(cpu.step(0).is_ok());
    assert_eq!(cpu.pc, 0x206, "released key: no skip");
    cpu.memory[0x206] = 0xE1;
    cpu.memory[0x207] = 0xA1;
    assert!(cpu.step(0).is_ok());
    assert_eq!(cpu.pc, 0x20A, "not-pressed test skips");
}

#[test]
fn step_wait_key_blocks_until_a_press() {
    let mut cpu = CPU::new();
    cpu.memory[0x200] = 0xF1;
    cpu.memory[0x201] = 0x0A;
    assert!(cpu.step(0).is_ok());
    assert_eq!(cpu.pc, 0x200, "no key: the same instruction re-issues");
    assert!(cpu.step(0b0000_0100).is_ok());
    assert_eq!(cpu.r[1], 2, "the pressed key's value lands in the register");
    assert_eq!(cpu.pc, 0x202);
}

#[test]
fn step_faults_on_unknown_opcode() {
    let mut cpu = CPU::new();
    cpu.memory[0x200] = 0xFF;
    cpu.memory[0x201] = 0xFF;
    let fault = cpu.step(0).unwrap_err();
    assert_eq!(fault.kind, FaultKind::UnknownOp);
    assert_eq!(fault.pc, 0x200);
    assert_eq!(fault.op, 0xFFFF);
    assert!(cpu.is_halted());
}

#[test]
fn step_faults_on_stack_underflow() {
    let mut cpu = CPU::new();
    cpu.memory[0x200] = 0x00;
    cpu.memory[0x201] = 0xEE;
    let fault = cpu.step(0).unwrap_err();
    assert_eq!(fault.kind, FaultKind::StackUnderflow);
    assert_eq!(fault.pc, 0x200);
    assert_eq!(fault.op, 0x00EE);
    assert!(cpu.is_halted());
}

#[test]
fn step_faults_on_stack_overflow() {
    let mut cpu = CPU::new();
    cpu.sp = 16;
    cpu.memory[0x200] = 0x23;
    cpu.memory[0x201] = 0x00;
    let fault = cpu.step(0).unwrap_err();
    assert_eq!(fault.kind, FaultKind::StackOverflow);
    assert!(cpu.is_halted());
}

#[test]
fn step_faults_when_fetch_leaves_memory() {
    let mut cpu = CPU::new();
    cpu.pc = 4095;
    let fault = cpu.step(0).unwrap_err();
    assert_eq!(fault.kind, FaultKind::OutOfBounds);
    assert_eq!(fault.pc, 4095);
    assert_eq!(fault.op, 0);
    assert!(cpu.is_halted());
}

#[test]
fn step_faults_on_out_of_bounds_draw() {
    let mut cpu = CPU::new();
    cpu.i = 4090;
    cpu.memory[0x200] = 0xD0;
    cpu.memory[0x201] = 0x1F;
    let fault = cpu.step(0).unwrap_err();
    assert_eq!(fault.kind, FaultKind::OutOfBounds);
    assert!(cpu.is_halted());
}

#[test]
fn step_faults_on_out_of_bounds_block_ops() {
    let mut cpu = CPU::new();
    cpu.i = 4090;
    cpu.memory[0x200] = 0xF7;
    cpu.memory[0x201] = 0x55;
    assert_eq!(cpu.step(0).unwrap_err().kind, FaultKind::OutOfBounds);
    let mut cpu2 = CPU::new();
    cpu2.i = 4094;
    cpu2.memory[0x200] = 0xF0;
    cpu2.memory[0x201] = 0x33;
    assert_eq!(cpu2.step(0).unwrap_err().kind, FaultKind::OutOfBounds);
    let mut cpu3 = CPU::new();
    cpu3.i = 0xFFFF;
    cpu3.r[0] = 1;
    cpu3.memory[0x200] = 0xF0;
    cpu3.memory[0x201] = 0x1E;
    assert_eq!(cpu3.step(0).unwrap_err().kind, FaultKind::OutOfBounds);
}

#[test]
fn step_zero_height_draw_reads_nothing() {
    let mut cpu = CPU::new();
    cpu.i = 5000;
    cpu.memory[0x200] = 0xD0;
    cpu.memory[0x201] = 0x10;
    cpu.r[15] = 1;
    assert!(cpu.step(0).is_ok(), "no rows means no memory access");
    assert_eq!(cpu.pc, 0x202);
    assert_eq!(cpu.r[15], 0, "an empty sprite collides with nothing");
    assert!(cpu.display.iter().all(|&p| p == 0));
}

#[test]
fn step_draws_through_the_framebuffer() {
    let mut cpu = CPU::new();
    cpu.load_fondset();
    cpu.r[0] = 0;
    cpu.ld_f_fx29(0);
    cpu.memory[0x200] = 0xD1;
    cpu.memory[0x201] = 0x25;
    cpu.r[1] = 8;
    cpu.r[2] = 8;
    assert!(cpu.step(0).is_ok());
    assert_eq!(cpu.pixel(8, 8), 1, "glyph 0 starts with a full top row");
    assert_eq!(cpu.pixel(8, 11), 1);
    assert_eq!(cpu.pixel(8, 12), 0);
    assert_eq!(cpu.r[15], 0);
}

#[test]
fn clear_screen_after_drawing() {
    let mut cpu = CPU::new();
    cpu.i = 0x300;
    cpu.memory[0x300] = 0xFF;
    cpu.r[0] = 0;
    cpu.r[1] = 0;
    cpu.draw_dxyn(0, 1, 1);
    assert_eq!(cpu.pixel(0, 0), 1);
    cpu.memory[0x200] = 0x00;
    cpu.memory[0x201] = 0xE0;
    assert!(cpu.step(0).is_ok());
    for y in 0..32 {
        for x in 0..64 {
            assert_eq!(cpu.pixel(y, x), 0);
        }
    }
}
