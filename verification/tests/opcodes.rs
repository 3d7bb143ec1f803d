use chip8::CPU;

#[test]
fn test_00e0() {
    let mut cpu = CPU::new();
    cpu.display[1 * 64 + 1] = 1;
    cpu.cls_00e0();
    for y in 0..32 {
        for x in 0..64 {
            assert_eq!(cpu.display[y * 64 + x], 0);
        }
    }
}

#[test]
fn test_00ee() {
    let mut cpu = CPU::new();
    cpu.pc = 0x1000;
    cpu.sp = 5;
    cpu.stack[4] = 0x200;
    cpu.ret_00ee();
    assert_eq!(cpu.pc, 0x200);
}

#[test]
fn test_1nnn() {
    let mut cpu = CPU::new();
    cpu.pc = 0x1000;
    cpu.jmp_1nnn(0x200);
    assert_eq!(cpu.pc, 0x200);
}

#[test]
fn test_2nnn() {
    let mut cpu = CPU::new();
    cpu.call_2nnn(0x400);
    assert_eq!(cpu.pc, 0x400);
    assert_eq!(cpu.sp, 1);
    assert_eq!(cpu.stack[0], 0x200);
}

#[test]
fn test_3xnn() {
    let mut cpu = CPU::new();
    cpu.pc = 0x400;
    cpu.r[0] = 0x45;
    cpu.se_3xnn(0, 0x45);
    assert_eq!(cpu.pc, 0x402);
}

#[test]
fn test_4xnn() {
    let mut cpu = CPU::new();
    cpu.pc = 0x400;
    cpu.r[0] = 0x45;
    cpu.sne_4xnn(0, 0x46);
    assert_eq!(cpu.pc, 0x400 + 2);
}

#[test]
fn skip_not_taken_leaves_pc() {
    let mut cpu = CPU::new();
    cpu.pc = 0x400;
    cpu.r[0] = 0x45;
    cpu.se_3xnn(0, 0x46);
    assert_eq!(cpu.pc, 0x400);
    cpu.sne_4xnn(0, 0x45);
    assert_eq!(cpu.pc, 0x400);
}

#[test]
fn skip_on_register_pairs() {
    let mut cpu = CPU::new();
    cpu.pc = 0x400;
    cpu.r[2] = 9;
    cpu.r[3] = 9;
    cpu.se_5xy0(2, 3);
    assert_eq!(cpu.pc, 0x402);
    cpu.sne_9xy0(2, 3);
    assert_eq!(cpu.pc, 0x402);
    cpu.r[3] = 8;
    cpu.sne_9xy0(2, 3);
    assert_eq!(cpu.pc, 0x404);
}

#[test]
fn load_and_add_immediate() {
    let mut cpu = CPU::new();
    cpu.ld_6xnn(4, 0xAB);
    assert_eq!(cpu.r[4], 0xAB);
    cpu.add_7xnn(4, 0x60);
    assert_eq!(cpu.r[4], 0x0B);
    assert_eq!(cpu.r[15], 0, "7xnn must not touch the flag");
}

#[test]
fn bitwise_register_ops() {
    let mut cpu = CPU::new();
    cpu.r[0] = 0b1100;
    cpu.r[1] = 0b1010;
    cpu.ld_8xy0(2, 0);
    assert_eq!(cpu.r[2], 0b1100);
    cpu.or_8xy1(2, 1);
    assert_eq!(cpu.r[2], 0b1110);
    cpu.and_8xy2(2, 0);
    assert_eq!(cpu.r[2], 0b1100);
    cpu.xor_8xy3(2, 1);
    assert_eq!(cpu.r[2], 0b0110);
}

#[test]
fn add_with_carry_flag() {
    let mut cpu = CPU::new();
    cpu.r[0] = 0xFF;
    cpu.r[1] = 0x01;
    cpu.c_add_8xy4(0, 1);
    assert_eq!(cpu.r[0], 0x00);
    assert_eq!(cpu.r[15], 1);
    cpu.r[2] = 0x01;
    cpu.r[3] = 0x01;
    cpu.c_add_8xy4(2, 3);
    assert_eq!(cpu.r[2], 0x02);
    assert_eq!(cpu.r[15], 0);
}

#[test]
fn sub_not_borrow_flag() {
    let mut cpu = CPU::new();
    cpu.r[0] = 5;
    cpu.r[1] = 3;
    cpu.c_sub_8xy5(0, 1);
    assert_eq!(cpu.r[0], 2);
    assert_eq!(cpu.r[15], 1, "no borrow: flag 1");
    cpu.r[0] = 3;
    cpu.r[1] = 5;
    cpu.c_sub_8xy5(0, 1);
    assert_eq!(cpu.r[0], 254);
    assert_eq!(cpu.r[15], 0, "borrow: flag 0");
}

#[test]
fn subn_not_borrow_flag() {
    let mut cpu = CPU::new();
    cpu.r[0] = 3;
    cpu.r[1] = 5;
    cpu.bc_sub_8xy7(0, 1);
    assert_eq!(cpu.r[0], 2);
    assert_eq!(cpu.r[15], 1);
    cpu.r[0] = 5;
    cpu.r[1] = 3;
    cpu.bc_sub_8xy7(0, 1);
    assert_eq!(cpu.r[0], 254);
    assert_eq!(cpu.r[15], 0);
}

#[test]
fn shifts_move_edge_bits_into_flag() {
    let mut cpu = CPU::new();
    cpu.r[1] = 0b0000_0101;
    cpu.shr_8xy6(0, 1);
    assert_eq!(cpu.r[0], 0b0000_0010);
    assert_eq!(cpu.r[15], 1);
    cpu.r[1] = 0b1000_0001;
    cpu.shl_8xye(0, 1);
    assert_eq!(cpu.r[0], 0b0000_0010);
    assert_eq!(cpu.r[15], 1);
    cpu.r[1] = 0b0100_0000;
    cpu.shl_8xye(0, 1);
    assert_eq!(cpu.r[0], 0b1000_0000);
    assert_eq!(cpu.r[15], 0);
}

#[test]
fn index_register_ops() {
    let mut cpu = CPU::new();
    cpu.ld_annn(0x123);
    assert_eq!(cpu.i, 0x123);
    cpu.r[0] = 0x10;
    cpu.add_i_fx1e(0);
    assert_eq!(cpu.i, 0x133);
    cpu.r[3] = 0xA;
    cpu.ld_f_fx29(3);
    assert_eq!(cpu.i, 50, "glyph A sits at byte 10 * 5");
}

#[test]
fn jump_with_offset() {
    let mut cpu = CPU::new();
    cpu.r[0] = 0x12;
    cpu.jmp_bnnn(0x300);
    assert_eq!(cpu.pc, 0x312);
    assert!(cpu.skip_next_cycle);
}

#[test]
fn random_masking() {
    let mut cpu = CPU::new();
    cpu.rand_cxnn(6, 0x0F, 0xAB);
    assert_eq!(cpu.r[6], 0x0B);
    cpu.rand_cxnn(6, 0x00, 0xFF);
    assert_eq!(cpu.r[6], 0x00);
}

#[test]
fn timer_transfers() {
    let mut cpu = CPU::new();
    cpu.r[2] = 42;
    cpu.ld_dt_fx15(2);
    assert_eq!(cpu.delay_timer, 42);
    cpu.ld_st_fx18(2);
    assert_eq!(cpu.sound_timer, 42);
    cpu.ld_dt_fx07(5);
    assert_eq!(cpu.r[5], 42);
}

#[test]
fn bcd_store_writes_digits_in_order() {
    let mut cpu = CPU::new();
    cpu.r[0] = 234;
    cpu.i = 100;
    cpu.ld_b_fx33(0);
    assert_eq!(cpu.memory[100], 2);
    assert_eq!(cpu.memory[101], 3);
    assert_eq!(cpu.memory[102], 4);
}

#[test]
fn bcd_store_small_value() {
    let mut cpu = CPU::new();
    cpu.r[1] = 7;
    cpu.i = 0x300;
    cpu.ld_b_fx33(1);
    assert_eq!(cpu.memory[0x300], 0);
    assert_eq!(cpu.memory[0x301], 0);
    assert_eq!(cpu.memory[0x302], 7);
}

#[test]
fn block_store_then_load_round_trips() {
    let mut cpu = CPU::new();
    for k in 0..8u8 {
        cpu.r[k as usize] = 0x10 + k;
    }
    cpu.i = 0x250;
    cpu.ld_reg_fx55(7);
    for k in 0..8usize {
        assert_eq!(cpu.memory[0x250 + k], 0x10 + k as u8);
    }
    for k in 0..8usize {
        cpu.r[k] = 0;
    }
    cpu.ld_reg_fx65(7);
    for k in 0..8usize {
        assert_eq!(cpu.r[k], 0x10 + k as u8);
    }
    assert_eq!(cpu.r[8], 0, "registers past x stay untouched");
}

#[test]
fn draw_sets_pixels_and_collision_flag() {
    let mut cpu = CPU::new();
    cpu.i = 0x300;
    cpu.memory[0x300] = 0xF0;
    cpu.memory[0x301] = 0x90;
    cpu.r[0] = 4;
    cpu.r[1] = 2;
    cpu.draw_dxyn(0, 1, 2);
    assert_eq!(cpu.r[15], 0, "first draw on a clear screen: no collision");
    assert_eq!(cpu.display[2 * 64 + 4], 1);
    assert_eq!(cpu.display[2 * 64 + 5], 1);
    assert_eq!(cpu.display[2 * 64 + 6], 1);
    assert_eq!(cpu.display[2 * 64 + 7], 1);
    assert_eq!(cpu.display[2 * 64 + 8], 0);
    assert_eq!(cpu.display[3 * 64 + 4], 1);
    assert_eq!(cpu.display[3 * 64 + 5], 0);
    assert_eq!(cpu.display[3 * 64 + 7], 1);
}

#[test]
fn draw_twice_restores_and_collides() {
    let mut cpu = CPU::new();
    cpu.i = 0x300;
    for k in 0..5usize {
        cpu.memory[0x300 + k] = [0xF0, 0x90, 0xF0, 0x90, 0x90][k];
    }
    cpu.r[0] = 10;
    cpu.r[1] = 11;
    cpu.draw_dxyn(0, 1, 5);
    assert_eq!(cpu.r[15], 0);
    cpu.draw_dxyn(0, 1, 5);
    assert_eq!(cpu.r[15], 1, "second identical draw reports a collision");
    for y in 0..32 {
        for x in 0..64 {
            assert_eq!(cpu.display[y * 64 + x], 0, "xor is self-inverse");
        }
    }
}

#[test]
fn draw_wraps_at_column_63() {
    let mut cpu = CPU::new();
    cpu.i = 0x300;
    cpu.memory[0x300] = 0xC0;
    cpu.r[0] = 63;
    cpu.r[1] = 0;
    cpu.draw_dxyn(0, 1, 1);
    assert_eq!(cpu.display[63], 1, "bit 0 lands in column 63");
    assert_eq!(cpu.display[0], 1, "bit 1 wraps to column 0");
    for x in 1..63 {
        assert_eq!(cpu.display[x], 0);
    }
    assert_eq!(cpu.r[15], 0);
}

#[test]
fn draw_wraps_rows_modulo_32() {
    let mut cpu = CPU::new();
    cpu.i = 0x300;
    cpu.memory[0x300] = 0x80;
    cpu.memory[0x301] = 0x80;
    cpu.r[0] = 0;
    cpu.r[1] = 31;
    cpu.draw_dxyn(0, 1, 2);
    assert_eq!(cpu.display[31 * 64], 1, "first row in row 31");
    assert_eq!(cpu.display[0], 1, "second row wraps to row 0");
}
