//! The fetch/decode/dispatch step: one instruction executes atomically
//! against the machine state, the program counter advances by the fixed
//! instruction width unless a control transfer suppressed it, and every
//! fatal condition — unmapped opcode, stack overflow or underflow, an
//! index access outside the memory bound — halts the machine and is
//! surfaced with the offending program counter and instruction word.
use crate::cpu::{fetch, CpuView, CPU};
use crate::decode::{decode, decode_spec, lemma_operand_bounds, Instr};
use crate::draw::drw_effect;
use crate::ops::{
    add_i_effect, add_nn_effect, add_reg_effect, and_effect, bcd_effect, call_effect, cls_effect,
    jp_effect, jp_v0_effect, ld_dt_r_effect, ld_font_effect, ld_i_effect, ld_nn_effect,
    ld_r_dt_effect, ld_reg_effect, ld_st_r_effect, load_regs_effect, or_effect, ret_effect,
    rnd_effect, shl_effect, shr_effect, skip_if_effect, store_regs_effect, sub_reg_effect,
    subn_reg_effect, xor_effect,
};
use vstd::prelude::*;

verus! {

/// Why the machine halted: the fatal conditions of a malformed program.
#[derive(PartialEq, Eq, Structural, Clone, Copy, Debug)]
pub enum FaultKind {
    /// The fetched word maps to no opcode of the repertoire.
    UnknownOp,
    /// A call found the stack full.
    StackOverflow,
    /// A return found the stack empty.
    StackUnderflow,
    /// A computed index — the program counter at fetch, a sprite or
    /// block-transfer address, or the index register sum — left the
    /// addressable bound.
    OutOfBounds,
}

/// A fatal condition, surfaced with the offending program counter and the
/// instruction word (0 when the word itself could not be fetched).
#[derive(PartialEq, Eq, Structural, Clone, Copy, Debug)]
pub struct Fault {
    pub pc: u16,
    pub op: u16,
    pub kind: FaultKind,
}

/// Whether the key named by the low four bits of `k` is pressed in the
/// snapshot `keys` (bit `k` of the mask).
pub open spec fn key_pressed(keys: u16, k: u8) -> bool {
    (keys >> ((k & 0xF) as u16)) & 1 == 1
}

/// The smallest pressed key in the snapshot, from position `k` up; 0 when
/// none is pressed.
pub open spec fn lowest_key_from(keys: u16, k: int) -> u8
    decreases 16 - k,
{
    if k < 0 || k >= 16 {
        0
    } else if (keys >> (k as u16)) & 1 == 1 {
        k as u8
    } else {
        lowest_key_from(keys, k + 1)
    }
}

/// The smallest pressed key in the snapshot.
pub open spec fn lowest_key(keys: u16) -> u8 {
    lowest_key_from(keys, 0)
}

/// Wait-for-key: with no key pressed, logical progress is blocked by
/// suppressing the automatic advance, so the same instruction is
/// re-issued; once a key is pressed its value lands in register `x`.
pub open spec fn wait_key_effect(v: CpuView, x: u8, keys: u16) -> CpuView
    recommends
        x < 16,
{
    if keys == 0 {
        CpuView { skip_next_cycle: true, ..v }
    } else {
        CpuView { r: v.r.update(x as int, lowest_key(keys)), ..v }
    }
}

/// The automatic advance that ends every step: two bytes forward, unless
/// a control transfer asked for the advance to be skipped.
pub open spec fn advance_effect(v: CpuView) -> CpuView {
    if v.skip_next_cycle {
        CpuView { skip_next_cycle: false, ..v }
    } else if v.pc + 2 <= 0xFFFF {
        CpuView { pc: (v.pc + 2) as u16, ..v }
    } else {
        CpuView { pc: (v.pc + 2 - 0x10000) as u16, ..v }
    }
}

/// The effect of one decoded instruction on the machine view, before the
/// automatic advance. `keys` is the key-state snapshot and `rnd` the byte
/// the random opcode drew.
pub open spec fn exec_instr(v: CpuView, ins: Instr, keys: u16, rnd: u8) -> CpuView {
    match ins {
        Instr::Cls => cls_effect(v),
        Instr::Ret => ret_effect(v),
        Instr::Jp { nnn } => jp_effect(v, nnn),
        Instr::Call { nnn } => call_effect(v, nnn),
        Instr::SeNn { x, nn } => skip_if_effect(v, v.r[x as int] == nn),
        Instr::SneNn { x, nn } => skip_if_effect(v, v.r[x as int] != nn),
        Instr::SeReg { x, y } => skip_if_effect(v, v.r[x as int] == v.r[y as int]),
        Instr::LdNn { x, nn } => ld_nn_effect(v, x, nn),
        Instr::AddNn { x, nn } => add_nn_effect(v, x, nn),
        Instr::LdReg { x, y } => ld_reg_effect(v, x, y),
        Instr::OrReg { x, y } => or_effect(v, x, y),
        Instr::AndReg { x, y } => and_effect(v, x, y),
        Instr::XorReg { x, y } => xor_effect(v, x, y),
        Instr::AddReg { x, y } => add_reg_effect(v, x, y),
        Instr::SubReg { x, y } => sub_reg_effect(v, x, y),
        Instr::ShrReg { x, y } => shr_effect(v, x, y),
        Instr::SubnReg { x, y } => subn_reg_effect(v, x, y),
        Instr::ShlReg { x, y } => shl_effect(v, x, y),
        Instr::SneReg { x, y } => skip_if_effect(v, v.r[x as int] != v.r[y as int]),
        Instr::LdI { nnn } => ld_i_effect(v, nnn),
        Instr::JpV0 { nnn } => jp_v0_effect(v, nnn),
        Instr::Rnd { x, nn } => rnd_effect(v, x, nn, rnd),
        Instr::Drw { x, y, n } => drw_effect(v, x, y, n),
        Instr::Skp { x } => skip_if_effect(v, key_pressed(keys, v.r[x as int])),
        Instr::Sknp { x } => skip_if_effect(v, !key_pressed(keys, v.r[x as int])),
        Instr::LdRegDt { x } => ld_r_dt_effect(v, x),
        Instr::WaitKey { x } => wait_key_effect(v, x, keys),
        Instr::LdDtReg { x } => ld_dt_r_effect(v, x),
        Instr::LdStReg { x } => ld_st_r_effect(v, x),
        Instr::AddIReg { x } => add_i_effect(v, x),
        Instr::LdFont { x } => ld_font_effect(v, x),
        Instr::StBcd { x } => bcd_effect(v, x),
        Instr::StRegs { x } => store_regs_effect(v, x),
        Instr::LdRegs { x } => load_regs_effect(v, x),
        Instr::Unknown => v,
    }
}

/// The fatal condition one step from `v` would report, if any: it depends
/// only on the state, never on the key snapshot or the random draw.
pub open spec fn step_fault(v: CpuView) -> Option<FaultKind> {
    if v.pc + 1 >= 4096 {
        Some(FaultKind::OutOfBounds)
    } else {
        match decode_spec(fetch(v)) {
            Instr::Ret => if v.sp == 0 {
                Some(FaultKind::StackUnderflow)
            } else {
                None
            },
            Instr::Call { nnn } => if v.sp >= 16 {
                Some(FaultKind::StackOverflow)
            } else {
                None
            },
            Instr::Drw { x, y, n } => if n > 0 && v.i + n > 4096 {
                Some(FaultKind::OutOfBounds)
            } else {
                None
            },
            Instr::AddIReg { x } => if v.i + v.r[x as int] > 0xFFFF {
                Some(FaultKind::OutOfBounds)
            } else {
                None
            },
            Instr::StBcd { x } => if v.i + 2 >= 4096 {
                Some(FaultKind::OutOfBounds)
            } else {
                None
            },
            Instr::StRegs { x } => if v.i + x >= 4096 {
                Some(FaultKind::OutOfBounds)
            } else {
                None
            },
            Instr::LdRegs { x } => if v.i + x >= 4096 {
                Some(FaultKind::OutOfBounds)
            } else {
                None
            },
            Instr::Unknown => Some(FaultKind::UnknownOp),
            _ => None,
        }
    }
}

/// One whole fault-free step from `v`: fetch, decode, execute, then the
/// automatic advance. `rnd` is the byte the random opcode drew.
pub open spec fn step_spec(v: CpuView, keys: u16, rnd: u8) -> CpuView
    recommends
        step_fault(v) is None,
{
    advance_effect(exec_instr(v, decode_spec(fetch(v)), keys, rnd))
}

/// Relies on rand::random: a uniformly distributed byte from the thread's
/// generator. Nothing can be promised of the draw.
#[verifier::external_body]
fn random_byte() -> u8 {
    rand::random::<u8>()
}

/// The smallest pressed key in a nonzero snapshot.
fn lowest_pressed(keys: u16) -> (k: u8)
    requires
        keys != 0,
    ensures
        k == lowest_key(keys),
        k < 16,
{
    let mut k: u8 = 0;
    while k < 16
        invariant
            k <= 16,
            lowest_key(keys) == lowest_key_from(keys, k as int),
            forall|j: u16| j < k ==> #[trigger] (keys >> j) & 1 != 1,
        decreases 16 - k,
    {
        if (keys >> (k as u16)) & 1 == 1 {
            return k;
        }
        k = k + 1;
    }
    proof {
        assert(keys == 0) by (bit_vector)
            requires
                (keys >> 0u16) & 1 != 1,
                (keys >> 1u16) & 1 != 1,
                (keys >> 2u16) & 1 != 1,
                (keys >> 3u16) & 1 != 1,
                (keys >> 4u16) & 1 != 1,
                (keys >> 5u16) & 1 != 1,
                (keys >> 6u16) & 1 != 1,
                (keys >> 7u16) & 1 != 1,
                (keys >> 8u16) & 1 != 1,
                (keys >> 9u16) & 1 != 1,
                (keys >> 10u16) & 1 != 1,
                (keys >> 11u16) & 1 != 1,
                (keys >> 12u16) & 1 != 1,
                (keys >> 13u16) & 1 != 1,
                (keys >> 14u16) & 1 != 1,
                (keys >> 15u16) & 1 != 1,
        ;
    }
    0
}

impl CPU {
    /// Record a fatal condition: the machine halts and the fault carries
    /// the current program counter, the word `op` and the kind.
    fn fail(&mut self, op: u16, kind: FaultKind) -> (f: Fault)
        ensures
            final(self)@ == (CpuView { halted: true, ..old(self)@ }),
            f == (Fault { pc: old(self).pc, op, kind }),
    {
        self.halted = true;
        Fault { pc: self.pc, op, kind }
    }

    /// Execute one instruction atomically: fetch the word at the program
    /// counter, decode, dispatch, and advance by the instruction width
    /// unless a control transfer suppressed the advance. `keys` is the
    /// key-state snapshot, bit `k` meaning key `k` is pressed.
    ///
    /// Succeeds exactly when the step is no fatal condition; on a fault
    /// the machine halts unchanged and the fault reports the offending
    /// program counter and word. The random opcode draws a byte, so the
    /// outcome is one fault-free step for some drawn byte.
    pub fn step(&mut self, keys: u16) -> (res: Result<(), Fault>)
        requires
            !old(self).halted,
            old(self).sp <= 16,
        ensures
            res is Ok <==> step_fault(old(self)@) is None,
            match res {
                Ok(u) => exists|b: u8| final(self)@ == step_spec(old(self)@, keys, b),
                Err(f) => {
                    &&& Some(f.kind) == step_fault(old(self)@)
                    &&& f.pc == old(self).pc
                    &&& final(self)@ == (CpuView { halted: true, ..old(self)@ })
                    &&& (old(self).pc + 1 < 4096 ==> f.op == fetch(old(self)@))
                    &&& (old(self).pc + 1 >= 4096 ==> f.op == 0)
                },
            },
    {
        let ghost v0 = old(self)@;
        if self.pc >= 4095 {
            return Err(self.fail(0, FaultKind::OutOfBounds));
        }
        let w = self.read_op_code();
        let ins = decode(w);
        proof {
            lemma_operand_bounds(w);
        }
        let ghost mut rnd_b: u8 = 0;
        match ins {
            Instr::Cls => {
                self.cls_00e0();
            },
            Instr::Ret => {
                if self.sp == 0 {
                    return Err(self.fail(w, FaultKind::StackUnderflow));
                }
                self.ret_00ee();
            },
            Instr::Jp { nnn } => {
                self.jmp_1nnn(nnn);
            },
            Instr::Call { nnn } => {
                if self.sp >= 16 {
                    return Err(self.fail(w, FaultKind::StackOverflow));
                }
                self.call_2nnn(nnn);
            },
            Instr::SeNn { x, nn } => {
                self.se_3xnn(x, nn);
            },
            Instr::SneNn { x, nn } => {
                self.sne_4xnn(x, nn);
            },
            Instr::SeReg { x, y } => {
                self.se_5xy0(x, y);
            },
            Instr::LdNn { x, nn } => {
                self.ld_6xnn(x, nn);
            },
            Instr::AddNn { x, nn } => {
                self.add_7xnn(x, nn);
            },
            Instr::LdReg { x, y } => {
                self.ld_8xy0(x, y);
            },
            Instr::OrReg { x, y } => {
                self.or_8xy1(x, y);
            },
            Instr::AndReg { x, y } => {
                self.and_8xy2(x, y);
            },
            Instr::XorReg { x, y } => {
                self.xor_8xy3(x, y);
            },
            Instr::AddReg { x, y } => {
                self.c_add_8xy4(x, y);
            },
            Instr::SubReg { x, y } => {
                self.c_sub_8xy5(x, y);
            },
            Instr::ShrReg { x, y } => {
                self.shr_8xy6(x, y);
            },
            Instr::SubnReg { x, y } => {
                self.bc_sub_8xy7(x, y);
            },
            Instr::ShlReg { x, y } => {
                self.shl_8xye(x, y);
            },
            Instr::SneReg { x, y } => {
                self.sne_9xy0(x, y);
            },
            Instr::LdI { nnn } => {
                self.ld_annn(nnn);
            },
            Instr::JpV0 { nnn } => {
                self.jmp_bnnn(nnn);
            },
            Instr::Rnd { x, nn } => {
                let b = random_byte();
                proof {
                    rnd_b = b;
                }
                self.rand_cxnn(x, nn, b);
            },
            Instr::Drw { x, y, n } => {
                if n > 0 && (self.i > 4096 || self.i + n as u16 > 4096) {
                    return Err(self.fail(w, FaultKind::OutOfBounds));
                }
                self.draw_dxyn(x, y, n);
            },
            Instr::Skp { x } => {
                let rx: u8 = self.r[x as usize];
                let k: u8 = rx & 0xF;
                proof {
                    assert(k < 16) by (bit_vector)
                        requires
                            k == rx & 0xF,
                    ;
                }
                if (keys >> (k as u16)) & 1 == 1 {
                    self.pc = self.pc + 2;
                }
            },
            Instr::Sknp { x } => {
                let rx: u8 = self.r[x as usize];
                let k: u8 = rx & 0xF;
                proof {
                    assert(k < 16) by (bit_vector)
                        requires
                            k == rx & 0xF,
                    ;
                }
                if (keys >> (k as u16)) & 1 != 1 {
                    self.pc = self.pc + 2;
                }
            },
            Instr::LdRegDt { x } => {
                self.ld_dt_fx07(x);
            },
            Instr::WaitKey { x } => {
                if keys == 0 {
                    self.skip_next_cycle = true;
                } else {
                    let k = lowest_pressed(keys);
                    self.r[x as usize] = k;
                }
            },
            Instr::LdDtReg { x } => {
                self.ld_dt_fx15(x);
            },
            Instr::LdStReg { x } => {
                self.ld_st_fx18(x);
            },
            Instr::AddIReg { x } => {
                if self.i as u32 + self.r[x as usize] as u32 > 0xFFFF {
                    return Err(self.fail(w, FaultKind::OutOfBounds));
                }
                self.add_i_fx1e(x);
            },
            Instr::LdFont { x } => {
                self.ld_f_fx29(x);
            },
            Instr::StBcd { x } => {
                if self.i >= 4094 {
                    return Err(self.fail(w, FaultKind::OutOfBounds));
                }
                self.ld_b_fx33(x);
            },
            Instr::StRegs { x } => {
                if self.i >= 4096 || self.i + x as u16 >= 4096 {
                    return Err(self.fail(w, FaultKind::OutOfBounds));
                }
                self.ld_reg_fx55(x);
            },
            Instr::LdRegs { x } => {
                if self.i >= 4096 || self.i + x as u16 >= 4096 {
                    return Err(self.fail(w, FaultKind::OutOfBounds));
                }
                self.ld_reg_fx65(x);
            },
            Instr::Unknown => {
                return Err(self.fail(w, FaultKind::UnknownOp));
            },
        }
        proof {
            assert(self@ == exec_instr(v0, decode_spec(fetch(v0)), keys, rnd_b));
        }
        if !self.skip_next_cycle {
            if self.pc <= 0xFFFD {
                self.pc = self.pc + 2;
            } else {
                self.pc = self.pc - 0xFFFE;
            }
        } else {
            self.skip_next_cycle = false;
        }
        proof {
            assert(final(self)@ == step_spec(v0, keys, rnd_b));
            assert(exists|b: u8| final(self)@ == step_spec(v0, keys, b));
        }
        Ok(())
    }
}

} // verus!
