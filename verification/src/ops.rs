//! The opcode repertoire minus sprite drawing: one handler per opcode,
//! each with a spec function giving its exact effect on the machine view.
//!
//! Operand naming follows the instruction encoding: `x`, `y` are register
//! indices (4-bit), `nn` an 8-bit immediate, `nnn` a 12-bit address, and
//! each handler carries the opcode pattern in its name.
use crate::cpu::{CpuView, CPU};
use vstd::prelude::*;

verus! {

/// Wrapping 8-bit addition.
pub open spec fn wrap_add8(a: u8, b: u8) -> u8 {
    if (a as int + b as int) < 256 {
        (a as int + b as int) as u8
    } else {
        (a as int + b as int - 256) as u8
    }
}

/// Wrapping 8-bit subtraction.
pub open spec fn wrap_sub8(a: u8, b: u8) -> u8 {
    if a >= b {
        (a as int - b as int) as u8
    } else {
        (a as int - b as int + 256) as u8
    }
}

/// Clear screen: every framebuffer cell becomes 0.
pub open spec fn cls_effect(v: CpuView) -> CpuView {
    CpuView { fb: Seq::new(2048, |j: int| 0u8), ..v }
}

/// Return: pop the top return address into the program counter.
pub open spec fn ret_effect(v: CpuView) -> CpuView
    recommends
        v.sp >= 1,
{
    CpuView { sp: (v.sp - 1) as u8, pc: v.stack[v.sp as int - 1], ..v }
}

/// Jump: set the program counter; the automatic advance is suppressed.
pub open spec fn jp_effect(v: CpuView, nnn: u16) -> CpuView {
    CpuView { pc: nnn, skip_next_cycle: true, ..v }
}

/// Call: push the current program counter, then jump.
pub open spec fn call_effect(v: CpuView, nnn: u16) -> CpuView
    recommends
        v.sp < 16,
{
    CpuView {
        stack: v.stack.update(v.sp as int, v.pc),
        sp: (v.sp + 1) as u8,
        pc: nnn,
        skip_next_cycle: true,
        ..v
    }
}

/// Conditional skip: one extra instruction width when `cond` holds.
pub open spec fn skip_if_effect(v: CpuView, cond: bool) -> CpuView
    recommends
        v.pc + 2 <= u16::MAX,
{
    if cond {
        CpuView { pc: (v.pc + 2) as u16, ..v }
    } else {
        v
    }
}

/// Load immediate: register `x` becomes `nn`; no flag side effect.
pub open spec fn ld_nn_effect(v: CpuView, x: u8, nn: u8) -> CpuView
    recommends
        x < 16,
{
    CpuView { r: v.r.update(x as int, nn), ..v }
}

/// Add immediate: wrapping 8-bit addition; the flag is not touched.
pub open spec fn add_nn_effect(v: CpuView, x: u8, nn: u8) -> CpuView
    recommends
        x < 16,
{
    CpuView { r: v.r.update(x as int, wrap_add8(v.r[x as int], nn)), ..v }
}

/// Register copy: register `x` becomes the value of register `y`.
pub open spec fn ld_reg_effect(v: CpuView, x: u8, y: u8) -> CpuView
    recommends
        x < 16,
        y < 16,
{
    CpuView { r: v.r.update(x as int, v.r[y as int]), ..v }
}

/// Bitwise or of registers `x` and `y` into `x`.
pub open spec fn or_effect(v: CpuView, x: u8, y: u8) -> CpuView
    recommends
        x < 16,
        y < 16,
{
    CpuView { r: v.r.update(x as int, v.r[x as int] | v.r[y as int]), ..v }
}

/// Bitwise and of registers `x` and `y` into `x`.
pub open spec fn and_effect(v: CpuView, x: u8, y: u8) -> CpuView
    recommends
        x < 16,
        y < 16,
{
    CpuView { r: v.r.update(x as int, v.r[x as int] & v.r[y as int]), ..v }
}

/// Bitwise xor of registers `x` and `y` into `x`.
pub open spec fn xor_effect(v: CpuView, x: u8, y: u8) -> CpuView
    recommends
        x < 16,
        y < 16,
{
    CpuView { r: v.r.update(x as int, v.r[x as int] ^ v.r[y as int]), ..v }
}

/// Add with carry: 8-bit wrapping sum into `x`; the flag register becomes
/// 1 on overflow, else 0. The sum wins over the flag when `x` is 15.
pub open spec fn add_reg_effect(v: CpuView, x: u8, y: u8) -> CpuView
    recommends
        x < 16,
        y < 16,
{
    let carry: u8 = if (v.r[x as int] as int + v.r[y as int] as int) > 255 {
        1u8
    } else {
        0u8
    };
    CpuView {
        r: v.r.update(15, carry).update(x as int, wrap_add8(v.r[x as int], v.r[y as int])),
        ..v
    }
}

/// Subtract `y` from `x` with the NOT-borrow convention: the flag register
/// becomes 1 when the subtraction did not borrow (`x >= y`), else 0.
pub open spec fn sub_reg_effect(v: CpuView, x: u8, y: u8) -> CpuView
    recommends
        x < 16,
        y < 16,
{
    let no_borrow: u8 = if v.r[x as int] >= v.r[y as int] {
        1u8
    } else {
        0u8
    };
    CpuView {
        r: v.r.update(15, no_borrow).update(x as int, wrap_sub8(v.r[x as int], v.r[y as int])),
        ..v
    }
}

/// Shift right: the flag register takes bit 0 of the source register `y`
/// before the shift; register `x` takes the source shifted right by one.
pub open spec fn shr_effect(v: CpuView, x: u8, y: u8) -> CpuView
    recommends
        x < 16,
        y < 16,
{
    let src = v.r[y as int];
    CpuView { r: v.r.update(15, src & 1).update(x as int, src >> 1u8), ..v }
}

/// Reverse subtract, `y - x` into `x`, with the same NOT-borrow flag
/// convention as the forward subtraction.
pub open spec fn subn_reg_effect(v: CpuView, x: u8, y: u8) -> CpuView
    recommends
        x < 16,
        y < 16,
{
    let no_borrow: u8 = if v.r[y as int] >= v.r[x as int] {
        1u8
    } else {
        0u8
    };
    CpuView {
        r: v.r.update(15, no_borrow).update(x as int, wrap_sub8(v.r[y as int], v.r[x as int])),
        ..v
    }
}

/// Shift left: the flag register takes bit 7 of the source register `y`
/// before the shift; register `x` takes the source shifted left by one,
/// truncated to 8 bits.
pub open spec fn shl_effect(v: CpuView, x: u8, y: u8) -> CpuView
    recommends
        x < 16,
        y < 16,
{
    let src = v.r[y as int];
    CpuView { r: v.r.update(15, src >> 7u8).update(x as int, src << 1u8), ..v }
}

/// Load the 16-bit index register verbatim.
pub open spec fn ld_i_effect(v: CpuView, nnn: u16) -> CpuView {
    CpuView { i: nnn, ..v }
}

/// Jump with offset: program counter becomes `nnn` plus register 0.
pub open spec fn jp_v0_effect(v: CpuView, nnn: u16) -> CpuView
    recommends
        nnn < 4096,
{
    CpuView { pc: (nnn + v.r[0]) as u16, skip_next_cycle: true, ..v }
}

/// Random: register `x` becomes the drawn byte masked with `nn`.
pub open spec fn rnd_effect(v: CpuView, x: u8, nn: u8, drawn: u8) -> CpuView
    recommends
        x < 16,
{
    CpuView { r: v.r.update(x as int, drawn & nn), ..v }
}

/// Read the delay timer into register `x`.
pub open spec fn ld_r_dt_effect(v: CpuView, x: u8) -> CpuView
    recommends
        x < 16,
{
    CpuView { r: v.r.update(x as int, v.delay_timer), ..v }
}

/// Load the delay timer from register `x`.
pub open spec fn ld_dt_r_effect(v: CpuView, x: u8) -> CpuView
    recommends
        x < 16,
{
    CpuView { delay_timer: v.r[x as int], ..v }
}

/// Load the sound timer from register `x`.
pub open spec fn ld_st_r_effect(v: CpuView, x: u8) -> CpuView
    recommends
        x < 16,
{
    CpuView { sound_timer: v.r[x as int], ..v }
}

/// Add register `x` to the index register: a 16-bit add, allowed to
/// exceed the 12-bit address space, with no masking.
pub open spec fn add_i_effect(v: CpuView, x: u8) -> CpuView
    recommends
        x < 16,
        v.i + v.r[x as int] <= u16::MAX,
{
    CpuView { i: (v.i + v.r[x as int]) as u16, ..v }
}

/// Point the index register at the font glyph for the value of register
/// `x`: five bytes per glyph from the start of memory.
pub open spec fn ld_font_effect(v: CpuView, x: u8) -> CpuView
    recommends
        x < 16,
{
    CpuView { i: (v.r[x as int] * 5) as u16, ..v }
}

/// Store the decimal digits of register `x`: hundreds, tens and ones into
/// the three consecutive bytes starting at the index register's address.
pub open spec fn bcd_effect(v: CpuView, x: u8) -> CpuView
    recommends
        x < 16,
        v.i + 2 < 4096,
{
    let val = v.r[x as int] as int;
    CpuView {
        mem: v.mem.update(v.i as int, (val / 100) as u8).update(
            v.i as int + 1,
            ((val % 100) / 10) as u8,
        ).update(v.i as int + 2, (val % 10) as u8),
        ..v
    }
}

/// Block store: registers 0 through `x` inclusive copied into memory
/// starting at the index register's address.
pub open spec fn store_regs_effect(v: CpuView, x: u8) -> CpuView
    recommends
        x < 16,
        v.i + x < 4096,
{
    CpuView {
        mem: Seq::new(
            4096,
            |j: int|
                if v.i <= j <= v.i + x {
                    v.r[j - v.i]
                } else {
                    v.mem[j]
                },
        ),
        ..v
    }
}

/// Block load: registers 0 through `x` inclusive filled from memory
/// starting at the index register's address.
pub open spec fn load_regs_effect(v: CpuView, x: u8) -> CpuView
    recommends
        x < 16,
        v.i + x < 4096,
{
    CpuView {
        r: Seq::new(
            16,
            |j: int|
                if 0 <= j <= x {
                    v.mem[v.i + j]
                } else {
                    v.r[j]
                },
        ),
        ..v
    }
}

impl CPU {
    /// Clear the screen: zero the entire framebuffer.
    pub fn cls_00e0(&mut self)
        ensures
            final(self)@ == cls_effect(old(self)@),
    {
        self.display = [0u8; 2048];
        proof {
            assert(final(self)@.fb =~= cls_effect(old(self)@).fb);
            assert(final(self)@ =~= cls_effect(old(self)@));
        }
    }

    /// Return: decrement the stack pointer and pop into the program
    /// counter. A program whose stack is empty here is malformed; the
    /// interpreter step reports that as a fault instead of calling this.
    pub fn ret_00ee(&mut self)
        requires
            1 <= old(self).sp <= 16,
        ensures
            final(self)@ == ret_effect(old(self)@),
    {
        self.sp = self.sp - 1;
        self.pc = self.stack[self.sp as usize];
    }

    /// Jump to `nnn`; no automatic advance follows.
    pub fn jmp_1nnn(&mut self, nnn: u16)
        ensures
            final(self)@ == jp_effect(old(self)@, nnn),
    {
        self.pc = nnn;
        self.skip_next_cycle = true;
    }

    /// Call the subroutine at `nnn`: push the current program counter and
    /// jump. A program whose stack is full here is malformed; the
    /// interpreter step reports that as a fault instead of calling this.
    pub fn call_2nnn(&mut self, nnn: u16)
        requires
            old(self).sp < 16,
        ensures
            final(self)@ == call_effect(old(self)@, nnn),
    {
        self.stack[self.sp as usize] = self.pc;
        self.sp = self.sp + 1;
        self.pc = nnn;
        self.skip_next_cycle = true;
    }

    /// Skip the next instruction when register `x` equals `nn`.
    pub fn se_3xnn(&mut self, x: u8, nn: u8)
        requires
            x < 16,
            old(self).pc + 2 <= u16::MAX,
        ensures
            final(self)@ == skip_if_effect(old(self)@, old(self).r@[x as int] == nn),
    {
        if self.r[x as usize] == nn {
            self.pc = self.pc + 2;
        }
    }

    /// Skip the next instruction when register `x` differs from `nn`.
    pub fn sne_4xnn(&mut self, x: u8, nn: u8)
        requires
            x < 16,
            old(self).pc + 2 <= u16::MAX,
        ensures
            final(self)@ == skip_if_effect(old(self)@, old(self).r@[x as int] != nn),
    {
        if self.r[x as usize] != nn {
            self.pc = self.pc + 2;
        }
    }

    /// Skip the next instruction when registers `x` and `y` are equal.
    pub fn se_5xy0(&mut self, x: u8, y: u8)
        requires
            x < 16,
            y < 16,
            old(self).pc + 2 <= u16::MAX,
        ensures
            final(self)@ == skip_if_effect(
                old(self)@,
                old(self).r@[x as int] == old(self).r@[y as int],
            ),
    {
        if self.r[x as usize] == self.r[y as usize] {
            self.pc = self.pc + 2;
        }
    }

    /// Load `nn` into register `x`; no flag side effect.
    pub fn ld_6xnn(&mut self, x: u8, nn: u8)
        requires
            x < 16,
        ensures
            final(self)@ == ld_nn_effect(old(self)@, x, nn),
    {
        self.r[x as usize] = nn;
    }

    /// Add `nn` to register `x`, wrapping; the flag is not touched.
    pub fn add_7xnn(&mut self, x: u8, nn: u8)
        requires
            x < 16,
        ensures
            final(self)@ == add_nn_effect(old(self)@, x, nn),
    {
        let a = self.r[x as usize];
        let sum: u16 = a as u16 + nn as u16;
        self.r[x as usize] = if sum > 255 {
            (sum - 256) as u8
        } else {
            sum as u8
        };
    }

    /// Copy register `y` into register `x`.
    pub fn ld_8xy0(&mut self, x: u8, y: u8)
        requires
            x < 16,
            y < 16,
        ensures
            final(self)@ == ld_reg_effect(old(self)@, x, y),
    {
        self.r[x as usize] = self.r[y as usize];
    }

    /// Or register `y` into register `x`.
    pub fn or_8xy1(&mut self, x: u8, y: u8)
        requires
            x < 16,
            y < 16,
        ensures
            final(self)@ == or_effect(old(self)@, x, y),
    {
        self.r[x as usize] = self.r[x as usize] | self.r[y as usize];
    }

    /// And register `y` into register `x`.
    pub fn and_8xy2(&mut self, x: u8, y: u8)
        requires
            x < 16,
            y < 16,
        ensures
            final(self)@ == and_effect(old(self)@, x, y),
    {
        self.r[x as usize] = self.r[x as usize] & self.r[y as usize];
    }

    /// Xor register `y` into register `x`.
    pub fn xor_8xy3(&mut self, x: u8, y: u8)
        requires
            x < 16,
            y < 16,
        ensures
            final(self)@ == xor_effect(old(self)@, x, y),
    {
        self.r[x as usize] = self.r[x as usize] ^ self.r[y as usize];
    }

    /// Add register `y` to register `x` with overflow detection: the flag
    /// register becomes 1 on overflow, else 0.
    pub fn c_add_8xy4(&mut self, x: u8, y: u8)
        requires
            x < 16,
            y < 16,
        ensures
            final(self)@ == add_reg_effect(old(self)@, x, y),
    {
        let a = self.r[x as usize];
        let b = self.r[y as usize];
        let sum: u16 = a as u16 + b as u16;
        self.r[15] = if sum > 255 {
            1
        } else {
            0
        };
        self.r[x as usize] = if sum > 255 {
            (sum - 256) as u8
        } else {
            sum as u8
        };
    }

    /// Subtract register `y` from register `x`. NOT-borrow convention:
    /// the flag register becomes 1 when no borrow occurred (`x >= y`).
    pub fn c_sub_8xy5(&mut self, x: u8, y: u8)
        requires
            x < 16,
            y < 16,
        ensures
            final(self)@ == sub_reg_effect(old(self)@, x, y),
    {
        let a = self.r[x as usize];
        let b = self.r[y as usize];
        self.r[15] = if a >= b {
            1
        } else {
            0
        };
        self.r[x as usize] = if a >= b {
            a - b
        } else {
            (256 - b as u16 + a as u16) as u8
        };
    }

    /// Shift right: the flag register takes bit 0 of source register `y`
    /// before the shift; register `x` takes the source shifted right.
    pub fn shr_8xy6(&mut self, x: u8, y: u8)
        requires
            x < 16,
            y < 16,
        ensures
            final(self)@ == shr_effect(old(self)@, x, y),
    {
        let src = self.r[y as usize];
        self.r[15] = src & 1;
        self.r[x as usize] = src >> 1u8;
    }

    /// Subtract register `x` from register `y`, into `x`, with the same
    /// NOT-borrow flag convention as the forward subtraction.
    pub fn bc_sub_8xy7(&mut self, x: u8, y: u8)
        requires
            x < 16,
            y < 16,
        ensures
            final(self)@ == subn_reg_effect(old(self)@, x, y),
    {
        let a = self.r[x as usize];
        let b = self.r[y as usize];
        self.r[15] = if b >= a {
            1
        } else {
            0
        };
        self.r[x as usize] = if b >= a {
            b - a
        } else {
            (256 - a as u16 + b as u16) as u8
        };
    }

    /// Shift left: the flag register takes bit 7 of source register `y`
    /// before the shift; register `x` takes the source shifted left,
    /// truncated to 8 bits.
    pub fn shl_8xye(&mut self, x: u8, y: u8)
        requires
            x < 16,
            y < 16,
        ensures
            final(self)@ == shl_effect(old(self)@, x, y),
    {
        let src = self.r[y as usize];
        self.r[15] = src >> 7u8;
        self.r[x as usize] = src << 1u8;
    }

    /// Skip the next instruction when registers `x` and `y` differ.
    pub fn sne_9xy0(&mut self, x: u8, y: u8)
        requires
            x < 16,
            y < 16,
            old(self).pc + 2 <= u16::MAX,
        ensures
            final(self)@ == skip_if_effect(
                old(self)@,
                old(self).r@[x as int] != old(self).r@[y as int],
            ),
    {
        if self.r[x as usize] != self.r[y as usize] {
            self.pc = self.pc + 2;
        }
    }

    /// Load `nnn` into the index register verbatim.
    pub fn ld_annn(&mut self, nnn: u16)
        ensures
            final(self)@ == ld_i_effect(old(self)@, nnn),
    {
        self.i = nnn;
    }

    /// Jump to `nnn` plus register 0; no automatic advance follows.
    pub fn jmp_bnnn(&mut self, nnn: u16)
        requires
            nnn < 4096,
        ensures
            final(self)@ == jp_v0_effect(old(self)@, nnn),
    {
        self.pc = nnn + self.r[0] as u16;
        self.skip_next_cycle = true;
    }

    /// Mask the drawn byte with `nn` and store it in register `x`. The
    /// interpreter step draws the byte; taking it as an argument makes the
    /// masking verifiable for every possible draw.
    pub fn rand_cxnn(&mut self, x: u8, nn: u8, rand: u8)
        requires
            x < 16,
        ensures
            final(self)@ == rnd_effect(old(self)@, x, nn, rand),
    {
        self.r[x as usize] = rand & nn;
    }

    /// Read the delay timer into register `x`.
    pub fn ld_dt_fx07(&mut self, x: u8)
        requires
            x < 16,
        ensures
            final(self)@ == ld_r_dt_effect(old(self)@, x),
    {
        self.r[x as usize] = self.delay_timer;
    }

    /// Load the delay timer from register `x`.
    pub fn ld_dt_fx15(&mut self, x: u8)
        requires
            x < 16,
        ensures
            final(self)@ == ld_dt_r_effect(old(self)@, x),
    {
        self.delay_timer = self.r[x as usize];
    }

    /// Load the sound timer from register `x`.
    pub fn ld_st_fx18(&mut self, x: u8)
        requires
            x < 16,
        ensures
            final(self)@ == ld_st_r_effect(old(self)@, x),
    {
        self.sound_timer = self.r[x as usize];
    }

    /// Add register `x` to the index register: a 16-bit add, allowed to
    /// exceed the 12-bit address space, with no masking.
    pub fn add_i_fx1e(&mut self, x: u8)
        requires
            x < 16,
            old(self).i + old(self).r@[x as int] <= u16::MAX,
        ensures
            final(self)@ == add_i_effect(old(self)@, x),
    {
        self.i = self.i + self.r[x as usize] as u16;
    }

    /// Point the index register at the font glyph for register `x`'s
    /// value: five bytes per glyph from the start of memory.
    pub fn ld_f_fx29(&mut self, x: u8)
        requires
            x < 16,
        ensures
            final(self)@ == ld_font_effect(old(self)@, x),
    {
        self.i = self.r[x as usize] as u16 * 5;
    }

    /// Store the decimal digits of register `x` — hundreds, tens, ones —
    /// into the three bytes starting at the index register's address.
    pub fn ld_b_fx33(&mut self, x: u8)
        requires
            x < 16,
            old(self).i + 2 < 4096,
        ensures
            final(self)@ == bcd_effect(old(self)@, x),
    {
        let val = self.r[x as usize];
        self.memory[self.i as usize] = val / 100;
        self.memory[self.i as usize + 1] = (val % 100) / 10;
        self.memory[self.i as usize + 2] = val % 10;
    }

    /// Block store: copy registers 0 through `x` inclusive into memory
    /// starting at the index register's address.
    pub fn ld_reg_fx55(&mut self, x: u8)
        requires
            x < 16,
            old(self).i + x < 4096,
        ensures
            final(self)@ == store_regs_effect(old(self)@, x),
    {
        let mut num: usize = 0;
        while num <= x as usize
            invariant
                x < 16,
                num <= x as usize + 1,
                old(self).i + x < 4096,
                self.pc == old(self).pc,
                self.r == old(self).r,
                self.i == old(self).i,
                self.sp == old(self).sp,
                self.stack == old(self).stack,
                self.display == old(self).display,
                self.delay_timer == old(self).delay_timer,
                self.sound_timer == old(self).sound_timer,
                self.delay_between_instructions == old(self).delay_between_instructions,
                self.delay_between_cycles == old(self).delay_between_cycles,
                self.skip_next_cycle == old(self).skip_next_cycle,
                self.halted == old(self).halted,
                forall|j: int|
                    self.i <= j < self.i + num ==> self.memory@[j] == self.r@[j - self.i],
                forall|j: int|
                    (0 <= j < self.i || self.i + num <= j < 4096) ==> self.memory@[j] == old(
                        self,
                    ).memory@[j],
            decreases x as int + 1 - num,
        {
            self.memory[self.i as usize + num] = self.r[num];
            num = num + 1;
        }
        proof {
            assert(final(self)@.mem =~= store_regs_effect(old(self)@, x).mem);
            assert(final(self)@ =~= store_regs_effect(old(self)@, x));
        }
    }

    /// Block load: fill registers 0 through `x` inclusive from memory
    /// starting at the index register's address.
    pub fn ld_reg_fx65(&mut self, x: u8)
        requires
            x < 16,
            old(self).i + x < 4096,
        ensures
            final(self)@ == load_regs_effect(old(self)@, x),
    {
        let mut num: usize = 0;
        while num <= x as usize
            invariant
                x < 16,
                num <= x as usize + 1,
                old(self).i + x < 4096,
                self.pc == old(self).pc,
                self.memory == old(self).memory,
                self.i == old(self).i,
                self.sp == old(self).sp,
                self.stack == old(self).stack,
                self.display == old(self).display,
                self.delay_timer == old(self).delay_timer,
                self.sound_timer == old(self).sound_timer,
                self.delay_between_instructions == old(self).delay_between_instructions,
                self.delay_between_cycles == old(self).delay_between_cycles,
                self.skip_next_cycle == old(self).skip_next_cycle,
                self.halted == old(self).halted,
                forall|j: int| 0 <= j < num ==> self.r@[j] == self.memory@[self.i + j],
                forall|j: int| num <= j < 16 ==> self.r@[j] == old(self).r@[j],
            decreases x as int + 1 - num,
        {
            self.r[num] = self.memory[self.i as usize + num];
            num = num + 1;
        }
        proof {
            assert(final(self)@.r =~= load_regs_effect(old(self)@, x).r);
            assert(final(self)@ =~= load_regs_effect(old(self)@, x));
        }
    }
}

} // verus!
