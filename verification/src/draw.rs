//! The sprite-draw opcode: XOR composition onto the framebuffer with
//! modulo-64 column and modulo-32 row wraparound, and collision detection
//! computed once per sprite.
use crate::cpu::{CpuView, CPU};
use vstd::arithmetic::div_mod::{
    lemma_fundamental_div_mod, lemma_fundamental_div_mod_converse, lemma_mod_bound,
};
use vstd::prelude::*;

verus! {

/// Bit `bit` of a sprite row byte, counted from the left: bit 0 is the
/// most significant bit and lands at the smallest column.
pub open spec fn sprite_row_bit(b: u8, bit: int) -> u8
    recommends
        0 <= bit < 8,
{
    (b >> ((7 - bit) as u8)) & 1
}

/// The framebuffer index that row `row`, bit `bit` of a sprite anchored at
/// column `vx`, row `vy` lands on: columns wrap modulo 64, rows modulo 32.
pub open spec fn drw_target(vx: u8, vy: u8, row: int, bit: int) -> int {
    ((vy as int + row) % 32) * 64 + ((vx as int + bit) % 64)
}

/// Whether row `row`, bit `bit` of the sprite would flip a set cell of
/// `fb` off: a set sprite bit over a set framebuffer cell.
pub open spec fn drw_hit(
    fb: Seq<u8>,
    mem: Seq<u8>,
    i: u16,
    vx: u8,
    vy: u8,
    row: int,
    bit: int,
) -> bool {
    fb[drw_target(vx, vy, row, bit)] == 1 && sprite_row_bit(mem[i as int + row], bit) == 1
}

/// The framebuffer after the sprite pairs (row, bit) that come before
/// (`row`, `bit`) in execution order have been XORed on. The pair (r0, b0)
/// owning a cell is recovered from the cell's coordinates by undoing the
/// wraparound.
pub open spec fn drw_fb_upto(
    fb: Seq<u8>,
    mem: Seq<u8>,
    i: u16,
    vx: u8,
    vy: u8,
    row: int,
    bit: int,
) -> Seq<u8> {
    Seq::new(
        2048,
        |idx: int|
            {
                let r0 = (idx / 64 - vy as int) % 32;
                let b0 = (idx % 64 - vx as int) % 64;
                if b0 < 8 && (r0 < row || (r0 == row && b0 < bit)) {
                    fb[idx] ^ sprite_row_bit(mem[i as int + r0], b0)
                } else {
                    fb[idx]
                }
            },
    )
}

/// The framebuffer after a whole `n`-row sprite has been XORed on.
pub open spec fn drw_fb(fb: Seq<u8>, mem: Seq<u8>, i: u16, vx: u8, vy: u8, n: u8) -> Seq<u8> {
    drw_fb_upto(fb, mem, i, vx, vy, n as int, 0)
}

/// Whether some pair (r2, b2) before (`row`, `bit`) in execution order
/// flips a set cell off.
pub open spec fn drw_collision_upto(
    fb: Seq<u8>,
    mem: Seq<u8>,
    i: u16,
    vx: u8,
    vy: u8,
    row: int,
    bit: int,
) -> bool {
    exists|r2: int, b2: int|
        0 <= r2 && 0 <= b2 < 8 && (r2 < row || (r2 == row && b2 < bit)) && #[trigger] drw_hit(
            fb,
            mem,
            i,
            vx,
            vy,
            r2,
            b2,
        )
}

/// Whether drawing the whole `n`-row sprite flips any set cell off.
pub open spec fn drw_collision(fb: Seq<u8>, mem: Seq<u8>, i: u16, vx: u8, vy: u8, n: u8) -> bool {
    drw_collision_upto(fb, mem, i, vx, vy, n as int, 0)
}

/// The draw opcode's whole effect: XOR the sprite rows at the index
/// register's address onto the framebuffer, wrapping, and set the flag
/// register to 1 exactly when some set cell was flipped off.
pub open spec fn drw_effect(v: CpuView, x: u8, y: u8, n: u8) -> CpuView
    recommends
        x < 16,
        y < 16,
        n <= 15,
        n > 0 ==> v.i + n <= 4096,
{
    let vx = v.r[x as int];
    let vy = v.r[y as int];
    CpuView {
        fb: drw_fb(v.fb, v.mem, v.i, vx, vy, n),
        r: v.r.update(
            15,
            if drw_collision(v.fb, v.mem, v.i, vx, vy, n) {
                1u8
            } else {
                0u8
            },
        ),
        ..v
    }
}

/// A framebuffer index splits into a row below 32 and a column below 64.
pub(crate) proof fn lemma_divmod_2048(idx: int)
    requires
        0 <= idx < 2048,
    ensures
        0 <= idx / 64 < 32,
        0 <= idx % 64 < 64,
        idx == (idx / 64) * 64 + idx % 64,
{
    lemma_mod_bound(idx, 64);
    lemma_fundamental_div_mod(idx, 64);
    assert(0 <= idx / 64 < 32) by (nonlinear_arith)
        requires
            0 <= idx < 2048,
            idx == 64 * (idx / 64) + idx % 64,
            0 <= idx % 64 < 64,
    ;
}

/// Undoing a wraparound recovers the offset: for an offset below the
/// modulus, ((base + off) % m - base) % m == off.
proof fn lemma_wrap_unwrap(base: int, off: int, m: int)
    requires
        m > 0,
        0 <= off < m,
    ensures
        ((base + off) % m - base) % m == off,
{
    lemma_mod_bound(base + off, m);
    lemma_fundamental_div_mod(base + off, m);
    let q = (base + off) / m;
    assert((base + off) % m - base == (-q) * m + off) by (nonlinear_arith)
        requires
            base + off == m * q + ((base + off) % m),
    ;
    lemma_fundamental_div_mod_converse((base + off) % m - base, m, -q, off);
}

/// Two values below the modulus with the same residue are equal.
proof fn lemma_mod_inj(a: int, z1: int, z2: int, m: int)
    requires
        m > 0,
        0 <= z1 < m,
        0 <= z2 < m,
        (z1 - a) % m == (z2 - a) % m,
    ensures
        z1 == z2,
{
    lemma_fundamental_div_mod(z1 - a, m);
    lemma_fundamental_div_mod(z2 - a, m);
    let q1 = (z1 - a) / m;
    let q2 = (z2 - a) / m;
    assert(z1 - z2 == m * (q1 - q2)) by (nonlinear_arith)
        requires
            z1 - a == m * q1 + ((z1 - a) % m),
            z2 - a == m * q2 + ((z2 - a) % m),
            (z1 - a) % m == (z2 - a) % m,
    ;
    assert(q1 == q2) by (nonlinear_arith)
        requires
            z1 - z2 == m * (q1 - q2),
            -m < z1 - z2 < m,
            m > 0,
    ;
}

/// The target cell of a sprite pair is in range, and its coordinates give
/// the pair back.
pub proof fn lemma_target_inverts(vx: u8, vy: u8, row: int, bit: int)
    requires
        0 <= row < 32,
        0 <= bit < 64,
    ensures
        0 <= drw_target(vx, vy, row, bit) < 2048,
        (drw_target(vx, vy, row, bit) / 64 - vy as int) % 32 == row,
        (drw_target(vx, vy, row, bit) % 64 - vx as int) % 64 == bit,
{
    let yy = (vy as int + row) % 32;
    let xx = (vx as int + bit) % 64;
    lemma_mod_bound(vy as int + row, 32);
    lemma_mod_bound(vx as int + bit, 64);
    lemma_fundamental_div_mod_converse(yy * 64 + xx, 64, yy, xx);
    lemma_wrap_unwrap(vy as int, row, 32);
    lemma_wrap_unwrap(vx as int, bit, 64);
}

/// Conversely, a cell whose coordinates give the pair (row, bit) back is
/// the target cell of that pair: each sprite pair owns one cell.
pub(crate) proof fn lemma_target_unique(vx: u8, vy: u8, row: int, bit: int, idx: int)
    requires
        0 <= row < 32,
        0 <= bit < 64,
        0 <= idx < 2048,
        (idx / 64 - vy as int) % 32 == row,
        (idx % 64 - vx as int) % 64 == bit,
    ensures
        idx == drw_target(vx, vy, row, bit),
{
    lemma_divmod_2048(idx);
    lemma_mod_bound(vy as int + row, 32);
    lemma_mod_bound(vx as int + bit, 64);
    lemma_wrap_unwrap(vy as int, row, 32);
    lemma_wrap_unwrap(vx as int, bit, 64);
    lemma_mod_inj(vy as int, idx / 64, (vy as int + row) % 32, 32);
    lemma_mod_inj(vx as int, idx % 64, (vx as int + bit) % 64, 64);
}

/// Extending the processed range by one pair adds exactly that pair's hit
/// to the collision condition.
proof fn lemma_collision_step(
    fb: Seq<u8>,
    mem: Seq<u8>,
    i: u16,
    vx: u8,
    vy: u8,
    row: int,
    bit: int,
)
    requires
        0 <= row,
        0 <= bit < 8,
    ensures
        drw_collision_upto(fb, mem, i, vx, vy, row, bit + 1) == (drw_collision_upto(
            fb,
            mem,
            i,
            vx,
            vy,
            row,
            bit,
        ) || drw_hit(fb, mem, i, vx, vy, row, bit)),
{
    if drw_collision_upto(fb, mem, i, vx, vy, row, bit + 1) {
        let (r2, b2) = choose|r2: int, b2: int|
            0 <= r2 && 0 <= b2 < 8 && (r2 < row || (r2 == row && b2 < bit + 1)) && #[trigger] drw_hit(
                fb,
                mem,
                i,
                vx,
                vy,
                r2,
                b2,
            );
        if r2 == row && b2 == bit {
            assert(drw_hit(fb, mem, i, vx, vy, row, bit));
        } else {
            assert(drw_collision_upto(fb, mem, i, vx, vy, row, bit));
        }
    }
    if drw_collision_upto(fb, mem, i, vx, vy, row, bit) {
        let (r2, b2) = choose|r2: int, b2: int|
            0 <= r2 && 0 <= b2 < 8 && (r2 < row || (r2 == row && b2 < bit)) && #[trigger] drw_hit(
                fb,
                mem,
                i,
                vx,
                vy,
                r2,
                b2,
            );
        assert(drw_collision_upto(fb, mem, i, vx, vy, row, bit + 1));
    }
    if drw_hit(fb, mem, i, vx, vy, row, bit) {
        assert(drw_collision_upto(fb, mem, i, vx, vy, row, bit + 1));
    }
}

/// Finishing a row's eight bits is the same as standing at the start of
/// the next row, both for the framebuffer and for the collision condition.
proof fn lemma_row_roll(fb: Seq<u8>, mem: Seq<u8>, i: u16, vx: u8, vy: u8, row: int)
    requires
        0 <= row,
    ensures
        drw_fb_upto(fb, mem, i, vx, vy, row, 8) == drw_fb_upto(fb, mem, i, vx, vy, row + 1, 0),
        drw_collision_upto(fb, mem, i, vx, vy, row, 8) == drw_collision_upto(
            fb,
            mem,
            i,
            vx,
            vy,
            row + 1,
            0,
        ),
{
    assert(drw_fb_upto(fb, mem, i, vx, vy, row, 8) =~= drw_fb_upto(fb, mem, i, vx, vy, row + 1, 0));
    if drw_collision_upto(fb, mem, i, vx, vy, row, 8) {
        let (r2, b2) = choose|r2: int, b2: int|
            0 <= r2 && 0 <= b2 < 8 && (r2 < row || (r2 == row && b2 < 8)) && #[trigger] drw_hit(
                fb,
                mem,
                i,
                vx,
                vy,
                r2,
                b2,
            );
        assert(drw_collision_upto(fb, mem, i, vx, vy, row + 1, 0));
    }
    if drw_collision_upto(fb, mem, i, vx, vy, row + 1, 0) {
        let (r2, b2) = choose|r2: int, b2: int|
            0 <= r2 && 0 <= b2 < 8 && (r2 < row + 1 || (r2 == row + 1 && b2 < 0)) && #[trigger] drw_hit(
                fb,
                mem,
                i,
                vx,
                vy,
                r2,
                b2,
            );
        assert(drw_collision_upto(fb, mem, i, vx, vy, row, 8));
    }
}

impl CPU {
    /// Draw an `n`-row sprite taken from memory at the index register's
    /// address, anchored at the coordinates held in registers `x` and `y`:
    /// each of the eight bits of each row byte is XORed onto the cell at
    /// ((reg_x + bit) mod 64, (reg_y + row) mod 32), and the flag register
    /// is set — once for the whole sprite — to 1 exactly when some XOR
    /// flipped a set cell off, else to 0.
    pub fn draw_dxyn(&mut self, x: u8, y: u8, n: u8)
        requires
            x < 16,
            y < 16,
            n <= 15,
            n > 0 ==> old(self).i + n <= 4096,
        ensures
            final(self)@ == drw_effect(old(self)@, x, y, n),
    {
        let ghost v0 = old(self)@;
        let vx = self.r[x as usize];
        let vy = self.r[y as usize];
        let mut collision = false;
        let mut row: usize = 0;
        while row < n as usize
            invariant
                x < 16,
                y < 16,
                n <= 15,
                row <= n as usize,
                v0 == old(self)@,
                n > 0 ==> v0.i + n <= 4096,
                vx == v0.r[x as int],
                vy == v0.r[y as int],
                self.pc == old(self).pc,
                self.memory == old(self).memory,
                self.r == old(self).r,
                self.i == old(self).i,
                self.sp == old(self).sp,
                self.stack == old(self).stack,
                self.delay_timer == old(self).delay_timer,
                self.sound_timer == old(self).sound_timer,
                self.delay_between_instructions == old(self).delay_between_instructions,
                self.delay_between_cycles == old(self).delay_between_cycles,
                self.skip_next_cycle == old(self).skip_next_cycle,
                self.halted == old(self).halted,
                self.display@ == drw_fb_upto(v0.fb, v0.mem, v0.i, vx, vy, row as int, 0),
                collision == drw_collision_upto(v0.fb, v0.mem, v0.i, vx, vy, row as int, 0),
            decreases n as int - row,
        {
            let byte = self.memory[self.i as usize + row];
            let mut bit: usize = 0;
            while bit < 8
                invariant
                    x < 16,
                    y < 16,
                    n <= 15,
                    row < n as usize,
                    bit <= 8,
                    v0 == old(self)@,
                    v0.i + n <= 4096,
                    n > 0,
                    vx == v0.r[x as int],
                    vy == v0.r[y as int],
                    byte == v0.mem[v0.i as int + row],
                    self.pc == old(self).pc,
                    self.memory == old(self).memory,
                    self.r == old(self).r,
                    self.i == old(self).i,
                    self.sp == old(self).sp,
                    self.stack == old(self).stack,
                    self.delay_timer == old(self).delay_timer,
                    self.sound_timer == old(self).sound_timer,
                    self.delay_between_instructions == old(self).delay_between_instructions,
                    self.delay_between_cycles == old(self).delay_between_cycles,
                    self.skip_next_cycle == old(self).skip_next_cycle,
                    self.halted == old(self).halted,
                    self.display@ == drw_fb_upto(v0.fb, v0.mem, v0.i, vx, vy, row as int, bit as int),
                    collision == drw_collision_upto(
                        v0.fb,
                        v0.mem,
                        v0.i,
                        vx,
                        vy,
                        row as int,
                        bit as int,
                    ),
                decreases 8 - bit,
            {
                let yy: usize = (vy as usize + row) % 32;
                let xx: usize = (vx as usize + bit) % 64;
                proof {
                    lemma_mod_bound(vy as int + row as int, 32);
                    lemma_mod_bound(vx as int + bit as int, 64);
                    lemma_target_inverts(vx, vy, row as int, bit as int);
                }
                let idx: usize = yy * 64 + xx;
                let sh: u8 = (7 - bit) as u8;
                let s: u8 = (byte >> sh) & 1;
                let oldp = self.display[idx];
                proof {
                    assert(idx as int == drw_target(vx, vy, row as int, bit as int));
                    assert(oldp == v0.fb[idx as int]);
                    assert(s == sprite_row_bit(v0.mem[v0.i as int + row as int], bit as int));
                    lemma_collision_step(v0.fb, v0.mem, v0.i, vx, vy, row as int, bit as int);
                }
                if oldp == 1 && s == 1 {
                    collision = true;
                }
                self.display[idx] = oldp ^ s;
                proof {
                    let fbu = drw_fb_upto(v0.fb, v0.mem, v0.i, vx, vy, row as int, bit as int + 1);
                    assert forall|k: int| 0 <= k < 2048 implies self.display@[k] == fbu[k] by {
                        if k != idx as int {
                            lemma_divmod_2048(k);
                            lemma_mod_bound(k / 64 - vy as int, 32);
                            lemma_mod_bound(k % 64 - vx as int, 64);
                            if (k / 64 - vy as int) % 32 == row as int && (k % 64 - vx as int) % 64
                                == bit as int {
                                lemma_target_unique(vx, vy, row as int, bit as int, k);
                            }
                        }
                    }
                    assert(self.display@ =~= fbu);
                }
                bit = bit + 1;
            }
            proof {
                lemma_row_roll(v0.fb, v0.mem, v0.i, vx, vy, row as int);
            }
            row = row + 1;
        }
        if collision {
            self.r[15] = 1;
        } else {
            self.r[15] = 0;
        }
        proof {
            assert(final(self)@ =~= drw_effect(v0, x, y, n));
        }
    }
}

} // verus!
