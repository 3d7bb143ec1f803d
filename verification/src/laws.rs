//! Laws of the interpreter: properties that relate several operations,
//! stated over the same spec functions the operations' own contracts use
//! and proved for every input they name.
use crate::cpu::{word_at, CpuView};
use crate::decode::{decode_spec, Instr};
use crate::draw::{
    drw_collision, drw_effect, drw_fb, drw_hit, drw_target, lemma_divmod_2048,
    lemma_target_inverts, lemma_target_unique, sprite_row_bit,
};
use crate::ops::{call_effect, ret_effect};
use crate::step::{step_fault, step_spec};
use vstd::prelude::*;

verus! {

/// Law: loading an immediate into a register and then executing a
/// skip-if-equal against the same immediate always skips — the second
/// step advances the program counter by 4 from its pre-step value,
/// never by 2. Holds for every register, every immediate, every key
/// snapshot and every random draw.
pub proof fn lemma_load_then_skip_eq(v: CpuView, x: u8, k: u8, keys1: u16, keys2: u16, b1: u8, b2: u8)
    requires
        v.wf(),
        !v.skip_next_cycle,
        v.pc + 3 < 4096,
        x < 16,
        decode_spec(word_at(v, v.pc as int)) == (Instr::LdNn { x, nn: k }),
        decode_spec(word_at(v, v.pc as int + 2)) == (Instr::SeNn { x, nn: k }),
    ensures
        step_fault(v) is None,
        step_fault(step_spec(v, keys1, b1)) is None,
        step_spec(step_spec(v, keys1, b1), keys2, b2).pc == step_spec(v, keys1, b1).pc + 4,
{
    let v1 = step_spec(v, keys1, b1);
    assert(v1.pc == v.pc + 2);
    assert(v1.mem == v.mem);
    assert(v1.r == v.r.update(x as int, k));
    assert(!v1.skip_next_cycle);
    assert(word_at(v1, v1.pc as int) == word_at(v, v.pc as int + 2));
    let v2 = step_spec(v1, keys2, b2);
    assert(v2.pc == v1.pc + 4);
}

/// Law: a call followed by a return restores the program counter to
/// exactly the value it held immediately before the call, and the stack
/// pointer to its pre-call value — for every machine state with room on
/// the stack and every target address.
pub proof fn lemma_call_then_ret(v: CpuView, nnn: u16)
    requires
        v.wf(),
        v.sp < 16,
    ensures
        ret_effect(call_effect(v, nnn)).pc == v.pc,
        ret_effect(call_effect(v, nnn)).sp == v.sp,
{
}

/// Law: drawing the same sprite twice at the same coordinates returns the
/// framebuffer to exactly its prior contents — XOR composition is
/// self-inverse. Holds for every framebuffer, sprite, anchor and height.
pub proof fn lemma_draw_twice_restores(
    fb: Seq<u8>,
    mem: Seq<u8>,
    i: u16,
    vx: u8,
    vy: u8,
    n: u8,
)
    requires
        fb.len() == 2048,
    ensures
        drw_fb(drw_fb(fb, mem, i, vx, vy, n), mem, i, vx, vy, n) == fb,
{
    let fb1 = drw_fb(fb, mem, i, vx, vy, n);
    let fb2 = drw_fb(fb1, mem, i, vx, vy, n);
    assert forall|idx: int| 0 <= idx < 2048 implies fb2[idx] == fb[idx] by {
        let r0 = (idx / 64 - vy as int) % 32;
        let b0 = (idx % 64 - vx as int) % 64;
        let a = fb[idx];
        let s = sprite_row_bit(mem[i as int + r0], b0);
        assert((a ^ s) ^ s == a) by (bit_vector);
    }
    assert(fb2 =~= fb);
}

/// Law: with the framebuffer all clear, a sprite with a set bit drawn
/// twice at the same coordinates reports a collision on the second draw:
/// each set bit of the second pass lands on the cell the first pass set.
/// The arguments `row` and `bit` name one set bit of the sprite; a sprite
/// of all-zero rows collides with nothing.
pub proof fn lemma_draw_twice_collides(
    fb: Seq<u8>,
    mem: Seq<u8>,
    i: u16,
    vx: u8,
    vy: u8,
    n: u8,
    row: int,
    bit: int,
)
    requires
        fb.len() == 2048,
        n <= 15,
        forall|idx: int| 0 <= idx < 2048 ==> fb[idx] == 0,
        0 <= row < n,
        0 <= bit < 8,
        sprite_row_bit(mem[i as int + row], bit) == 1,
    ensures
        drw_collision(drw_fb(fb, mem, i, vx, vy, n), mem, i, vx, vy, n),
{
    let fb1 = drw_fb(fb, mem, i, vx, vy, n);
    lemma_target_inverts(vx, vy, row, bit);
    let t = drw_target(vx, vy, row, bit);
    let a = fb[t];
    let s = sprite_row_bit(mem[i as int + row], bit);
    assert(a == 0 && s == 1 ==> (a ^ s) == 1) by (bit_vector);
    assert(fb1[t] == 1);
    assert(drw_hit(fb1, mem, i, vx, vy, row, bit));
}

/// Law: the draw opcode executed twice with the same operands, on a
/// machine whose framebuffer is clear and whose sprite has a set bit,
/// leaves the framebuffer clear again and reports the collision in the
/// flag register. The coordinate registers must not be the flag register
/// itself, which the first draw overwrites.
pub proof fn lemma_draw_twice(v: CpuView, x: u8, y: u8, n: u8, row: int, bit: int)
    requires
        v.wf(),
        x < 15,
        y < 15,
        n <= 15,
        forall|idx: int| 0 <= idx < 2048 ==> v.fb[idx] == 0,
        0 <= row < n,
        0 <= bit < 8,
        sprite_row_bit(v.mem[v.i as int + row], bit) == 1,
    ensures
        drw_effect(drw_effect(v, x, y, n), x, y, n).fb == v.fb,
        drw_effect(drw_effect(v, x, y, n), x, y, n).r[15] == 1,
{
    let v1 = drw_effect(v, x, y, n);
    assert(v1.r[x as int] == v.r[x as int]);
    assert(v1.r[y as int] == v.r[y as int]);
    lemma_draw_twice_restores(v.fb, v.mem, v.i, v.r[x as int], v.r[y as int], n);
    lemma_draw_twice_collides(v.fb, v.mem, v.i, v.r[x as int], v.r[y as int], n, row, bit);
}

/// Law: sprite drawing wraps — row `row`, bit `bit` of the sprite is
/// XORed onto exactly the cell at column (vx + bit) mod 64 and row
/// (vy + row) mod 32, for anchors beyond the visible grid too.
pub proof fn lemma_draw_wraps(
    fb: Seq<u8>,
    mem: Seq<u8>,
    i: u16,
    vx: u8,
    vy: u8,
    n: u8,
    row: int,
    bit: int,
)
    requires
        fb.len() == 2048,
        n <= 15,
        0 <= row < n,
        0 <= bit < 8,
    ensures
        0 <= drw_target(vx, vy, row, bit) < 2048,
        drw_fb(fb, mem, i, vx, vy, n)[drw_target(vx, vy, row, bit)] == fb[drw_target(
            vx,
            vy,
            row,
            bit,
        )] ^ sprite_row_bit(mem[i as int + row], bit),
{
    lemma_target_inverts(vx, vy, row, bit);
}

/// Law: a cell that no pair (row, bit) of the sprite wraps onto keeps its
/// value through a draw.
pub proof fn lemma_draw_untouched(
    fb: Seq<u8>,
    mem: Seq<u8>,
    i: u16,
    vx: u8,
    vy: u8,
    n: u8,
    idx: int,
)
    requires
        fb.len() == 2048,
        n <= 15,
        0 <= idx < 2048,
        forall|row: int, bit: int|
            0 <= row < n && 0 <= bit < 8 ==> idx != #[trigger] drw_target(vx, vy, row, bit),
    ensures
        drw_fb(fb, mem, i, vx, vy, n)[idx] == fb[idx],
{
    let r0 = (idx / 64 - vy as int) % 32;
    let b0 = (idx % 64 - vx as int) % 64;
    if b0 < 8 && r0 < n {
        lemma_divmod_2048(idx);
        vstd::arithmetic::div_mod::lemma_mod_bound(idx / 64 - vy as int, 32);
        vstd::arithmetic::div_mod::lemma_mod_bound(idx % 64 - vx as int, 64);
        lemma_target_unique(vx, vy, r0, b0, idx);
    }
}

} // verus!
