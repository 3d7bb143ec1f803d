//! Instruction decoding: a 16-bit word splits into four nibbles plus the
//! derived 8-bit immediate and 12-bit address fields, and dispatch is by
//! the first nibble with secondary dispatch inside the shared families.
//! An unmapped combination decodes to `Unknown`, so the step's exhaustive
//! match detects malformed programs structurally.
use vstd::prelude::*;

verus! {

/// First operand register index: bits 8..12 of the word.
pub open spec fn op_x(w: u16) -> u8 {
    ((w >> 8u16) & 0xF) as u8
}

/// Second operand register index: bits 4..8 of the word.
pub open spec fn op_y(w: u16) -> u8 {
    ((w >> 4u16) & 0xF) as u8
}

/// Low nibble: the sprite height operand.
pub open spec fn op_n(w: u16) -> u8 {
    (w & 0xF) as u8
}

/// 8-bit immediate operand: the low byte.
pub open spec fn op_nn(w: u16) -> u8 {
    (w & 0xFF) as u8
}

/// 12-bit address operand: the low three nibbles.
pub open spec fn op_nnn(w: u16) -> u16 {
    w & 0xFFF
}

/// A decoded instruction: one variant per opcode of the repertoire, plus
/// `Unknown` for every unmapped word.
#[derive(PartialEq, Eq, Structural, Clone, Copy, Debug)]
pub enum Instr {
    /// 00E0: clear the screen.
    Cls,
    /// 00EE: return from a subroutine.
    Ret,
    /// 1nnn: jump.
    Jp { nnn: u16 },
    /// 2nnn: call a subroutine.
    Call { nnn: u16 },
    /// 3xnn: skip next if register x equals nn.
    SeNn { x: u8, nn: u8 },
    /// 4xnn: skip next if register x differs from nn.
    SneNn { x: u8, nn: u8 },
    /// 5xy0: skip next if registers x and y are equal.
    SeReg { x: u8, y: u8 },
    /// 6xnn: load nn into register x.
    LdNn { x: u8, nn: u8 },
    /// 7xnn: add nn to register x, wrapping, no flag.
    AddNn { x: u8, nn: u8 },
    /// 8xy0: copy register y into register x.
    LdReg { x: u8, y: u8 },
    /// 8xy1: or.
    OrReg { x: u8, y: u8 },
    /// 8xy2: and.
    AndReg { x: u8, y: u8 },
    /// 8xy3: xor.
    XorReg { x: u8, y: u8 },
    /// 8xy4: add with carry flag.
    AddReg { x: u8, y: u8 },
    /// 8xy5: subtract y from x, NOT-borrow flag.
    SubReg { x: u8, y: u8 },
    /// 8xy6: shift right, bit 0 into the flag.
    ShrReg { x: u8, y: u8 },
    /// 8xy7: subtract x from y into x, NOT-borrow flag.
    SubnReg { x: u8, y: u8 },
    /// 8xyE: shift left, bit 7 into the flag.
    ShlReg { x: u8, y: u8 },
    /// 9xy0: skip next if registers x and y differ.
    SneReg { x: u8, y: u8 },
    /// Annn: load the index register.
    LdI { nnn: u16 },
    /// Bnnn: jump to nnn plus register 0.
    JpV0 { nnn: u16 },
    /// Cxnn: random byte masked with nn into register x.
    Rnd { x: u8, nn: u8 },
    /// Dxyn: draw an n-row sprite at the coordinates in registers x, y.
    Drw { x: u8, y: u8, n: u8 },
    /// Ex9E: skip next if the key named by register x is pressed.
    Skp { x: u8 },
    /// ExA1: skip next if the key named by register x is not pressed.
    Sknp { x: u8 },
    /// Fx07: read the delay timer into register x.
    LdRegDt { x: u8 },
    /// Fx0A: wait for a key press, then store the key value.
    WaitKey { x: u8 },
    /// Fx15: load the delay timer from register x.
    LdDtReg { x: u8 },
    /// Fx18: load the sound timer from register x.
    LdStReg { x: u8 },
    /// Fx1E: add register x to the index register.
    AddIReg { x: u8 },
    /// Fx29: point the index register at the font glyph for register x.
    LdFont { x: u8 },
    /// Fx33: store the decimal digits of register x at the index address.
    StBcd { x: u8 },
    /// Fx55: block-store registers 0..=x at the index address.
    StRegs { x: u8 },
    /// Fx65: block-load registers 0..=x from the index address.
    LdRegs { x: u8 },
    /// Any unmapped word: a fatal condition when executed.
    Unknown,
}

/// What a 16-bit instruction word means.
pub open spec fn decode_spec(w: u16) -> Instr {
    let a = (w >> 12u16) & 0xF;
    let d = w & 0xF;
    let x = op_x(w);
    let y = op_y(w);
    let n = op_n(w);
    let nn = op_nn(w);
    let nnn = op_nnn(w);
    if w == 0x00E0 {
        Instr::Cls
    } else if w == 0x00EE {
        Instr::Ret
    } else if a == 0x1 {
        Instr::Jp { nnn }
    } else if a == 0x2 {
        Instr::Call { nnn }
    } else if a == 0x3 {
        Instr::SeNn { x, nn }
    } else if a == 0x4 {
        Instr::SneNn { x, nn }
    } else if a == 0x5 && d == 0x0 {
        Instr::SeReg { x, y }
    } else if a == 0x6 {
        Instr::LdNn { x, nn }
    } else if a == 0x7 {
        Instr::AddNn { x, nn }
    } else if a == 0x8 && d == 0x0 {
        Instr::LdReg { x, y }
    } else if a == 0x8 && d == 0x1 {
        Instr::OrReg { x, y }
    } else if a == 0x8 && d == 0x2 {
        Instr::AndReg { x, y }
    } else if a == 0x8 && d == 0x3 {
        Instr::XorReg { x, y }
    } else if a == 0x8 && d == 0x4 {
        Instr::AddReg { x, y }
    } else if a == 0x8 && d == 0x5 {
        Instr::SubReg { x, y }
    } else if a == 0x8 && d == 0x6 {
        Instr::ShrReg { x, y }
    } else if a == 0x8 && d == 0x7 {
        Instr::SubnReg { x, y }
    } else if a == 0x8 && d == 0xE {
        Instr::ShlReg { x, y }
    } else if a == 0x9 && d == 0x0 {
        Instr::SneReg { x, y }
    } else if a == 0xA {
        Instr::LdI { nnn }
    } else if a == 0xB {
        Instr::JpV0 { nnn }
    } else if a == 0xC {
        Instr::Rnd { x, nn }
    } else if a == 0xD {
        Instr::Drw { x, y, n }
    } else if a == 0xE && nn == 0x9E {
        Instr::Skp { x }
    } else if a == 0xE && nn == 0xA1 {
        Instr::Sknp { x }
    } else if a == 0xF && nn == 0x07 {
        Instr::LdRegDt { x }
    } else if a == 0xF && nn == 0x0A {
        Instr::WaitKey { x }
    } else if a == 0xF && nn == 0x15 {
        Instr::LdDtReg { x }
    } else if a == 0xF && nn == 0x18 {
        Instr::LdStReg { x }
    } else if a == 0xF && nn == 0x1E {
        Instr::AddIReg { x }
    } else if a == 0xF && nn == 0x29 {
        Instr::LdFont { x }
    } else if a == 0xF && nn == 0x33 {
        Instr::StBcd { x }
    } else if a == 0xF && nn == 0x55 {
        Instr::StRegs { x }
    } else if a == 0xF && nn == 0x65 {
        Instr::LdRegs { x }
    } else {
        Instr::Unknown
    }
}

/// The operand fields of a word are in their nominal ranges: register
/// indices and the height below 16, the address below 4096.
pub proof fn lemma_operand_bounds(w: u16)
    ensures
        op_x(w) < 16,
        op_y(w) < 16,
        op_n(w) < 16,
        op_nn(w) < 256,
        op_nnn(w) < 4096,
{
    assert(((w >> 8u16) & 0xF) < 16) by (bit_vector);
    assert(((w >> 4u16) & 0xF) < 16) by (bit_vector);
    assert((w & 0xF) < 16) by (bit_vector);
    assert((w & 0xFF) < 256) by (bit_vector);
    assert((w & 0xFFF) < 4096) by (bit_vector);
}

/// Split a word into its instruction.
pub fn decode(w: u16) -> (ins: Instr)
    ensures
        ins == decode_spec(w),
{
    let a: u16 = (w >> 12u16) & 0xF;
    let d: u16 = w & 0xF;
    let x: u8 = ((w >> 8u16) & 0xF) as u8;
    let y: u8 = ((w >> 4u16) & 0xF) as u8;
    let n: u8 = (w & 0xF) as u8;
    let nn: u8 = (w & 0xFF) as u8;
    let nnn: u16 = w & 0xFFF;
    if w == 0x00E0 {
        Instr::Cls
    } else if w == 0x00EE {
        Instr::Ret
    } else if a == 0x1 {
        Instr::Jp { nnn }
    } else if a == 0x2 {
        Instr::Call { nnn }
    } else if a == 0x3 {
        Instr::SeNn { x, nn }
    } else if a == 0x4 {
        Instr::SneNn { x, nn }
    } else if a == 0x5 && d == 0x0 {
        Instr::SeReg { x, y }
    } else if a == 0x6 {
        Instr::LdNn { x, nn }
    } else if a == 0x7 {
        Instr::AddNn { x, nn }
    } else if a == 0x8 && d == 0x0 {
        Instr::LdReg { x, y }
    } else if a == 0x8 && d == 0x1 {
        Instr::OrReg { x, y }
    } else if a == 0x8 && d == 0x2 {
        Instr::AndReg { x, y }
    } else if a == 0x8 && d == 0x3 {
        Instr::XorReg { x, y }
    } else if a == 0x8 && d == 0x4 {
        Instr::AddReg { x, y }
    } else if a == 0x8 && d == 0x5 {
        Instr::SubReg { x, y }
    } else if a == 0x8 && d == 0x6 {
        Instr::ShrReg { x, y }
    } else if a == 0x8 && d == 0x7 {
        Instr::SubnReg { x, y }
    } else if a == 0x8 && d == 0xE {
        Instr::ShlReg { x, y }
    } else if a == 0x9 && d == 0x0 {
        Instr::SneReg { x, y }
    } else if a == 0xA {
        Instr::LdI { nnn }
    } else if a == 0xB {
        Instr::JpV0 { nnn }
    } else if a == 0xC {
        Instr::Rnd { x, nn }
    } else if a == 0xD {
        Instr::Drw { x, y, n }
    } else if a == 0xE && nn == 0x9E {
        Instr::Skp { x }
    } else if a == 0xE && nn == 0xA1 {
        Instr::Sknp { x }
    } else if a == 0xF && nn == 0x07 {
        Instr::LdRegDt { x }
    } else if a == 0xF && nn == 0x0A {
        Instr::WaitKey { x }
    } else if a == 0xF && nn == 0x15 {
        Instr::LdDtReg { x }
    } else if a == 0xF && nn == 0x18 {
        Instr::LdStReg { x }
    } else if a == 0xF && nn == 0x1E {
        Instr::AddIReg { x }
    } else if a == 0xF && nn == 0x29 {
        Instr::LdFont { x }
    } else if a == 0xF && nn == 0x33 {
        Instr::StBcd { x }
    } else if a == 0xF && nn == 0x55 {
        Instr::StRegs { x }
    } else if a == 0xF && nn == 0x65 {
        Instr::LdRegs { x }
    } else {
        Instr::Unknown
    }
}

} // verus!
