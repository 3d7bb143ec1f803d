//! Machine state: memory, registers, program counter, call stack, timers
//! and the monochrome framebuffer, together with the operations that
//! create, load and reset a machine.
use vstd::prelude::*;

verus! {

/// The abstract value of a whole machine: every field of [`CPU`] as a
/// mathematical value. Contracts throughout the crate speak of this view.
#[verifier::ext_equal]
pub ghost struct CpuView {
    /// Program counter: address of the next instruction to fetch.
    pub pc: u16,
    /// The 4096 addressable memory bytes.
    pub mem: Seq<u8>,
    /// The sixteen 8-bit general registers; index 15 doubles as the flag.
    pub r: Seq<u8>,
    /// The 16-bit index register.
    pub i: u16,
    /// Stack pointer: number of return addresses on the stack.
    pub sp: u8,
    /// The sixteen 16-bit return-address slots.
    pub stack: Seq<u16>,
    /// Framebuffer cells, row-major: cell (y, x) is at index `y * 64 + x`.
    pub fb: Seq<u8>,
    /// Delay timer, counting down toward zero at the fixed rate.
    pub delay_timer: u8,
    /// Sound timer, counting down toward zero at the fixed rate.
    pub sound_timer: u8,
    /// Pause between instructions, in microseconds (pacing hint only).
    pub delay_between_instructions: u64,
    /// Pause between step-loop iterations, in microseconds (pacing hint only).
    pub delay_between_cycles: u64,
    /// When set, the next automatic program-counter advance is skipped.
    pub skip_next_cycle: bool,
    /// Set once a fatal condition has been reported; the machine then
    /// executes nothing further until a reset.
    pub halted: bool,
}

impl CpuView {
    /// The dimensions every machine view has: they hold of `cpu@` for any
    /// `cpu: CPU` because the fields are fixed-size arrays.
    pub open spec fn wf(self) -> bool {
        &&& self.mem.len() == 4096
        &&& self.r.len() == 16
        &&& self.stack.len() == 16
        &&& self.fb.len() == 2048
    }
}

/// The state a machine has when created: program counter at 0x200, all
/// memory, registers, stack and framebuffer cells zero, timers zero.
pub open spec fn initial_state() -> CpuView {
    CpuView {
        pc: 0x200,
        mem: Seq::new(4096, |j: int| 0u8),
        r: Seq::new(16, |j: int| 0u8),
        i: 0,
        sp: 0,
        stack: Seq::new(16, |j: int| 0u16),
        fb: Seq::new(2048, |j: int| 0u8),
        delay_timer: 0,
        sound_timer: 0,
        delay_between_instructions: 16600,
        delay_between_cycles: 2000,
        skip_next_cycle: false,
        halted: false,
    }
}

/// The font table: sixteen glyphs (hexadecimal digits 0 through F),
/// five bytes per glyph, eighty bytes in all.
pub open spec fn font() -> Seq<u8> {
    seq![
        0xF0u8, 0x90, 0x90, 0x90, 0xF0, // 0
        0x20, 0x60, 0x20, 0x20, 0x70, // 1
        0xF0, 0x10, 0xF0, 0x80, 0xF0, // 2
        0xF0, 0x10, 0xF0, 0x10, 0xF0, // 3
        0x90, 0x90, 0xF0, 0x10, 0x10, // 4
        0xF0, 0x80, 0xF0, 0x10, 0xF0, // 5
        0xF0, 0x80, 0xF0, 0x90, 0xF0, // 6
        0xF0, 0x10, 0x20, 0x40, 0x40, // 7
        0xF0, 0x90, 0xF0, 0x90, 0xF0, // 8
        0xF0, 0x90, 0xF0, 0x10, 0xF0, // 9
        0xF0, 0x90, 0xF0, 0x90, 0x90, // A
        0xE0, 0x90, 0xE0, 0x90, 0xE0, // B
        0xF0, 0x80, 0x80, 0x80, 0xF0, // C
        0xE0, 0x90, 0x90, 0x90, 0xE0, // D
        0xF0, 0x80, 0xF0, 0x80, 0xF0, // E
        0xF0, 0x80, 0xF0, 0x80, 0x80, // F
    ]
}

/// Memory after the font table has been copied to the first eighty bytes.
pub open spec fn fontset_effect(v: CpuView) -> CpuView {
    CpuView { mem: Seq::new(4096, |j: int| if 0 <= j < 80 { font()[j] } else { v.mem[j] }), ..v }
}

/// Memory after `bytes` has been copied in starting at address 512.
pub open spec fn load_effect(v: CpuView, bytes: Seq<u8>) -> CpuView {
    CpuView {
        mem: Seq::new(
            4096,
            |j: int| if 512 <= j < 512 + bytes.len() { bytes[j - 512] } else { v.mem[j] },
        ),
        ..v
    }
}

/// State after a reset: registers, stack, pointer, timers, framebuffer and
/// the halted flag return to their initial values; memory (program bytes
/// and font table) and the pacing delays stay as they were.
pub open spec fn reset_effect(v: CpuView) -> CpuView {
    CpuView {
        pc: 0x200,
        r: Seq::new(16, |j: int| 0u8),
        i: 0,
        sp: 0,
        stack: Seq::new(16, |j: int| 0u16),
        fb: Seq::new(2048, |j: int| 0u8),
        delay_timer: 0,
        sound_timer: 0,
        halted: false,
        ..v
    }
}

/// One tick of the fixed-rate clock: each timer that is nonzero goes down
/// by exactly one; a timer at zero stays at zero.
pub open spec fn tick_effect(v: CpuView) -> CpuView {
    CpuView {
        delay_timer: if v.delay_timer > 0 { (v.delay_timer - 1) as u8 } else { 0u8 },
        sound_timer: if v.sound_timer > 0 { (v.sound_timer - 1) as u8 } else { 0u8 },
        ..v
    }
}

/// The 16-bit big-endian word at address `a`: high byte at the lower
/// address.
pub open spec fn word_at(v: CpuView, a: int) -> u16
    recommends
        v.wf(),
        0 <= a,
        a + 1 < 4096,
{
    ((v.mem[a] as u16) << 8u16) | (v.mem[a + 1] as u16)
}

/// The 16-bit big-endian instruction word at `v.pc`: high byte at the
/// lower address.
pub open spec fn fetch(v: CpuView) -> u16
    recommends
        v.wf(),
        v.pc + 1 < 4096,
{
    word_at(v, v.pc as int)
}

/// The machine: a fixed memory space, sixteen general registers, a call
/// stack, two countdown timers and a 64 x 32 one-bit framebuffer.
pub struct CPU {
    pub pc: u16,
    pub memory: [u8; 4096],
    pub r: [u8; 16],
    pub i: u16,
    pub sp: u8,
    pub stack: [u16; 16],
    /// Row-major 64 x 32 grid: cell (y, x) is `display[y * 64 + x]`.
    pub display: [u8; 2048],
    pub delay_timer: u8,
    pub sound_timer: u8,
    /// Microseconds between instructions (pacing hint for the caller).
    pub delay_between_instructions: u64,
    /// Microseconds between step-loop iterations (pacing hint).
    pub delay_between_cycles: u64,
    pub skip_next_cycle: bool,
    pub halted: bool,
}

impl View for CPU {
    type V = CpuView;

    open spec fn view(&self) -> CpuView {
        CpuView {
            pc: self.pc,
            mem: self.memory@,
            r: self.r@,
            i: self.i,
            sp: self.sp,
            stack: self.stack@,
            fb: self.display@,
            delay_timer: self.delay_timer,
            sound_timer: self.sound_timer,
            delay_between_instructions: self.delay_between_instructions,
            delay_between_cycles: self.delay_between_cycles,
            skip_next_cycle: self.skip_next_cycle,
            halted: self.halted,
        }
    }
}

impl CPU {
    /// A fresh machine in its initial state.
    pub fn new() -> (cpu: CPU)
        ensures
            cpu@ == initial_state(),
    {
        let cpu = CPU {
            pc: 0x200,
            memory: [0u8; 4096],
            r: [0u8; 16],
            i: 0,
            sp: 0,
            stack: [0u16; 16],
            display: [0u8; 2048],
            delay_timer: 0,
            sound_timer: 0,
            delay_between_instructions: 16600,
            delay_between_cycles: 2000,
            skip_next_cycle: false,
            halted: false,
        };
        proof {
            assert(cpu@.mem =~= initial_state().mem);
            assert(cpu@.r =~= initial_state().r);
            assert(cpu@.stack =~= initial_state().stack);
            assert(cpu@.fb =~= initial_state().fb);
            assert(cpu@ =~= initial_state());
        }
        cpu
    }

    /// Copies the eighty font bytes into the reserved low region of memory.
    pub fn load_fondset(&mut self)
        ensures
            final(self)@ == fontset_effect(old(self)@),
    {
        let table = font_table();
        let mut num: usize = 0;
        while num < 80
            invariant
                num <= 80,
                table@ == font(),
                self.pc == old(self).pc,
                self.r == old(self).r,
                self.i == old(self).i,
                self.sp == old(self).sp,
                self.stack == old(self).stack,
                self.display == old(self).display,
                self.delay_timer == old(self).delay_timer,
                self.sound_timer == old(self).sound_timer,
                self.delay_between_instructions == old(self).delay_between_instructions,
                self.delay_between_cycles == old(self).delay_between_cycles,
                self.skip_next_cycle == old(self).skip_next_cycle,
                self.halted == old(self).halted,
                forall|j: int| 0 <= j < num ==> self.memory@[j] == font()[j],
                forall|j: int| num <= j < 4096 ==> self.memory@[j] == old(self).memory@[j],
            decreases 80 - num,
        {
            self.memory[num] = table[num];
            num = num + 1;
        }
        proof {
            assert(final(self)@.mem =~= fontset_effect(old(self)@).mem);
            assert(final(self)@ =~= fontset_effect(old(self)@));
        }
    }

    /// Copies a program into memory starting at address 512. Succeeds if
    /// and only if the program fits below the memory bound; on failure the
    /// machine is unchanged.
    pub fn load(&mut self, bytes: &Vec<u8>) -> (ok: bool)
        ensures
            ok <==> bytes@.len() <= 3584,
            ok ==> final(self)@ == load_effect(old(self)@, bytes@),
            !ok ==> final(self)@ == old(self)@,
    {
        if bytes.len() > 3584 {
            return false;
        }
        let mut num: usize = 0;
        while num < bytes.len()
            invariant
                num <= bytes@.len(),
                bytes@.len() <= 3584,
                self.pc == old(self).pc,
                self.r == old(self).r,
                self.i == old(self).i,
                self.sp == old(self).sp,
                self.stack == old(self).stack,
                self.display == old(self).display,
                self.delay_timer == old(self).delay_timer,
                self.sound_timer == old(self).sound_timer,
                self.delay_between_instructions == old(self).delay_between_instructions,
                self.delay_between_cycles == old(self).delay_between_cycles,
                self.skip_next_cycle == old(self).skip_next_cycle,
                self.halted == old(self).halted,
                forall|j: int| 512 <= j < 512 + num ==> self.memory@[j] == bytes@[j - 512],
                forall|j: int|
                    (0 <= j < 512 || 512 + num <= j < 4096) ==> self.memory@[j] == old(
                        self,
                    ).memory@[j],
            decreases bytes@.len() - num,
        {
            self.memory[512 + num] = bytes[num];
            num = num + 1;
        }
        proof {
            assert(final(self)@.mem =~= load_effect(old(self)@, bytes@).mem);
            assert(final(self)@ =~= load_effect(old(self)@, bytes@));
        }
        true
    }

    /// The big-endian instruction word at the current program counter.
    pub fn read_op_code(&mut self) -> (op: u16)
        requires
            old(self).pc + 1 < 4096,
        ensures
            final(self)@ == old(self)@,
            op == fetch(old(self)@),
    {
        let upper: u8 = self.memory[self.pc as usize];
        let lower: u8 = self.memory[self.pc as usize + 1];
        ((upper as u16) << 8u16) | (lower as u16)
    }

    /// Restores registers, stack, pointer, timers, framebuffer and the
    /// halted flag to their initial state; loaded program bytes, the font
    /// table and the pacing delays are untouched.
    pub fn reset_emu(&mut self)
        ensures
            final(self)@ == reset_effect(old(self)@),
    {
        self.pc = 0x200;
        self.r = [0u8; 16];
        self.i = 0;
        self.sp = 0;
        self.stack = [0u16; 16];
        self.display = [0u8; 2048];
        self.delay_timer = 0;
        self.sound_timer = 0;
        self.halted = false;
        proof {
            assert(final(self)@.r =~= reset_effect(old(self)@).r);
            assert(final(self)@.stack =~= reset_effect(old(self)@).stack);
            assert(final(self)@.fb =~= reset_effect(old(self)@).fb);
            assert(final(self)@ =~= reset_effect(old(self)@));
        }
    }

    /// Lengthens the pause between instructions by half a millisecond.
    pub fn faster(&mut self)
        requires
            old(self).delay_between_instructions + 500 <= u64::MAX,
        ensures
            final(self)@ == (CpuView {
                delay_between_instructions: (old(self).delay_between_instructions + 500) as u64,
                ..old(self)@
            }),
    {
        self.delay_between_instructions = self.delay_between_instructions + 500;
    }

    /// Shortens the pause between instructions by half a millisecond.
    pub fn slower(&mut self)
        requires
            old(self).delay_between_instructions >= 500,
        ensures
            final(self)@ == (CpuView {
                delay_between_instructions: (old(self).delay_between_instructions - 500) as u64,
                ..old(self)@
            }),
    {
        self.delay_between_instructions = self.delay_between_instructions - 500;
    }

    /// One tick of the fixed-rate clock: decrements each nonzero timer by
    /// exactly one and never drives a timer below zero.
    pub fn tick_timers(&mut self)
        ensures
            final(self)@ == tick_effect(old(self)@),
    {
        if self.delay_timer > 0 {
            self.delay_timer = self.delay_timer - 1;
        }
        if self.sound_timer > 0 {
            self.sound_timer = self.sound_timer - 1;
        }
    }

    /// Reads one framebuffer cell: 0 for off, 1 for on.
    pub fn pixel(&self, y: usize, x: usize) -> (p: u8)
        requires
            y < 32,
            x < 64,
        ensures
            p == self@.fb[y as int * 64 + x as int],
    {
        self.display[y * 64 + x]
    }

    /// Whether a fatal condition has halted the machine.
    pub fn is_halted(&self) -> (h: bool)
        ensures
            h == self@.halted,
    {
        self.halted
    }
}

/// The font table as a value: eighty bytes, five per glyph.
fn font_table() -> (table: Vec<u8>)
    ensures
        table@ == font(),
{
    let mut table: Vec<u8> = Vec::new();
    table.push(0xF0);
    table.push(0x90);
    table.push(0x90);
    table.push(0x90);
    table.push(0xF0);
    table.push(0x20);
    table.push(0x60);
    table.push(0x20);
    table.push(0x20);
    table.push(0x70);
    table.push(0xF0);
    table.push(0x10);
    table.push(0xF0);
    table.push(0x80);
    table.push(0xF0);
    table.push(0xF0);
    table.push(0x10);
    table.push(0xF0);
    table.push(0x10);
    table.push(0xF0);
    table.push(0x90);
    table.push(0x90);
    table.push(0xF0);
    table.push(0x10);
    table.push(0x10);
    table.push(0xF0);
    table.push(0x80);
    table.push(0xF0);
    table.push(0x10);
    table.push(0xF0);
    table.push(0xF0);
    table.push(0x80);
    table.push(0xF0);
    table.push(0x90);
    table.push(0xF0);
    table.push(0xF0);
    table.push(0x10);
    table.push(0x20);
    table.push(0x40);
    table.push(0x40);
    table.push(0xF0);
    table.push(0x90);
    table.push(0xF0);
    table.push(0x90);
    table.push(0xF0);
    table.push(0xF0);
    table.push(0x90);
    table.push(0xF0);
    table.push(0x10);
    table.push(0xF0);
    table.push(0xF0);
    table.push(0x90);
    table.push(0xF0);
    table.push(0x90);
    table.push(0x90);
    table.push(0xE0);
    table.push(0x90);
    table.push(0xE0);
    table.push(0x90);
    table.push(0xE0);
    table.push(0xF0);
    table.push(0x80);
    table.push(0x80);
    table.push(0x80);
    table.push(0xF0);
    table.push(0xE0);
    table.push(0x90);
    table.push(0x90);
    table.push(0x90);
    table.push(0xE0);
    table.push(0xF0);
    table.push(0x80);
    table.push(0xF0);
    table.push(0x80);
    table.push(0xF0);
    table.push(0xF0);
    table.push(0x80);
    table.push(0xF0);
    table.push(0x80);
    table.push(0x80);
    proof {
        assert(table@ =~= font());
    }
    table
}

} // verus!
