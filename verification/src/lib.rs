//! A verified interpreter core for the CHIP-8 instruction set: the machine
//! state, the exact semantics of every opcode, the fetch/decode/dispatch
//! step, and the fixed-rate timer protocol.
//!
//! Rendering, keyboard devices and program files are external
//! collaborators: the core exposes a framebuffer to read, consumes a
//! key-state snapshot, and loads raw bytes.
pub mod cpu;
pub mod decode;
pub mod draw;
pub mod laws;
pub mod ops;
pub mod step;

pub use cpu::CPU;
pub use cpu::CpuView;
