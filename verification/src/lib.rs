//! A functional, instruction-accurate simulator of a 32-bit RISC-V hart.
//!
//! * [`isa`]: instruction words, the decoded instruction record, the
//!   per-extension instruction tables and the decoder registry.
//! * [`memory`]: the little-endian, byte-addressable memory region.
//! * [`cpu`]: architectural state, the trap unit, the executors and the step
//!   loop.
//! * [`sim_env`]: the environment that binds a core to a memory and speaks the
//!   host-target mailbox protocol.
pub mod cpu;
pub mod isa;
pub mod memory;
pub mod sim_env;
pub mod text;
