//! The executors, one per instruction-set extension.
pub mod alu;
pub mod priv_instr;
pub mod rv32f;
pub mod rv32i;
pub mod rv32m;
pub mod zicsr;
