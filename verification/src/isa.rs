//! Instruction encoding: field extraction, the decoded record, instruction
//! tables and the registry that decodes a word.
pub mod classes;
pub mod config;
pub mod decoder;
pub mod fields;
pub mod instr;
pub mod instr_def;
pub mod laws;
pub mod priv_instr;
pub mod rv32f;
pub mod rv32i;
pub mod rv32m;
pub mod zicsr;

pub use config::{
    conflicts_of, BuildError, ConflictInfo, InstrSignature, IsaConfig, IsaExtension,
};
pub use decoder::{DecoderRegistry, InstrDecoder, RegisterError};
pub use fields::{
    csr_addr, csr_zimm, funct3, funct7, imm_b, imm_i, imm_j, imm_s, imm_u, opcode, rd, rs1, rs2,
    shamt, OP_AUIPC, OP_BRANCH, OP_CUSTOM_0, OP_CUSTOM_1, OP_CUSTOM_2, OP_CUSTOM_3, OP_IMM, OP_JAL,
    OP_JALR, OP_LOAD, OP_LUI, OP_MISC_MEM, OP_REG, OP_STORE, OP_SYSTEM,
};
pub use instr::{CustomFields, DecodedInstr, RvInstr};
pub use instr_def::{InstrDef, InstrKind, TableDrivenDecoder};
pub use priv_instr::{
    priv_decoder, priv_instrs, priv_opcodes, MRET_ENCODING, SRET_ENCODING, WFI_ENCODING,
};
pub use rv32f::{rv32f_decoder, rv32f_instrs, rv32f_opcodes, RoundingMode};
pub use rv32i::{rv32i_decoder, rv32i_instrs, rv32i_opcodes};
pub use rv32m::{rv32m_decoder, rv32m_instrs, rv32m_opcodes};
pub use zicsr::{zicsr_decoder, zicsr_instrs, zicsr_opcodes};

use vstd::prelude::*;

verus! {

/// Decodes `raw` with the base integer instruction set alone.
pub fn decode(raw: u32) -> (r: DecodedInstr)
    ensures
        r == match instr_def::table_decode(rv32i::rv32i_table(), raw) {
            Some(decoded) => decoded,
            None => DecodedInstr { raw, instr: RvInstr::Illegal { raw } },
        },
        r.instr.wf(),
{
    match rv32i::rv32i_decoder().decode(raw) {
        Some(decoded) => decoded,
        None => DecodedInstr { raw, instr: RvInstr::Illegal { raw } },
    }
}

} // verus!
