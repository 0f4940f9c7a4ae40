//! The base integer instruction set.
use super::fields::{
    OP_AUIPC, OP_BRANCH, OP_IMM, OP_JAL, OP_JALR, OP_LOAD, OP_LUI, OP_MISC_MEM, OP_REG, OP_STORE,
    OP_SYSTEM,
};
use super::instr_def::{
    i_match, r_match, shift_match, spec_i_match, spec_r_match, spec_shift_match, InstrDef,
    InstrKind, TableDrivenDecoder, B_TYPE_MASK, EXACT_MASK, I_TYPE_MASK, J_TYPE_MASK, R_TYPE_MASK,
    SHIFT_IMM_MASK, S_TYPE_MASK, U_TYPE_MASK,
};
use super::classes::base_class;
use vstd::prelude::*;

verus! {

/// The instruction table of the extension, in lookup order.
pub open spec fn rv32i_table() -> Seq<InstrDef> {
    seq![
        InstrDef { name: "LUI", mask: U_TYPE_MASK, match_val: OP_LUI, kind: InstrKind::Lui },
        InstrDef { name: "AUIPC", mask: U_TYPE_MASK, match_val: OP_AUIPC, kind: InstrKind::Auipc },
        InstrDef { name: "JAL", mask: J_TYPE_MASK, match_val: OP_JAL, kind: InstrKind::Jal },
        InstrDef { name: "JALR", mask: I_TYPE_MASK, match_val: spec_i_match(0b000, OP_JALR), kind: InstrKind::Jalr },
        InstrDef { name: "BEQ", mask: B_TYPE_MASK, match_val: spec_i_match(0b000, OP_BRANCH), kind: InstrKind::Beq },
        InstrDef { name: "BNE", mask: B_TYPE_MASK, match_val: spec_i_match(0b001, OP_BRANCH), kind: InstrKind::Bne },
        InstrDef { name: "BLT", mask: B_TYPE_MASK, match_val: spec_i_match(0b100, OP_BRANCH), kind: InstrKind::Blt },
        InstrDef { name: "BGE", mask: B_TYPE_MASK, match_val: spec_i_match(0b101, OP_BRANCH), kind: InstrKind::Bge },
        InstrDef { name: "BLTU", mask: B_TYPE_MASK, match_val: spec_i_match(0b110, OP_BRANCH), kind: InstrKind::Bltu },
        InstrDef { name: "BGEU", mask: B_TYPE_MASK, match_val: spec_i_match(0b111, OP_BRANCH), kind: InstrKind::Bgeu },
        InstrDef { name: "LB", mask: I_TYPE_MASK, match_val: spec_i_match(0b000, OP_LOAD), kind: InstrKind::Lb },
        InstrDef { name: "LH", mask: I_TYPE_MASK, match_val: spec_i_match(0b001, OP_LOAD), kind: InstrKind::Lh },
        InstrDef { name: "LW", mask: I_TYPE_MASK, match_val: spec_i_match(0b010, OP_LOAD), kind: InstrKind::Lw },
        InstrDef { name: "LBU", mask: I_TYPE_MASK, match_val: spec_i_match(0b100, OP_LOAD), kind: InstrKind::Lbu },
        InstrDef { name: "LHU", mask: I_TYPE_MASK, match_val: spec_i_match(0b101, OP_LOAD), kind: InstrKind::Lhu },
        InstrDef { name: "SB", mask: S_TYPE_MASK, match_val: spec_i_match(0b000, OP_STORE), kind: InstrKind::Sb },
        InstrDef { name: "SH", mask: S_TYPE_MASK, match_val: spec_i_match(0b001, OP_STORE), kind: InstrKind::Sh },
        InstrDef { name: "SW", mask: S_TYPE_MASK, match_val: spec_i_match(0b010, OP_STORE), kind: InstrKind::Sw },
        InstrDef { name: "ADDI", mask: I_TYPE_MASK, match_val: spec_i_match(0b000, OP_IMM), kind: InstrKind::Addi },
        InstrDef { name: "SLTI", mask: I_TYPE_MASK, match_val: spec_i_match(0b010, OP_IMM), kind: InstrKind::Slti },
        InstrDef { name: "SLTIU", mask: I_TYPE_MASK, match_val: spec_i_match(0b011, OP_IMM), kind: InstrKind::Sltiu },
        InstrDef { name: "XORI", mask: I_TYPE_MASK, match_val: spec_i_match(0b100, OP_IMM), kind: InstrKind::Xori },
        InstrDef { name: "ORI", mask: I_TYPE_MASK, match_val: spec_i_match(0b110, OP_IMM), kind: InstrKind::Ori },
        InstrDef { name: "ANDI", mask: I_TYPE_MASK, match_val: spec_i_match(0b111, OP_IMM), kind: InstrKind::Andi },
        InstrDef { name: "SLLI", mask: SHIFT_IMM_MASK, match_val: spec_shift_match(0b000000, 0b001, OP_IMM), kind: InstrKind::Slli },
        InstrDef { name: "SRLI", mask: SHIFT_IMM_MASK, match_val: spec_shift_match(0b000000, 0b101, OP_IMM), kind: InstrKind::Srli },
        InstrDef { name: "SRAI", mask: SHIFT_IMM_MASK, match_val: spec_shift_match(0b010000, 0b101, OP_IMM), kind: InstrKind::Srai },
        InstrDef { name: "ADD", mask: R_TYPE_MASK, match_val: spec_r_match(0b0000000, 0b000, OP_REG), kind: InstrKind::Add },
        InstrDef { name: "SUB", mask: R_TYPE_MASK, match_val: spec_r_match(0b0100000, 0b000, OP_REG), kind: InstrKind::Sub },
        InstrDef { name: "SLL", mask: R_TYPE_MASK, match_val: spec_r_match(0b0000000, 0b001, OP_REG), kind: InstrKind::Sll },
        InstrDef { name: "SLT", mask: R_TYPE_MASK, match_val: spec_r_match(0b0000000, 0b010, OP_REG), kind: InstrKind::Slt },
        InstrDef { name: "SLTU", mask: R_TYPE_MASK, match_val: spec_r_match(0b0000000, 0b011, OP_REG), kind: InstrKind::Sltu },
        InstrDef { name: "XOR", mask: R_TYPE_MASK, match_val: spec_r_match(0b0000000, 0b100, OP_REG), kind: InstrKind::Xor },
        InstrDef { name: "SRL", mask: R_TYPE_MASK, match_val: spec_r_match(0b0000000, 0b101, OP_REG), kind: InstrKind::Srl },
        InstrDef { name: "SRA", mask: R_TYPE_MASK, match_val: spec_r_match(0b0100000, 0b101, OP_REG), kind: InstrKind::Sra },
        InstrDef { name: "OR", mask: R_TYPE_MASK, match_val: spec_r_match(0b0000000, 0b110, OP_REG), kind: InstrKind::Or },
        InstrDef { name: "AND", mask: R_TYPE_MASK, match_val: spec_r_match(0b0000000, 0b111, OP_REG), kind: InstrKind::And },
        InstrDef { name: "FENCE", mask: I_TYPE_MASK, match_val: spec_i_match(0b000, OP_MISC_MEM), kind: InstrKind::Fence },
        InstrDef { name: "FENCE.I", mask: I_TYPE_MASK, match_val: spec_i_match(0b001, OP_MISC_MEM), kind: InstrKind::FenceI },
        InstrDef { name: "ECALL", mask: EXACT_MASK, match_val: 0x00000073, kind: InstrKind::Ecall },
        InstrDef { name: "EBREAK", mask: EXACT_MASK, match_val: 0x00100073, kind: InstrKind::Ebreak },
    ]
}

/// The primary opcodes of the extension.
pub open spec fn rv32i_opcodes_spec() -> Seq<u32> {
    seq![OP_LUI, OP_AUIPC, OP_JAL, OP_JALR, OP_BRANCH, OP_LOAD, OP_STORE, OP_MISC_MEM, OP_IMM, OP_REG, OP_SYSTEM]
}

/// Whether `d` is the decoder of this extension.
pub open spec fn is_rv32i_decoder(d: TableDrivenDecoder) -> bool {
    &&& d.label()@ == "RV32I"@
    &&& d.table() == rv32i_table()
    &&& d.opcode_list() == Some(rv32i_opcodes_spec())
    &&& d.overlap_allowed() == true
}

/// Builds the instruction table.
pub fn rv32i_instrs() -> (r: Vec<InstrDef>)
    ensures
        r@ == rv32i_table(),
{
    let table = vec![
        InstrDef::new("LUI", U_TYPE_MASK, OP_LUI, InstrKind::Lui),
        InstrDef::new("AUIPC", U_TYPE_MASK, OP_AUIPC, InstrKind::Auipc),
        InstrDef::new("JAL", J_TYPE_MASK, OP_JAL, InstrKind::Jal),
        InstrDef::new("JALR", I_TYPE_MASK, i_match(0b000, OP_JALR), InstrKind::Jalr),
        InstrDef::new("BEQ", B_TYPE_MASK, i_match(0b000, OP_BRANCH), InstrKind::Beq),
        InstrDef::new("BNE", B_TYPE_MASK, i_match(0b001, OP_BRANCH), InstrKind::Bne),
        InstrDef::new("BLT", B_TYPE_MASK, i_match(0b100, OP_BRANCH), InstrKind::Blt),
        InstrDef::new("BGE", B_TYPE_MASK, i_match(0b101, OP_BRANCH), InstrKind::Bge),
        InstrDef::new("BLTU", B_TYPE_MASK, i_match(0b110, OP_BRANCH), InstrKind::Bltu),
        InstrDef::new("BGEU", B_TYPE_MASK, i_match(0b111, OP_BRANCH), InstrKind::Bgeu),
        InstrDef::new("LB", I_TYPE_MASK, i_match(0b000, OP_LOAD), InstrKind::Lb),
        InstrDef::new("LH", I_TYPE_MASK, i_match(0b001, OP_LOAD), InstrKind::Lh),
        InstrDef::new("LW", I_TYPE_MASK, i_match(0b010, OP_LOAD), InstrKind::Lw),
        InstrDef::new("LBU", I_TYPE_MASK, i_match(0b100, OP_LOAD), InstrKind::Lbu),
        InstrDef::new("LHU", I_TYPE_MASK, i_match(0b101, OP_LOAD), InstrKind::Lhu),
        InstrDef::new("SB", S_TYPE_MASK, i_match(0b000, OP_STORE), InstrKind::Sb),
        InstrDef::new("SH", S_TYPE_MASK, i_match(0b001, OP_STORE), InstrKind::Sh),
        InstrDef::new("SW", S_TYPE_MASK, i_match(0b010, OP_STORE), InstrKind::Sw),
        InstrDef::new("ADDI", I_TYPE_MASK, i_match(0b000, OP_IMM), InstrKind::Addi),
        InstrDef::new("SLTI", I_TYPE_MASK, i_match(0b010, OP_IMM), InstrKind::Slti),
        InstrDef::new("SLTIU", I_TYPE_MASK, i_match(0b011, OP_IMM), InstrKind::Sltiu),
        InstrDef::new("XORI", I_TYPE_MASK, i_match(0b100, OP_IMM), InstrKind::Xori),
        InstrDef::new("ORI", I_TYPE_MASK, i_match(0b110, OP_IMM), InstrKind::Ori),
        InstrDef::new("ANDI", I_TYPE_MASK, i_match(0b111, OP_IMM), InstrKind::Andi),
        InstrDef::new("SLLI", SHIFT_IMM_MASK, shift_match(0b000000, 0b001, OP_IMM), InstrKind::Slli),
        InstrDef::new("SRLI", SHIFT_IMM_MASK, shift_match(0b000000, 0b101, OP_IMM), InstrKind::Srli),
        InstrDef::new("SRAI", SHIFT_IMM_MASK, shift_match(0b010000, 0b101, OP_IMM), InstrKind::Srai),
        InstrDef::new("ADD", R_TYPE_MASK, r_match(0b0000000, 0b000, OP_REG), InstrKind::Add),
        InstrDef::new("SUB", R_TYPE_MASK, r_match(0b0100000, 0b000, OP_REG), InstrKind::Sub),
        InstrDef::new("SLL", R_TYPE_MASK, r_match(0b0000000, 0b001, OP_REG), InstrKind::Sll),
        InstrDef::new("SLT", R_TYPE_MASK, r_match(0b0000000, 0b010, OP_REG), InstrKind::Slt),
        InstrDef::new("SLTU", R_TYPE_MASK, r_match(0b0000000, 0b011, OP_REG), InstrKind::Sltu),
        InstrDef::new("XOR", R_TYPE_MASK, r_match(0b0000000, 0b100, OP_REG), InstrKind::Xor),
        InstrDef::new("SRL", R_TYPE_MASK, r_match(0b0000000, 0b101, OP_REG), InstrKind::Srl),
        InstrDef::new("SRA", R_TYPE_MASK, r_match(0b0100000, 0b101, OP_REG), InstrKind::Sra),
        InstrDef::new("OR", R_TYPE_MASK, r_match(0b0000000, 0b110, OP_REG), InstrKind::Or),
        InstrDef::new("AND", R_TYPE_MASK, r_match(0b0000000, 0b111, OP_REG), InstrKind::And),
        InstrDef::new("FENCE", I_TYPE_MASK, i_match(0b000, OP_MISC_MEM), InstrKind::Fence),
        InstrDef::new("FENCE.I", I_TYPE_MASK, i_match(0b001, OP_MISC_MEM), InstrKind::FenceI),
        InstrDef::new("ECALL", EXACT_MASK, 0x00000073, InstrKind::Ecall),
        InstrDef::new("EBREAK", EXACT_MASK, 0x00100073, InstrKind::Ebreak),
    ];
    assert(table@ =~= rv32i_table());
    table
}

/// Lists the primary opcodes of the extension.
pub fn rv32i_opcodes() -> (r: Vec<u32>)
    ensures
        r@ == rv32i_opcodes_spec(),
{
    let ops = vec![OP_LUI, OP_AUIPC, OP_JAL, OP_JALR, OP_BRANCH, OP_LOAD, OP_STORE, OP_MISC_MEM, OP_IMM, OP_REG, OP_SYSTEM];
    assert(ops@ =~= rv32i_opcodes_spec());
    ops
}

/// Builds the decoder of the extension.
pub fn rv32i_decoder() -> (r: TableDrivenDecoder)
    ensures
        is_rv32i_decoder(r),
{
    TableDrivenDecoder::new("RV32I", rv32i_instrs(), Some(rv32i_opcodes()), true)
}

/// Every row of the table lies in the encoding class of the extension.
proof fn lemma_rows()
    by (bit_vector)
    ensures
        base_class(U_TYPE_MASK, OP_LUI),
        base_class(U_TYPE_MASK, OP_AUIPC),
        base_class(J_TYPE_MASK, OP_JAL),
        base_class(I_TYPE_MASK, spec_i_match(0b000, OP_JALR)),
        base_class(B_TYPE_MASK, spec_i_match(0b000, OP_BRANCH)),
        base_class(B_TYPE_MASK, spec_i_match(0b001, OP_BRANCH)),
        base_class(B_TYPE_MASK, spec_i_match(0b100, OP_BRANCH)),
        base_class(B_TYPE_MASK, spec_i_match(0b101, OP_BRANCH)),
        base_class(B_TYPE_MASK, spec_i_match(0b110, OP_BRANCH)),
        base_class(B_TYPE_MASK, spec_i_match(0b111, OP_BRANCH)),
        base_class(I_TYPE_MASK, spec_i_match(0b000, OP_LOAD)),
        base_class(I_TYPE_MASK, spec_i_match(0b001, OP_LOAD)),
        base_class(I_TYPE_MASK, spec_i_match(0b010, OP_LOAD)),
        base_class(I_TYPE_MASK, spec_i_match(0b100, OP_LOAD)),
        base_class(I_TYPE_MASK, spec_i_match(0b101, OP_LOAD)),
        base_class(S_TYPE_MASK, spec_i_match(0b000, OP_STORE)),
        base_class(S_TYPE_MASK, spec_i_match(0b001, OP_STORE)),
        base_class(S_TYPE_MASK, spec_i_match(0b010, OP_STORE)),
        base_class(I_TYPE_MASK, spec_i_match(0b000, OP_IMM)),
        base_class(I_TYPE_MASK, spec_i_match(0b010, OP_IMM)),
        base_class(I_TYPE_MASK, spec_i_match(0b011, OP_IMM)),
        base_class(I_TYPE_MASK, spec_i_match(0b100, OP_IMM)),
        base_class(I_TYPE_MASK, spec_i_match(0b110, OP_IMM)),
        base_class(I_TYPE_MASK, spec_i_match(0b111, OP_IMM)),
        base_class(SHIFT_IMM_MASK, spec_shift_match(0b000000, 0b001, OP_IMM)),
        base_class(SHIFT_IMM_MASK, spec_shift_match(0b000000, 0b101, OP_IMM)),
        base_class(SHIFT_IMM_MASK, spec_shift_match(0b010000, 0b101, OP_IMM)),
        base_class(R_TYPE_MASK, spec_r_match(0b0000000, 0b000, OP_REG)),
        base_class(R_TYPE_MASK, spec_r_match(0b0100000, 0b000, OP_REG)),
        base_class(R_TYPE_MASK, spec_r_match(0b0000000, 0b001, OP_REG)),
        base_class(R_TYPE_MASK, spec_r_match(0b0000000, 0b010, OP_REG)),
        base_class(R_TYPE_MASK, spec_r_match(0b0000000, 0b011, OP_REG)),
        base_class(R_TYPE_MASK, spec_r_match(0b0000000, 0b100, OP_REG)),
        base_class(R_TYPE_MASK, spec_r_match(0b0000000, 0b101, OP_REG)),
        base_class(R_TYPE_MASK, spec_r_match(0b0100000, 0b101, OP_REG)),
        base_class(R_TYPE_MASK, spec_r_match(0b0000000, 0b110, OP_REG)),
        base_class(R_TYPE_MASK, spec_r_match(0b0000000, 0b111, OP_REG)),
        base_class(I_TYPE_MASK, spec_i_match(0b000, OP_MISC_MEM)),
        base_class(I_TYPE_MASK, spec_i_match(0b001, OP_MISC_MEM)),
        base_class(EXACT_MASK, 0x00000073),
        base_class(EXACT_MASK, 0x00100073),
{
}

/// Every entry of the table lies in the encoding class of the extension.
pub proof fn lemma_table_class()
    ensures
        forall|i: int|
            0 <= i < rv32i_table().len() ==> base_class(
                (#[trigger] rv32i_table()[i]).mask,
                rv32i_table()[i].match_val,
            ),
{
    lemma_rows();
}

/// The decoder of the extension is well formed: its entries are, and each
/// lies under one of the decoder's opcodes.
pub proof fn lemma_decoder_wf(d: TableDrivenDecoder)
    requires
        is_rv32i_decoder(d),
    ensures
        d.wf(),
{
    lemma_table_class();
    let ops = rv32i_opcodes_spec();
    assert forall|i: int| 0 <= i < d.table().len() implies {
        &&& (#[trigger] d.table()[i]).wf()
        &&& d.table()[i].mask & 0x7F == 0x7F
        &&& ops.contains(d.table()[i].match_val & 0x7F)
    } by {
        let op = d.table()[i].match_val & 0x7F;
        if op == OP_LUI {
            assert(ops[0] == op);
        } else if op == OP_AUIPC {
            assert(ops[1] == op);
        } else if op == OP_JAL {
            assert(ops[2] == op);
        } else if op == OP_JALR {
            assert(ops[3] == op);
        } else if op == OP_BRANCH {
            assert(ops[4] == op);
        } else if op == OP_LOAD {
            assert(ops[5] == op);
        } else if op == OP_STORE {
            assert(ops[6] == op);
        } else if op == OP_MISC_MEM {
            assert(ops[7] == op);
        } else if op == OP_IMM {
            assert(ops[8] == op);
        } else if op == OP_REG {
            assert(ops[9] == op);
        } else {
            assert(ops[10] == op);
        }
    }
}

} // verus!
